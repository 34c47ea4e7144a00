//! What takes part in combat: health and the kinds of contact.
use vstd::prelude::*;

verus! {

/// The health of an actor, and how long it stays stunned or cannot be hurt.
#[derive(Clone, Copy, Debug, PartialEq, Eq, Structural)]
pub struct Health {
    pub max_health: i32,
    pub current_health: i32,
    pub hit_stun: u32,
    pub invulnerability: u32,
}

impl Default for Health {
    fn default() -> (health: Health)
        ensures
            health == (Health {
                max_health: 0,
                current_health: 0,
                hit_stun: 0,
                invulnerability: 0,
            }),
    {
        Health { max_health: 0, current_health: 0, hit_stun: 0, invulnerability: 0 }
    }
}

impl Health {
    /// Full health, neither stunned nor invulnerable.
    pub fn new(max_health: i32) -> (health: Health)
        ensures
            health == (Health {
                max_health,
                current_health: max_health,
                hit_stun: 0,
                invulnerability: 0,
            }),
    {
        Health { max_health, current_health: max_health, hit_stun: 0, invulnerability: 0 }
    }

    /// Whether the health can be lowered by `damage` without leaving the range of its type.
    pub open spec fn can_take(self, damage: i32) -> bool {
        i32::MIN <= self.current_health - damage <= i32::MAX
    }

    /// Whether the health can be lowered by `damage` without leaving the range of its type.
    pub fn takes(&self, damage: i32) -> (fits: bool)
        ensures
            fits == self.can_take(damage),
    {
        let after: i64 = self.current_health as i64 - damage as i64;
        after >= i32::MIN as i64 && after <= i32::MAX as i64
    }

    /// Lowers the health by `damage`.
    pub fn damage(&mut self, damage: i32)
        requires
            old(self).can_take(damage),
        ensures
            *final(self) == (Health {
                current_health: (old(self).current_health - damage) as i32,
                ..*old(self)
            }),
    {
        self.current_health = self.current_health - damage;
    }
}

/// What a collider stands for when it touches another.
#[derive(Clone, Copy, Debug, PartialEq, Eq, Structural)]
pub enum ContactType {
    /// The player's body.
    Player,
    /// A minion's body, with the damage that it deals.
    Minion(i32),
    /// A minion's shot, with the damage that it deals.
    MinionProjectile(i32),
    /// Something that neither hurts nor can be hurt.
    Inactive,
}

impl Default for ContactType {
    fn default() -> (contact: ContactType)
        ensures
            contact == ContactType::Inactive,
    {
        ContactType::Inactive
    }
}

} // verus!
