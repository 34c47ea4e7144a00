//! The hitboxes of a sprite sheet: for each sprite, the boxes in which it
//! hits or blocks.
use crate::geometry::{half, halved, Offset, Vec2};
use vstd::prelude::*;

verus! {

/// What a hitbox is for.
#[derive(Clone, Copy, Debug, PartialEq, Eq, Structural)]
pub enum HitboxType {
    Hit,
    Block,
    User(u8),
}

/// A box on a sprite, from its least corner to its greatest. On the sprite
/// the height counts downwards.
#[derive(Clone, Copy, Debug, PartialEq, Eq, Structural)]
pub struct Hitbox {
    pub hitbox_type: HitboxType,
    pub min: Vec2,
    pub max: Vec2,
}

impl Hitbox {
    /// The centre of the box in the world, where the height counts upwards.
    pub open spec fn center(self) -> Offset {
        Offset {
            x: halved(self.min.x + self.max.x) as i64,
            y: halved(-self.min.y - self.max.y) as i64,
        }
    }

    /// The box mirrored at the upright axis.
    pub open spec fn flipped(self) -> Hitbox {
        Hitbox {
            hitbox_type: self.hitbox_type,
            min: Vec2 { x: (-self.max.x) as i32, y: self.min.y },
            max: Vec2 { x: (-self.min.x) as i32, y: self.max.y },
        }
    }

    /// Whether the mirrored box has corners that fit their type.
    pub open spec fn can_flip(self) -> bool {
        self.min.x > i32::MIN && self.max.x > i32::MIN
    }

    /// Whether the mirrored box has corners that fit their type.
    pub fn is_flippable(&self) -> (flippable: bool)
        ensures
            flippable == self.can_flip(),
    {
        self.min.x > i32::MIN && self.max.x > i32::MIN
    }

    /// The centre of the box in the world.
    pub fn get_center(&self) -> (center: Offset)
        ensures
            center == self.center(),
    {
        Offset {
            x: half(self.min.x as i64 + self.max.x as i64),
            y: half(-(self.min.y as i64) - self.max.y as i64),
        }
    }

    /// Half the width of the box.
    pub fn get_half_x(&self) -> (half_x: i64)
        ensures
            half_x == halved(self.max.x - self.min.x),
    {
        half(self.max.x as i64 - self.min.x as i64)
    }

    /// Half the height of the box.
    pub fn get_half_y(&self) -> (half_y: i64)
        ensures
            half_y == halved(self.max.y - self.min.y),
    {
        half(self.max.y as i64 - self.min.y as i64)
    }

    /// Mirrors the box at the upright axis.
    pub fn flip_x(&mut self)
        requires
            old(self).can_flip(),
        ensures
            *final(self) == old(self).flipped(),
    {
        let min = Vec2 { x: -self.max.x, y: self.min.y };
        let max = Vec2 { x: -self.min.x, y: self.max.y };
        self.min = min;
        self.max = max;
    }
}

/// The hitboxes of a sprite sheet, sprite by sprite.
#[derive(Debug, PartialEq, Eq)]
pub struct SpriteSheetHitboxes {
    pub hitboxes: Vec<Vec<Hitbox>>,
}

impl Clone for SpriteSheetHitboxes {
    fn clone(&self) -> (copy: SpriteSheetHitboxes)
        ensures
            copy.boxes() == self.boxes(),
    {
        let mut hitboxes: Vec<Vec<Hitbox>> = Vec::new();
        let mut i: usize = 0;
        while i < self.hitboxes.len()
            invariant
                i <= self.hitboxes.len(),
                hitboxes@.len() == i,
                forall|j: int| 0 <= j < i ==> #[trigger] hitboxes@[j]@ == self.hitboxes@[j]@,
            decreases self.hitboxes.len() - i,
        {
            let row = self.hitboxes[i].clone();
            assert(row@ =~= self.hitboxes@[i as int]@);
            hitboxes.push(row);
            i = i + 1;
        }
        let copy = SpriteSheetHitboxes { hitboxes };
        assert(copy.boxes() =~= self.boxes());
        copy
    }
}

impl Default for SpriteSheetHitboxes {
    fn default() -> (sheet: SpriteSheetHitboxes)
        ensures
            sheet.boxes() == Seq::<Seq<Hitbox>>::empty(),
    {
        let sheet = SpriteSheetHitboxes { hitboxes: Vec::new() };
        assert(sheet.boxes() =~= Seq::<Seq<Hitbox>>::empty());
        sheet
    }
}

impl SpriteSheetHitboxes {
    /// The hitboxes of each sprite.
    pub open spec fn boxes(self) -> Seq<Seq<Hitbox>> {
        Seq::new(self.hitboxes@.len(), |i: int| self.hitboxes@[i]@)
    }

    /// A sheet of `textures` sprites, none of which has a hitbox yet.
    pub fn from_texture_atlas(textures: usize) -> (sheet: SpriteSheetHitboxes)
        ensures
            sheet.boxes() == Seq::new(textures as nat, |i: int| Seq::<Hitbox>::empty()),
    {
        let mut hitboxes: Vec<Vec<Hitbox>> = Vec::new();
        let mut i: usize = 0;
        while i < textures
            invariant
                i <= textures,
                hitboxes@.len() == i,
                forall|j: int| 0 <= j < i ==> #[trigger] hitboxes@[j]@ == Seq::<Hitbox>::empty(),
            decreases textures - i,
        {
            hitboxes.push(Vec::new());
            i = i + 1;
        }
        let sheet = SpriteSheetHitboxes { hitboxes };
        assert(sheet.boxes() =~= Seq::new(textures as nat, |i: int| Seq::<Hitbox>::empty()));
        sheet
    }

    /// Whether the sheet has a place for each of `textures` sprites, and no more.
    pub fn is_for(&self, textures: usize) -> (fits: bool)
        ensures
            fits == (textures == self.boxes().len()),
    {
        textures == self.hitboxes.len()
    }

    /// Adds a hitbox to sprite `idx`. A sheet without that sprite stays as it is.
    pub fn add_hitbox(&mut self, idx: usize, hitbox: Hitbox)
        ensures
            final(self).boxes() == if idx < old(self).boxes().len() {
                old(self).boxes().update(idx as int, old(self).boxes()[idx as int].push(hitbox))
            } else {
                old(self).boxes()
            },
    {
        if idx < self.hitboxes.len() {
            self.hitboxes[idx].push(hitbox);
            assert(self.boxes() =~= old(self).boxes().update(
                idx as int,
                old(self).boxes()[idx as int].push(hitbox),
            ));
        }
    }

    /// Takes hitbox `hitbox_idx` from sprite `idx`. A sheet without that
    /// sprite stays as it is.
    pub fn remove_hitbox(&mut self, idx: usize, hitbox_idx: usize)
        requires
            idx < old(self).boxes().len() ==> hitbox_idx < old(self).boxes()[idx as int].len(),
        ensures
            final(self).boxes() == if idx < old(self).boxes().len() {
                old(self).boxes().update(
                    idx as int,
                    old(self).boxes()[idx as int].remove(hitbox_idx as int),
                )
            } else {
                old(self).boxes()
            },
    {
        if idx < self.hitboxes.len() {
            self.hitboxes[idx].remove(hitbox_idx);
            assert(self.boxes() =~= old(self).boxes().update(
                idx as int,
                old(self).boxes()[idx as int].remove(hitbox_idx as int),
            ));
        }
    }

    /// The hitboxes of sprite `idx`, if the sheet has that sprite.
    pub fn get_hitboxes(&self, idx: usize) -> (hitboxes: Option<&Vec<Hitbox>>)
        ensures
            hitboxes is Some == (idx < self.boxes().len()),
            hitboxes is Some ==> hitboxes->0@ == self.boxes()[idx as int],
    {
        if idx < self.hitboxes.len() {
            Some(&self.hitboxes[idx])
        } else {
            None
        }
    }
}

} // verus!
