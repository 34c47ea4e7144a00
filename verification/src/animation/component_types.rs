//! What an animated sprite carries: the state of its animation, and the set
//! of animations that it can play, each under its name.
use crate::animation::data_types::ParameterizedSpriteAnimation;
use vstd::prelude::*;
use vstd::string::StringExecFns;

verus! {

/// Which animation a sprite plays, for how long it has played, and whether
/// it starts over at its end.
#[derive(Debug, PartialEq, Eq)]
pub struct AnimationState {
    pub animation: String,
    /// The time since the animation began, as the host's timer tells it.
    pub elapsed: u32,
    pub looping: bool,
}

impl Default for AnimationState {
    fn default() -> (state: AnimationState)
        ensures
            state.animation@ == "Idle"@,
            state.elapsed == 0,
            state.looping,
    {
        AnimationState::looping(String::from_str("Idle"))
    }
}

impl AnimationState {
    /// Whether `after` is what a transition to the animation named `name`
    /// makes of the state: that animation from its beginning, or the state
    /// as it was if it plays the animation already.
    pub open spec fn goes_to(self, name: Seq<char>, looping: bool, after: AnimationState) -> bool {
        if self.animation@ == name {
            after == self
        } else {
            after.animation@ == name && after.elapsed == 0 && after.looping == looping
        }
    }

    /// The state in which `animation` begins and starts over at its end.
    pub fn looping(animation: String) -> (state: AnimationState)
        ensures
            state == (AnimationState { animation, elapsed: 0, looping: true }),
    {
        AnimationState::new(animation, true)
    }

    /// The state in which `animation` begins and plays once.
    pub fn once(animation: String) -> (state: AnimationState)
        ensures
            state == (AnimationState { animation, elapsed: 0, looping: false }),
    {
        AnimationState::new(animation, false)
    }

    /// The state in which `animation` begins.
    pub fn new(animation: String, looping: bool) -> (state: AnimationState)
        ensures
            state == (AnimationState { animation, elapsed: 0, looping }),
    {
        AnimationState { animation, elapsed: 0, looping }
    }

    /// The name of the animation that plays.
    pub fn get_animation(&self) -> (animation: &String)
        ensures
            animation == self.animation,
    {
        &self.animation
    }

    /// Goes over to `animation`, which then begins; an animation that plays
    /// already plays on as it is.
    pub fn transition_to(&mut self, animation: &str, looping: bool)
        ensures
            old(self).goes_to(animation@, looping, *final(self)),
    {
        let name = String::from_str(animation);
        if self.animation != name {
            *self = AnimationState::new(name, looping);
        }
    }

    /// Goes over to `animation` unless it plays already, and says whether it did.
    pub fn try_transition_to(&mut self, animation: &str, looping: bool) -> (changed: bool)
        ensures
            changed == (old(self).animation@ != animation@),
            old(self).goes_to(animation@, looping, *final(self)),
    {
        let name = String::from_str(animation);
        if self.animation == name {
            false
        } else {
            self.transition_to(animation, looping);
            true
        }
    }
}

/// An animation under its name.
#[derive(Debug, PartialEq, Eq)]
pub struct NamedAnimation {
    pub name: String,
    pub animation: ParameterizedSpriteAnimation,
}

impl NamedAnimation {
    /// Whether `other` bears the same name and holds the same animation.
    pub open spec fn same_as(self, other: NamedAnimation) -> bool {
        &&& self.name@ == other.name@
        &&& self.animation.frames() == other.animation.frames()
        &&& self.animation.parameters == other.animation.parameters
        &&& self.animation.parameter_offset == other.animation.parameter_offset
        &&& self.animation.single_frame_duration == other.animation.single_frame_duration
    }
}

impl Clone for NamedAnimation {
    fn clone(&self) -> (copy: NamedAnimation)
        ensures
            copy.same_as(*self),
    {
        NamedAnimation { name: self.name.clone(), animation: self.animation.clone() }
    }
}

/// The animations of a sprite. A name stands for the first animation in the
/// row that bears it; adding under a name that is taken puts the new
/// animation in the place of the old, so that no name comes to stand twice.
#[derive(Debug, PartialEq, Eq)]
pub struct ParameterizedSpriteAnimationSet {
    pub animations: Vec<NamedAnimation>,
}

/// The place of the first animation named `name` among `animations`, from `from` on.
pub open spec fn first_named(animations: Seq<NamedAnimation>, name: Seq<char>, from: nat) -> Option<
    nat,
>
    decreases animations.len() - from,
{
    if from >= animations.len() {
        None
    } else if animations[from as int].name@ == name {
        Some(from)
    } else {
        first_named(animations, name, from + 1)
    }
}

impl Clone for ParameterizedSpriteAnimationSet {
    fn clone(&self) -> (copy: ParameterizedSpriteAnimationSet)
        ensures
            copy.animations@.len() == self.animations@.len(),
            forall|i: int|
                0 <= i < self.animations@.len() ==> (#[trigger] copy.animations@[i]).same_as(
                    self.animations@[i],
                ),
    {
        let mut animations: Vec<NamedAnimation> = Vec::new();
        let mut i: usize = 0;
        while i < self.animations.len()
            invariant
                i <= self.animations.len(),
                animations@.len() == i,
                forall|j: int|
                    0 <= j < i ==> (#[trigger] animations@[j]).same_as(self.animations@[j]),
            decreases self.animations.len() - i,
        {
            animations.push(self.animations[i].clone());
            i = i + 1;
        }
        ParameterizedSpriteAnimationSet { animations }
    }
}

impl Default for ParameterizedSpriteAnimationSet {
    fn default() -> (set: ParameterizedSpriteAnimationSet)
        ensures
            set.animations@ == Seq::<NamedAnimation>::empty(),
    {
        ParameterizedSpriteAnimationSet { animations: Vec::new() }
    }
}

impl ParameterizedSpriteAnimationSet {
    /// The place of the animation that `name` stands for.
    pub open spec fn place_of(self, name: Seq<char>) -> Option<nat> {
        first_named(self.animations@, name, 0)
    }

    /// The animation that `name` stands for.
    pub open spec fn named(self, name: Seq<char>) -> Option<ParameterizedSpriteAnimation> {
        match self.place_of(name) {
            Some(place) => Some(self.animations@[place as int].animation),
            None => None,
        }
    }

    /// Whether the animation of `state` has nothing left to show: the set
    /// has no animation of that name, or the animation shows no frame at the
    /// state's time.
    pub open spec fn complete(self, state: AnimationState) -> bool {
        match self.named(state.animation@) {
            Some(animation) => animation.sampled(0, state.elapsed as nat, state.looping) is None,
            None => true,
        }
    }

    /// The number of animations.
    pub fn len(&self) -> (len: usize)
        ensures
            len == self.animations@.len(),
    {
        self.animations.len()
    }

    /// Looks for the place of the animation that `name` stands for.
    fn find(&self, name: &String) -> (place: Option<usize>)
        ensures
            place is Some == self.place_of(name@) is Some,
            place is Some ==> place->0 == self.place_of(name@)->0,
            place is Some ==> place->0 < self.animations@.len(),
    {
        let mut i: usize = 0;
        while i < self.animations.len()
            invariant
                i <= self.animations.len(),
                self.place_of(name@) == first_named(self.animations@, name@, i as nat),
            decreases self.animations.len() - i,
        {
            if self.animations[i].name == *name {
                return Some(i);
            }
            i = i + 1;
        }
        None
    }

    /// The names of the animations, in the order of the row.
    pub fn animation_names(&self) -> (names: Vec<String>)
        ensures
            names@.len() == self.animations@.len(),
            forall|i: int|
                0 <= i < names@.len() ==> #[trigger] names@[i] == self.animations@[i].name,
    {
        let mut names: Vec<String> = Vec::new();
        let mut i: usize = 0;
        while i < self.animations.len()
            invariant
                i <= self.animations.len(),
                names@.len() == i,
                forall|j: int| 0 <= j < i ==> #[trigger] names@[j] == self.animations@[j].name,
            decreases self.animations.len() - i,
        {
            names.push(self.animations[i].name.clone());
            i = i + 1;
        }
        names
    }

    /// The animation that `name` stands for.
    pub fn get_animation(&self, name: &String) -> (animation: Option<
        &ParameterizedSpriteAnimation,
    >)
        ensures
            animation is Some == self.named(name@) is Some,
            animation is Some ==> *animation->0 == self.named(name@)->0,
    {
        match self.find(name) {
            Some(place) => Some(&self.animations[place].animation),
            None => None,
        }
    }

    /// The animation that `name` stands for, to change it in its place.
    pub fn get_animation_mut(&mut self, name: &String) -> (animation: Option<
        &mut ParameterizedSpriteAnimation,
    >)
        ensures
            match old(self).place_of(name@) {
                Some(place) => {
                    &&& animation is Some
                    &&& *animation->0 == old(self).animations@[place as int].animation
                    &&& final(self).animations@ == old(self).animations@.update(
                        place as int,
                        NamedAnimation {
                            name: old(self).animations@[place as int].name,
                            animation: *final(animation->0),
                        },
                    )
                },
                None => animation is None && *final(self) == *old(self),
            },
    {
        match self.find(name) {
            Some(place) => Some(&mut self.animations[place].animation),
            None => None,
        }
    }

    /// Adds `animation` under `name`: in the place of the animation that the
    /// name stood for, or at the end of the row if it stood for none.
    pub fn add_new_animation(&mut self, name: String, animation: ParameterizedSpriteAnimation)
        ensures
            match old(self).place_of(name@) {
                Some(place) => {
                    &&& final(self).animations@.len() == old(self).animations@.len()
                    &&& final(self).animations@[place as int].animation == animation
                    &&& final(self).animations@[place as int].name
                        == old(self).animations@[place as int].name
                    &&& forall|i: int|
                        0 <= i < old(self).animations@.len() && i != place
                            ==> #[trigger] final(self).animations@[i] == old(self).animations@[i]
                },
                None => final(self).animations@ == old(self).animations@.push(
                    NamedAnimation { name, animation },
                ),
            },
            final(self).named(name@) == Some(animation),
    {
        match self.find(&name) {
            Some(place) => {
                self.animations[place].animation = animation;
                proof {
                    lemma_first_named(old(self).animations@, name@, 0);
                    lemma_first_named_found(self.animations@, name@, 0, place as nat);
                }
            },
            None => {
                self.animations.push(NamedAnimation { name, animation });
                proof {
                    lemma_first_named(old(self).animations@, name@, 0);
                    lemma_first_named_found(
                        self.animations@,
                        name@,
                        0,
                        old(self).animations@.len(),
                    );
                }
            },
        }
    }

    /// Whether the animation of `state` has nothing left to show.
    pub fn animation_complete(&self, animation_state: &AnimationState) -> (complete: bool)
        ensures
            complete == self.complete(*animation_state),
    {
        match self.get_animation(animation_state.get_animation()) {
            Some(animation) => {
                proof {
                    animation.lemma_base_frames_fit(
                        0,
                        animation_state.elapsed as nat,
                        animation_state.looping,
                    );
                }
                animation.sample_with_parameter(
                    0,
                    animation_state.elapsed,
                    animation_state.looping,
                ).is_none()
            },
            None => true,
        }
    }
}

/// The first animation named `name` from `from` on lies at `place` exactly
/// if it bears the name and none between `from` and `place` does.
pub proof fn lemma_first_named_found(
    animations: Seq<NamedAnimation>,
    name: Seq<char>,
    from: nat,
    place: nat,
)
    requires
        from <= place < animations.len(),
        animations[place as int].name@ == name,
        forall|i: int| from <= i < place ==> animations[i].name@ != name,
    ensures
        first_named(animations, name, from) == Some(place),
    decreases place - from,
{
    if from < place {
        lemma_first_named_found(animations, name, from + 1, place);
    }
}

/// What `first_named` answers lies in the row and bears the name, and nothing
/// before it does; if it answers nothing, no animation from `from` on bears the name.
pub proof fn lemma_first_named(animations: Seq<NamedAnimation>, name: Seq<char>, from: nat)
    ensures
        match first_named(animations, name, from) {
            Some(place) => {
                &&& from <= place < animations.len()
                &&& animations[place as int].name@ == name
                &&& forall|i: int| from <= i < place ==> animations[i].name@ != name
            },
            None => forall|i: int| from <= i < animations.len() ==> animations[i].name@ != name,
        },
    decreases animations.len() - from,
{
    if from < animations.len() && animations[from as int].name@ != name {
        lemma_first_named(animations, name, from + 1);
    }
}

} // verus!
