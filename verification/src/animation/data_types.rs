//! An animation as a row of frames on a sprite sheet.
//!
//! The sheet holds the same animation once for each value of a parameter
//! (a direction, say): the frame for parameter `p` lies `p` times the
//! parameter offset behind the base frame.
use vstd::prelude::*;

verus! {

/// A row of base frames, each shown for the same time.
#[derive(Debug, PartialEq, Eq)]
pub struct ParameterizedSpriteAnimation {
    pub base_frames: Vec<usize>,
    pub parameters: usize,
    pub parameter_offset: usize,
    pub single_frame_duration: u32,
}

impl Clone for ParameterizedSpriteAnimation {
    fn clone(&self) -> (copy: ParameterizedSpriteAnimation)
        ensures
            copy.frames() == self.frames(),
            copy.parameters == self.parameters,
            copy.parameter_offset == self.parameter_offset,
            copy.single_frame_duration == self.single_frame_duration,
    {
        let mut base_frames: Vec<usize> = Vec::new();
        let mut i: usize = 0;
        while i < self.base_frames.len()
            invariant
                i <= self.base_frames.len(),
                base_frames@ == self.base_frames@.take(i as int),
            decreases self.base_frames.len() - i,
        {
            base_frames.push(self.base_frames[i]);
            assert(base_frames@ == self.base_frames@.take(i + 1));
            i = i + 1;
        }
        assert(base_frames@ == self.base_frames@);
        ParameterizedSpriteAnimation {
            base_frames,
            parameters: self.parameters,
            parameter_offset: self.parameter_offset,
            single_frame_duration: self.single_frame_duration,
        }
    }
}

/// The index of the frame that shows at `time_index` in an animation of
/// `len` frames of `duration` each, if one shows.
///
/// Past its end an animation that does not loop shows nothing, and one that
/// loops starts over. An animation that takes no time at all shows its first
/// frame if it loops.
pub open spec fn frame_at(len: nat, duration: nat, time_index: nat, looping: bool) -> Option<
    nat,
> {
    let total = len * duration;
    if time_index < total {
        Some(time_index / duration)
    } else if !looping {
        None
    } else if total == 0 {
        Some(0)
    } else {
        Some((time_index % total) / duration)
    }
}

impl ParameterizedSpriteAnimation {
    /// The base frames, in the order in which they show.
    pub open spec fn frames(self) -> Seq<usize> {
        self.base_frames@
    }

    /// The frame on the sheet that stands for base frame `frame_idx` under `parameter`.
    pub open spec fn frame_with_parameter(self, frame_idx: nat, parameter: nat) -> Option<nat> {
        if parameter < self.parameters && frame_idx < self.frames().len() {
            Some((self.frames()[frame_idx as int] + parameter * self.parameter_offset) as nat)
        } else {
            None
        }
    }

    /// Whether the frame on the sheet that stands for base frame `frame_idx`
    /// under `parameter`, if there is one, has an index that fits its type.
    pub open spec fn frame_fits(self, frame_idx: nat, parameter: nat) -> bool {
        parameter < self.parameters && frame_idx < self.frames().len() ==> self.frames()[frame_idx as int]
            + parameter * self.parameter_offset <= usize::MAX
    }

    /// Whether the frame on the sheet that shows at `time_index` under
    /// `parameter`, if one shows, has an index that fits its type.
    pub open spec fn sample_fits(self, parameter: nat, time_index: nat, looping: bool) -> bool {
        match frame_at(
            self.frames().len(),
            self.single_frame_duration as nat,
            time_index,
            looping,
        ) {
            Some(frame_idx) => self.frame_fits(frame_idx, parameter),
            None => true,
        }
    }

    /// An animation without frames.
    pub fn new(parameter_offset: usize, parameters: usize, single_frame_duration: u32) -> (animation:
        ParameterizedSpriteAnimation)
        ensures
            animation.frames() == Seq::<usize>::empty(),
            animation.parameters == parameters,
            animation.parameter_offset == parameter_offset,
            animation.single_frame_duration == single_frame_duration,
    {
        ParameterizedSpriteAnimation {
            base_frames: Vec::new(),
            parameters,
            parameter_offset,
            single_frame_duration,
        }
    }

    /// The number of base frames.
    pub fn len(&self) -> (len: usize)
        ensures
            len == self.frames().len(),
    {
        self.base_frames.len()
    }

    /// Adds a base frame at the end.
    pub fn add_frame(&mut self, sprite_idx: usize)
        ensures
            final(self).frames() == old(self).frames().push(sprite_idx),
            final(self).parameters == old(self).parameters,
            final(self).parameter_offset == old(self).parameter_offset,
            final(self).single_frame_duration == old(self).single_frame_duration,
    {
        self.base_frames.push(sprite_idx);
    }

    /// Whether the frame on the sheet that stands for base frame `frame_idx`
    /// under `parameter`, if there is one, has an index that fits its type.
    pub fn frame_has_room(&self, frame_idx: usize, parameter: usize) -> (fits: bool)
        ensures
            fits == self.frame_fits(frame_idx as nat, parameter as nat),
    {
        if parameter >= self.parameters || frame_idx >= self.base_frames.len() {
            return true;
        }
        assert(parameter * self.parameter_offset <= 0xffff_ffff_ffff_ffff * 0xffff_ffff_ffff_ffff)
            by (nonlinear_arith)
            requires
                0 <= parameter <= 0xffff_ffff_ffff_ffff,
                0 <= self.parameter_offset <= 0xffff_ffff_ffff_ffff,
        ;
        let shift: u128 = parameter as u128 * self.parameter_offset as u128;
        self.base_frames[frame_idx] as u128 + shift <= usize::MAX as u128
    }

    /// Whether the frame on the sheet that shows at `time_index` under
    /// `parameter`, if one shows, has an index that fits its type.
    pub fn sample_has_room(&self, parameter: usize, time_index: u32, looping: bool) -> (fits: bool)
        ensures
            fits == self.sample_fits(parameter as nat, time_index as nat, looping),
    {
        match self.frame_index_at(time_index, looping) {
            Some(frame_idx) => self.frame_has_room(frame_idx, parameter),
            None => true,
        }
    }

    /// The index of the base frame that shows at `time_index`, if one shows.
    pub fn frame_index_at(&self, time_index: u32, looping: bool) -> (frame_idx: Option<usize>)
        ensures
            frame_idx is Some == frame_at(
                self.frames().len(),
                self.single_frame_duration as nat,
                time_index as nat,
                looping,
            ) is Some,
            frame_idx is Some ==> frame_idx->0 == frame_at(
                self.frames().len(),
                self.single_frame_duration as nat,
                time_index as nat,
                looping,
            )->0,
    {
        let len: usize = self.base_frames.len();
        let duration: u128 = self.single_frame_duration as u128;
        assert(len as u128 * duration <= u128::MAX) by (nonlinear_arith)
            requires
                len <= u64::MAX,
                duration <= u32::MAX,
        ;
        let total: u128 = len as u128 * duration;
        let mut time: u128 = time_index as u128;
        if time >= total {
            if !looping {
                return None;
            } else if total == 0 {
                return Some(0);
            } else {
                time = time % total;
            }
        }
        assert(duration > 0) by (nonlinear_arith)
            requires
                time < total,
                total == len * duration,
        ;
        let frame_idx: u128 = time / duration;
        assert(frame_idx < len) by (nonlinear_arith)
            requires
                time < len * duration,
                frame_idx == time / duration,
                duration > 0,
        ;
        Some(frame_idx as usize)
    }

    /// The frame on the sheet that stands for base frame `frame_idx` under `parameter`.
    pub fn get_frame_with_parameter(&self, frame_idx: usize, parameter: usize) -> (frame: Option<
        usize,
    >)
        requires
            self.frame_fits(frame_idx as nat, parameter as nat),
        ensures
            frame is Some == self.frame_with_parameter(frame_idx as nat, parameter as nat) is Some,
            frame is Some ==> frame->0 == self.frame_with_parameter(
                frame_idx as nat,
                parameter as nat,
            )->0,
    {
        if parameter >= self.parameters {
            None
        } else if frame_idx < self.base_frames.len() {
            assert(self.frames()[frame_idx as int] + parameter * self.parameter_offset
                <= usize::MAX);
            assert(parameter * self.parameter_offset <= usize::MAX) by (nonlinear_arith)
                requires
                    self.frames()[frame_idx as int] + parameter * self.parameter_offset
                        <= usize::MAX,
                    0 <= self.frames()[frame_idx as int],
            ;
            Some(self.base_frames[frame_idx] + parameter * self.parameter_offset)
        } else {
            None
        }
    }

    /// Puts another sprite in the place of base frame `frame_idx`.
    pub fn set_frame(&mut self, frame_idx: usize, sprite_idx: usize)
        requires
            frame_idx < old(self).frames().len(),
        ensures
            final(self).frames() == old(self).frames().update(frame_idx as int, sprite_idx),
            final(self).parameters == old(self).parameters,
            final(self).parameter_offset == old(self).parameter_offset,
            final(self).single_frame_duration == old(self).single_frame_duration,
    {
        self.base_frames[frame_idx] = sprite_idx;
    }

    /// Takes base frame `frame_idx` out of the row.
    pub fn remove_frame(&mut self, frame_idx: usize)
        requires
            frame_idx < old(self).frames().len(),
        ensures
            final(self).frames() == old(self).frames().remove(frame_idx as int),
            final(self).parameters == old(self).parameters,
            final(self).parameter_offset == old(self).parameter_offset,
            final(self).single_frame_duration == old(self).single_frame_duration,
    {
        self.base_frames.remove(frame_idx);
    }

    /// The frame on the sheet that shows at `time_index` under `parameter`.
    pub open spec fn sampled(self, parameter: nat, time_index: nat, looping: bool) -> Option<nat> {
        match frame_at(
            self.frames().len(),
            self.single_frame_duration as nat,
            time_index,
            looping,
        ) {
            Some(frame_idx) => self.frame_with_parameter(frame_idx, parameter),
            None => None,
        }
    }

    /// The frame on the sheet that shows at `time_index` under `parameter`.
    pub fn sample_with_parameter(&self, parameter: usize, time_index: u32, looping: bool) -> (frame:
        Option<usize>)
        requires
            self.sample_fits(parameter as nat, time_index as nat, looping),
        ensures
            frame is Some == self.sampled(parameter as nat, time_index as nat, looping) is Some,
            frame is Some ==> frame->0 == self.sampled(
                parameter as nat,
                time_index as nat,
                looping,
            )->0,
    {
        match self.frame_index_at(time_index, looping) {
            Some(frame_idx) => self.get_frame_with_parameter(frame_idx, parameter),
            None => None,
        }
    }

    /// Under parameter 0 every frame is its base frame, so that every
    /// lookup and every sample fits.
    pub proof fn lemma_base_frames_fit(self, frame_idx: nat, time_index: nat, looping: bool)
        ensures
            self.frame_fits(frame_idx, 0),
            self.sample_fits(0, time_index, looping),
    {
        assert(0 * self.parameter_offset == 0) by (nonlinear_arith);
    }
}

} // verus!
