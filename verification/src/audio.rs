//! Per-category concurrency limits of the audio engine: at most a fixed
//! number of sounds of one category start within one simulation tick, and
//! each tick starts with every count at zero. The audio device, the sound
//! library and the volume levels stay with the caller.

use vstd::prelude::*;

verus! {

/// Category of a sound, each with its own concurrency limit.
#[derive(Clone, Copy, Debug, PartialEq, Eq, Structural)]
pub enum SoundCategory {
    WeaponFire,
    Explosion,
}

/// Position of a category among the counters.
pub open spec fn category_slot(cat: SoundCategory) -> int {
    match cat {
        SoundCategory::WeaponFire => 0,
        SoundCategory::Explosion => 1,
    }
}

fn slot_of(cat: SoundCategory) -> (r: usize)
    ensures
        r == category_slot(cat),
{
    match cat {
        SoundCategory::WeaponFire => 0,
        SoundCategory::Explosion => 1,
    }
}

/// Sounds started this tick, per category, under a common limit.
pub struct PlaybackLimits {
    active_counts: Vec<u32>,
    max_per_category: u32,
}

impl PlaybackLimits {
    /// Sounds of `cat` started since the last tick.
    pub closed spec fn active(&self, cat: SoundCategory) -> u32 {
        self.active_counts@[category_slot(cat)]
    }

    /// Limit of sounds per category and tick.
    pub closed spec fn limit(&self) -> u32 {
        self.max_per_category
    }

    /// One counter per category.
    #[verifier::type_invariant]
    closed spec fn wf(&self) -> bool {
        self.active_counts@.len() == 2
    }

    /// Limits of `max_per_category` sounds per category, nothing started.
    pub fn new(max_per_category: u32) -> (r: Self)
        ensures
            r.limit() == max_per_category,
            forall|c: SoundCategory| r.active(c) == 0,
    {
        let mut active_counts = Vec::new();
        active_counts.push(0u32);
        active_counts.push(0u32);
        PlaybackLimits { active_counts, max_per_category }
    }

    /// Limit of sounds per category and tick.
    pub fn max_per_category(&self) -> (r: u32)
        ensures
            r == self.limit(),
    {
        self.max_per_category
    }

    /// Sounds of `cat` started since the last tick.
    pub fn active_count(&self, cat: SoundCategory) -> (r: u32)
        ensures
            r == self.active(cat),
    {
        proof {
            use_type_invariant(&*self);
        }
        self.active_counts[slot_of(cat)]
    }

    /// Whether one more sound of `cat` may start this tick.
    pub fn can_play(&self, cat: SoundCategory) -> (r: bool)
        ensures
            r == (self.active(cat) < self.limit()),
    {
        proof {
            use_type_invariant(&*self);
        }
        self.active_counts[slot_of(cat)] < self.max_per_category
    }

    /// Count a sound of `cat` that has started.
    pub fn record_play(&mut self, cat: SoundCategory)
        requires
            old(self).active(cat) < old(self).limit(),
        ensures
            final(self).limit() == old(self).limit(),
            final(self).active(cat) == old(self).active(cat) + 1,
            forall|c: SoundCategory| c != cat ==> final(self).active(c) == old(self).active(c),
    {
        proof {
            use_type_invariant(&*self);
        }
        let i = slot_of(cat);
        let mut counts = vec![0u32, 0u32];
        std::mem::swap(&mut counts, &mut self.active_counts);
        let n = counts[i];
        counts.set(i, n + 1);
        self.active_counts = counts;
    }

    /// Start of a simulation tick: every category may start sounds anew.
    pub fn tick(&mut self)
        ensures
            final(self).limit() == old(self).limit(),
            forall|c: SoundCategory| final(self).active(c) == 0,
    {
        proof {
            use_type_invariant(&*self);
        }
        let mut counts = vec![0u32, 0u32];
        std::mem::swap(&mut counts, &mut self.active_counts);
        let mut i: usize = 0;
        while i < counts.len()
            invariant
                counts@.len() == 2,
                i <= 2,
                forall|j: int| 0 <= j < i ==> counts@[j] == 0,
            decreases 2 - i,
        {
            counts.set(i, 0);
            i += 1;
        }
        self.active_counts = counts;
    }
}

} // verus!
