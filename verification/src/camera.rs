//! Camera panning keys and the frame-rate window. The camera's position,
//! zoom and projection, and the clock, stay with the caller.

use std::collections::VecDeque;
use vstd::prelude::*;

verus! {

broadcast use vstd::std_specs::vecdeque::group_vec_dequeue_axioms;

/// Keys that pan the camera.
#[derive(Clone, Copy, Debug, PartialEq, Eq, Structural)]
pub enum CameraKey {
    /// `W`: pan forward (toward negative Z).
    W,
    /// `A`: pan left (toward negative X).
    A,
    /// `S`: pan backward (toward positive Z).
    S,
    /// `D`: pan right (toward positive X).
    D,
    /// Any other key.
    Other,
}

/// Which pan directions are held down.
#[derive(Clone, Copy, Debug, PartialEq, Eq, Structural)]
pub struct PanKeys {
    pub forward: bool,
    pub left: bool,
    pub backward: bool,
    pub right: bool,
}

impl PanKeys {
    /// No key held.
    pub fn new() -> (r: Self)
        ensures
            !r.forward && !r.left && !r.backward && !r.right,
    {
        PanKeys { forward: false, left: false, backward: false, right: false }
    }

    /// Record a key press (`pressed`) or release of `key`; other keys
    /// change nothing.
    pub fn process_key(&mut self, key: CameraKey, pressed: bool)
        ensures
            final(self).forward == (if key == CameraKey::W { pressed } else { old(self).forward }),
            final(self).left == (if key == CameraKey::A { pressed } else { old(self).left }),
            final(self).backward == (if key == CameraKey::S { pressed } else { old(self).backward }),
            final(self).right == (if key == CameraKey::D { pressed } else { old(self).right }),
    {
        match key {
            CameraKey::W => self.forward = pressed,
            CameraKey::A => self.left = pressed,
            CameraKey::S => self.backward = pressed,
            CameraKey::D => self.right = pressed,
            CameraKey::Other => {},
        }
    }
}

/// Frames the frame-rate window spans at most.
pub const FPS_WINDOW: usize = 100;

/// A frame-rate reading: frames counted over the elapsed time.
#[derive(Clone, Copy, Debug, PartialEq, Eq, Structural)]
pub struct FpsSample {
    /// Frames in the window after its first one.
    pub frames: usize,
    /// Nanoseconds from the window's first frame to the last (zero if the
    /// clock went back).
    pub elapsed_nanos: u64,
}

/// The last `FPS_WINDOW` entries of `times`.
pub open spec fn window(times: Seq<u64>) -> Seq<u64> {
    if times.len() > FPS_WINDOW {
        times.skip(times.len() - FPS_WINDOW)
    } else {
        times
    }
}

/// Frame times (in nanoseconds of a monotonic clock) of the last frames.
pub struct FpsCounter {
    frame_times: VecDeque<u64>,
}

impl FpsCounter {
    /// Frame times in the window, oldest first.
    pub closed spec fn times(&self) -> Seq<u64> {
        self.frame_times@
    }

    /// The window never holds more than [`FPS_WINDOW`] frames.
    #[verifier::type_invariant]
    closed spec fn bounded(&self) -> bool {
        self.frame_times@.len() <= FPS_WINDOW
    }

    /// An empty window.
    pub fn new() -> (r: Self)
        ensures
            r.times() == Seq::<u64>::empty(),
    {
        FpsCounter { frame_times: VecDeque::with_capacity(120) }
    }

    /// Record a frame at time `now`; the window keeps the last
    /// [`FPS_WINDOW`] frames. With fewer than two frames there is no
    /// reading; otherwise the reading spans the whole window.
    pub fn tick(&mut self, now: u64) -> (r: Option<FpsSample>)
        ensures
            final(self).times() == window(old(self).times().push(now)),
            final(self).times().len() <= FPS_WINDOW,
            final(self).times().len() < 2 ==> r is None,
            final(self).times().len() >= 2 ==> r == Some(FpsSample {
                frames: (final(self).times().len() - 1) as usize,
                elapsed_nanos: if now >= final(self).times()[0] {
                    (now - final(self).times()[0]) as u64
                } else {
                    0
                },
            }),
    {
        proof {
            use_type_invariant(&*self);
        }
        let mut times: VecDeque<u64> = VecDeque::new();
        std::mem::swap(&mut times, &mut self.frame_times);
        times.push_back(now);
        let ghost pushed = times@;
        if times.len() > FPS_WINDOW {
            times.pop_front();
            assert(times@ =~= window(pushed));
        } else {
            assert(window(pushed) == pushed);
        }
        let len = times.len();
        let first = if len > 0 {
            times[0]
        } else {
            now
        };
        self.frame_times = times;
        if len < 2 {
            return None;
        }
        let elapsed = now.saturating_sub(first);
        Some(FpsSample { frames: len - 1, elapsed_nanos: elapsed })
    }
}

} // verus!
