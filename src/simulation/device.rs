use vstd::prelude::*;

use super::{GpuCommand, SphereGeneration};

verus! {

/// What a device-resident particle store is, as far as the lifecycle goes.
pub struct DeviceState {
    /// Live particles: records `[0, count)` of the current half.
    pub count: u32,
    /// Records each buffer of the current set can hold.
    pub capacity: u32,
    /// Buffers in the set: 1, or 2 for a ping-pong pair.
    pub halves: u32,
    /// The half that holds the most recently written particle data.
    pub current: u32,
    pub paused: bool,
    pub mode: SphereGeneration,
}

pub open spec fn state_wf(s: DeviceState) -> bool {
    &&& s.count <= s.capacity
    &&& s.halves == 1 || s.halves == 2
    &&& s.current < s.halves
}

/// The half that an update pass writes: the other one of a pair, or the only one.
pub open spec fn other_half(s: DeviceState) -> u32 {
    if s.halves == 2 {
        (1 - s.current) as u32
    } else {
        s.current
    }
}

/// Particles that a resize to `n` in `mode` takes fresh from the generator.
/// Growing takes the new tail; a change of mode alone regenerates the live set.
pub open spec fn fresh_len(count: u32, old_mode: SphereGeneration, n: u32, mode: SphereGeneration) -> u32 {
    if n > count {
        (n - count) as u32
    } else if n == count && mode != old_mode {
        n
    } else {
        0
    }
}

/// Where the fresh particles of a resize start.
pub open spec fn fresh_offset(count: u32, n: u32) -> u32 {
    if n > count {
        count
    } else {
        0
    }
}

/// The store after a resize to `n` in `mode`: storage only ever grows, and a
/// new set of buffers starts at half 0.
pub open spec fn resized(s: DeviceState, n: u32, mode: SphereGeneration) -> DeviceState {
    DeviceState {
        count: n,
        capacity: if n > s.capacity { n } else { s.capacity },
        current: if n > s.capacity { 0 } else { s.current },
        mode,
        ..s
    }
}

/// The device work of a resize to `n` in `mode`. Growing past the capacity
/// allocates a new set and carries the live particles over before appending
/// fresh ones; growing within it only appends; shrinking writes nothing.
pub open spec fn resize_plan(s: DeviceState, n: u32, mode: SphereGeneration) -> Seq<GpuCommand> {
    let fresh = GpuCommand::WriteFresh {
        offset: fresh_offset(s.count, n),
        len: fresh_len(s.count, s.mode, n, mode),
        mode,
    };
    if n > s.capacity {
        seq![
            GpuCommand::Allocate { capacity: n },
            GpuCommand::CarryOver { source: s.current, count: s.count },
            fresh,
        ]
    } else if fresh_len(s.count, s.mode, n, mode) > 0 {
        seq![fresh]
    } else {
        seq![]
    }
}

/// The store after a reset in `mode`: same count, fresh data in half 0.
pub open spec fn reset_state(s: DeviceState, mode: SphereGeneration) -> DeviceState {
    DeviceState { current: 0, mode, ..s }
}

/// The device work of a reset: the whole live set is written fresh.
pub open spec fn reset_plan(s: DeviceState, mode: SphereGeneration) -> Seq<GpuCommand> {
    seq![GpuCommand::WriteFresh { offset: 0, len: s.count, mode }]
}

/// Whether an update does any work: not while paused, nor with no particles.
pub open spec fn runs_update(s: DeviceState) -> bool {
    !s.paused && s.count > 0
}

/// What one update of a ping-pong store `s` does, giving `t` and the commands
/// `r`: upload the parameters, run the pass from the current half into the
/// other, and only then make the other half current. While paused or empty,
/// nothing at all.
pub open spec fn ping_pong_updated(s: DeviceState, t: DeviceState, r: Seq<GpuCommand>) -> bool {
    if runs_update(s) {
        &&& r == seq![
            GpuCommand::WriteParams,
            GpuCommand::PingPongPass { source: s.current, target: other_half(s), count: s.count },
        ]
        &&& t == DeviceState { current: other_half(s), ..s }
    } else {
        t == s && r == Seq::<GpuCommand>::empty()
    }
}

/// Bookkeeping of a particle store that lives on the device: its live count,
/// its capacity, and which half of a ping-pong pair is current.
pub struct DeviceParticles {
    count: u32,
    capacity: u32,
    halves: u32,
    current: u32,
    paused: bool,
    mode: SphereGeneration,
}

impl View for DeviceParticles {
    type V = DeviceState;

    closed spec fn view(&self) -> DeviceState {
        DeviceState {
            count: self.count,
            capacity: self.capacity,
            halves: self.halves,
            current: self.current,
            paused: self.paused,
            mode: self.mode,
        }
    }
}

impl DeviceParticles {
    pub open spec fn wf(&self) -> bool {
        state_wf(self@)
    }

    /// A store of `count` fresh particles in `mode`, in `halves` buffers.
    pub fn new(count: u32, halves: u32, mode: SphereGeneration) -> (r: (Self, Vec<GpuCommand>))
        requires
            halves == 1 || halves == 2,
        ensures
            r.0.wf(),
            r.0@ == (DeviceState { count, capacity: count, halves, current: 0, paused: false, mode }),
            r.1@ == seq![
                GpuCommand::Allocate { capacity: count },
                GpuCommand::WriteFresh { offset: 0, len: count, mode },
            ],
    {
        let store = DeviceParticles { count, capacity: count, halves, current: 0, paused: false, mode };
        let cmds = vec![
            GpuCommand::Allocate { capacity: count },
            GpuCommand::WriteFresh { offset: 0, len: count, mode },
        ];
        (store, cmds)
    }

    pub fn count(&self) -> (r: u32)
        ensures
            r == self@.count,
    {
        self.count
    }

    pub fn capacity(&self) -> (r: u32)
        ensures
            r == self@.capacity,
    {
        self.capacity
    }

    pub fn current(&self) -> (r: u32)
        ensures
            r == self@.current,
    {
        self.current
    }

    pub fn is_paused(&self) -> (r: bool)
        ensures
            r == self@.paused,
    {
        self.paused
    }

    pub fn mode(&self) -> (r: SphereGeneration)
        ensures
            r == self@.mode,
    {
        self.mode
    }

    pub fn set_paused(&mut self, paused: bool)
        requires
            old(self).wf(),
        ensures
            final(self).wf(),
            final(self)@ == (DeviceState { paused, ..old(self)@ }),
    {
        self.paused = paused;
    }

    /// Number of fresh particles a resize to `new_count` in `mode` needs.
    pub fn fresh_needed(&self, new_count: u32, mode: SphereGeneration) -> (r: u32)
        ensures
            r == fresh_len(self@.count, self@.mode, new_count, mode),
    {
        if new_count > self.count {
            new_count - self.count
        } else if new_count == self.count && mode != self.mode {
            new_count
        } else {
            0
        }
    }

    /// Changes the live count to `new_count` and the generation mode to `mode`.
    pub fn resize(&mut self, new_count: u32, mode: SphereGeneration) -> (r: Vec<GpuCommand>)
        requires
            old(self).wf(),
        ensures
            final(self).wf(),
            final(self)@ == resized(old(self)@, new_count, mode),
            r@ == resize_plan(old(self)@, new_count, mode),
    {
        let len = self.fresh_needed(new_count, mode);
        let offset = if new_count > self.count { self.count } else { 0 };
        let fresh = GpuCommand::WriteFresh { offset, len, mode };
        let mut cmds: Vec<GpuCommand> = Vec::new();
        if new_count > self.capacity {
            cmds.push(GpuCommand::Allocate { capacity: new_count });
            cmds.push(GpuCommand::CarryOver { source: self.current, count: self.count });
            cmds.push(fresh);
            self.capacity = new_count;
            self.current = 0;
        } else if len > 0 {
            cmds.push(fresh);
        }
        self.count = new_count;
        self.mode = mode;
        proof {
            let p = resize_plan(old(self)@, new_count, mode);
            assert(cmds@ =~= p);
        }
        cmds
    }

    /// Regenerates the live set in `mode`, keeping the count.
    pub fn reset(&mut self, mode: SphereGeneration) -> (r: Vec<GpuCommand>)
        requires
            old(self).wf(),
        ensures
            final(self).wf(),
            final(self)@ == reset_state(old(self)@, mode),
            r@ == reset_plan(old(self)@, mode),
    {
        self.current = 0;
        self.mode = mode;
        vec![GpuCommand::WriteFresh { offset: 0, len: self.count, mode }]
    }

    /// Makes the half that the last pass wrote the current one.
    pub fn flip(&mut self)
        requires
            old(self).wf(),
        ensures
            final(self).wf(),
            final(self)@ == (DeviceState { current: other_half(old(self)@), ..old(self)@ }),
    {
        if self.halves == 2 {
            self.current = 1 - self.current;
        }
    }
}

} // verus!
