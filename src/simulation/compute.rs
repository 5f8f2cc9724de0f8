use vstd::prelude::*;

use super::device::{fresh_len, state_wf, reset_plan, reset_state, resize_plan, resized, runs_update, DeviceParticles, DeviceState};
use super::{workgroup_count, ceil_div, GpuCommand, SimulationMethod, SphereGeneration, WORKGROUP_SIZE};

verus! {

/// What one update of the store `s` does, giving `t` and the commands `r`:
/// upload the parameters and dispatch one workgroup per `WORKGROUP_SIZE` live
/// particles; the kernel advances them in place. While paused or empty,
/// nothing at all.
pub open spec fn compute_updated(s: DeviceState, t: DeviceState, r: Seq<GpuCommand>) -> bool {
    &&& t == s
    &&& runs_update(s) ==> r == seq![
        GpuCommand::WriteParams,
        GpuCommand::Dispatch { workgroups: ceil_div(s.count as int, WORKGROUP_SIZE as int) as u32 },
    ]
    &&& !runs_update(s) ==> r == Seq::<GpuCommand>::empty()
}

/// Particles that live permanently in one device storage buffer and are
/// advanced in place by a compute kernel.
pub struct ComputeParticleSimulation {
    particles: DeviceParticles,
}

impl View for ComputeParticleSimulation {
    type V = DeviceState;

    closed spec fn view(&self) -> DeviceState {
        self.particles@
    }
}

impl ComputeParticleSimulation {
    pub open spec fn wf(&self) -> bool {
        state_wf(self@) && self@.halves == 1
    }

    /// A single storage buffer holding `initial_particle_count` fresh particles.
    pub fn new(initial_particle_count: u32, generation_mode: SphereGeneration) -> (r: (
        Self,
        Vec<GpuCommand>,
    ))
        ensures
            r.0.wf(),
            r.0@ == (DeviceState {
                count: initial_particle_count,
                capacity: initial_particle_count,
                halves: 1,
                current: 0,
                paused: false,
                mode: generation_mode,
            }),
            r.1@ == seq![
                GpuCommand::Allocate { capacity: initial_particle_count },
                GpuCommand::WriteFresh { offset: 0, len: initial_particle_count, mode: generation_mode },
            ],
    {
        let (particles, cmds) = DeviceParticles::new(initial_particle_count, 1, generation_mode);
        let sim = ComputeParticleSimulation { particles };
        assert(sim@ == particles@);
        (sim, cmds)
    }

    /// One simulation step, as `compute_updated` describes it.
    pub fn update(&mut self) -> (r: Vec<GpuCommand>)
        requires
            old(self).wf(),
        ensures
            final(self).wf(),
            compute_updated(old(self)@, final(self)@, r@),
    {
        let count = self.particles.count();
        if self.particles.is_paused() || count == 0 {
            return Vec::new();
        }
        vec![GpuCommand::WriteParams, GpuCommand::Dispatch { workgroups: workgroup_count(count) }]
    }

    /// Number of fresh particles that `resize_buffer(new_count, generation_mode)` writes.
    pub fn fresh_needed(&self, new_count: u32, generation_mode: SphereGeneration) -> (r: u32)
        ensures
            r == fresh_len(self@.count, self@.mode, new_count, generation_mode),
    {
        self.particles.fresh_needed(new_count, generation_mode)
    }

    pub fn resize_buffer(&mut self, new_count: u32, generation_mode: SphereGeneration) -> (r: Vec<
        GpuCommand,
    >)
        requires
            old(self).wf(),
        ensures
            final(self).wf(),
            final(self)@ == resized(old(self)@, new_count, generation_mode),
            r@ == resize_plan(old(self)@, new_count, generation_mode),
    {
        self.particles.resize(new_count, generation_mode)
    }

    pub fn reset(&mut self, generation_mode: SphereGeneration) -> (r: Vec<GpuCommand>)
        requires
            old(self).wf(),
        ensures
            final(self).wf(),
            final(self)@ == reset_state(old(self)@, generation_mode),
            r@ == reset_plan(old(self)@, generation_mode),
    {
        self.particles.reset(generation_mode)
    }

    /// The buffer holding the authoritative particle data (the only one).
    pub fn get_particle_buffer(&self) -> (r: u32)
        requires
            self.wf(),
        ensures
            r == self@.current,
            r == 0,
    {
        self.particles.current()
    }

    pub fn get_method(&self) -> (r: SimulationMethod)
        ensures
            r == SimulationMethod::ComputeShader,
    {
        SimulationMethod::ComputeShader
    }

    pub fn get_particle_count(&self) -> (r: u32)
        ensures
            r == self@.count,
    {
        self.particles.count()
    }

    pub fn capacity(&self) -> (r: u32)
        ensures
            r == self@.capacity,
    {
        self.particles.capacity()
    }

    pub fn generation_mode(&self) -> (r: SphereGeneration)
        ensures
            r == self@.mode,
    {
        self.particles.mode()
    }

    pub fn is_paused(&self) -> (r: bool)
        ensures
            r == self@.paused,
    {
        self.particles.is_paused()
    }

    pub fn set_paused(&mut self, paused: bool)
        requires
            old(self).wf(),
        ensures
            final(self).wf(),
            final(self)@ == (DeviceState { paused, ..old(self)@ }),
    {
        self.particles.set_paused(paused)
    }
}

} // verus!
