use vstd::prelude::*;

use super::device::{
    fresh_len, ping_pong_updated, reset_plan, reset_state, resize_plan, resized, state_wf,
    DeviceParticles, DeviceState,
};
use super::{GpuCommand, SimulationMethod, SphereGeneration};

verus! {

/// Particles held in a pair of vertex buffers: each step a vertex pass reads
/// one half and captures the advanced particles into the other, and the halves
/// trade roles.
pub struct TransformFeedbackSimulation {
    particles: DeviceParticles,
}

impl View for TransformFeedbackSimulation {
    type V = DeviceState;

    closed spec fn view(&self) -> DeviceState {
        self.particles@
    }
}

impl TransformFeedbackSimulation {
    pub open spec fn wf(&self) -> bool {
        state_wf(self@) && self@.halves == 2
    }

    /// A pair of buffers both holding `initial_particle_count` fresh particles;
    /// half 0 is current.
    pub fn new(initial_particle_count: u32, generation_mode: SphereGeneration) -> (r: (
        Self,
        Vec<GpuCommand>,
    ))
        ensures
            r.0.wf(),
            r.0@ == (DeviceState {
                count: initial_particle_count,
                capacity: initial_particle_count,
                halves: 2,
                current: 0,
                paused: false,
                mode: generation_mode,
            }),
            r.1@ == seq![
                GpuCommand::Allocate { capacity: initial_particle_count },
                GpuCommand::WriteFresh { offset: 0, len: initial_particle_count, mode: generation_mode },
            ],
    {
        let (particles, cmds) = DeviceParticles::new(initial_particle_count, 2, generation_mode);
        let sim = TransformFeedbackSimulation { particles };
        assert(sim@ == particles@);
        (sim, cmds)
    }

    /// One simulation step: upload the parameters, run the capture pass from
    /// the current half into the other, then make the other half current.
    /// The flip comes after the pass is recorded. Nothing while paused or empty.
    pub fn update(&mut self) -> (r: Vec<GpuCommand>)
        requires
            old(self).wf(),
        ensures
            final(self).wf(),
            ping_pong_updated(old(self)@, final(self)@, r@),
    {
        let count = self.particles.count();
        if self.particles.is_paused() || count == 0 {
            return Vec::new();
        }
        let source = self.particles.current();
        let target = 1 - source;
        let cmds = vec![GpuCommand::WriteParams, GpuCommand::PingPongPass { source, target, count }];
        self.particles.flip();
        cmds
    }

    /// Number of fresh particles that `resize_buffer(new_count, generation_mode)` writes.
    pub fn fresh_needed(&self, new_count: u32, generation_mode: SphereGeneration) -> (r: u32)
        ensures
            r == fresh_len(self@.count, self@.mode, new_count, generation_mode),
    {
        self.particles.fresh_needed(new_count, generation_mode)
    }

    pub fn resize_buffer(&mut self, new_count: u32, generation_mode: SphereGeneration) -> (r: Vec<
        GpuCommand,
    >)
        requires
            old(self).wf(),
        ensures
            final(self).wf(),
            final(self)@ == resized(old(self)@, new_count, generation_mode),
            r@ == resize_plan(old(self)@, new_count, generation_mode),
    {
        self.particles.resize(new_count, generation_mode)
    }

    /// Writes a fresh live set into both halves and makes half 0 current.
    pub fn reset(&mut self, generation_mode: SphereGeneration) -> (r: Vec<GpuCommand>)
        requires
            old(self).wf(),
        ensures
            final(self).wf(),
            final(self)@ == reset_state(old(self)@, generation_mode),
            r@ == reset_plan(old(self)@, generation_mode),
    {
        self.particles.reset(generation_mode)
    }

    /// The half holding the most recently written particle data.
    pub fn get_particle_buffer(&self) -> (r: u32)
        requires
            self.wf(),
        ensures
            r == self@.current,
            r < 2,
    {
        self.particles.current()
    }

    pub fn get_method(&self) -> (r: SimulationMethod)
        ensures
            r == SimulationMethod::TransformFeedback,
    {
        SimulationMethod::TransformFeedback
    }

    pub fn get_particle_count(&self) -> (r: u32)
        ensures
            r == self@.count,
    {
        self.particles.count()
    }

    pub fn capacity(&self) -> (r: u32)
        ensures
            r == self@.capacity,
    {
        self.particles.capacity()
    }

    pub fn generation_mode(&self) -> (r: SphereGeneration)
        ensures
            r == self@.mode,
    {
        self.particles.mode()
    }

    pub fn is_paused(&self) -> (r: bool)
        ensures
            r == self@.paused,
    {
        self.particles.is_paused()
    }

    pub fn set_paused(&mut self, paused: bool)
        requires
            old(self).wf(),
        ensures
            final(self).wf(),
            final(self)@ == (DeviceState { paused, ..old(self)@ }),
    {
        self.particles.set_paused(paused)
    }
}

} // verus!
