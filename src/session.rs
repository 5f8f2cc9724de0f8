//! The session controller: owns the active strategy and the user controls,
//! and mediates strategy switches, resizes and resets.
use vstd::prelude::*;

use crate::params::{Controls, SimParams};
use crate::simulation::device::{fresh_len, DeviceState};
use crate::simulation::{device_view, GpuCommand, ParticleSimulation, SimulationMethod, SphereGeneration};

verus! {

/// Particles the host strategy starts with.
pub const CPU_INITIAL_PARTICLES: u32 = 100_000;

/// Particles a device strategy starts with.
pub const DEVICE_INITIAL_PARTICLES: u32 = 1_000_000;

/// The strategy a session starts with: the compute one where the device
/// has compute support, else the host one.
pub open spec fn initial_method_spec(has_compute: bool) -> SimulationMethod {
    if has_compute {
        SimulationMethod::ComputeShader
    } else {
        SimulationMethod::Cpu
    }
}

pub open spec fn initial_count_spec(method: SimulationMethod) -> u32 {
    if method == SimulationMethod::Cpu {
        CPU_INITIAL_PARTICLES
    } else {
        DEVICE_INITIAL_PARTICLES
    }
}

/// The strategies offered: the host one always, the compute one where the
/// device has compute support.
pub open spec fn available_spec(has_compute: bool) -> Seq<SimulationMethod> {
    if has_compute {
        seq![SimulationMethod::Cpu, SimulationMethod::ComputeShader]
    } else {
        seq![SimulationMethod::Cpu]
    }
}

/// The count a resize request for `requested` particles applies: at least one.
pub open spec fn applied_count(requested: u32) -> u32 {
    if requested == 0 {
        1
    } else {
        requested
    }
}

pub fn initial_method(has_compute: bool) -> (r: SimulationMethod)
    ensures
        r == initial_method_spec(has_compute),
{
    if has_compute {
        SimulationMethod::ComputeShader
    } else {
        SimulationMethod::Cpu
    }
}

pub fn initial_particle_count(method: SimulationMethod) -> (r: u32)
    ensures
        r == initial_count_spec(method),
{
    match method {
        SimulationMethod::Cpu => CPU_INITIAL_PARTICLES,
        _ => DEVICE_INITIAL_PARTICLES,
    }
}

pub fn available_methods(has_compute: bool) -> (r: Vec<SimulationMethod>)
    ensures
        r@ == available_spec(has_compute),
{
    let mut r = vec![SimulationMethod::Cpu];
    if has_compute {
        r.push(SimulationMethod::ComputeShader);
    }
    proof {
        assert(r@ =~= available_spec(has_compute));
    }
    r
}

/// The label under which a strategy is offered.
pub fn method_label(method: SimulationMethod) -> (r: &'static str)
    ensures
        method == SimulationMethod::Cpu ==> r@ == "CPU (Compatible Everywhere)"@,
        method == SimulationMethod::ComputeShader ==> r@ == "Compute Shader (Fastest)"@,
        method == SimulationMethod::TransformFeedback ==> r@ == "Transform Feedback"@,
        method == SimulationMethod::FragmentFallback ==> r@ == "Fragment Shader (Fallback)"@,
{
    match method {
        SimulationMethod::Cpu => "CPU (Compatible Everywhere)",
        SimulationMethod::ComputeShader => "Compute Shader (Fastest)",
        SimulationMethod::TransformFeedback => "Transform Feedback",
        SimulationMethod::FragmentFallback => "Fragment Shader (Fallback)",
    }
}

/// What a reset of the session `a` does, giving `b` and the commands `r`,
/// with `fresh` as the generated live set the host strategy takes: gravity
/// back to zero, the other controls kept, the live set regenerated in the
/// session's mode.
pub open spec fn session_reset_to<P: Copy>(
    a: SimulationSession<P>,
    b: SimulationSession<P>,
    fresh: Seq<P>,
    r: Seq<GpuCommand>,
) -> bool {
    &&& b.controls_view() == (Controls { gravity: 0, ..a.controls_view() })
    &&& b.mode() == a.mode()
    &&& b.available_view() == a.available_view()
    &&& a.sim().reset_to(b.sim(), a.mode(), fresh, r)
}

/// The active strategy, the strategies on offer, the generation mode and
/// the user controls.
pub struct SimulationSession<P> {
    simulation: ParticleSimulation<P>,
    available: Vec<SimulationMethod>,
    generation_mode: SphereGeneration,
    controls: Controls,
}

impl<P: Copy> SimulationSession<P> {
    pub closed spec fn sim(&self) -> ParticleSimulation<P> {
        self.simulation
    }

    pub closed spec fn available_view(&self) -> Seq<SimulationMethod> {
        self.available@
    }

    pub closed spec fn mode(&self) -> SphereGeneration {
        self.generation_mode
    }

    pub closed spec fn controls_view(&self) -> Controls {
        self.controls
    }

    pub open spec fn wf(&self) -> bool {
        &&& self.sim().wf()
        &&& self.sim().mode() == self.mode()
    }

    /// Fresh particles the host strategy needs when the session starts on a
    /// device with or without compute support.
    pub fn fresh_for_start(has_compute: bool) -> (r: u32)
        ensures
            r == if initial_method_spec(has_compute) == SimulationMethod::Cpu {
                initial_count_spec(initial_method_spec(has_compute))
            } else {
                0u32
            },
    {
        let method = initial_method(has_compute);
        if method == SimulationMethod::Cpu {
            initial_particle_count(method)
        } else {
            0
        }
    }

    /// A session on the best strategy the device offers, in hollow mode,
    /// with default controls. The host strategy takes its particles as
    /// `particles`.
    pub fn new(has_compute: bool, particles: Vec<P>) -> (r: (Self, Vec<GpuCommand>))
        requires
            initial_method_spec(has_compute) == SimulationMethod::Cpu ==> particles.len()
                == initial_count_spec(initial_method_spec(has_compute)),
        ensures
            r.0.wf(),
            r.0.sim().method() == initial_method_spec(has_compute),
            r.0.sim().count() == initial_count_spec(initial_method_spec(has_compute)),
            !r.0.sim().paused(),
            r.0.mode() == SphereGeneration::Hollow,
            r.0.available_view() == available_spec(has_compute),
            r.0.controls_view().gravity == 0,
            r.0.controls_view() == Controls::new_spec(),
            match r.0.sim() {
                ParticleSimulation::Cpu(c) => c@.particles == particles@,
                _ => device_view(r.0.sim()) == Some(DeviceState {
                    count: DEVICE_INITIAL_PARTICLES,
                    capacity: DEVICE_INITIAL_PARTICLES,
                    halves: 1,
                    current: 0,
                    paused: false,
                    mode: SphereGeneration::Hollow,
                }),
            },
    {
        let method = initial_method(has_compute);
        let count = initial_particle_count(method);
        let (simulation, cmds) = ParticleSimulation::new(method, count, SphereGeneration::Hollow, particles);
        let session = SimulationSession {
            simulation,
            available: available_methods(has_compute),
            generation_mode: SphereGeneration::Hollow,
            controls: Controls::new(),
        };
        (session, cmds)
    }

    pub fn simulation(&self) -> (r: &ParticleSimulation<P>)
        ensures
            *r == self.sim(),
    {
        &self.simulation
    }

    pub fn available_methods(&self) -> (r: &Vec<SimulationMethod>)
        ensures
            r@ == self.available_view(),
    {
        &self.available
    }

    pub fn generation_mode(&self) -> (r: SphereGeneration)
        ensures
            r == self.mode(),
    {
        self.generation_mode
    }

    pub fn controls(&self) -> (r: Controls)
        ensures
            r == self.controls_view(),
    {
        self.controls
    }

    pub fn set_controls(&mut self, controls: Controls)
        requires
            old(self).wf(),
        ensures
            final(self).wf(),
            final(self).controls_view() == controls,
            final(self).sim() == old(self).sim(),
            final(self).mode() == old(self).mode(),
            final(self).available_view() == old(self).available_view(),
    {
        self.controls = controls;
    }

    /// The parameter block of a frame that lasted `delta_time` (bits of an `f32`).
    pub fn frame_params(&self, delta_time: u32, dragging: bool) -> (r: SimParams)
        ensures
            r == self.controls_view().frame_params_spec(delta_time, dragging),
    {
        self.controls.frame_params(delta_time, dragging)
    }

    /// Fresh particles that switching to `method` hands to the new strategy.
    pub fn fresh_for_switch(&self, method: SimulationMethod) -> (r: u32)
        ensures
            r == if method == SimulationMethod::Cpu && self.sim().method() != method {
                self.sim().count()
            } else {
                0u32
            },
    {
        if method == SimulationMethod::Cpu && self.simulation.get_method() != method {
            self.simulation.get_particle_count()
        } else {
            0
        }
    }

    /// Replaces the strategy by a fresh one of kind `new_method`, keeping
    /// the particle count, the pause flag and the generation mode. Switching
    /// to the active kind changes nothing. The host strategy takes its
    /// particles as `particles`.
    pub fn change_simulation_method(&mut self, new_method: SimulationMethod, particles: Vec<P>) -> (r:
        Vec<GpuCommand>)
        requires
            old(self).wf(),
            new_method == SimulationMethod::Cpu && old(self).sim().method() != new_method
                ==> particles.len() == old(self).sim().count(),
        ensures
            final(self).wf(),
            final(self).mode() == old(self).mode(),
            final(self).controls_view() == old(self).controls_view(),
            final(self).available_view() == old(self).available_view(),
            old(self).sim().method() == new_method ==> final(self).sim() == old(self).sim() && r@
                == Seq::<GpuCommand>::empty(),
            old(self).sim().method() != new_method ==> {
                &&& final(self).sim().method() == new_method
                &&& final(self).sim().count() == old(self).sim().count()
                &&& final(self).sim().paused() == old(self).sim().paused()
                &&& final(self).sim().current() == 0
                &&& match final(self).sim() {
                    ParticleSimulation::Cpu(c) => c@.particles == particles@,
                    _ => device_view(final(self).sim()) == Some(DeviceState {
                        count: old(self).sim().count(),
                        capacity: old(self).sim().count(),
                        halves: if new_method == SimulationMethod::ComputeShader { 1u32 } else { 2u32 },
                        current: 0,
                        paused: old(self).sim().paused(),
                        mode: old(self).mode(),
                    }),
                }
                &&& new_method == SimulationMethod::Cpu ==> r@ == seq![
                    GpuCommand::Allocate { capacity: old(self).sim().count() },
                    GpuCommand::UploadHost { count: old(self).sim().count() },
                ]
                &&& new_method != SimulationMethod::Cpu ==> r@ == seq![
                    GpuCommand::Allocate { capacity: old(self).sim().count() },
                    GpuCommand::WriteFresh {
                        offset: 0,
                        len: old(self).sim().count(),
                        mode: old(self).mode(),
                    },
                ]
            },
    {
        if self.simulation.get_method() == new_method {
            return Vec::new();
        }
        let count = self.simulation.get_particle_count();
        let was_paused = self.simulation.is_paused();
        let (mut simulation, cmds) = ParticleSimulation::new(new_method, count, self.generation_mode, particles);
        simulation.set_paused(was_paused);
        self.simulation = simulation;
        cmds
    }

    /// Fresh particles that a resize request for `requested` particles in
    /// `mode` hands to the host strategy.
    pub fn fresh_for_resize(&self, requested: u32, mode: SphereGeneration) -> (r: u32)
        ensures
            r == if self.sim().method() == SimulationMethod::Cpu {
                fresh_len(self.sim().count(), self.sim().mode(), applied_count(requested), mode)
            } else {
                0u32
            },
    {
        if self.simulation.get_method() == SimulationMethod::Cpu {
            let n = if requested == 0 { 1 } else { requested };
            self.simulation.fresh_needed(n, mode)
        } else {
            0
        }
    }

    /// Applies a particle-count request (at least one particle) and a
    /// generation mode to the active strategy.
    pub fn apply_particle_count(&mut self, requested: u32, mode: SphereGeneration, fresh: Vec<P>) -> (r: Vec<
        GpuCommand,
    >)
        requires
            old(self).wf(),
            old(self).sim().method() == SimulationMethod::Cpu ==> fresh.len() == fresh_len(
                old(self).sim().count(),
                old(self).sim().mode(),
                applied_count(requested),
                mode,
            ),
        ensures
            final(self).wf(),
            final(self).mode() == mode,
            final(self).sim().count() == applied_count(requested),
            final(self).controls_view() == old(self).controls_view(),
            final(self).available_view() == old(self).available_view(),
            old(self).sim().resized_to(final(self).sim(), applied_count(requested), mode, fresh@, r@),
    {
        let n = if requested == 0 { 1 } else { requested };
        self.generation_mode = mode;
        self.simulation.resize_buffer(n, mode, fresh)
    }

    /// Fresh particles that a reset hands to the host strategy.
    pub fn fresh_for_reset(&self) -> (r: u32)
        ensures
            r == if self.sim().method() == SimulationMethod::Cpu {
                self.sim().count()
            } else {
                0u32
            },
    {
        if self.simulation.get_method() == SimulationMethod::Cpu {
            self.simulation.get_particle_count()
        } else {
            0
        }
    }

    /// Regenerates the live set in the session's generation mode and sets
    /// gravity back to zero; the other controls stay.
    pub fn reset(&mut self, fresh: Vec<P>) -> (r: Vec<GpuCommand>)
        requires
            old(self).wf(),
            old(self).sim().method() == SimulationMethod::Cpu ==> fresh.len() == old(self).sim().count(),
        ensures
            final(self).wf(),
            final(self).controls_view().gravity == 0,
            final(self).sim().count() == old(self).sim().count(),
            session_reset_to(*old(self), *final(self), fresh@, r@),
    {
        self.controls = Controls { gravity: 0, ..self.controls };
        self.simulation.reset(self.generation_mode, fresh)
    }

    /// Pauses a running simulation or resumes a paused one.
    pub fn toggle_pause(&mut self)
        requires
            old(self).wf(),
        ensures
            final(self).wf(),
            old(self).sim().paused_to(final(self).sim(), !old(self).sim().paused()),
            final(self).mode() == old(self).mode(),
            final(self).controls_view() == old(self).controls_view(),
            final(self).available_view() == old(self).available_view(),
    {
        let paused = self.simulation.is_paused();
        self.simulation.set_paused(!paused);
    }

    /// One frame's simulation step; `step` advances one particle of the host
    /// strategy with this frame's parameters.
    pub fn update<F: Fn(P) -> P>(&mut self, step: F) -> (r: Vec<GpuCommand>)
        requires
            old(self).wf(),
            forall|p: P| step.requires((p,)),
        ensures
            final(self).wf(),
            old(self).sim().updated(final(self).sim(), step, r@),
            final(self).mode() == old(self).mode(),
            final(self).controls_view() == old(self).controls_view(),
            final(self).available_view() == old(self).available_view(),
    {
        self.simulation.update(step)
    }
}

} // verus!
