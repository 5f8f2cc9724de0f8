use vstd::prelude::*;

use self::compute::{compute_updated, ComputeParticleSimulation};
use self::cpu::{cpu_resize_plan, cpu_resized, cpu_updated, overlay, CpuParticleSimulation};
use self::device::{
    fresh_len, ping_pong_updated, reset_plan, reset_state, resize_plan, resized, DeviceState,
};
use self::fragment::FragmentParticleSystem;
use self::transform_feedback::TransformFeedbackSimulation;


pub mod compute;
pub mod cpu;
pub mod device;
pub mod fragment;
pub mod transform_feedback;

verus! {

/// The execution strategy that advances the particle set.
#[derive(Debug, Clone, Copy, PartialEq, Eq, Structural)]
pub enum SimulationMethod {
    Cpu,
    ComputeShader,
    TransformFeedback,
    FragmentFallback,
}

/// The spatial distribution used to seed initial particle positions.
#[derive(Debug, Clone, Copy, PartialEq, Eq, Structural)]
pub enum SphereGeneration {
    Hollow,
    Filled,
}

/// One piece of device work that a strategy asks its host to perform.
///
/// A strategy never touches the device itself: each operation returns the
/// commands to record, in order, on the frame's command stream. "Records" are
/// particle records; offsets and lengths count records, not bytes.
#[derive(Debug, Clone, Copy, PartialEq, Eq, Structural)]
pub enum GpuCommand {
    /// Create a new set of particle buffers (one buffer, or both halves of a
    /// ping-pong pair), each holding `capacity` records, and rebuild every
    /// binding over them. The previous set is retired only after the commands
    /// that follow have been recorded.
    Allocate { capacity: u32 },
    /// Copy records `[0, count)` of half `source` of the previous set into
    /// every half of the current set.
    CarryOver { source: u32, count: u32 },
    /// Write the records that the generator gives for `len` particles in
    /// `mode`, starting at record `offset` of every half of the current set.
    WriteFresh { offset: u32, len: u32, mode: SphereGeneration },
    /// Write host records `[0, count)` at the start of the particle buffer.
    UploadHost { count: u32 },
    /// Write this frame's parameter block to its uniform buffer.
    WriteParams,
    /// Dispatch the update kernel over `workgroups` workgroups.
    Dispatch { workgroups: u32 },
    /// Run the update pass that reads half `source` and writes half `target`
    /// for the first `count` particles.
    PingPongPass { source: u32, target: u32, count: u32 },
}

/// Particles handled by one compute workgroup.
pub const WORKGROUP_SIZE: u32 = 256;

/// `a` divided by `b`, rounded up.
pub open spec fn ceil_div(a: int, b: int) -> int
    recommends
        b > 0,
{
    (a + b - 1) / b
}

/// Number of compute workgroups needed to cover `count` particles.
pub fn workgroup_count(count: u32) -> (r: u32)
    ensures
        r == ceil_div(count as int, WORKGROUP_SIZE as int),
        r as int * WORKGROUP_SIZE >= count,
        r == 0 || (r as int - 1) * WORKGROUP_SIZE < count,
{
    let q = count / WORKGROUP_SIZE;
    if count % WORKGROUP_SIZE == 0 {
        q
    } else {
        q + 1
    }
}

/// The active simulation strategy, swappable at run time. Every strategy
/// keeps the same protocol: a step is a no-op while paused, a resize keeps
/// the live particles and appends fresh ones, a reset regenerates the live
/// set in place.
pub enum ParticleSimulation<P> {
    Cpu(CpuParticleSimulation<P>),
    ComputeShader(ComputeParticleSimulation),
    TransformFeedback(TransformFeedbackSimulation),
    FragmentFallback(FragmentParticleSystem),
}

/// Particles a strategy starts with on a web target.
pub const WEB_PARTICLE_COUNT: u32 = 100_000;

/// Particles a strategy starts with on a native target.
pub const NATIVE_PARTICLE_COUNT: u32 = 1_000_000;

/// Picks the strategy a device supports: the compute one where compute
/// shaders with storage buffers are available, else the fragment fallback,
/// with the start-up particle count of the target, in hollow mode.
pub fn create_particle_system<P: Copy>(compute_supported: bool, is_web: bool) -> (r: (
    ParticleSimulation<P>,
    Vec<GpuCommand>,
))
    ensures
        r.0.wf(),
        r.0.method() == if compute_supported {
            SimulationMethod::ComputeShader
        } else {
            SimulationMethod::FragmentFallback
        },
        r.0.count() == if is_web { WEB_PARTICLE_COUNT } else { NATIVE_PARTICLE_COUNT },
        r.0.mode() == SphereGeneration::Hollow,
        !r.0.paused(),
        r.1@ == seq![
            GpuCommand::Allocate { capacity: r.0.count() },
            GpuCommand::WriteFresh { offset: 0, len: r.0.count(), mode: SphereGeneration::Hollow },
        ],
{
    let count = if is_web { WEB_PARTICLE_COUNT } else { NATIVE_PARTICLE_COUNT };
    let method = if compute_supported {
        SimulationMethod::ComputeShader
    } else {
        SimulationMethod::FragmentFallback
    };
    ParticleSimulation::new(method, count, SphereGeneration::Hollow, Vec::new())
}

/// The lifecycle view of a device-resident strategy; `None` for the host one.
pub open spec fn device_view<P>(sim: ParticleSimulation<P>) -> Option<DeviceState> {
    match sim {
        ParticleSimulation::Cpu(_) => None,
        ParticleSimulation::ComputeShader(s) => Some(s@),
        ParticleSimulation::TransformFeedback(s) => Some(s@),
        ParticleSimulation::FragmentFallback(s) => Some(s@),
    }
}

impl<P: Copy> ParticleSimulation<P> {
    pub open spec fn wf(&self) -> bool {
        match self {
            ParticleSimulation::Cpu(s) => s.wf(),
            ParticleSimulation::ComputeShader(s) => s.wf(),
            ParticleSimulation::TransformFeedback(s) => s.wf(),
            ParticleSimulation::FragmentFallback(s) => s.wf(),
        }
    }

    pub open spec fn method(&self) -> SimulationMethod {
        match self {
            ParticleSimulation::Cpu(_) => SimulationMethod::Cpu,
            ParticleSimulation::ComputeShader(_) => SimulationMethod::ComputeShader,
            ParticleSimulation::TransformFeedback(_) => SimulationMethod::TransformFeedback,
            ParticleSimulation::FragmentFallback(_) => SimulationMethod::FragmentFallback,
        }
    }

    pub open spec fn count(&self) -> u32 {
        match self {
            ParticleSimulation::Cpu(s) => s@.count,
            ParticleSimulation::ComputeShader(s) => s@.count,
            ParticleSimulation::TransformFeedback(s) => s@.count,
            ParticleSimulation::FragmentFallback(s) => s@.count,
        }
    }

    pub open spec fn paused(&self) -> bool {
        match self {
            ParticleSimulation::Cpu(s) => s@.paused,
            ParticleSimulation::ComputeShader(s) => s@.paused,
            ParticleSimulation::TransformFeedback(s) => s@.paused,
            ParticleSimulation::FragmentFallback(s) => s@.paused,
        }
    }

    pub open spec fn mode(&self) -> SphereGeneration {
        match self {
            ParticleSimulation::Cpu(s) => s@.mode,
            ParticleSimulation::ComputeShader(s) => s@.mode,
            ParticleSimulation::TransformFeedback(s) => s@.mode,
            ParticleSimulation::FragmentFallback(s) => s@.mode,
        }
    }

    /// The half that holds the authoritative particle data.
    pub open spec fn current(&self) -> u32 {
        match self {
            ParticleSimulation::Cpu(_) => 0,
            ParticleSimulation::ComputeShader(s) => s@.current,
            ParticleSimulation::TransformFeedback(s) => s@.current,
            ParticleSimulation::FragmentFallback(s) => s@.current,
        }
    }

    /// `t` is `self` with nothing changed.
    pub open spec fn same_view(&self, t: Self) -> bool {
        match (*self, t) {
            (ParticleSimulation::Cpu(a), ParticleSimulation::Cpu(b)) => b@ == a@,
            (ParticleSimulation::ComputeShader(a), ParticleSimulation::ComputeShader(b)) => b@ == a@,
            (ParticleSimulation::TransformFeedback(a), ParticleSimulation::TransformFeedback(b)) => b@ == a@,
            (ParticleSimulation::FragmentFallback(a), ParticleSimulation::FragmentFallback(b)) => b@ == a@,
            _ => false,
        }
    }

    /// `t` is `self` with only the pause flag set to `paused`.
    pub open spec fn paused_to(&self, t: Self, paused: bool) -> bool {
        match (*self, t) {
            (ParticleSimulation::Cpu(a), ParticleSimulation::Cpu(b)) => b@ == (cpu::CpuState { paused, ..a@ }),
            (ParticleSimulation::ComputeShader(a), ParticleSimulation::ComputeShader(b)) => b@ == (DeviceState { paused, ..a@ }),
            (ParticleSimulation::TransformFeedback(a), ParticleSimulation::TransformFeedback(b)) => b@ == (DeviceState { paused, ..a@ }),
            (ParticleSimulation::FragmentFallback(a), ParticleSimulation::FragmentFallback(b)) => b@ == (DeviceState { paused, ..a@ }),
            _ => false,
        }
    }

    /// `t` and `r` are what one update of `self` with `step` gives.
    pub open spec fn updated<F: Fn(P) -> P>(&self, t: Self, step: F, r: Seq<GpuCommand>) -> bool {
        match (*self, t) {
            (ParticleSimulation::Cpu(a), ParticleSimulation::Cpu(b)) => cpu_updated(a@, b@, step, r),
            (ParticleSimulation::ComputeShader(a), ParticleSimulation::ComputeShader(b)) => compute_updated(a@, b@, r),
            (ParticleSimulation::TransformFeedback(a), ParticleSimulation::TransformFeedback(b)) => ping_pong_updated(a@, b@, r),
            (ParticleSimulation::FragmentFallback(a), ParticleSimulation::FragmentFallback(b)) => ping_pong_updated(a@, b@, r),
            _ => false,
        }
    }

    /// `t` and `r` are what a resize of `self` to `n` in `mode` gives, with
    /// `fresh` as the generated particles that the host strategy takes.
    pub open spec fn resized_to(&self, t: Self, n: u32, mode: SphereGeneration, fresh: Seq<P>, r: Seq<GpuCommand>) -> bool {
        match (*self, t) {
            (ParticleSimulation::Cpu(a), ParticleSimulation::Cpu(b)) =>
                b@ == cpu_resized(a@, n, mode, fresh) && r == cpu_resize_plan(a@, n, fresh.len()),
            (ParticleSimulation::ComputeShader(a), ParticleSimulation::ComputeShader(b)) =>
                b@ == resized(a@, n, mode) && r == resize_plan(a@, n, mode),
            (ParticleSimulation::TransformFeedback(a), ParticleSimulation::TransformFeedback(b)) =>
                b@ == resized(a@, n, mode) && r == resize_plan(a@, n, mode),
            (ParticleSimulation::FragmentFallback(a), ParticleSimulation::FragmentFallback(b)) =>
                b@ == resized(a@, n, mode) && r == resize_plan(a@, n, mode),
            _ => false,
        }
    }

    /// `t` and `r` are what a reset of `self` in `mode` gives, with `fresh` as
    /// the generated live set that the host strategy takes.
    pub open spec fn reset_to(&self, t: Self, mode: SphereGeneration, fresh: Seq<P>, r: Seq<GpuCommand>) -> bool {
        match (*self, t) {
            (ParticleSimulation::Cpu(a), ParticleSimulation::Cpu(b)) =>
                b@ == (cpu::CpuState { particles: overlay(a@.particles, 0, fresh), mode, ..a@ })
                    && r == seq![GpuCommand::UploadHost { count: a@.count }],
            (ParticleSimulation::ComputeShader(a), ParticleSimulation::ComputeShader(b)) =>
                b@ == reset_state(a@, mode) && r == reset_plan(a@, mode),
            (ParticleSimulation::TransformFeedback(a), ParticleSimulation::TransformFeedback(b)) =>
                b@ == reset_state(a@, mode) && r == reset_plan(a@, mode),
            (ParticleSimulation::FragmentFallback(a), ParticleSimulation::FragmentFallback(b)) =>
                b@ == reset_state(a@, mode) && r == reset_plan(a@, mode),
            _ => false,
        }
    }

    /// A fresh strategy of kind `method` holding `particle_count` particles
    /// generated in `generation_mode`; the host strategy takes them as
    /// `particles`, the others have them written by the returned commands.
    pub fn new(
        method: SimulationMethod,
        particle_count: u32,
        generation_mode: SphereGeneration,
        particles: Vec<P>,
    ) -> (r: (Self, Vec<GpuCommand>))
        requires
            method == SimulationMethod::Cpu ==> particles.len() == particle_count,
        ensures
            r.0.wf(),
            r.0.method() == method,
            r.0.count() == particle_count,
            !r.0.paused(),
            r.0.mode() == generation_mode,
            r.0.current() == 0,
            method == SimulationMethod::Cpu ==> r.1@ == seq![
                GpuCommand::Allocate { capacity: particle_count },
                GpuCommand::UploadHost { count: particle_count },
            ],
            method != SimulationMethod::Cpu ==> r.1@ == seq![
                GpuCommand::Allocate { capacity: particle_count },
                GpuCommand::WriteFresh { offset: 0, len: particle_count, mode: generation_mode },
            ],
            match r.0 {
                ParticleSimulation::Cpu(s) => s@.particles == particles@,
                _ => device_view(r.0) == Some(DeviceState {
                    count: particle_count,
                    capacity: particle_count,
                    halves: if method == SimulationMethod::ComputeShader { 1u32 } else { 2u32 },
                    current: 0,
                    paused: false,
                    mode: generation_mode,
                }),
            },
    {
        match method {
            SimulationMethod::Cpu => {
                let (s, c) = CpuParticleSimulation::new(particle_count, generation_mode, particles);
                (ParticleSimulation::Cpu(s), c)
            },
            SimulationMethod::ComputeShader => {
                let (s, c) = ComputeParticleSimulation::new(particle_count, generation_mode);
                (ParticleSimulation::ComputeShader(s), c)
            },
            SimulationMethod::TransformFeedback => {
                let (s, c) = TransformFeedbackSimulation::new(particle_count, generation_mode);
                (ParticleSimulation::TransformFeedback(s), c)
            },
            SimulationMethod::FragmentFallback => {
                let (s, c) = FragmentParticleSystem::new(particle_count, generation_mode);
                (ParticleSimulation::FragmentFallback(s), c)
            },
        }
    }

    /// One simulation step; `step` advances one particle of the host strategy.
    pub fn update<F: Fn(P) -> P>(&mut self, step: F) -> (r: Vec<GpuCommand>)
        requires
            old(self).wf(),
            forall|p: P| step.requires((p,)),
        ensures
            final(self).wf(),
            old(self).updated(*final(self), step, r@),
    {
        match self {
            ParticleSimulation::Cpu(s) => s.update(step),
            ParticleSimulation::ComputeShader(s) => s.update(),
            ParticleSimulation::TransformFeedback(s) => s.update(),
            ParticleSimulation::FragmentFallback(s) => s.update(),
        }
    }

    /// Number of fresh particles that a resize to `new_count` in
    /// `generation_mode` writes.
    pub fn fresh_needed(&self, new_count: u32, generation_mode: SphereGeneration) -> (r: u32)
        ensures
            r == fresh_len(self.count(), self.mode(), new_count, generation_mode),
    {
        match self {
            ParticleSimulation::Cpu(s) => s.fresh_needed(new_count, generation_mode),
            ParticleSimulation::ComputeShader(s) => s.fresh_needed(new_count, generation_mode),
            ParticleSimulation::TransformFeedback(s) => s.fresh_needed(new_count, generation_mode),
            ParticleSimulation::FragmentFallback(s) => s.fresh_needed(new_count, generation_mode),
        }
    }

    /// Changes the live count and the generation mode. The host strategy
    /// takes the generated particles as `fresh`; the others ignore it.
    pub fn resize_buffer(
        &mut self,
        new_count: u32,
        generation_mode: SphereGeneration,
        fresh: Vec<P>,
    ) -> (r: Vec<GpuCommand>)
        requires
            old(self).wf(),
            old(self).method() == SimulationMethod::Cpu ==> fresh.len() == fresh_len(
                old(self).count(),
                old(self).mode(),
                new_count,
                generation_mode,
            ),
        ensures
            final(self).wf(),
            final(self).count() == new_count,
            final(self).mode() == generation_mode,
            final(self).paused() == old(self).paused(),
            old(self).resized_to(*final(self), new_count, generation_mode, fresh@, r@),
    {
        match self {
            ParticleSimulation::Cpu(s) => s.resize_buffer(new_count, generation_mode, fresh),
            ParticleSimulation::ComputeShader(s) => s.resize_buffer(new_count, generation_mode),
            ParticleSimulation::TransformFeedback(s) => s.resize_buffer(new_count, generation_mode),
            ParticleSimulation::FragmentFallback(s) => s.resize_buffer(new_count, generation_mode),
        }
    }

    /// Regenerates the live set in `generation_mode`, keeping the count. The
    /// host strategy takes the generated particles as `fresh`.
    pub fn reset(&mut self, generation_mode: SphereGeneration, fresh: Vec<P>) -> (r: Vec<GpuCommand>)
        requires
            old(self).wf(),
            old(self).method() == SimulationMethod::Cpu ==> fresh.len() == old(self).count(),
        ensures
            final(self).wf(),
            final(self).count() == old(self).count(),
            final(self).mode() == generation_mode,
            final(self).paused() == old(self).paused(),
            final(self).current() == 0,
            old(self).reset_to(*final(self), generation_mode, fresh@, r@),
    {
        match self {
            ParticleSimulation::Cpu(s) => s.reset(generation_mode, fresh),
            ParticleSimulation::ComputeShader(s) => s.reset(generation_mode),
            ParticleSimulation::TransformFeedback(s) => s.reset(generation_mode),
            ParticleSimulation::FragmentFallback(s) => s.reset(generation_mode),
        }
    }

    /// The buffer (or half of a pair) holding the authoritative particle data.
    pub fn get_particle_buffer(&self) -> (r: u32)
        requires
            self.wf(),
        ensures
            r == self.current(),
    {
        match self {
            ParticleSimulation::Cpu(s) => s.get_particle_buffer(),
            ParticleSimulation::ComputeShader(s) => s.get_particle_buffer(),
            ParticleSimulation::TransformFeedback(s) => s.get_particle_buffer(),
            ParticleSimulation::FragmentFallback(s) => s.get_particle_buffer(),
        }
    }

    pub fn get_method(&self) -> (r: SimulationMethod)
        ensures
            r == self.method(),
    {
        match self {
            ParticleSimulation::Cpu(s) => s.get_method(),
            ParticleSimulation::ComputeShader(s) => s.get_method(),
            ParticleSimulation::TransformFeedback(s) => s.get_method(),
            ParticleSimulation::FragmentFallback(s) => s.get_method(),
        }
    }

    pub fn get_particle_count(&self) -> (r: u32)
        ensures
            r == self.count(),
    {
        match self {
            ParticleSimulation::Cpu(s) => s.get_particle_count(),
            ParticleSimulation::ComputeShader(s) => s.get_particle_count(),
            ParticleSimulation::TransformFeedback(s) => s.get_particle_count(),
            ParticleSimulation::FragmentFallback(s) => s.get_particle_count(),
        }
    }

    pub fn generation_mode(&self) -> (r: SphereGeneration)
        ensures
            r == self.mode(),
    {
        match self {
            ParticleSimulation::Cpu(s) => s.generation_mode(),
            ParticleSimulation::ComputeShader(s) => s.generation_mode(),
            ParticleSimulation::TransformFeedback(s) => s.generation_mode(),
            ParticleSimulation::FragmentFallback(s) => s.generation_mode(),
        }
    }

    pub fn is_paused(&self) -> (r: bool)
        ensures
            r == self.paused(),
    {
        match self {
            ParticleSimulation::Cpu(s) => s.is_paused(),
            ParticleSimulation::ComputeShader(s) => s.is_paused(),
            ParticleSimulation::TransformFeedback(s) => s.is_paused(),
            ParticleSimulation::FragmentFallback(s) => s.is_paused(),
        }
    }

    /// Pauses or resumes; nothing else changes.
    pub fn set_paused(&mut self, paused: bool)
        requires
            old(self).wf(),
        ensures
            final(self).wf(),
            final(self).paused() == paused,
            final(self).method() == old(self).method(),
            final(self).count() == old(self).count(),
            final(self).mode() == old(self).mode(),
            final(self).current() == old(self).current(),
            old(self).paused_to(*final(self), paused),
    {
        match self {
            ParticleSimulation::Cpu(s) => s.set_paused(paused),
            ParticleSimulation::ComputeShader(s) => s.set_paused(paused),
            ParticleSimulation::TransformFeedback(s) => s.set_paused(paused),
            ParticleSimulation::FragmentFallback(s) => s.set_paused(paused),
        }
    }
}

} // verus!
