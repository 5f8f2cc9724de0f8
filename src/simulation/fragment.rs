use vstd::prelude::*;

use super::device::{
    fresh_len, ping_pong_updated, reset_plan, reset_state, resize_plan, resized, state_wf,
    DeviceParticles, DeviceState,
};
use super::{ceil_div, GpuCommand, SimulationMethod, SphereGeneration};

verus! {

/// Particles encoded as texels of a pair of floating-point textures: each step
/// a full-screen pass reads one texture and writes the advanced particles into
/// the other, and the textures trade roles. Each texture is the smallest
/// near-square grid that holds the capacity.
pub struct FragmentParticleSystem {
    particles: DeviceParticles,
}

impl View for FragmentParticleSystem {
    type V = DeviceState;

    closed spec fn view(&self) -> DeviceState {
        self.particles@
    }
}

impl FragmentParticleSystem {
    pub open spec fn wf(&self) -> bool {
        state_wf(self@) && self@.halves == 2
    }

    /// A pair of textures both holding `initial_particle_count` fresh particles;
    /// half 0 is current.
    pub fn new(initial_particle_count: u32, generation_mode: SphereGeneration) -> (r: (
        Self,
        Vec<GpuCommand>,
    ))
        ensures
            r.0.wf(),
            r.0@ == (DeviceState {
                count: initial_particle_count,
                capacity: initial_particle_count,
                halves: 2,
                current: 0,
                paused: false,
                mode: generation_mode,
            }),
            r.1@ == seq![
                GpuCommand::Allocate { capacity: initial_particle_count },
                GpuCommand::WriteFresh { offset: 0, len: initial_particle_count, mode: generation_mode },
            ],
    {
        let (particles, cmds) = DeviceParticles::new(initial_particle_count, 2, generation_mode);
        let sim = FragmentParticleSystem { particles };
        assert(sim@ == particles@);
        (sim, cmds)
    }

    /// One simulation step: upload the parameters, run the full-screen pass
    /// from the current texture into the other, then make the other current.
    /// The flip comes after the pass is recorded. Nothing while paused or empty.
    pub fn update(&mut self) -> (r: Vec<GpuCommand>)
        requires
            old(self).wf(),
        ensures
            final(self).wf(),
            ping_pong_updated(old(self)@, final(self)@, r@),
    {
        let count = self.particles.count();
        if self.particles.is_paused() || count == 0 {
            return Vec::new();
        }
        let source = self.particles.current();
        let target = 1 - source;
        let cmds = vec![GpuCommand::WriteParams, GpuCommand::PingPongPass { source, target, count }];
        self.particles.flip();
        cmds
    }

    /// Number of fresh particles that `resize_buffer(new_count, generation_mode)` writes.
    pub fn fresh_needed(&self, new_count: u32, generation_mode: SphereGeneration) -> (r: u32)
        ensures
            r == fresh_len(self@.count, self@.mode, new_count, generation_mode),
    {
        self.particles.fresh_needed(new_count, generation_mode)
    }

    pub fn resize_buffer(&mut self, new_count: u32, generation_mode: SphereGeneration) -> (r: Vec<
        GpuCommand,
    >)
        requires
            old(self).wf(),
        ensures
            final(self).wf(),
            final(self)@ == resized(old(self)@, new_count, generation_mode),
            r@ == resize_plan(old(self)@, new_count, generation_mode),
    {
        self.particles.resize(new_count, generation_mode)
    }

    /// Writes a fresh live set into both textures and makes half 0 current.
    pub fn reset(&mut self, generation_mode: SphereGeneration) -> (r: Vec<GpuCommand>)
        requires
            old(self).wf(),
        ensures
            final(self).wf(),
            final(self)@ == reset_state(old(self)@, generation_mode),
            r@ == reset_plan(old(self)@, generation_mode),
    {
        self.particles.reset(generation_mode)
    }

    /// The texture holding the most recently written particle data.
    pub fn get_particle_buffer(&self) -> (r: u32)
        requires
            self.wf(),
        ensures
            r == self@.current,
            r < 2,
    {
        self.particles.current()
    }

    pub fn get_method(&self) -> (r: SimulationMethod)
        ensures
            r == SimulationMethod::FragmentFallback,
    {
        SimulationMethod::FragmentFallback
    }

    pub fn get_particle_count(&self) -> (r: u32)
        ensures
            r == self@.count,
    {
        self.particles.count()
    }

    pub fn capacity(&self) -> (r: u32)
        ensures
            r == self@.capacity,
    {
        self.particles.capacity()
    }

    pub fn generation_mode(&self) -> (r: SphereGeneration)
        ensures
            r == self@.mode,
    {
        self.particles.mode()
    }

    pub fn is_paused(&self) -> (r: bool)
        ensures
            r == self@.paused,
    {
        self.particles.is_paused()
    }

    pub fn set_paused(&mut self, paused: bool)
        requires
            old(self).wf(),
        ensures
            final(self).wf(),
            final(self)@ == (DeviceState { paused, ..old(self)@ }),
    {
        self.particles.set_paused(paused)
    }
    /// Width and height of each particle texture: `width` is the rounded-up
    /// square root of the capacity and `height` the rows of `width` texels
    /// needed to hold it.
    pub fn texture_size(&self) -> (r: (u32, u32))
        ensures
            is_ceil_sqrt(self@.capacity as int, r.0 as int),
            r.0 == 0 ==> r.1 == 0,
            r.0 > 0 ==> r.1 == ceil_div(self@.capacity as int, r.0 as int),
    {
        texture_size(self.particles.capacity())
    }
}

/// `w` is the square root of `n` rounded up.
pub open spec fn is_ceil_sqrt(n: int, w: int) -> bool {
    &&& w >= 0
    &&& w * w >= n
    &&& w == 0 || (w - 1) * (w - 1) < n
}

/// The rounded-up square root of `n`.
pub fn ceil_sqrt(n: u32) -> (w: u32)
    ensures
        is_ceil_sqrt(n as int, w as int),
{
    let mut w: u64 = 0;
    while w * w < n as u64
        invariant
            w <= 65536,
            w * w <= 65536 * 65536,
            w == 0 || (w - 1) * (w - 1) < n,
        decreases 65536 - w,
    {
        assert(w < 65536) by (nonlinear_arith)
            requires
                w * w < n,
                n < 0x1_0000_0000,
        {
        }
        w = w + 1;
        assert(w * w <= 65536 * 65536) by (nonlinear_arith)
            requires
                w <= 65536,
        {
        }
    }
    w as u32
}

/// Texture grid for `n` particles: `ceil(sqrt(n))` columns and as many rows
/// as hold `n` texels; an empty grid for no particles.
pub fn texture_size(n: u32) -> (r: (u32, u32))
    ensures
        is_ceil_sqrt(n as int, r.0 as int),
        r.0 == 0 ==> r.1 == 0,
        r.0 > 0 ==> r.1 == ceil_div(n as int, r.0 as int),
{
    let width = ceil_sqrt(n);
    if width == 0 {
        return (0, 0);
    }
    let height = (n as u64 + width as u64 - 1) / width as u64;
    assert(height <= n) by (nonlinear_arith)
        requires
            width >= 1,
            height == (n + width - 1) / width as int,
            n >= 1 || width * width >= n,
    {
    }
    (width, height as u32)
}

} // verus!
