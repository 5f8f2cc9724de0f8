use vstd::prelude::*;

use super::device::{fresh_len, fresh_offset};
use super::{GpuCommand, SimulationMethod, SphereGeneration};

verus! {

/// What the host-side particle store is: every record ever generated, of
/// which the first `count` are live.
pub struct CpuState<P> {
    pub particles: Seq<P>,
    pub count: u32,
    pub paused: bool,
    pub mode: SphereGeneration,
}

pub open spec fn cpu_wf<P>(s: CpuState<P>) -> bool {
    &&& s.count <= s.particles.len()
    &&& s.particles.len() <= u32::MAX
}

/// `host` with `fresh` written over it from index `offset` on, growing it
/// where `fresh` runs past its end.
pub open spec fn overlay<P>(host: Seq<P>, offset: int, fresh: Seq<P>) -> Seq<P> {
    let len = if offset + fresh.len() > host.len() {
        offset + fresh.len()
    } else {
        host.len() as int
    };
    Seq::new(
        len as nat,
        |i: int|
            if offset <= i < offset + fresh.len() {
                fresh[i - offset]
            } else {
                host[i]
            },
    )
}

/// The store after a resize to `n` in `mode` that took `fresh` from the generator.
pub open spec fn cpu_resized<P>(s: CpuState<P>, n: u32, mode: SphereGeneration, fresh: Seq<P>) -> CpuState<P> {
    CpuState {
        particles: overlay(s.particles, fresh_offset(s.count, n) as int, fresh),
        count: n,
        mode,
        ..s
    }
}

/// The device work of a resize: a larger buffer when the store outgrows the
/// current one, and an upload of the live set whenever fresh particles came in.
pub open spec fn cpu_resize_plan<P>(s: CpuState<P>, n: u32, fresh_count: nat) -> Seq<GpuCommand> {
    if n > s.particles.len() {
        seq![GpuCommand::Allocate { capacity: n }, GpuCommand::UploadHost { count: n }]
    } else if fresh_count > 0 {
        seq![GpuCommand::UploadHost { count: n }]
    } else {
        seq![]
    }
}

/// Whether an update does any work: not while paused, nor with no particles.
pub open spec fn cpu_runs_update<P>(s: CpuState<P>) -> bool {
    !s.paused && s.count > 0
}

/// What one update does to the store `s`, giving `t` and the commands `r`:
/// each live particle `p` becomes `step(p)`, the rest of the store stays, and
/// the live set is uploaded; while paused or empty, nothing at all.
pub open spec fn cpu_updated<P, F: Fn(P) -> P>(
    s: CpuState<P>,
    t: CpuState<P>,
    step: F,
    r: Seq<GpuCommand>,
) -> bool {
    if cpu_runs_update(s) {
        &&& t.particles.len() == s.particles.len()
        &&& forall|i: int| 0 <= i < s.count ==> step.ensures((s.particles[i],), #[trigger] t.particles[i])
        &&& forall|i: int| s.count <= i < s.particles.len() ==> t.particles[i] == s.particles[i]
        &&& t.count == s.count
        &&& t.paused == s.paused
        &&& t.mode == s.mode
        &&& r == seq![GpuCommand::UploadHost { count: s.count }]
    } else {
        t == s && r == Seq::<GpuCommand>::empty()
    }
}

/// Writes `fresh` over `v` from index `offset` on, appending past its end.
fn overlay_into<P: Copy>(v: &mut Vec<P>, offset: usize, fresh: &Vec<P>)
    requires
        offset <= old(v).len(),
        offset + fresh.len() <= u32::MAX,
    ensures
        final(v)@ == overlay(old(v)@, offset as int, fresh@),
{
    let ghost host = v@;
    let mut j: usize = 0;
    while j < fresh.len()
        invariant
            offset <= host.len(),
            offset + fresh.len() <= u32::MAX,
            j <= fresh.len(),
            v@.len() == if offset + j > host.len() { offset + j } else { host.len() as int },
            forall|i: int|
                0 <= i < v@.len() ==> v@[i] == if offset <= i < offset + j {
                    fresh@[i - offset]
                } else {
                    host[i]
                },
        decreases fresh.len() - j,
    {
        let idx = offset + j;
        if idx < v.len() {
            v.set(idx, fresh[j]);
        } else {
            v.push(fresh[j]);
        }
        j = j + 1;
    }
    assert(v@ =~= overlay(host, offset as int, fresh@));
}

/// Particles kept on the host and advanced there one by one; after each step
/// the live set is uploaded to the buffer that the renderer reads.
pub struct CpuParticleSimulation<P> {
    particles: Vec<P>,
    particle_count: u32,
    paused: bool,
    generation_mode: SphereGeneration,
}

impl<P> View for CpuParticleSimulation<P> {
    type V = CpuState<P>;

    closed spec fn view(&self) -> CpuState<P> {
        CpuState {
            particles: self.particles@,
            count: self.particle_count,
            paused: self.paused,
            mode: self.generation_mode,
        }
    }
}

impl<P: Copy> CpuParticleSimulation<P> {
    pub open spec fn wf(&self) -> bool {
        cpu_wf(self@)
    }

    /// A store of the `initial_particle_count` generated particles `particles`,
    /// all live, and a buffer of the same size holding them.
    pub fn new(
        initial_particle_count: u32,
        generation_mode: SphereGeneration,
        particles: Vec<P>,
    ) -> (r: (Self, Vec<GpuCommand>))
        requires
            particles.len() == initial_particle_count,
        ensures
            r.0.wf(),
            r.0@ == (CpuState {
                particles: particles@,
                count: initial_particle_count,
                paused: false,
                mode: generation_mode,
            }),
            r.1@ == seq![
                GpuCommand::Allocate { capacity: initial_particle_count },
                GpuCommand::UploadHost { count: initial_particle_count },
            ],
    {
        let sim = CpuParticleSimulation {
            particles,
            particle_count: initial_particle_count,
            paused: false,
            generation_mode,
        };
        let cmds = vec![
            GpuCommand::Allocate { capacity: initial_particle_count },
            GpuCommand::UploadHost { count: initial_particle_count },
        ];
        (sim, cmds)
    }

    /// One simulation step, as `cpu_updated` describes it.
    pub fn update<F: Fn(P) -> P>(&mut self, step: F) -> (r: Vec<GpuCommand>)
        requires
            old(self).wf(),
            forall|p: P| step.requires((p,)),
        ensures
            final(self).wf(),
            cpu_updated(old(self)@, final(self)@, step, r@),
    {
        if self.paused || self.particle_count == 0 {
            return Vec::new();
        }
        let n = self.particle_count as usize;
        let ghost before = self.particles@;
        let mut i: usize = 0;
        while i < n
            invariant
                n == self.particle_count,
                self.paused == old(self).paused,
                self.generation_mode == old(self).generation_mode,
                before == old(self).particles@,
                n <= before.len(),
                i <= n,
                self.particles@.len() == before.len(),
                forall|k: int| 0 <= k < i ==> step.ensures((before[k],), self.particles@[k]),
                forall|k: int| i <= k < before.len() ==> self.particles@[k] == before[k],
                forall|p: P| step.requires((p,)),
            decreases n - i,
        {
            let p = self.particles[i];
            let q = step(p);
            self.particles.set(i, q);
            i = i + 1;
        }
        let r = vec![GpuCommand::UploadHost { count: self.particle_count }];
        assert(r@ =~= seq![GpuCommand::UploadHost { count: old(self)@.count }]);
        r
    }

    /// Number of fresh particles that `resize_buffer(new_count, generation_mode, ..)` takes.
    pub fn fresh_needed(&self, new_count: u32, generation_mode: SphereGeneration) -> (r: u32)
        ensures
            r == fresh_len(self@.count, self@.mode, new_count, generation_mode),
    {
        if new_count > self.particle_count {
            new_count - self.particle_count
        } else if new_count == self.particle_count && generation_mode != self.generation_mode {
            new_count
        } else {
            0
        }
    }

    /// Changes the live count to `new_count` and the generation mode to
    /// `generation_mode`. Growing keeps the live particles and places `fresh`
    /// after them; a change of mode alone replaces the live set by `fresh`;
    /// shrinking keeps the store and only lowers the count.
    pub fn resize_buffer(
        &mut self,
        new_count: u32,
        generation_mode: SphereGeneration,
        fresh: Vec<P>,
    ) -> (r: Vec<GpuCommand>)
        requires
            old(self).wf(),
            fresh.len() == fresh_len(old(self)@.count, old(self)@.mode, new_count, generation_mode),
        ensures
            final(self).wf(),
            final(self)@ == cpu_resized(old(self)@, new_count, generation_mode, fresh@),
            r@ == cpu_resize_plan(old(self)@, new_count, fresh@.len()),
    {
        let offset: u32 = if new_count > self.particle_count { self.particle_count } else { 0 };
        let grows = new_count as usize > self.particles.len();
        overlay_into(&mut self.particles, offset as usize, &fresh);
        self.particle_count = new_count;
        self.generation_mode = generation_mode;
        if grows {
            vec![GpuCommand::Allocate { capacity: new_count }, GpuCommand::UploadHost { count: new_count }]
        } else if fresh.len() > 0 {
            vec![GpuCommand::UploadHost { count: new_count }]
        } else {
            Vec::new()
        }
    }

    /// Replaces the live set by `fresh`, generated for the same count in
    /// `generation_mode`, and uploads it.
    pub fn reset(&mut self, generation_mode: SphereGeneration, fresh: Vec<P>) -> (r: Vec<GpuCommand>)
        requires
            old(self).wf(),
            fresh.len() == old(self)@.count,
        ensures
            final(self).wf(),
            final(self)@ == (CpuState {
                particles: overlay(old(self)@.particles, 0, fresh@),
                mode: generation_mode,
                ..old(self)@
            }),
            r@ == seq![GpuCommand::UploadHost { count: old(self)@.count }],
    {
        overlay_into(&mut self.particles, 0, &fresh);
        self.generation_mode = generation_mode;
        vec![GpuCommand::UploadHost { count: self.particle_count }]
    }

    /// The whole host store; its first `get_particle_count()` records are live.
    pub fn particles(&self) -> (r: &Vec<P>)
        ensures
            r@ == self@.particles,
    {
        &self.particles
    }

    /// The device buffer the renderer reads (the only one).
    pub fn get_particle_buffer(&self) -> (r: u32)
        ensures
            r == 0,
    {
        0
    }

    pub fn get_method(&self) -> (r: SimulationMethod)
        ensures
            r == SimulationMethod::Cpu,
    {
        SimulationMethod::Cpu
    }

    pub fn get_particle_count(&self) -> (r: u32)
        ensures
            r == self@.count,
    {
        self.particle_count
    }

    pub fn generation_mode(&self) -> (r: SphereGeneration)
        ensures
            r == self@.mode,
    {
        self.generation_mode
    }

    pub fn is_paused(&self) -> (r: bool)
        ensures
            r == self@.paused,
    {
        self.paused
    }

    pub fn set_paused(&mut self, paused: bool)
        requires
            old(self).wf(),
        ensures
            final(self).wf(),
            final(self)@ == (CpuState { paused, ..old(self)@ }),
    {
        self.paused = paused;
    }
}

} // verus!
