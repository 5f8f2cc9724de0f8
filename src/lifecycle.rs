//! Laws of the strategy protocol that span several operations.
use vstd::prelude::*;

use crate::session::{session_reset_to, SimulationSession};
use crate::simulation::cpu::{cpu_resized, cpu_wf, CpuState};
use crate::simulation::device::{
    fresh_len, other_half, ping_pong_updated, resize_plan, resized, runs_update, state_wf, DeviceState,
};
use crate::simulation::{GpuCommand, ParticleSimulation, SimulationMethod, SphereGeneration};

verus! {

/// Growing the host store from `s.count` to `n` keeps every live particle as
/// it was and places the fresh particles right after them.
pub proof fn lemma_host_grow_keeps_live_prefix<P>(
    s: CpuState<P>,
    n: u32,
    mode: SphereGeneration,
    fresh: Seq<P>,
)
    requires
        cpu_wf(s),
        n > s.count,
        fresh.len() == fresh_len(s.count, s.mode, n, mode),
    ensures
        ({
            let t = cpu_resized(s, n, mode, fresh);
            &&& t.count == n
            &&& t.particles.len() >= n
            &&& forall|i: int| 0 <= i < s.count ==> t.particles[i] == s.particles[i]
            &&& forall|i: int| s.count <= i < n ==> t.particles[i] == fresh[i - s.count]
        }),
{
}

/// Growing a device store from `s.count` to `n` writes fresh particles into
/// records `[s.count, n)` only; when it needs a larger set of buffers, the
/// live records `[0, s.count)` are first carried over from the current half.
pub proof fn lemma_device_grow_keeps_live_prefix(s: DeviceState, n: u32, mode: SphereGeneration)
    requires
        state_wf(s),
        n > s.count,
    ensures
        ({
            let plan = resize_plan(s, n, mode);
            let t = resized(s, n, mode);
            &&& t.count == n
            &&& t.capacity >= n
            &&& plan.last() == GpuCommand::WriteFresh { offset: s.count, len: (n - s.count) as u32, mode }
            &&& n > s.capacity ==> plan == seq![
                GpuCommand::Allocate { capacity: n },
                GpuCommand::CarryOver { source: s.current, count: s.count },
                plan.last(),
            ]
            &&& n <= s.capacity ==> plan == seq![plan.last()]
        }),
{
}

/// Resizing any strategy from `a.count()` live particles up to `n` keeps those
/// particles and generates only the ones added: on the host, the first
/// `a.count()` records stay and `fresh` follows them; on the device, the only
/// fresh write covers `[a.count(), n)`, after the live records are carried
/// over into any new buffers.
pub proof fn lemma_resize_grow_keeps_prefix<P: Copy>(
    a: ParticleSimulation<P>,
    b: ParticleSimulation<P>,
    n: u32,
    mode: SphereGeneration,
    fresh: Seq<P>,
    r: Seq<GpuCommand>,
)
    requires
        a.wf(),
        n > a.count(),
        a.method() == SimulationMethod::Cpu ==> fresh.len() == fresh_len(a.count(), a.mode(), n, mode),
        a.resized_to(b, n, mode, fresh, r),
    ensures
        b.count() == n,
        match (a, b) {
            (ParticleSimulation::Cpu(x), ParticleSimulation::Cpu(y)) => {
                &&& y@.particles.len() >= n
                &&& forall|i: int| 0 <= i < x@.count ==> y@.particles[i] == x@.particles[i]
                &&& forall|i: int| x@.count <= i < n ==> y@.particles[i] == fresh[i - x@.count]
            },
            _ => r.last() == GpuCommand::WriteFresh {
                offset: a.count(),
                len: (n - a.count()) as u32,
                mode,
            },
        },
{
    match (a, b) {
        (ParticleSimulation::Cpu(x), ParticleSimulation::Cpu(_)) => {
            lemma_host_grow_keeps_live_prefix(x@, n, mode, fresh);
        },
        (ParticleSimulation::ComputeShader(x), ParticleSimulation::ComputeShader(_)) => {
            lemma_device_grow_keeps_live_prefix(x@, n, mode);
        },
        (ParticleSimulation::TransformFeedback(x), ParticleSimulation::TransformFeedback(_)) => {
            lemma_device_grow_keeps_live_prefix(x@, n, mode);
        },
        (ParticleSimulation::FragmentFallback(x), ParticleSimulation::FragmentFallback(_)) => {
            lemma_device_grow_keeps_live_prefix(x@, n, mode);
        },
        _ => {},
    }
}

/// After a reset, gravity is zero whatever it was, and the live set is the
/// freshly generated one: on the host the first `count` records are `fresh`;
/// on the device the whole live range is rewritten from the generator.
pub proof fn lemma_reset_clears_gravity_and_regenerates<P: Copy>(
    a: SimulationSession<P>,
    b: SimulationSession<P>,
    fresh: Seq<P>,
    r: Seq<GpuCommand>,
)
    requires
        a.wf(),
        a.sim().method() == SimulationMethod::Cpu ==> fresh.len() == a.sim().count(),
        session_reset_to(a, b, fresh, r),
    ensures
        b.controls_view().gravity == 0,
        b.sim().count() == a.sim().count(),
        match b.sim() {
            ParticleSimulation::Cpu(y) => forall|i: int|
                0 <= i < a.sim().count() ==> y@.particles[i] == fresh[i],
            _ => r == seq![
                GpuCommand::WriteFresh { offset: 0, len: a.sim().count(), mode: a.mode() },
            ],
        },
{
}

/// However many updates run while a strategy is paused, none of them changes
/// the strategy or issues any device work.
pub proof fn lemma_paused_updates_change_nothing<P: Copy, F: Fn(P) -> P>(
    states: Seq<ParticleSimulation<P>>,
    cmds: Seq<Seq<GpuCommand>>,
    step: F,
)
    requires
        states.len() == cmds.len() + 1,
        states[0].paused(),
        forall|k: int| 0 <= k < cmds.len() ==> #[trigger] states[k].updated(states[k + 1], step, cmds[k]),
    ensures
        forall|k: int| 0 <= k < states.len() ==> states[0].same_view(#[trigger] states[k]),
        forall|k: int| 0 <= k < cmds.len() ==> #[trigger] cmds[k] == Seq::<GpuCommand>::empty(),
    decreases cmds.len(),
{
    if cmds.len() > 0 {
        let m = cmds.len() - 1;
        lemma_paused_updates_change_nothing(states.take(m + 1), cmds.take(m), step);
        assert(states.take(m + 1)[m] == states[m]);
        assert(states[0].same_view(states[m]));
        assert(states[m].updated(states[m + 1], step, cmds[m]));
        assert forall|k: int| 0 <= k < states.len() implies states[0].same_view(#[trigger] states[k]) by {
            if k < m + 1 {
                assert(states.take(m + 1)[k] == states[k]);
            }
        }
        assert forall|k: int| 0 <= k < cmds.len() implies #[trigger] cmds[k] == Seq::<GpuCommand>::empty() by {
            if k < m {
                assert(cmds.take(m)[k] == cmds[k]);
            }
        }
    }
}

/// After an update of a ping-pong pair, the half the renderer reads is the
/// one the update's pass wrote, and the pass read the half that was current
/// before: the flip never runs ahead of the pass.
pub proof fn lemma_current_half_is_last_written(s: DeviceState, t: DeviceState, r: Seq<GpuCommand>)
    requires
        state_wf(s),
        s.halves == 2,
        runs_update(s),
        ping_pong_updated(s, t, r),
    ensures
        r.last() == (GpuCommand::PingPongPass { source: s.current, target: t.current, count: s.count }),
        t.current != s.current,
        t.current < 2,
{
    assert(other_half(s) == 1 - s.current);
}

} // verus!
