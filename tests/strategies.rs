use particle_simulation::simulation::compute::ComputeParticleSimulation;
use particle_simulation::simulation::cpu::CpuParticleSimulation;
use particle_simulation::simulation::fragment::{ceil_sqrt, texture_size, FragmentParticleSystem};
use particle_simulation::simulation::transform_feedback::TransformFeedbackSimulation;
use particle_simulation::simulation::{
    create_particle_system, workgroup_count, GpuCommand, ParticleSimulation, SimulationMethod,
    SphereGeneration,
};

fn ids(from: u32, to: u32) -> Vec<u32> {
    (from..to).collect()
}

#[test]
fn workgroups_round_up() {
    assert_eq!(workgroup_count(0), 0);
    assert_eq!(workgroup_count(1), 1);
    assert_eq!(workgroup_count(256), 1);
    assert_eq!(workgroup_count(257), 2);
    assert_eq!(workgroup_count(1_000_000), 3907);
    assert_eq!(workgroup_count(u32::MAX), 16_777_216);
}

#[test]
fn texture_grid_is_near_square() {
    assert_eq!(texture_size(0), (0, 0));
    assert_eq!(texture_size(1), (1, 1));
    assert_eq!(texture_size(2), (2, 1));
    assert_eq!(texture_size(5), (3, 2));
    assert_eq!(texture_size(100_000), (317, 316));
    assert_eq!(texture_size(1_000_000), (1000, 1000));
    assert_eq!(texture_size(u32::MAX), (65536, 65536));
    assert_eq!(ceil_sqrt(99_856), 316);
    assert_eq!(ceil_sqrt(99_857), 317);
}

#[test]
fn cpu_new_uploads_everything() {
    let (sim, cmds) = CpuParticleSimulation::new(3, SphereGeneration::Hollow, ids(0, 3));
    assert_eq!(sim.get_particle_count(), 3);
    assert_eq!(sim.particles(), &vec![0, 1, 2]);
    assert!(!sim.is_paused());
    assert_eq!(sim.get_method(), SimulationMethod::Cpu);
    assert_eq!(
        cmds,
        vec![GpuCommand::Allocate { capacity: 3 }, GpuCommand::UploadHost { count: 3 }]
    );
}

#[test]
fn cpu_update_steps_live_particles_only() {
    let (mut sim, _) = CpuParticleSimulation::new(4, SphereGeneration::Hollow, ids(0, 4));
    sim.resize_buffer(2, SphereGeneration::Hollow, vec![]);
    let cmds = sim.update(|p: u32| p + 10);
    assert_eq!(sim.particles(), &vec![10, 11, 2, 3]);
    assert_eq!(cmds, vec![GpuCommand::UploadHost { count: 2 }]);
}

#[test]
fn cpu_paused_update_changes_nothing() {
    let (mut sim, _) = CpuParticleSimulation::new(3, SphereGeneration::Filled, ids(5, 8));
    sim.set_paused(true);
    for _ in 0..10 {
        let cmds = sim.update(|p: u32| p * 2);
        assert!(cmds.is_empty());
    }
    assert_eq!(sim.particles(), &vec![5, 6, 7]);
    assert!(sim.is_paused());
    sim.set_paused(false);
    sim.update(|p: u32| p * 2);
    assert_eq!(sim.particles(), &vec![10, 12, 14]);
}

#[test]
fn cpu_grow_keeps_advanced_prefix() {
    let (mut sim, _) = CpuParticleSimulation::new(2, SphereGeneration::Hollow, ids(0, 2));
    sim.update(|p: u32| p + 100);
    assert_eq!(sim.fresh_needed(5, SphereGeneration::Hollow), 3);
    let cmds = sim.resize_buffer(5, SphereGeneration::Hollow, vec![7, 8, 9]);
    assert_eq!(sim.particles(), &vec![100, 101, 7, 8, 9]);
    assert_eq!(sim.get_particle_count(), 5);
    assert_eq!(
        cmds,
        vec![GpuCommand::Allocate { capacity: 5 }, GpuCommand::UploadHost { count: 5 }]
    );
}

#[test]
fn cpu_regrow_within_store_takes_fresh_tail() {
    let (mut sim, _) = CpuParticleSimulation::new(4, SphereGeneration::Hollow, ids(0, 4));
    let shrink = sim.resize_buffer(1, SphereGeneration::Hollow, vec![]);
    assert!(shrink.is_empty());
    assert_eq!(sim.get_particle_count(), 1);
    assert_eq!(sim.fresh_needed(3, SphereGeneration::Hollow), 2);
    let cmds = sim.resize_buffer(3, SphereGeneration::Hollow, vec![50, 51]);
    assert_eq!(sim.particles(), &vec![0, 50, 51, 3]);
    assert_eq!(cmds, vec![GpuCommand::UploadHost { count: 3 }]);
}

#[test]
fn cpu_mode_change_alone_regenerates() {
    let (mut sim, _) = CpuParticleSimulation::new(2, SphereGeneration::Hollow, ids(0, 2));
    assert_eq!(sim.fresh_needed(2, SphereGeneration::Hollow), 0);
    assert_eq!(sim.fresh_needed(2, SphereGeneration::Filled), 2);
    let cmds = sim.resize_buffer(2, SphereGeneration::Filled, vec![40, 41]);
    assert_eq!(sim.particles(), &vec![40, 41]);
    assert_eq!(sim.generation_mode(), SphereGeneration::Filled);
    assert_eq!(cmds, vec![GpuCommand::UploadHost { count: 2 }]);
}

#[test]
fn cpu_same_count_same_mode_is_noop() {
    let (mut sim, _) = CpuParticleSimulation::new(2, SphereGeneration::Hollow, ids(0, 2));
    let cmds = sim.resize_buffer(2, SphereGeneration::Hollow, vec![]);
    assert!(cmds.is_empty());
    assert_eq!(sim.particles(), &vec![0, 1]);
}

#[test]
fn cpu_reset_replaces_live_set() {
    let (mut sim, _) = CpuParticleSimulation::new(3, SphereGeneration::Hollow, ids(0, 3));
    sim.update(|p: u32| p + 1);
    let cmds = sim.reset(SphereGeneration::Filled, vec![20, 21, 22]);
    assert_eq!(sim.particles(), &vec![20, 21, 22]);
    assert_eq!(sim.generation_mode(), SphereGeneration::Filled);
    assert_eq!(cmds, vec![GpuCommand::UploadHost { count: 3 }]);
}

#[test]
fn cpu_resize_through_zero() {
    let (mut sim, _) = CpuParticleSimulation::new(10, SphereGeneration::Hollow, ids(0, 10));
    let cmds = sim.resize_buffer(0, SphereGeneration::Hollow, vec![]);
    assert!(cmds.is_empty());
    assert_eq!(sim.get_particle_count(), 0);
    assert!(sim.update(|p: u32| p + 1).is_empty());
    assert_eq!(sim.fresh_needed(100, SphereGeneration::Filled), 100);
    let fresh = ids(1000, 1100);
    let cmds = sim.resize_buffer(100, SphereGeneration::Filled, fresh.clone());
    assert_eq!(sim.get_particle_count(), 100);
    assert_eq!(&sim.particles()[..100], &fresh[..]);
    assert_eq!(
        cmds,
        vec![GpuCommand::Allocate { capacity: 100 }, GpuCommand::UploadHost { count: 100 }]
    );
}

#[test]
fn compute_update_dispatches_per_workgroup() {
    let (mut sim, cmds) = ComputeParticleSimulation::new(1000, SphereGeneration::Hollow);
    assert_eq!(
        cmds,
        vec![
            GpuCommand::Allocate { capacity: 1000 },
            GpuCommand::WriteFresh { offset: 0, len: 1000, mode: SphereGeneration::Hollow },
        ]
    );
    assert_eq!(
        sim.update(),
        vec![GpuCommand::WriteParams, GpuCommand::Dispatch { workgroups: 4 }]
    );
    sim.set_paused(true);
    assert!(sim.update().is_empty());
    assert_eq!(sim.get_particle_buffer(), 0);
}

#[test]
fn compute_grow_carries_live_particles_over() {
    let (mut sim, _) = ComputeParticleSimulation::new(10, SphereGeneration::Hollow);
    let cmds = sim.resize_buffer(25, SphereGeneration::Filled);
    assert_eq!(
        cmds,
        vec![
            GpuCommand::Allocate { capacity: 25 },
            GpuCommand::CarryOver { source: 0, count: 10 },
            GpuCommand::WriteFresh { offset: 10, len: 15, mode: SphereGeneration::Filled },
        ]
    );
    assert_eq!(sim.capacity(), 25);
    assert!(sim.resize_buffer(5, SphereGeneration::Filled).is_empty());
    assert_eq!(sim.capacity(), 25);
    assert_eq!(
        sim.resize_buffer(20, SphereGeneration::Filled),
        vec![GpuCommand::WriteFresh { offset: 5, len: 15, mode: SphereGeneration::Filled }]
    );
    assert_eq!(
        sim.reset(SphereGeneration::Hollow),
        vec![GpuCommand::WriteFresh { offset: 0, len: 20, mode: SphereGeneration::Hollow }]
    );
    assert_eq!(sim.get_particle_count(), 20);
}

#[test]
fn compute_empty_does_no_work() {
    let (mut sim, _) = ComputeParticleSimulation::new(0, SphereGeneration::Hollow);
    assert!(sim.update().is_empty());
}

#[test]
fn transform_feedback_ping_pongs() {
    let (mut sim, _) = TransformFeedbackSimulation::new(8, SphereGeneration::Hollow);
    assert_eq!(sim.get_particle_buffer(), 0);
    assert_eq!(
        sim.update(),
        vec![GpuCommand::WriteParams, GpuCommand::PingPongPass { source: 0, target: 1, count: 8 }]
    );
    assert_eq!(sim.get_particle_buffer(), 1);
    assert_eq!(
        sim.update(),
        vec![GpuCommand::WriteParams, GpuCommand::PingPongPass { source: 1, target: 0, count: 8 }]
    );
    assert_eq!(sim.get_particle_buffer(), 0);
    sim.update();
    sim.set_paused(true);
    assert!(sim.update().is_empty());
    assert_eq!(sim.get_particle_buffer(), 1);
}

#[test]
fn transform_feedback_grow_carries_from_current_half() {
    let (mut sim, _) = TransformFeedbackSimulation::new(4, SphereGeneration::Hollow);
    sim.update();
    let cmds = sim.resize_buffer(6, SphereGeneration::Hollow);
    assert_eq!(
        cmds,
        vec![
            GpuCommand::Allocate { capacity: 6 },
            GpuCommand::CarryOver { source: 1, count: 4 },
            GpuCommand::WriteFresh { offset: 4, len: 2, mode: SphereGeneration::Hollow },
        ]
    );
    assert_eq!(sim.get_particle_buffer(), 0);
    sim.update();
    sim.reset(SphereGeneration::Filled);
    assert_eq!(sim.get_particle_buffer(), 0);
    assert_eq!(sim.get_method(), SimulationMethod::TransformFeedback);
}

#[test]
fn fragment_textures_follow_capacity() {
    let (mut sim, _) = FragmentParticleSystem::new(10, SphereGeneration::Hollow);
    assert_eq!(sim.texture_size(), (4, 3));
    sim.resize_buffer(4, SphereGeneration::Hollow);
    assert_eq!(sim.texture_size(), (4, 3));
    sim.resize_buffer(17, SphereGeneration::Hollow);
    assert_eq!(sim.texture_size(), (5, 4));
    assert_eq!(
        sim.update(),
        vec![GpuCommand::WriteParams, GpuCommand::PingPongPass { source: 0, target: 1, count: 17 }]
    );
    assert_eq!(sim.get_particle_buffer(), 1);
    assert_eq!(sim.get_method(), SimulationMethod::FragmentFallback);
}

#[test]
fn union_dispatches_to_strategy() {
    let (mut sim, cmds) =
        ParticleSimulation::new(SimulationMethod::Cpu, 2, SphereGeneration::Hollow, vec![1u32, 2]);
    assert_eq!(cmds.len(), 2);
    assert_eq!(sim.get_method(), SimulationMethod::Cpu);
    sim.update(|p| p * 3);
    match &sim {
        ParticleSimulation::Cpu(s) => assert_eq!(s.particles(), &vec![3, 6]),
        _ => panic!("expected the host strategy"),
    }
    sim.set_paused(true);
    assert!(sim.update(|p| p * 3).is_empty());
    assert!(sim.is_paused());

    let (mut dev, _) = ParticleSimulation::<u32>::new(
        SimulationMethod::TransformFeedback,
        5,
        SphereGeneration::Filled,
        vec![],
    );
    assert_eq!(dev.fresh_needed(9, SphereGeneration::Filled), 4);
    dev.update(|p| p);
    assert_eq!(dev.get_particle_buffer(), 1);
    let cmds = dev.resize_buffer(9, SphereGeneration::Filled, vec![]);
    assert_eq!(cmds.len(), 3);
    assert_eq!(dev.get_particle_count(), 9);
    assert_eq!(dev.generation_mode(), SphereGeneration::Filled);
}

#[test]
fn device_strategy_follows_support() {
    let (sim, cmds) = create_particle_system::<u32>(true, false);
    assert_eq!(sim.get_method(), SimulationMethod::ComputeShader);
    assert_eq!(sim.get_particle_count(), 1_000_000);
    assert_eq!(cmds[0], GpuCommand::Allocate { capacity: 1_000_000 });
    let (sim, _) = create_particle_system::<u32>(false, true);
    assert_eq!(sim.get_method(), SimulationMethod::FragmentFallback);
    assert_eq!(sim.get_particle_count(), 100_000);
}
