use particle_simulation::params::{
    color_mode_label, Controls, COLOR_POSITION, COLOR_VELOCITY, DAMPING_BITS,
};
use particle_simulation::session::{
    available_methods, initial_method, initial_particle_count, method_label, SimulationSession,
};
use particle_simulation::simulation::{GpuCommand, ParticleSimulation, SimulationMethod, SphereGeneration};

fn cpu_session(count: u32) -> SimulationSession<u32> {
    assert_eq!(SimulationSession::<u32>::fresh_for_start(false), 100_000);
    let (mut s, _) = SimulationSession::new(false, (0..100_000).collect());
    let n = s.fresh_for_resize(count, SphereGeneration::Hollow);
    let fresh: Vec<u32> = (0..n).collect();
    s.apply_particle_count(count, SphereGeneration::Hollow, fresh);
    s
}

#[test]
fn start_picks_best_strategy() {
    assert_eq!(initial_method(true), SimulationMethod::ComputeShader);
    assert_eq!(initial_method(false), SimulationMethod::Cpu);
    assert_eq!(initial_particle_count(SimulationMethod::Cpu), 100_000);
    assert_eq!(initial_particle_count(SimulationMethod::ComputeShader), 1_000_000);
    assert_eq!(available_methods(true), vec![SimulationMethod::Cpu, SimulationMethod::ComputeShader]);
    assert_eq!(available_methods(false), vec![SimulationMethod::Cpu]);
    assert_eq!(SimulationSession::<u32>::fresh_for_start(true), 0);
    let (s, cmds) = SimulationSession::<u32>::new(true, vec![]);
    assert_eq!(s.simulation().get_method(), SimulationMethod::ComputeShader);
    assert_eq!(s.simulation().get_particle_count(), 1_000_000);
    assert_eq!(s.generation_mode(), SphereGeneration::Hollow);
    assert_eq!(s.controls().gravity, 0);
    assert_eq!(
        cmds,
        vec![
            GpuCommand::Allocate { capacity: 1_000_000 },
            GpuCommand::WriteFresh { offset: 0, len: 1_000_000, mode: SphereGeneration::Hollow },
        ]
    );
}

#[test]
fn switching_keeps_count_pause_and_mode() {
    let (mut s, _) = SimulationSession::<u32>::new(true, vec![]);
    s.apply_particle_count(500, SphereGeneration::Filled, vec![]);
    s.toggle_pause();
    assert_eq!(s.fresh_for_switch(SimulationMethod::Cpu), 500);
    let cmds = s.change_simulation_method(SimulationMethod::Cpu, (0..500).collect());
    assert_eq!(
        cmds,
        vec![GpuCommand::Allocate { capacity: 500 }, GpuCommand::UploadHost { count: 500 }]
    );
    let sim = s.simulation();
    assert_eq!(sim.get_method(), SimulationMethod::Cpu);
    assert_eq!(sim.get_particle_count(), 500);
    assert!(sim.is_paused());
    assert_eq!(sim.generation_mode(), SphereGeneration::Filled);
    assert!(s.change_simulation_method(SimulationMethod::Cpu, vec![]).is_empty());
    assert_eq!(s.fresh_for_switch(SimulationMethod::ComputeShader), 0);
    let cmds = s.change_simulation_method(SimulationMethod::ComputeShader, vec![]);
    assert_eq!(
        cmds[1],
        GpuCommand::WriteFresh { offset: 0, len: 500, mode: SphereGeneration::Filled }
    );
    assert!(s.simulation().is_paused());
}

#[test]
fn reset_zeroes_gravity_and_regenerates() {
    let mut s = cpu_session(3);
    let mut c = s.controls();
    c.gravity = 2.5f32.to_bits();
    c.color_mode = COLOR_VELOCITY;
    s.set_controls(c);
    s.update(|p| p + 7);
    assert_eq!(s.fresh_for_reset(), 3);
    let cmds = s.reset(vec![70, 71, 72]);
    assert_eq!(s.controls().gravity, 0);
    assert_eq!(f32::from_bits(s.controls().gravity), 0.0);
    assert_eq!(s.controls().color_mode, COLOR_VELOCITY);
    assert_eq!(cmds, vec![GpuCommand::UploadHost { count: 3 }]);
    match s.simulation() {
        ParticleSimulation::Cpu(c) => assert_eq!(&c.particles()[..3], &[70, 71, 72]),
        _ => panic!("expected the host strategy"),
    }
}

#[test]
fn count_request_is_at_least_one() {
    let mut s = cpu_session(5);
    assert_eq!(s.fresh_for_resize(0, SphereGeneration::Hollow), 0);
    s.apply_particle_count(0, SphereGeneration::Hollow, vec![]);
    assert_eq!(s.simulation().get_particle_count(), 1);
}

#[test]
fn paused_session_update_is_noop() {
    let mut s = cpu_session(2);
    s.toggle_pause();
    for _ in 0..5 {
        assert!(s.update(|p| p + 1).is_empty());
    }
    match s.simulation() {
        ParticleSimulation::Cpu(c) => assert_eq!(&c.particles()[..2], &[0, 1]),
        _ => panic!("expected the host strategy"),
    }
}

#[test]
fn frame_params_layout() {
    let c = Controls::new();
    assert_eq!(f32::from_bits(c.mouse_force), 5.0);
    assert_eq!(f32::from_bits(c.mouse_radius), 10.0);
    assert_eq!(f32::from_bits(c.mouse_position[2]), 48.0);
    assert_eq!(f32::from_bits(c.max_dist_for_color), 50.0);
    let p = c.frame_params(0.016f32.to_bits(), true);
    assert_eq!(f32::from_bits(p.damping), 0.99);
    assert_eq!(DAMPING_BITS, 0.99f32.to_bits());
    assert_eq!(p.is_mouse_dragging, 1);
    let words = p.to_words();
    assert_eq!(words.len(), 12);
    assert_eq!(words[0], 0.016f32.to_bits());
    assert_eq!(words[3], 5.0f32.to_bits());
    assert_eq!(words[5], 1);
    assert_eq!(words[6], 0.99f32.to_bits());
    assert_eq!(words[10], 48.0f32.to_bits());
    assert_eq!(words[11], 0);
    assert_eq!(c.frame_params(0, false).is_mouse_dragging, 0);
}

#[test]
fn labels() {
    assert_eq!(color_mode_label(0), "Original");
    assert_eq!(color_mode_label(COLOR_VELOCITY), "Velocity");
    assert_eq!(color_mode_label(COLOR_POSITION), "Position");
    assert_eq!(color_mode_label(7), "Unknown");
    assert_eq!(method_label(SimulationMethod::Cpu), "CPU (Compatible Everywhere)");
    assert_eq!(method_label(SimulationMethod::ComputeShader), "Compute Shader (Fastest)");
}
