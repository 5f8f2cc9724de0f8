//! The per-frame parameter block and the controls it is built from. Scalars
//! are IEEE-754 single-precision values held as their bit patterns, exactly
//! as they travel to the device.
use vstd::prelude::*;

verus! {

/// `0.99`: the velocity kept per step.
pub const DAMPING_BITS: u32 = 0x3f7d_70a4;

/// `5.0`
pub const DEFAULT_MOUSE_FORCE_BITS: u32 = 0x40a0_0000;

/// `10.0`
pub const DEFAULT_MOUSE_RADIUS_BITS: u32 = 0x4120_0000;

/// `48.0`: the attractor starts this far along the z axis.
pub const DEFAULT_MOUSE_DEPTH_BITS: u32 = 0x4240_0000;

/// `50.0`: the distance that maps to the far end of the position colour ramp.
pub const DEFAULT_MAX_DIST_BITS: u32 = 0x4248_0000;

/// Words in the parameter block.
pub const SIM_PARAMS_WORDS: usize = 12;

/// Colour mode: keep each particle's spawn colour.
pub const COLOR_ORIGINAL: u32 = 0;

/// Colour mode: heat map of speed.
pub const COLOR_VELOCITY: u32 = 1;

/// Colour mode: heat map of distance from the origin.
pub const COLOR_POSITION: u32 = 2;

/// The per-frame parameter block. Scalar fields hold `f32` bit patterns;
/// `color_mode` and `is_mouse_dragging` are integers.
#[derive(Debug, Clone, Copy)]
pub struct SimParams {
    pub delta_time: u32,
    pub gravity: u32,
    pub color_mode: u32,
    pub mouse_force: u32,
    pub mouse_radius: u32,
    pub is_mouse_dragging: u32,
    pub damping: u32,
    pub max_dist_for_color: u32,
    pub mouse_position: [u32; 3],
}

/// The block's words in the order the update kernels declare them: four
/// scalars, four more, then the attractor position and one padding word.
pub open spec fn params_words(p: SimParams) -> Seq<u32> {
    seq![
        p.delta_time,
        p.gravity,
        p.color_mode,
        p.mouse_force,
        p.mouse_radius,
        p.is_mouse_dragging,
        p.damping,
        p.max_dist_for_color,
        p.mouse_position[0],
        p.mouse_position[1],
        p.mouse_position[2],
        0u32,
    ]
}

impl SimParams {
    /// The block as the words uploaded to the uniform buffer.
    pub fn to_words(&self) -> (r: Vec<u32>)
        ensures
            r@ == params_words(*self),
            r@.len() == SIM_PARAMS_WORDS,
    {
        let r = vec![
            self.delta_time,
            self.gravity,
            self.color_mode,
            self.mouse_force,
            self.mouse_radius,
            self.is_mouse_dragging,
            self.damping,
            self.max_dist_for_color,
            self.mouse_position[0],
            self.mouse_position[1],
            self.mouse_position[2],
            0,
        ];
        assert(r@ =~= params_words(*self));
        r
    }
}

/// The user-facing simulation controls that feed the parameter block.
/// Scalars are `f32` bit patterns.
#[derive(Debug, Clone, Copy)]
pub struct Controls {
    pub gravity: u32,
    pub color_mode: u32,
    pub mouse_force: u32,
    pub mouse_radius: u32,
    pub mouse_position: [u32; 3],
    pub max_dist_for_color: u32,
}

impl Controls {
    pub open spec fn new_spec() -> Self {
        Controls {
            gravity: 0,
            color_mode: COLOR_ORIGINAL,
            mouse_force: DEFAULT_MOUSE_FORCE_BITS,
            mouse_radius: DEFAULT_MOUSE_RADIUS_BITS,
            mouse_position: [0, 0, DEFAULT_MOUSE_DEPTH_BITS],
            max_dist_for_color: DEFAULT_MAX_DIST_BITS,
        }
    }

    pub open spec fn frame_params_spec(&self, delta_time: u32, dragging: bool) -> SimParams {
        SimParams {
            delta_time,
            gravity: self.gravity,
            color_mode: self.color_mode,
            mouse_force: self.mouse_force,
            mouse_radius: self.mouse_radius,
            is_mouse_dragging: if dragging { 1 } else { 0 },
            damping: DAMPING_BITS,
            max_dist_for_color: self.max_dist_for_color,
            mouse_position: self.mouse_position,
        }
    }

    /// No gravity, spawn colours, and the default attractor.
    pub fn new() -> (r: Self)
        ensures
            r == Self::new_spec(),
            r.gravity == 0,
            r.color_mode == COLOR_ORIGINAL,
            r.mouse_force == DEFAULT_MOUSE_FORCE_BITS,
            r.mouse_radius == DEFAULT_MOUSE_RADIUS_BITS,
            r.mouse_position[0] == 0,
            r.mouse_position[1] == 0,
            r.mouse_position[2] == DEFAULT_MOUSE_DEPTH_BITS,
            r.max_dist_for_color == DEFAULT_MAX_DIST_BITS,
    {
        Controls {
            gravity: 0,
            color_mode: COLOR_ORIGINAL,
            mouse_force: DEFAULT_MOUSE_FORCE_BITS,
            mouse_radius: DEFAULT_MOUSE_RADIUS_BITS,
            mouse_position: [0, 0, DEFAULT_MOUSE_DEPTH_BITS],
            max_dist_for_color: DEFAULT_MAX_DIST_BITS,
        }
    }

    /// The parameter block of one frame that lasted `delta_time`, with the
    /// fixed damping and the dragging flag as 1 or 0.
    pub fn frame_params(&self, delta_time: u32, dragging: bool) -> (r: SimParams)
        ensures
            r == self.frame_params_spec(delta_time, dragging),
            r.delta_time == delta_time,
            r.gravity == self.gravity,
            r.color_mode == self.color_mode,
            r.mouse_force == self.mouse_force,
            r.mouse_radius == self.mouse_radius,
            r.is_mouse_dragging == (if dragging { 1u32 } else { 0u32 }),
            r.damping == DAMPING_BITS,
            r.max_dist_for_color == self.max_dist_for_color,
            r.mouse_position == self.mouse_position,
    {
        SimParams {
            delta_time,
            gravity: self.gravity,
            color_mode: self.color_mode,
            mouse_force: self.mouse_force,
            mouse_radius: self.mouse_radius,
            is_mouse_dragging: if dragging { 1 } else { 0 },
            damping: DAMPING_BITS,
            max_dist_for_color: self.max_dist_for_color,
            mouse_position: self.mouse_position,
        }
    }
}

/// The name a colour mode is shown under.
pub fn color_mode_label(mode: u32) -> (r: &'static str)
    ensures
        mode == COLOR_ORIGINAL ==> r@ == "Original"@,
        mode == COLOR_VELOCITY ==> r@ == "Velocity"@,
        mode == COLOR_POSITION ==> r@ == "Position"@,
        mode > COLOR_POSITION ==> r@ == "Unknown"@,
{
    if mode == COLOR_ORIGINAL {
        "Original"
    } else if mode == COLOR_VELOCITY {
        "Velocity"
    } else if mode == COLOR_POSITION {
        "Position"
    } else {
        "Unknown"
    }
}

} // verus!
