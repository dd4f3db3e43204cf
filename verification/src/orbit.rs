//! Orbit-light layout.
//!
//! Three point lights circle the mesh on one shared circle, at a fixed
//! height, phase-shifted from each other by a third of a turn. The angular
//! bookkeeping lives here; a light's phase of `p` thirds stands for an
//! angular offset of `p · 2π/3` radians along the shared orbital motion.

use vstd::prelude::*;

verus! {

/// Number of lights orbiting the mesh.
pub const ORBIT_LIGHT_COUNT: u32 = 3;

/// Phase offset of orbit light `index`, in thirds of a full turn.
pub open spec fn phase_thirds(index: int) -> int {
    index % 3
}

/// Phase offset of orbit light `index`, in thirds of a full turn.
pub fn light_phase_thirds(index: u32) -> (phase: u32)
    ensures
        phase == phase_thirds(index as int),
        phase < 3,
{
    index % 3
}

/// The orbit lights' phase offsets differ pairwise by exactly one or two
/// thirds of a turn — that is, by 2π/3 or by −2π/3 modulo a full turn —
/// and never by a whole turn, so at any instant the three lights form an
/// equilateral arrangement on the orbit circle.
pub proof fn lemma_phases_equilateral(i: int, j: int)
    requires
        0 <= i < ORBIT_LIGHT_COUNT,
        0 <= j < ORBIT_LIGHT_COUNT,
        i != j,
    ensures
        phase_thirds(i) != phase_thirds(j),
        (phase_thirds(i) - phase_thirds(j)) % 3 == 1 || (phase_thirds(i) - phase_thirds(j)) % 3
            == 2,
{
}

/// One orbit light's fixed parameters. Dimensionless quantities are carried
/// in thousandths: a radius of `10_000` milli-units is ten scene units.
/// The light's position is derived anew every frame — at elapsed time `t`
/// seconds it sits at angle `t + phase_thirds · 2π/3` on the circle of
/// `radius_milli` at height `height_milli` — and is never stored.
pub struct OrbitLight {
    pub phase_thirds: u32,
    pub radius_milli: u32,
    pub height_milli: u32,
    pub red_milli: u32,
    pub green_milli: u32,
    pub blue_milli: u32,
    pub intensity_milli: u32,
}

/// The benchmark's three lights: evenly phased over the circle of radius
/// ten at height ten, each tinted towards one primary, at intensity 800.
pub fn orbit_lights() -> (lights: Vec<OrbitLight>)
    ensures
        lights@.len() == ORBIT_LIGHT_COUNT,
        forall|k: int|
            0 <= k < lights@.len() ==> (#[trigger] lights@[k]).phase_thirds == phase_thirds(k),
        forall|k: int|
            0 <= k < lights@.len() ==> (#[trigger] lights@[k]).radius_milli == 10_000
                && lights@[k].height_milli == 10_000 && lights@[k].intensity_milli == 800_000,
        lights@[0].red_milli == 1_000 && lights@[0].green_milli == 300 && lights@[0].blue_milli
            == 300,
        lights@[1].red_milli == 300 && lights@[1].green_milli == 1_000 && lights@[1].blue_milli
            == 300,
        lights@[2].red_milli == 300 && lights@[2].green_milli == 300 && lights@[2].blue_milli
            == 1_000,
{
    let mut lights: Vec<OrbitLight> = Vec::new();
    lights.push(
        OrbitLight {
            phase_thirds: 0,
            radius_milli: 10_000,
            height_milli: 10_000,
            red_milli: 1_000,
            green_milli: 300,
            blue_milli: 300,
            intensity_milli: 800_000,
        },
    );
    lights.push(
        OrbitLight {
            phase_thirds: 1,
            radius_milli: 10_000,
            height_milli: 10_000,
            red_milli: 300,
            green_milli: 1_000,
            blue_milli: 300,
            intensity_milli: 800_000,
        },
    );
    lights.push(
        OrbitLight {
            phase_thirds: 2,
            radius_milli: 10_000,
            height_milli: 10_000,
            red_milli: 300,
            green_milli: 300,
            blue_milli: 1_000,
            intensity_milli: 800_000,
        },
    );
    lights
}

} // verus!
