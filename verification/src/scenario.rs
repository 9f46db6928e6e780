//! Scenario setup: initial agent placements derived deterministically from a
//! per-run seed.
//!
//! A scenario only decides where ships start and what enters the world later;
//! it neither owns agents nor interprets the outcome. Every placement is a
//! function of the seed through the core's own generator, so a scenario
//! replays identically from the same seed.
use vstd::prelude::*;
use crate::mathx::{rotate_x_spec, rotate_y_spec, vec2, Vec2, SCALE, TAU_MRAD};
use crate::rng::{pcg_output_spec, pcg_seeded_state_spec, pcg_step_spec, RngState, DEFAULT_INC};
use crate::types::Class;

verus! {

/// One ship to be placed into the world.
#[derive(Copy, Clone, PartialEq, Eq, Structural, Debug)]
pub struct ShipSpawn {
    /// Starting position.
    pub position: Vec2,
    /// Starting velocity.
    pub velocity: Vec2,
    /// Starting heading, in milliradians.
    pub heading: i64,
    /// The class of the spawned ship.
    pub class: Class,
    /// The team the ship belongs to.
    pub team: i64,
    /// Model variant, for classes that have several.
    pub variant: i64,
}

/// The generator stream a scenario seeded with `seed` draws from: the state
/// before the `k`-th draw.
pub open spec fn scenario_rng_state_spec(seed: u128, k: nat) -> u128
    decreases k,
{
    if k == 0 {
        pcg_seeded_state_spec(seed)
    } else {
        pcg_step_spec(scenario_rng_state_spec(seed, (k - 1) as nat), (DEFAULT_INC << 1) | 1)
    }
}

/// The `k`-th value a scenario seeded with `seed` draws from `[low, high)`.
pub open spec fn scenario_draw_spec(seed: u128, k: nat, low: int, high: int) -> int {
    RngState::rand_range_value_spec(pcg_output_spec(scenario_rng_state_spec(seed, k)), low, high)
}

/// A duel between two identical ships facing each other across a random
/// distance along a random axis.
pub struct MissileDuel {}

impl MissileDuel {
    /// A fresh scenario.
    pub fn new() -> (r: MissileDuel)
        ensures
            true,
    {
        MissileDuel {}
    }

    /// The scenario's registry name.
    pub fn name(&self) -> (r: &'static str)
        ensures
            r@ == "missile_duel"@,
    {
        "missile_duel"
    }

    /// Whether the scenario counts for tournament play.
    pub fn is_tournament(&self) -> (r: bool)
        ensures
            r,
    {
        true
    }

    /// Initial placements: two fighters on opposite ends of a random axis,
    /// facing each other, at rest. The axis angle is the first draw of the
    /// seeded generator and the separation the second, so the placement is a
    /// function of the seed alone, and the two positions are exact mirror
    /// images.
    pub fn init(&self, seed: u128) -> (r: Vec<ShipSpawn>)
        ensures
            r@.len() == 2,
            ({
                let angle = scenario_draw_spec(seed, 0, 0, TAU_MRAD as int);
                let distance = scenario_draw_spec(
                    seed, 1, 4000 * (SCALE as int), 6000 * (SCALE as int));
                let arm = Vec2 { x: (distance / 2) as i64, y: 0 };
                &&& r@[0].position.x == -rotate_x_spec(arm, angle)
                &&& r@[0].position.y == -rotate_y_spec(arm, angle)
                &&& r@[1].position.x == rotate_x_spec(arm, angle)
                &&& r@[1].position.y == rotate_y_spec(arm, angle)
            }),
            r@[0].position.x == -r@[1].position.x && r@[0].position.y == -r@[1].position.y,
            r@[0].velocity == (Vec2 { x: 0, y: 0 }) && r@[1].velocity == (Vec2 { x: 0, y: 0 }),
            r@[0].heading == 0 && r@[1].heading == crate::mathx::PI_MRAD,
            r@[0].class == Class::Fighter && r@[1].class == Class::Fighter,
            r@[0].team == 0 && r@[1].team == 1,
    {
        let mut rng = RngState::new(seed);
        let angle: i64 = rng.rand_range(0, TAU_MRAD);
        let distance: i64 = rng.rand_range(4000 * SCALE, 6000 * SCALE);
        let arm: Vec2 = vec2(distance / 2, 0);
        let p = arm.rotate(angle);
        proof {
            lemma_rotate_negate(arm, angle as int);
        }
        let flipped: Vec2 = vec2(-arm.x, arm.y);
        let q = flipped.rotate(angle);
        let mut r: Vec<ShipSpawn> = Vec::new();
        r.push(ShipSpawn {
            position: q,
            velocity: vec2(0, 0),
            heading: 0,
            class: Class::Fighter,
            team: 0,
            variant: 0,
        });
        r.push(ShipSpawn {
            position: p,
            velocity: vec2(0, 0),
            heading: crate::mathx::PI_MRAD,
            class: Class::Fighter,
            team: 1,
            variant: 0,
        });
        r
    }
}

/// Mirroring a vector across the origin mirrors its rotation: the rotation
/// of the negated arm is the negated rotation of the arm.
proof fn lemma_rotate_negate(v: Vec2, a: int)
    requires
        0 <= v.x,
        v.y == 0,
    ensures
        rotate_x_spec(Vec2 { x: (-v.x) as i64, y: v.y }, a) == -rotate_x_spec(v, a),
        rotate_y_spec(Vec2 { x: (-v.x) as i64, y: v.y }, a) == -rotate_y_spec(v, a),
{
    let c = crate::mathx::cos_fp_spec(a);
    let s = crate::mathx::sin_fp_spec(a);
    assert((-(v.x as int)) * c == -((v.x as int) * c)) by (nonlinear_arith);
    assert((-(v.x as int)) * s == -((v.x as int) * s)) by (nonlinear_arith);
    assert((v.y as int) * s == 0) by (nonlinear_arith) requires v.y == 0;
    assert((v.y as int) * c == 0) by (nonlinear_arith) requires v.y == 0;
}

/// A single ship and a target marker at a random bearing and range; the
/// player's task is to rotate and destroy it.
pub struct TutorialRotation {}

impl TutorialRotation {
    /// A fresh scenario.
    pub fn new() -> (r: TutorialRotation)
        ensures
            true,
    {
        TutorialRotation {}
    }

    /// The scenario's registry name.
    pub fn name(&self) -> (r: &'static str)
        ensures
            r@ == "tutorial_rotation"@,
    {
        "tutorial_rotation"
    }

    /// Initial placements: the player's fighter at a random offset from the
    /// origin and a target asteroid at a random bearing and range, both at
    /// rest. The asteroid's position is the tutorial's designated target.
    pub fn init(&self, seed: u128) -> (r: Vec<ShipSpawn>)
        ensures
            r@.len() == 2,
            r@[0].class == Class::Fighter && r@[0].team == 0,
            r@[1].class == Class::Asteroid && r@[1].team == 1,
            r@[0].velocity == (Vec2 { x: 0, y: 0 }) && r@[1].velocity == (Vec2 { x: 0, y: 0 }),
            r@[0].heading == 0 && r@[1].heading == 0,
            ({
                let target_angle = scenario_draw_spec(seed, 0, 0, TAU_MRAD as int);
                let target_range = scenario_draw_spec(
                    seed, 1, 600 * (SCALE as int), 1000 * (SCALE as int));
                let target_arm = Vec2 { x: target_range as i64, y: 0 };
                let ship_angle = scenario_draw_spec(seed, 2, 0, TAU_MRAD as int);
                let ship_range = scenario_draw_spec(
                    seed, 3, 100 * (SCALE as int), 500 * (SCALE as int));
                let ship_arm = Vec2 { x: ship_range as i64, y: 0 };
                &&& r@[1].position.x == rotate_x_spec(target_arm, target_angle)
                &&& r@[1].position.y == rotate_y_spec(target_arm, target_angle)
                &&& r@[0].position.x == rotate_x_spec(ship_arm, ship_angle)
                &&& r@[0].position.y == rotate_y_spec(ship_arm, ship_angle)
            }),
    {
        let mut rng = RngState::new(seed);
        let target_angle: i64 = rng.rand_range(0, TAU_MRAD);
        let target_range: i64 = rng.rand_range(600 * SCALE, 1000 * SCALE);
        let target_pos = vec2(target_range, 0).rotate(target_angle);
        let ship_angle: i64 = rng.rand_range(0, TAU_MRAD);
        let ship_range: i64 = rng.rand_range(100 * SCALE, 500 * SCALE);
        let ship_pos = vec2(ship_range, 0).rotate(ship_angle);
        let mut r: Vec<ShipSpawn> = Vec::new();
        r.push(ShipSpawn {
            position: ship_pos,
            velocity: vec2(0, 0),
            heading: 0,
            class: Class::Fighter,
            team: 0,
            variant: 0,
        });
        r.push(ShipSpawn {
            position: target_pos,
            velocity: vec2(0, 0),
            heading: 0,
            class: Class::Asteroid,
            team: 1,
            variant: 0,
        });
        r
    }
}

/// Target ship population of the welcome scene.
pub const WELCOME_SHIP_TARGET: usize = 20;

/// The idle scene shown on start: one ship of a random class at the origin,
/// in a drifting asteroid field kept topped up each tick.
pub struct Welcome {
    rng: Option<RngState>,
}

impl Welcome {
    /// The scenario before its first initialization: no generator yet.
    pub fn new() -> (r: Welcome)
        ensures
            !r.is_initialized(),
    {
        Welcome { rng: Option::<RngState>::None }
    }

    /// Whether `init` has seeded the scenario's generator.
    pub closed spec fn is_initialized(&self) -> bool {
        self.rng is Some
    }

    /// The scenario generator is in its proper stream.
    pub closed spec fn wf(&self) -> bool {
        self.rng is Some ==> self.rng->Some_0.wf()
    }

    /// The scenario's registry name.
    pub fn name(&self) -> (r: &'static str)
        ensures
            r@ == "welcome"@,
    {
        "welcome"
    }

    /// Seeds the scenario and places one ship at the origin: a fighter, a
    /// frigate or a cruiser, chosen by the first draw.
    pub fn init(&mut self, seed: u128) -> (r: Vec<ShipSpawn>)
        ensures
            final(self).is_initialized(),
            final(self).wf(),
            r@.len() == 1,
            r@[0].position == (Vec2 { x: 0, y: 0 }),
            r@[0].velocity == (Vec2 { x: 0, y: 0 }),
            r@[0].heading == 0,
            r@[0].team == 0,
            ({
                let pick = scenario_draw_spec(seed, 0, 0, 3);
                r@[0].class == (if pick == 0 { Class::Fighter }
                    else if pick == 1 { Class::Frigate }
                    else { Class::Cruiser })
            }),
    {
        let mut rng = RngState::new(seed);
        let pick: i64 = rng.rand_range(0, 3);
        self.rng = Some(rng);
        let class = if pick == 0 {
            Class::Fighter
        } else if pick == 1 {
            Class::Frigate
        } else {
            Class::Cruiser
        };
        let mut r: Vec<ShipSpawn> = Vec::new();
        r.push(ShipSpawn {
            position: vec2(0, 0),
            velocity: vec2(0, 0),
            heading: 0,
            class,
            team: 0,
            variant: 0,
        });
        r
    }

    /// One scenario tick: drifts in fresh asteroids until the world holds
    /// `WELCOME_SHIP_TARGET` ships. Each asteroid enters at a random bearing
    /// and range with a small random velocity, a random heading and one of a
    /// few model variants.
    pub fn tick(&mut self, ship_count: usize) -> (r: Vec<ShipSpawn>)
        requires
            old(self).is_initialized(),
            old(self).wf(),
        ensures
            final(self).is_initialized(),
            final(self).wf(),
            r@.len() == (if ship_count < WELCOME_SHIP_TARGET {
                WELCOME_SHIP_TARGET - ship_count
            } else {
                0
            }),
            forall|i: int| 0 <= i < r@.len() ==> (#[trigger] r@[i]).class == Class::Asteroid,
            forall|i: int| 0 <= i < r@.len()
                ==> -30 * SCALE <= (#[trigger] r@[i]).velocity.x < 30 * SCALE
                    && -30 * SCALE <= r@[i].velocity.y < 30 * SCALE,
            forall|i: int| 0 <= i < r@.len()
                ==> (#[trigger] r@[i]).variant == 1 || r@[i].variant == 6 || r@[i].variant == 14,
    {
        match &mut self.rng {
            Option::Some(g) => spawn_asteroids(g, ship_count),
            Option::None => Vec::new(),
        }
    }
}

/// Draws asteroids until the world would hold `WELCOME_SHIP_TARGET` ships.
fn spawn_asteroids(rng: &mut RngState, ship_count: usize) -> (r: Vec<ShipSpawn>)
    requires
        old(rng).wf(),
    ensures
        final(rng).wf(),
        r@.len() == (if ship_count < WELCOME_SHIP_TARGET {
            WELCOME_SHIP_TARGET - ship_count
        } else {
            0
        }),
        forall|i: int| 0 <= i < r@.len() ==> (#[trigger] r@[i]).class == Class::Asteroid,
        forall|i: int| 0 <= i < r@.len()
            ==> -30 * SCALE <= (#[trigger] r@[i]).velocity.x < 30 * SCALE
                && -30 * SCALE <= r@[i].velocity.y < 30 * SCALE,
        forall|i: int| 0 <= i < r@.len()
            ==> (#[trigger] r@[i]).variant == 1 || r@[i].variant == 6 || r@[i].variant == 14,
{
    let mut r: Vec<ShipSpawn> = Vec::new();
    let mut count: usize = ship_count;
    while count < WELCOME_SHIP_TARGET
        invariant
            rng.wf(),
            ship_count <= count,
            count <= WELCOME_SHIP_TARGET || count == ship_count,
            r@.len() == count - ship_count,
            forall|i: int| 0 <= i < r@.len() ==> (#[trigger] r@[i]).class == Class::Asteroid,
            forall|i: int| 0 <= i < r@.len()
                ==> -30 * SCALE <= (#[trigger] r@[i]).velocity.x < 30 * SCALE
                    && -30 * SCALE <= r@[i].velocity.y < 30 * SCALE,
            forall|i: int| 0 <= i < r@.len()
                ==> (#[trigger] r@[i]).variant == 1 || r@[i].variant == 6 || r@[i].variant == 14,
        decreases WELCOME_SHIP_TARGET - count,
    {
        let bearing: i64 = rng.rand_range(0, TAU_MRAD);
        let range: i64 = rng.rand_range(500 * SCALE, 2000 * SCALE);
        let position = vec2(range, 0).rotate(bearing);
        let vx: i64 = rng.rand_range(-30 * SCALE, 30 * SCALE);
        let vy: i64 = rng.rand_range(-30 * SCALE, 30 * SCALE);
        let heading: i64 = rng.rand_range(0, TAU_MRAD);
        let pick: i64 = rng.rand_range(0, 3);
        let variant: i64 = if pick == 0 { 1 } else if pick == 1 { 6 } else { 14 };
        r.push(ShipSpawn {
            position,
            velocity: vec2(vx, vy),
            heading,
            class: Class::Asteroid,
            team: 1,
            variant,
        });
        count = count + 1;
    }
    r
}

} // verus!
