use oort_api::accel::clamp_acceleration;
use oort_api::agent::AgentBoundary;
use oort_api::envdata::{parse_number, Environment};
use oort_api::mathx::{angle_diff, clamp_i64, cos_fp, norm_angle, sin_fp, vec2, Vec2, PI_MRAD, SCALE, TAU_MRAD};
use oort_api::slots::{slot_index, StateSlotArray, MAX_SIZE};
use oort_api::{Ability, Class, EcmMode, SystemState};

fn env_from(text: &str) -> Environment {
    Environment::from_raw(text.as_bytes().to_vec())
}

fn key(text: &str) -> Vec<u8> {
    text.as_bytes().to_vec()
}

#[test]
fn register_write_then_read() {
    // Register semantics: a write is read back unchanged within the tick.
    let mut slots = StateSlotArray::new();
    slots.write(SystemState::Heading, 1234);
    assert_eq!(slots.read(SystemState::Heading), 1234);
    slots.write(SystemState::Heading, -7);
    assert_eq!(slots.read(SystemState::Heading), -7);
    // Other slots keep their values.
    assert_eq!(slots.read(SystemState::PositionX), 0);
    slots.write(SystemState::PositionX, 55);
    assert_eq!(slots.read(SystemState::Heading), -7);
    assert_eq!(slots.read(SystemState::PositionX), 55);
}

#[test]
fn slot_layout_is_stable() {
    assert_eq!(slot_index(SystemState::Class), 0);
    assert_eq!(slot_index(SystemState::Seed), 1);
    assert_eq!(slot_index(SystemState::AccelerateX), 8);
    assert_eq!(slot_index(SystemState::Torque), 10);
    assert_eq!(slot_index(SystemState::Explode), 19);
    assert_eq!(slot_index(SystemState::ActivateAbility), 39);
    assert_eq!(slot_index(SystemState::Radio0Channel), 40);
    assert_eq!(slot_index(SystemState::Radio1Channel), 47);
    assert_eq!(slot_index(SystemState::Radio7Data3), 95);
    assert_eq!(slot_index(SystemState::SelectedRadio), 96);
    assert_eq!(slot_index(SystemState::Id), 108);
    assert_eq!(slot_index(SystemState::Size), 109);
    assert!(slot_index(SystemState::Size) < MAX_SIZE);
}

#[test]
fn class_encoding_roundtrip() {
    let classes = [
        Class::Fighter,
        Class::Frigate,
        Class::Cruiser,
        Class::Asteroid,
        Class::Target,
        Class::Missile,
        Class::Torpedo,
        Class::Unknown,
    ];
    for (i, c) in classes.iter().enumerate() {
        assert_eq!(c.value(), i as i64);
        assert_eq!(Class::from_value(i as i64), *c);
    }
    assert_eq!(Class::from_value(99), Class::Unknown);
    assert_eq!(Class::from_value(-1), Class::Unknown);
}

#[test]
fn ability_and_ecm_encodings() {
    assert_eq!(Ability::Boost.value(), 1);
    assert_eq!(Ability::from_value(3), Ability::Decoy);
    assert_eq!(Ability::from_value(42), Ability::Inactive);
    assert_eq!(EcmMode::Noise.value(), 1);
    assert_eq!(EcmMode::from_value(0), EcmMode::Off);
    assert_eq!(EcmMode::from_value(5), EcmMode::Off);
}

#[test]
fn getenv_finds_values() {
    let env = env_from("SCENARIO_NAME=welcome\nWORLD_SIZE=2000\n");
    assert_eq!(env.getenv(&key("SCENARIO_NAME")), Some(b"welcome".to_vec()));
    assert_eq!(env.getenv(&key("WORLD_SIZE")), Some(b"2000".to_vec()));
    assert_eq!(env.getenv(&key("MISSING")), None);
}

#[test]
fn getenv_stops_at_nul_and_bare_keys() {
    let mut raw = b"A=1\nB=2".to_vec();
    raw.push(0);
    raw.extend_from_slice(b"C=3\n");
    let env = Environment::from_raw(raw);
    assert_eq!(env.getenv(&key("A")), Some(b"1".to_vec()));
    assert_eq!(env.getenv(&key("B")), Some(b"2".to_vec()));
    // Entries after the terminator are not part of the environment.
    assert_eq!(env.getenv(&key("C")), None);
    // A bare matching key without an equals sign yields no value.
    let env2 = env_from("FLAG\nFLAG=later\n");
    assert_eq!(env2.getenv(&key("FLAG")), None);
}

#[test]
fn world_size_and_scenario_name_defaults() {
    let env = env_from("SCENARIO_NAME=duel\nWORLD_SIZE=4000\n");
    let boundary = AgentBoundary::new(env, 1);
    assert_eq!(boundary.world_size(), 4000 * SCALE);
    assert_eq!(boundary.scenario_name(), b"duel".to_vec());

    let empty = AgentBoundary::new(env_from(""), 1);
    assert_eq!(empty.world_size(), 0);
    assert_eq!(empty.scenario_name(), b"unknown".to_vec());

    let junk = AgentBoundary::new(env_from("WORLD_SIZE=12x4\n"), 1);
    assert_eq!(junk.world_size(), 0);
}

#[test]
fn parse_number_saturates() {
    assert_eq!(parse_number(&b"0".to_vec(), 1000), 0);
    assert_eq!(parse_number(&b"999".to_vec(), 1000), 999);
    assert_eq!(parse_number(&b"1001".to_vec(), 1000), 1000);
    assert_eq!(parse_number(&b"123456789123456789".to_vec(), 1000), 1000);
    assert_eq!(parse_number(&b"".to_vec(), 1000), 0);
    assert_eq!(parse_number(&b"-5".to_vec(), 1000), 0);
}

#[test]
fn angle_normalization() {
    assert_eq!(norm_angle(0), 0);
    assert_eq!(norm_angle(TAU_MRAD), 0);
    assert_eq!(norm_angle(-1), TAU_MRAD - 1);
    assert_eq!(norm_angle(TAU_MRAD + 5), 5);
}

#[test]
fn angle_diff_examples() {
    assert_eq!(angle_diff(0, 100), 100);
    assert_eq!(angle_diff(100, 0), -100);
    assert_eq!(angle_diff(0, PI_MRAD), PI_MRAD);
    // Just past a half turn comes back around as a clockwise rotation.
    assert_eq!(angle_diff(0, PI_MRAD + 100), PI_MRAD + 100 - TAU_MRAD);
    assert_eq!(angle_diff(6000, 100), 383);
}

#[test]
fn fixed_point_trig_values() {
    assert_eq!(sin_fp(0), 0);
    // The rational approximation peaks one unit under the scale.
    assert!((cos_fp(0) - SCALE).abs() <= 1);
    // A quarter turn: sine saturates at the scale, cosine passes zero.
    assert!((sin_fp(1571) - SCALE).abs() <= 1);
    assert!(cos_fp(1571).abs() <= 2);
    // Sine is odd around the half turn.
    assert_eq!(sin_fp(PI_MRAD + 500), -sin_fp(500));
}

#[test]
fn rotation_examples() {
    let v = vec2(1000, 0);
    let r = v.rotate(1571);
    assert!(r.x.abs() <= 2);
    assert!((r.y - 1000).abs() <= 1);
    let back = v.rotate(TAU_MRAD);
    assert!((back.x - 1000).abs() <= 1);
    assert_eq!(back.y, 0);
}

#[test]
fn clamp_helpers() {
    assert_eq!(clamp_i64(5, 0, 10), 5);
    assert_eq!(clamp_i64(-5, 0, 10), 0);
    assert_eq!(clamp_i64(50, 0, 10), 10);
}

#[test]
fn acceleration_within_limits_unchanged() {
    let v = Vec2 { x: 50, y: -20 };
    assert_eq!(clamp_acceleration(v, 100, 100, 100), v);
}

#[test]
fn acceleration_forward_clamped_exactly() {
    // Forward limit binds: the forward component is committed at exactly the
    // limit and the lateral component scales down with it.
    let v = Vec2 { x: 200, y: 100 };
    let r = clamp_acceleration(v, 100, 100, 100);
    assert_eq!(r.x, 100);
    assert_eq!(r.y, 50);
}

#[test]
fn acceleration_backward_clamped_exactly() {
    let v = Vec2 { x: -300, y: -60 };
    let r = clamp_acceleration(v, 100, 150, 100);
    assert_eq!(r.x, -150);
    assert_eq!(r.y, -30);
}

#[test]
fn acceleration_lateral_clamped_exactly() {
    let v = Vec2 { x: 40, y: 500 };
    let r = clamp_acceleration(v, 100, 100, 100);
    assert_eq!(r.y, 100);
    assert_eq!(r.x, 8);
}

#[test]
fn acceleration_direction_preserved() {
    let v = Vec2 { x: -1000, y: 700 };
    let r = clamp_acceleration(v, 50, 80, 60);
    assert!(r.x <= 0);
    assert!(r.y >= 0);
    assert!(r.x >= -80);
    assert!(r.y <= 60);
}

#[test]
fn accelerate_writes_clamped_local_command() {
    let mut b = AgentBoundary::new(env_from(""), 7);
    // Facing straight up; limits published by the host.
    b.write_system_state(SystemState::Heading, 0);
    b.write_system_state(SystemState::MaxForwardAcceleration, 100);
    b.write_system_state(SystemState::MaxBackwardAcceleration, 50);
    b.write_system_state(SystemState::MaxLateralAcceleration, 30);
    b.accelerate(vec2(1000, 0));
    assert_eq!(b.read_system_state(SystemState::AccelerateX), 100);
    assert_eq!(b.read_system_state(SystemState::AccelerateY), 0);
    b.accelerate(vec2(-1000, 0));
    assert_eq!(b.read_system_state(SystemState::AccelerateX), -50);
    b.accelerate(vec2(10, 20));
    // One fixed-point unit is lost to the rotation into the local frame.
    assert_eq!(b.read_system_state(SystemState::AccelerateX), 9);
    // The command is rotated into the local frame: our fixed-point rotation
    // of (0, 1000) by a zero heading keeps the lateral component.
    b.accelerate(vec2(0, 1000));
    assert_eq!(b.read_system_state(SystemState::AccelerateY), 30);
}

#[test]
fn turn_commands_signed_maximum_torque() {
    let mut b = AgentBoundary::new(env_from(""), 7);
    b.write_system_state(SystemState::MaxAngularAcceleration, 600);
    b.write_system_state(SystemState::AngularVelocity, 0);
    b.turn(1000);
    assert_eq!(b.read_system_state(SystemState::Torque), 600);
    b.write_system_state(SystemState::AngularVelocity, 5000);
    b.turn(1000);
    assert_eq!(b.read_system_state(SystemState::Torque), -600);
    // Target already reached: no torque.
    b.write_system_state(SystemState::AngularVelocity, 120);
    b.turn(120);
    assert_eq!(b.read_system_state(SystemState::Torque), 0);
}

#[test]
fn weapon_accessors() {
    let mut b = AgentBoundary::new(env_from(""), 7);
    b.aim(1, 777);
    assert_eq!(b.read_system_state(SystemState::Aim1), 777);
    b.aim(9, 123);
    b.fire(2);
    assert_eq!(b.read_system_state(SystemState::Fire2), 1);
    b.fire(9);
    b.write_system_state(SystemState::ReloadTicks3, 42);
    assert_eq!(b.reload_ticks(3), 42);
    assert_eq!(b.reload_ticks(9), 0);
    b.explode();
    assert_eq!(b.read_system_state(SystemState::Explode), 1);
    b.fire_gun(0);
    assert_eq!(b.read_system_state(SystemState::Fire0), 1);
    b.aim_gun(0, 55);
    assert_eq!(b.read_system_state(SystemState::Aim0), 55);
}

#[test]
fn launch_missile_maps_by_class() {
    let mut b = AgentBoundary::new(env_from(""), 7);
    b.write_system_state(SystemState::Class, Class::Cruiser.value());
    b.launch_missile(1);
    assert_eq!(b.read_system_state(SystemState::Fire2), 1);
    b.write_system_state(SystemState::Class, Class::Fighter.value());
    b.launch_missile(0);
    assert_eq!(b.read_system_state(SystemState::Fire1), 1);
    // An asteroid has no missile mounts: nothing changes.
    b.write_system_state(SystemState::Class, Class::Asteroid.value());
    b.launch_missile(0);
    assert_eq!(b.read_system_state(SystemState::Fire3), 0);
}

#[test]
fn radio_boundary_operations() {
    let mut b = AgentBoundary::new(env_from(""), 7);
    b.select_radio(3);
    assert_eq!(b.read_system_state(SystemState::SelectedRadio), 3);
    b.set_radio_channel(9);
    assert_eq!(b.get_radio_channel(), 9);
    assert_eq!(b.read_system_state(SystemState::Radio3Channel), 9);
    b.send([10, 20, 30, 40]);
    assert_eq!(b.read_system_state(SystemState::Radio3Send), 1);
    assert_eq!(b.read_system_state(SystemState::Radio3Data1), 20);
    // Nothing latched yet: no receive.
    assert_eq!(b.receive(), None);
    b.write_system_state(SystemState::Radio3Receive, 1);
    assert_eq!(b.receive(), Some([10, 20, 30, 40]));
    // Out-of-range radio indices saturate instead of failing.
    b.select_radio(900);
    assert_eq!(b.read_system_state(SystemState::SelectedRadio), 7);
}

#[test]
fn scan_reads_published_contact() {
    let mut b = AgentBoundary::new(env_from(""), 7);
    assert!(b.scan().is_none());
    b.write_system_state(SystemState::RadarContactFound, 1);
    b.write_system_state(SystemState::RadarContactClass, Class::Missile.value());
    b.write_system_state(SystemState::RadarContactPositionX, 11);
    b.write_system_state(SystemState::RadarContactPositionY, 22);
    b.write_system_state(SystemState::RadarContactVelocityX, 33);
    b.write_system_state(SystemState::RadarContactVelocityY, 44);
    b.write_system_state(SystemState::RadarContactRssi, -50);
    b.write_system_state(SystemState::RadarContactSnr, 9);
    let contact = b.scan().unwrap();
    assert_eq!(contact.class, Class::Missile);
    assert_eq!(contact.position, Vec2 { x: 11, y: 22 });
    assert_eq!(contact.velocity, Vec2 { x: 33, y: 44 });
    assert_eq!(contact.rssi, -50);
    assert_eq!(contact.snr, 9);
    assert_eq!(b.target(), Vec2 { x: 11, y: 22 });
    assert_eq!(b.target_velocity(), Vec2 { x: 33, y: 44 });
}

#[test]
fn current_time_from_tick() {
    let mut b = AgentBoundary::new(env_from(""), 7);
    b.write_system_state(SystemState::CurrentTick, 60);
    assert_eq!(b.current_tick(), 60);
    assert_eq!(b.current_time(), 1000);
    b.write_system_state(SystemState::CurrentTick, 90);
    assert_eq!(b.current_time(), 1500);
}

#[test]
fn debug_buffers_draw_and_truncate() {
    let mut b = AgentBoundary::new(env_from(""), 7);
    b.dbg.draw_line(vec2(0, 0), vec2(10, 10), 0xFF0000);
    b.dbg.debug_line(vec2(1, 1), vec2(2, 2), 0x00FF00);
    assert_eq!(b.dbg.lines().len(), 2);
    b.dbg.draw_triangle(vec2(0, 0), 100, 0x0000FF);
    assert_eq!(b.dbg.lines().len(), 5);
    b.dbg.draw_square(vec2(0, 0), 100, 0x0000FF);
    assert_eq!(b.dbg.lines().len(), 9);
    b.dbg.draw_diamond(vec2(0, 0), 100, 0x0000FF);
    assert_eq!(b.dbg.lines().len(), 13);
    b.dbg.draw_polygon(vec2(0, 0), 100, 6, 0, 0x123456);
    assert_eq!(b.dbg.lines().len(), 19);

    b.dbg.write(&b"status line".to_vec());
    assert_eq!(b.dbg.text(), &b"status line\n".to_vec());

    b.dbg.draw_text_internal(vec2(5, 6), 7, &b"a very long annotation".to_vec());
    let entry = &b.dbg.drawn_text()[0];
    assert_eq!(entry.text.len(), 11);
    assert_eq!(entry.text, b"a very long".to_vec());

    b.dbg.reset();
    assert!(b.dbg.lines().is_empty());
    assert!(b.dbg.text().is_empty());
    assert!(b.dbg.drawn_text().is_empty());
}

#[test]
fn ecm_and_ability_commands() {
    let mut b = AgentBoundary::new(env_from(""), 7);
    b.set_radar_ecm_mode(EcmMode::Noise);
    assert_eq!(b.read_system_state(SystemState::RadarEcmMode), 1);
    b.activate_ability(Ability::Shield);
    assert_eq!(b.read_system_state(SystemState::ActivateAbility), 4);
}

#[test]
fn radar_configuration_accessors() {
    let mut b = AgentBoundary::new(env_from(""), 7);
    b.set_radar_heading(314);
    b.set_radar_width(100);
    b.set_radar_min_distance(5);
    b.set_radar_max_distance(500);
    assert_eq!(b.radar_heading(), 314);
    assert_eq!(b.radar_width(), 100);
    assert_eq!(b.radar_min_distance(), 5);
    assert_eq!(b.radar_max_distance(), 500);
}

#[test]
fn identity_accessors() {
    let env = env_from("SCENARIO_NAME=x\n");
    let mut b = AgentBoundary::new(env, 7);
    b.write_system_state(SystemState::Id, 12);
    b.write_system_state(SystemState::Class, Class::Frigate.value());
    b.write_system_state(SystemState::Seed, 99);
    b.write_system_state(SystemState::PositionX, 1);
    b.write_system_state(SystemState::PositionY, 2);
    b.write_system_state(SystemState::VelocityX, 3);
    b.write_system_state(SystemState::VelocityY, 4);
    b.write_system_state(SystemState::Health, 100);
    b.write_system_state(SystemState::Fuel, 200);
    b.write_system_state(SystemState::MaxForwardAcceleration, 11);
    b.write_system_state(SystemState::MaxBackwardAcceleration, 12);
    b.write_system_state(SystemState::MaxLateralAcceleration, 13);
    b.write_system_state(SystemState::MaxAngularAcceleration, 14);
    assert_eq!(b.id(), 12);
    assert_eq!(b.class(), Class::Frigate);
    assert_eq!(b.seed(), 99);
    assert_eq!(b.position(), Vec2 { x: 1, y: 2 });
    assert_eq!(b.velocity(), Vec2 { x: 3, y: 4 });
    assert_eq!(b.health(), 100);
    assert_eq!(b.fuel(), 200);
    assert_eq!(b.max_acceleration(), Vec2 { x: 11, y: 12 });
    assert_eq!(b.max_forward_acceleration(), 11);
    assert_eq!(b.max_backward_acceleration(), 12);
    assert_eq!(b.max_lateral_acceleration(), 13);
    assert_eq!(b.max_angular_acceleration(), 14);
}

#[test]
fn rand_stays_in_range() {
    let mut b = AgentBoundary::new(env_from(""), 424242);
    for _ in 0..200 {
        let v = b.rand(-50, 50);
        assert!((-50..50).contains(&v));
    }
    // Degenerate interval: the low bound comes back.
    assert_eq!(b.rand(5, 5), 5);
    assert_eq!(b.rand(9, 2), 9);
}
