use oort_api::agent::{AgentBoundary, ScanResult};
use oort_api::envdata::Environment;
use oort_api::mathx::{vec2, Vec2, SCALE};
use oort_api::sched::{
    AccelLimits, AgentCommands, AgentConfig, PhysicsSnapshot, Simulation,
};
use oort_api::sensor::select_contact;
use oort_api::ship::{Agent, Ship};
use oort_api::{Class, SystemState};

fn test_config(id: i64, seed: i64) -> AgentConfig {
    AgentConfig {
        class: Class::Fighter,
        id,
        seed_value: seed,
        limits: AccelLimits { forward: 100_000, backward: 50_000, lateral: 30_000, angular: 500 },
        cooldowns: [5, 10, 10, 10],
    }
}

fn empty_env() -> Environment {
    Environment::from_raw(Vec::new())
}

fn snapshot() -> PhysicsSnapshot {
    PhysicsSnapshot {
        position: vec2(0, 0),
        velocity: vec2(0, 0),
        heading: 0,
        angular_velocity: 0,
        health: 100_000,
        fuel: 100_000,
        contacts: Vec::new(),
    }
}

/// Sends one fixed message on a fixed channel every tick.
struct Sender {
    channel: i64,
}

impl Agent for Sender {
    fn tick(&mut self, io: &mut AgentBoundary) -> bool {
        io.select_radio(0);
        io.set_radio_channel(self.channel);
        io.send([11, 22, 33, 44]);
        true
    }
}

/// Tunes to a channel and records what each tick's receive observes.
struct Receiver {
    channel: i64,
    seen: Vec<Option<[i64; 4]>>,
}

impl Agent for Receiver {
    fn tick(&mut self, io: &mut AgentBoundary) -> bool {
        io.select_radio(0);
        io.set_radio_channel(self.channel);
        self.seen.push(io.receive());
        true
    }
}

/// The per-agent driver of the radio tests, so one simulation can hold both
/// roles.
enum RadioRole {
    Talk(Sender),
    Listen(Receiver),
}

impl Agent for RadioRole {
    fn tick(&mut self, io: &mut AgentBoundary) -> bool {
        match self {
            RadioRole::Talk(s) => s.tick(io),
            RadioRole::Listen(r) => r.tick(io),
        }
    }
}

#[test]
fn radio_round_trip_next_tick_only() {
    let mut sim: Simulation<RadioRole> = Simulation::new();
    sim.add_agent(RadioRole::Talk(Sender { channel: 5 }), test_config(0, 1), empty_env());
    sim.add_agent(
        RadioRole::Listen(Receiver { channel: 5, seen: Vec::new() }),
        test_config(1, 2),
        empty_env(),
    );
    sim.add_agent(
        RadioRole::Listen(Receiver { channel: 6, seen: Vec::new() }),
        test_config(2, 3),
        empty_env(),
    );
    let inputs = vec![snapshot(), snapshot(), snapshot()];
    sim.step(&inputs);
    sim.step(&inputs);
    sim.step(&inputs);
    let tuned = match &sim.agents[1].code {
        RadioRole::Listen(r) => r.seen.clone(),
        _ => unreachable!(),
    };
    // The send of tick zero is absent at tick zero and observed from the
    // following tick onward.
    assert_eq!(tuned, vec![None, Some([11, 22, 33, 44]), Some([11, 22, 33, 44])]);
    let other = match &sim.agents[2].code {
        RadioRole::Listen(r) => r.seen.clone(),
        _ => unreachable!(),
    };
    // A radio tuned to a silent channel never observes the message.
    assert_eq!(other, vec![None, None, None]);
}

/// Fires the first mount every tick.
struct TriggerHappy {}

impl Agent for TriggerHappy {
    fn tick(&mut self, io: &mut AgentBoundary) -> bool {
        io.fire(0);
        true
    }
}

#[test]
fn reload_counts_down_one_per_tick() {
    let mut sim: Simulation<TriggerHappy> = Simulation::new();
    sim.add_agent(TriggerHappy {}, test_config(0, 1), empty_env());
    let inputs = vec![snapshot()];
    // Tick 0: the mount is ready, the shot succeeds and rearms 5 ticks of
    // cooldown, which starts counting the same tick.
    let cmds = sim.step(&inputs);
    assert!(cmds[0].fires[0]);
    assert_eq!(sim.agents[0].reloads[0], 4);
    // Ticks 1..4: still cooling down, no shot; the timer falls by exactly
    // one tick each time until it reaches zero.
    for expected in [3, 2, 1, 0] {
        let cmds = sim.step(&inputs);
        assert!(!cmds[0].fires[0]);
        assert_eq!(sim.agents[0].reloads[0], expected);
    }
    // Ready again: the next request succeeds.
    let cmds = sim.step(&inputs);
    assert!(cmds[0].fires[0]);
    assert_eq!(sim.agents[0].reloads[0], 4);
}

/// Draws one more line each tick.
struct Doodler {
    ticks: i64,
}

impl Agent for Doodler {
    fn tick(&mut self, io: &mut AgentBoundary) -> bool {
        self.ticks += 1;
        for _ in 0..self.ticks {
            io.dbg.draw_line(vec2(0, 0), vec2(1, 1), 0xFFFFFF);
        }
        true
    }
}

#[test]
fn debug_buffers_hold_only_current_tick() {
    let mut sim: Simulation<Doodler> = Simulation::new();
    sim.add_agent(Doodler { ticks: 0 }, test_config(0, 1), empty_env());
    let inputs = vec![snapshot()];
    sim.step(&inputs);
    // After the first tick the buffer holds exactly that tick's segment.
    assert_eq!(sim.agents[0].boundary.dbg.lines().len(), 1);
    sim.step(&inputs);
    // The previous tick's drawing is gone: the buffer was cleared before
    // the second invocation and repopulated with two fresh segments.
    assert_eq!(sim.agents[0].boundary.dbg.lines().len(), 2);
    sim.step(&inputs);
    assert_eq!(sim.agents[0].boundary.dbg.lines().len(), 3);
}

/// A module that reports running out of budget every tick after writing.
struct Faulty {}

impl Agent for Faulty {
    fn tick(&mut self, io: &mut AgentBoundary) -> bool {
        io.torque(999);
        io.explode();
        false
    }
}

#[test]
fn faulted_tick_leaves_no_output() {
    let mut sim: Simulation<Faulty> = Simulation::new();
    sim.add_agent(Faulty {}, test_config(0, 1), empty_env());
    let inputs = vec![snapshot()];
    let cmds = sim.step(&inputs);
    // The faulted module's writes were discarded before commit.
    assert_eq!(cmds[0].torque, 0);
    assert!(!cmds[0].explode);
}

/// Spends randomness and actuates, to exercise determinism end to end.
struct Chaotic {}

impl Agent for Chaotic {
    fn tick(&mut self, io: &mut AgentBoundary) -> bool {
        let t = io.rand(-1000, 1000);
        io.torque(t);
        let a = io.rand(-100_000, 100_000);
        io.accelerate(vec2(a, -a));
        io.select_radio(0);
        let channel = io.rand(0, 4);
        io.set_radio_channel(channel);
        io.send([t, a, 0, 0]);
        if io.rand(0, 2) == 0 {
            io.fire(0);
        }
        true
    }
}

fn run_chaotic(ticks: usize) -> (Vec<Vec<i64>>, Vec<AgentCommands>) {
    let mut sim: Simulation<Chaotic> = Simulation::new();
    sim.add_agent(Chaotic {}, test_config(0, 12345), empty_env());
    sim.add_agent(Chaotic {}, test_config(1, 67890), empty_env());
    let inputs = vec![snapshot(), snapshot()];
    let mut last = Vec::new();
    for _ in 0..ticks {
        last = sim.step(&inputs);
    }
    let mut slots = Vec::new();
    for a in &sim.agents {
        let mut row = Vec::new();
        for tag in [
            SystemState::AccelerateX,
            SystemState::AccelerateY,
            SystemState::Torque,
            SystemState::Radio0Channel,
            SystemState::Radio0Receive,
            SystemState::Radio0Data0,
            SystemState::Radio0Data1,
            SystemState::ReloadTicks0,
            SystemState::CurrentTick,
        ] {
            row.push(a.boundary.slots.read(tag));
        }
        slots.push(row);
    }
    (slots, last)
}

#[test]
fn identical_runs_are_bit_identical() {
    // Determinism: two runs with identical seeds, identical agent code and
    // an identical scenario agree on every register and every command.
    let (slots_a, cmds_a) = run_chaotic(25);
    let (slots_b, cmds_b) = run_chaotic(25);
    assert_eq!(slots_a, slots_b);
    assert_eq!(cmds_a.len(), cmds_b.len());
    for (a, b) in cmds_a.iter().zip(cmds_b.iter()) {
        assert_eq!(a.accel, b.accel);
        assert_eq!(a.torque, b.torque);
        assert_eq!(a.aims, b.aims);
        assert_eq!(a.fires, b.fires);
        assert_eq!(a.explode, b.explode);
    }
}

#[test]
fn constant_torque_spins_up_to_saturation() {
    // A builtin agent commands full torque every tick from rest; the host
    // clamps the commitment to the class's angular limit, and the external
    // integration saturates angular velocity at that bound while the
    // heading rises monotonically.
    let mut sim: Simulation<Ship> = Simulation::new();
    sim.add_agent(Ship::new(), test_config(0, 1), empty_env());
    let limit: i64 = 500;
    let mut heading: i64 = 0;
    let mut angular_velocity: i64 = 0;
    let mut saturated_ticks = 0;
    let mut last_heading: i64 = 0;
    for tick in 0..600 {
        let inputs = vec![PhysicsSnapshot {
            position: vec2(0, 0),
            velocity: vec2(0, 0),
            heading,
            angular_velocity,
            health: 100_000,
            fuel: 100_000,
            contacts: Vec::new(),
        }];
        let cmds = sim.step(&inputs);
        // The commanded torque of one scale unit exceeds the limit and is
        // committed at exactly the limit.
        assert_eq!(cmds[0].torque, limit);
        // External physics: integrate, saturating the rate at the bound.
        angular_velocity = (angular_velocity + cmds[0].torque / 60).min(limit);
        heading += angular_velocity / 60;
        if tick > 0 {
            assert!(heading >= last_heading);
            if angular_velocity > 60 {
                assert!(heading > last_heading);
            }
        }
        last_heading = heading;
        if angular_velocity == limit {
            saturated_ticks += 1;
        }
    }
    assert!(saturated_ticks > 0);
    assert_eq!(angular_velocity, limit);
}

#[test]
fn radar_selects_strongest_in_window() {
    let mk = |x: i64, y: i64, rssi: i64| ScanResult {
        class: Class::Fighter,
        position: vec2(x, y),
        velocity: vec2(0, 0),
        rssi,
        snr: 10,
    };
    let contacts = vec![
        mk(1_000_000, 0, -60),
        mk(2_000_000, 0, -40),
        mk(-1_000_000, 0, -10),     // behind the radar axis
        mk(40_000_000, 0, -5),      // beyond the distance band
    ];
    let own = vec2(0, 0);
    // Radar pointing along the positive axis, a quarter-turn-wide cone, a
    // distance band that excludes the farthest contact.
    let got = select_contact(&contacts, own, 0, 1570, 0, 10_000_000).unwrap();
    assert_eq!(got.rssi, -40);
    assert_eq!(got.position, Vec2 { x: 2_000_000, y: 0 });
    // Never more than one contact is exposed, and a window nothing
    // satisfies exposes none.
    assert!(select_contact(&contacts, own, 3141, 200, 0, 500_000).is_none());
}

#[test]
fn publish_exposes_contact_through_scan() {
    struct Watcher {
        seen: Vec<Option<ScanResult>>,
    }
    impl Agent for Watcher {
        fn tick(&mut self, io: &mut AgentBoundary) -> bool {
            io.set_radar_heading(0);
            io.set_radar_width(1570);
            io.set_radar_min_distance(0);
            io.set_radar_max_distance(10_000_000);
            self.seen.push(io.scan());
            true
        }
    }
    let mut sim: Simulation<Watcher> = Simulation::new();
    sim.add_agent(Watcher { seen: Vec::new() }, test_config(0, 1), empty_env());
    let contact = ScanResult {
        class: Class::Cruiser,
        position: vec2(3_000_000, 100),
        velocity: vec2(-5, 0),
        rssi: -33,
        snr: 12,
    };
    let inputs = vec![PhysicsSnapshot { contacts: vec![contact], ..snapshot() }];
    sim.step(&inputs);
    sim.step(&inputs);
    let seen = sim.agents[0].code.seen.clone();
    // The window configured during the first tick takes effect for the
    // second tick's publish: one-tick radar latency.
    assert_eq!(seen[0], None);
    let s = seen[1].unwrap();
    assert_eq!(s.class, Class::Cruiser);
    assert_eq!(s.rssi, -33);
    assert_eq!(s.position, Vec2 { x: 3_000_000, y: 100 });
}

#[test]
fn removed_agent_leaves_order_intact() {
    let mut sim: Simulation<TriggerHappy> = Simulation::new();
    sim.add_agent(TriggerHappy {}, test_config(0, 1), empty_env());
    sim.add_agent(TriggerHappy {}, test_config(1, 2), empty_env());
    sim.add_agent(TriggerHappy {}, test_config(2, 3), empty_env());
    sim.remove_agent(1);
    assert_eq!(sim.agents.len(), 2);
    assert_eq!(sim.agents[1].config.id, 2);
    let inputs = vec![snapshot(), snapshot()];
    let cmds = sim.step(&inputs);
    assert_eq!(cmds.len(), 2);
    assert_eq!(sim.tick, 1);
}

/// Writes absurd values straight into its output registers, bypassing the
/// clamping accessors.
struct RawWriter {}

impl Agent for RawWriter {
    fn tick(&mut self, io: &mut AgentBoundary) -> bool {
        io.write_system_state(SystemState::AccelerateX, i64::MAX);
        io.write_system_state(SystemState::AccelerateY, i64::MIN);
        io.write_system_state(SystemState::Torque, -987_654_321);
        true
    }
}

#[test]
fn commit_clamps_raw_register_abuse() {
    // Even an agent that writes raw registers cannot hand the physics
    // engine anything outside its class limits.
    let mut sim: Simulation<RawWriter> = Simulation::new();
    sim.add_agent(RawWriter {}, test_config(0, 1), empty_env());
    let inputs = vec![snapshot()];
    let cmds = sim.step(&inputs);
    // Both axes were wildly exceeded; the vector is scaled down whole until
    // both fit, so the direction survives and the binding lateral axis sits
    // exactly at its limit.
    assert_eq!(cmds[0].accel.y, -30_000);
    assert_eq!(cmds[0].accel.x, 30_000);
    assert!(cmds[0].accel.x <= 100_000 && cmds[0].accel.x >= 0);
    assert_eq!(cmds[0].torque, -500);
}

/// Both roles send on one channel in the same tick.
struct EagerSender {
    payload: i64,
}

impl Agent for EagerSender {
    fn tick(&mut self, io: &mut AgentBoundary) -> bool {
        io.select_radio(0);
        io.set_radio_channel(2);
        io.send([self.payload, 0, 0, 0]);
        true
    }
}

#[test]
fn same_channel_race_resolves_last_writer_wins() {
    let mut sim: Simulation<EagerSender> = Simulation::new();
    sim.add_agent(EagerSender { payload: 111 }, test_config(0, 1), empty_env());
    sim.add_agent(EagerSender { payload: 222 }, test_config(1, 2), empty_env());
    let inputs = vec![snapshot(), snapshot()];
    sim.step(&inputs);
    // Agents process in creation order, so the later agent's transmission
    // overwrites the earlier one for every listener on the channel.
    for a in &sim.agents {
        assert_eq!(a.boundary.slots.read(SystemState::Radio0Receive), 1);
        assert_eq!(a.boundary.slots.read(SystemState::Radio0Data0), 222);
    }
}

#[test]
fn debug_lengths_published_to_registers() {
    let mut b = AgentBoundary::new(empty_env(), 3);
    b.dbg.draw_line(vec2(0, 0), vec2(1, 1), 1);
    b.dbg.draw_line(vec2(0, 0), vec2(2, 2), 1);
    b.dbg.write(&b"hi".to_vec());
    b.dbg.draw_text_internal(vec2(0, 0), 1, &b"note".to_vec());
    let dbg = std::mem::replace(&mut b.dbg, oort_api::dbg::DebugState::new());
    dbg.update(&mut b.slots);
    assert_eq!(b.slots.read(SystemState::DebugLinesLength), 2);
    assert_eq!(b.slots.read(SystemState::DebugTextLength), 3);
    assert_eq!(b.slots.read(SystemState::DrawnTextLength), 1);
}
