//! The tick scheduler: the host side of the per-tick contract.
//!
//! One tick runs four phases in strict order for every agent before any
//! agent advances to the next phase: publish the physics/sensor snapshot
//! into each register file, invoke each agent exactly once under its
//! resource budget, commit each agent's actuator outputs, and advance —
//! latch this tick's radio sends into next tick's receive buffers, count
//! reload timers down, and step the shared clock. Agents run sequentially
//! in creation order, which resolves same-channel radio races by
//! last-write-wins.
use vstd::prelude::*;
use vstd::std_specs::vec::vec_index_mut;
use crate::accel::{clamp_accel_spec, clamp_acceleration};
use crate::agent::{AgentBoundary, ScanResult};
use crate::envdata::Environment;
use crate::mathx::{clamp_i64, clamp_spec, Vec2};
use crate::radio::{radio_indices, radio_base_spec, RADIO_STRIDE};
use crate::sensor::{best_contact_spec, select_contact, sensor_pos_ok};
use crate::ship::Agent;
use crate::slots::{spec_read, spec_write, StateSlotArray, SystemState, MAX_SIZE};
use crate::types::{
    ability_from_value_spec, class_value_spec, ecm_from_value_spec, Ability, Class, EcmMode,
};

verus! {

/// Number of weapon mounts an agent may drive.
pub const MAX_WEAPONS: usize = 4;

/// Per-class actuator limits, fixed at agent creation.
#[derive(Copy, Clone, PartialEq, Eq, Structural, Debug)]
pub struct AccelLimits {
    /// Largest forward acceleration.
    pub forward: i64,
    /// Largest backward acceleration.
    pub backward: i64,
    /// Largest lateral acceleration.
    pub lateral: i64,
    /// Largest angular acceleration.
    pub angular: i64,
}

impl AccelLimits {
    /// Limits are never negative.
    pub open spec fn wf(&self) -> bool {
        self.forward >= 0 && self.backward >= 0 && self.lateral >= 0 && self.angular >= 0
    }
}

/// Host-side configuration of one agent, fixed at creation.
pub struct AgentConfig {
    /// The immutable class.
    pub class: Class,
    /// The per-ship identifier.
    pub id: i64,
    /// The seed slot value; the boundary generator is seeded from it.
    pub seed_value: i64,
    /// Actuator limits of the class.
    pub limits: AccelLimits,
    /// Reload duration of each weapon mount, in ticks.
    pub cooldowns: [i64; MAX_WEAPONS],
}

impl AgentConfig {
    /// Limits are sane and every cooldown lasts at least one tick.
    pub open spec fn wf(&self) -> bool {
        self.limits.wf() && forall|i: int| 0 <= i < 4 ==> #[trigger] self.cooldowns[i] >= 1
    }
}

/// One live agent: its private boundary, its code module, its host-side
/// configuration, and the host-owned reload timers.
pub struct AgentInstance<A> {
    /// The agent's private memory.
    pub boundary: AgentBoundary,
    /// The independently supplied code module.
    pub code: A,
    /// Host-side configuration.
    pub config: AgentConfig,
    /// Remaining cooldown of each weapon mount; the host alone counts these.
    pub reloads: [i64; MAX_WEAPONS],
}

/// One pending radio transmission, collected at commit.
#[derive(Copy, Clone, PartialEq, Eq, Structural, Debug)]
pub struct RadioSend {
    /// The channel the sending radio was tuned to.
    pub channel: i64,
    /// First payload value.
    pub d0: i64,
    /// Second payload value.
    pub d1: i64,
    /// Third payload value.
    pub d2: i64,
    /// Fourth payload value.
    pub d3: i64,
}

/// The actuator commands one agent committed this tick, already clamped,
/// handed to the external physics engine.
pub struct AgentCommands {
    /// Committed local acceleration, within the per-axis limits.
    pub accel: Vec2,
    /// Committed angular acceleration, within the angular limit.
    pub torque: i64,
    /// Turret headings of the four mounts.
    pub aims: [i64; MAX_WEAPONS],
    /// Which mounts actually fired: requested and off cooldown.
    pub fires: [bool; MAX_WEAPONS],
    /// Whether the self-destruct flag was raised.
    pub explode: bool,
    /// The ability whose activation the agent requested.
    pub ability: Ability,
    /// The counter-measure mode the agent configured.
    pub ecm: EcmMode,
}

/// The committed commands respect the configured actuator limits: the
/// guarantee the external physics engine gets to rely on, whatever the
/// agent's code wrote into its registers.
pub open spec fn commands_within_limits(cmd: AgentCommands, limits: AccelLimits) -> bool {
    &&& -limits.backward <= cmd.accel.x <= limits.forward
    &&& -limits.lateral <= cmd.accel.y <= limits.lateral
    &&& -limits.angular <= cmd.torque <= limits.angular
}

/// The per-tick physics and sensor snapshot of one agent, produced by the
/// external physics engine and sensor model.
pub struct PhysicsSnapshot {
    /// Position in the world frame.
    pub position: Vec2,
    /// Velocity in the world frame.
    pub velocity: Vec2,
    /// Heading, in milliradians.
    pub heading: i64,
    /// Angular velocity, in milliradians per second.
    pub angular_velocity: i64,
    /// Remaining health.
    pub health: i64,
    /// Remaining fuel.
    pub fuel: i64,
    /// Candidate radar contacts the sensor model detected for this agent.
    pub contacts: Vec<ScanResult>,
}

impl PhysicsSnapshot {
    /// Positions are within the sensor's coordinate range.
    pub open spec fn wf(&self) -> bool {
        sensor_pos_ok(self.position) && forall|i: int| 0 <= i < self.contacts@.len()
            ==> sensor_pos_ok((#[trigger] self.contacts@[i]).position)
    }
}

/// The register file after the publish phase: the host's snapshot, the
/// configuration, the reload timers, the clock, and the radar contact the
/// previous tick's configuration selects.
pub open spec fn publish_slots_spec(
    slots: Seq<i64>,
    snap: PhysicsSnapshot,
    config: AgentConfig,
    reloads: Seq<i64>,
    tick: i64,
) -> Seq<i64> {
    let contact = best_contact_spec(
        snap.contacts@,
        snap.position,
        spec_read(slots, SystemState::RadarHeading) as int,
        spec_read(slots, SystemState::RadarWidth) as int,
        spec_read(slots, SystemState::RadarMinDistance) as int,
        spec_read(slots, SystemState::RadarMaxDistance) as int,
    );
    let contact_class: i64 = match contact {
        Option::Some(ct) => class_value_spec(ct.class) as i64,
        Option::None => 0,
    };
    let contact_px: i64 = match contact { Option::Some(ct) => ct.position.x, Option::None => 0 };
    let contact_py: i64 = match contact { Option::Some(ct) => ct.position.y, Option::None => 0 };
    let contact_vx: i64 = match contact { Option::Some(ct) => ct.velocity.x, Option::None => 0 };
    let contact_vy: i64 = match contact { Option::Some(ct) => ct.velocity.y, Option::None => 0 };
    let contact_rssi: i64 = match contact { Option::Some(ct) => ct.rssi, Option::None => 0 };
    let contact_snr: i64 = match contact { Option::Some(ct) => ct.snr, Option::None => 0 };
    let s0 = slots;
    let s1 = spec_write(s0, SystemState::Class, class_value_spec(config.class) as i64);
    let s2 = spec_write(s1, SystemState::Id, config.id);
    let s3 = spec_write(s2, SystemState::Seed, config.seed_value);
    let s4 = spec_write(s3, SystemState::PositionX, snap.position.x);
    let s5 = spec_write(s4, SystemState::PositionY, snap.position.y);
    let s6 = spec_write(s5, SystemState::VelocityX, snap.velocity.x);
    let s7 = spec_write(s6, SystemState::VelocityY, snap.velocity.y);
    let s8 = spec_write(s7, SystemState::Heading, snap.heading);
    let s9 = spec_write(s8, SystemState::AngularVelocity, snap.angular_velocity);
    let s10 = spec_write(s9, SystemState::Health, snap.health);
    let s11 = spec_write(s10, SystemState::Fuel, snap.fuel);
    let s12 = spec_write(s11, SystemState::CurrentTick, tick);
    let s13 = spec_write(s12, SystemState::MaxForwardAcceleration, config.limits.forward);
    let s14 = spec_write(s13, SystemState::MaxBackwardAcceleration, config.limits.backward);
    let s15 = spec_write(s14, SystemState::MaxLateralAcceleration, config.limits.lateral);
    let s16 = spec_write(s15, SystemState::MaxAngularAcceleration, config.limits.angular);
    let s17 = spec_write(s16, SystemState::ReloadTicks0, reloads[0]);
    let s18 = spec_write(s17, SystemState::ReloadTicks1, reloads[1]);
    let s19 = spec_write(s18, SystemState::ReloadTicks2, reloads[2]);
    let s20 = spec_write(s19, SystemState::ReloadTicks3, reloads[3]);
    let s21 = spec_write(s20, SystemState::RadarContactFound, if contact is Some { 1i64 } else { 0i64 });
    let s22 = spec_write(s21, SystemState::RadarContactClass, contact_class);
    let s23 = spec_write(s22, SystemState::RadarContactPositionX, contact_px);
    let s24 = spec_write(s23, SystemState::RadarContactPositionY, contact_py);
    let s25 = spec_write(s24, SystemState::RadarContactVelocityX, contact_vx);
    let s26 = spec_write(s25, SystemState::RadarContactVelocityY, contact_vy);
    let s27 = spec_write(s26, SystemState::RadarContactRssi, contact_rssi);
    let s28 = spec_write(s27, SystemState::RadarContactSnr, contact_snr);
    s28
}

/// Whether the agent requested a shot from mount `i` this tick.
pub open spec fn fire_requested_spec(slots: Seq<i64>, i: int) -> bool {
    if i == 0 { spec_read(slots, SystemState::Fire0) != 0 }
    else if i == 1 { spec_read(slots, SystemState::Fire1) != 0 }
    else if i == 2 { spec_read(slots, SystemState::Fire2) != 0 }
    else { spec_read(slots, SystemState::Fire3) != 0 }
}

/// Whether the shot from mount `i` succeeds: requested and off cooldown.
pub open spec fn fire_success_spec(slots: Seq<i64>, reloads: Seq<i64>, i: int) -> bool {
    fire_requested_spec(slots, i) && reloads[i] == 0
}

/// The reload timers after the commit phase: a successful shot rearms the
/// mount's full cooldown, everything else is untouched.
pub open spec fn commit_reloads_spec(slots: Seq<i64>, reloads: Seq<i64>, cooldowns: Seq<i64>) -> Seq<i64> {
    Seq::new(4, |i: int| if fire_success_spec(slots, reloads, i) { cooldowns[i] } else { reloads[i] })
}

/// The register file after the commit phase: the consumed fire flags are
/// cleared.
pub open spec fn clear_fires_spec(slots: Seq<i64>) -> Seq<i64> {
    spec_write(
        spec_write(
            spec_write(spec_write(slots, SystemState::Fire0, 0), SystemState::Fire1, 0),
            SystemState::Fire2,
            0,
        ),
        SystemState::Fire3,
        0,
    )
}

/// The reload timers after the advance phase: each nonzero timer counts
/// down by exactly one tick.
pub open spec fn decrement_spec(r: int) -> int {
    if r > 0 { r - 1 } else { 0 }
}

/// The transmission radio `base` holds, if its send flag is raised.
pub open spec fn collect_one_spec(slots: Seq<i64>, base: int) -> Seq<RadioSend> {
    if slots[base + 1] != 0 {
        seq![RadioSend {
            channel: slots[base],
            d0: slots[base + 3],
            d1: slots[base + 4],
            d2: slots[base + 5],
            d3: slots[base + 6],
        }]
    } else {
        seq![]
    }
}

/// The transmissions of the first `k` radios, in radio order.
pub open spec fn sends_upto_spec(slots: Seq<i64>, k: int) -> Seq<RadioSend>
    decreases k,
{
    if k <= 0 {
        seq![]
    } else {
        sends_upto_spec(slots, k - 1) + collect_one_spec(slots, radio_base_spec() + RADIO_STRIDE * (k - 1))
    }
}

/// The register file after the collect phase: all eight send flags lowered.
pub open spec fn clear_sends_spec(slots: Seq<i64>) -> Seq<i64> {
    clear_sends_upto_spec(slots, 8)
}

/// The latest transmission on `channel`, if any: later sends overwrite
/// earlier ones on the same channel.
pub open spec fn last_send_on_spec(outbox: Seq<RadioSend>, channel: i64) -> Option<RadioSend>
    decreases outbox.len(),
{
    if outbox.len() == 0 {
        None
    } else if outbox.last().channel == channel {
        Some(outbox.last())
    } else {
        last_send_on_spec(outbox.drop_last(), channel)
    }
}

/// One radio after the latch phase: the latest transmission on its channel
/// arrives with the receive flag raised, otherwise the flag clears.
pub open spec fn latch_one_spec(slots: Seq<i64>, outbox: Seq<RadioSend>, base: int) -> Seq<i64> {
    match last_send_on_spec(outbox, slots[base]) {
        Option::Some(m) => slots
            .update(base + 2, 1i64)
            .update(base + 3, m.d0)
            .update(base + 4, m.d1)
            .update(base + 5, m.d2)
            .update(base + 6, m.d3),
        Option::None => slots.update(base + 2, 0i64),
    }
}

/// The register file after latching the first `k` radios, in radio order.
pub open spec fn latch_upto_spec(slots: Seq<i64>, outbox: Seq<RadioSend>, k: int) -> Seq<i64>
    decreases k,
{
    if k <= 0 {
        slots
    } else {
        latch_one_spec(
            latch_upto_spec(slots, outbox, k - 1),
            outbox,
            radio_base_spec() + RADIO_STRIDE * (k - 1),
        )
    }
}

/// The register file after the latch phase, radio by radio.
pub open spec fn latch_spec(slots: Seq<i64>, outbox: Seq<RadioSend>) -> Seq<i64> {
    latch_upto_spec(slots, outbox, 8)
}

/// The latest transmission on `channel` in `outbox`.
pub fn last_send_on(outbox: &Vec<RadioSend>, channel: i64) -> (r: Option<RadioSend>)
    ensures
        r == last_send_on_spec(outbox@, channel),
{
    let mut found: Option<RadioSend> = None;
    let mut i: usize = 0;
    while i < outbox.len()
        invariant
            0 <= i <= outbox@.len(),
            found == last_send_on_spec(outbox@.take(i as int), channel),
        decreases outbox@.len() - i,
    {
        proof {
            assert(outbox@.take(i + 1).drop_last() =~= outbox@.take(i as int));
            assert(outbox@.take(i + 1).last() == outbox@[i as int]);
        }
        if outbox[i].channel == channel {
            found = Some(outbox[i]);
        }
        i = i + 1;
    }
    proof {
        assert(outbox@.take(outbox@.len() as int) =~= outbox@);
    }
    found
}

/// Collects the pending transmission of radio `r`, if any, and lowers its
/// send flag. `slots0` is the register file as it stood before the first
/// radio of this agent was collected; the flags lowered so far do not
/// disturb the later radios' blocks.
fn collect_radio(slots: &mut StateSlotArray, r: usize, outbox: &mut Vec<RadioSend>, slots0: Ghost<Seq<i64>>)
    requires
        old(slots).wf(),
        r < 8,
        old(slots)@ == clear_sends_upto_spec(slots0@, r as int),
        slots0@.len() == MAX_SIZE,
    ensures
        final(slots).wf(),
        final(slots)@ == clear_sends_upto_spec(slots0@, r + 1),
        final(outbox)@ == old(outbox)@ + collect_one_spec(slots0@, radio_base_spec() + RADIO_STRIDE * r),
{
    let idxs = radio_indices(r);
    let flag: i64 = slots.read(idxs.send);
    proof {
        lemma_clear_sends_upto_preserves(slots0@, r as int);
    }
    if flag != 0 {
        let send = RadioSend {
            channel: slots.read(idxs.channel),
            d0: slots.read(idxs.data[0]),
            d1: slots.read(idxs.data[1]),
            d2: slots.read(idxs.data[2]),
            d3: slots.read(idxs.data[3]),
        };
        outbox.push(send);
        proof {
            assert(outbox@ =~= old(outbox)@ + collect_one_spec(slots0@, radio_base_spec() + RADIO_STRIDE * (r as int)));
        }
    } else {
        proof {
            assert(outbox@ =~= old(outbox)@ + collect_one_spec(slots0@, radio_base_spec() + RADIO_STRIDE * (r as int)));
        }
    }
    slots.write(idxs.send, 0);
}

/// The register file with the send flags of the first `k` radios lowered.
pub open spec fn clear_sends_upto_spec(slots: Seq<i64>, k: int) -> Seq<i64>
    decreases k,
{
    if k <= 0 {
        slots
    } else {
        clear_sends_upto_spec(slots, k - 1).update(radio_base_spec() + RADIO_STRIDE * (k - 1) + 1, 0i64)
    }
}

/// The index of radio `k`'s send flag.
pub open spec fn send_flag_index(k: int) -> int {
    radio_base_spec() + RADIO_STRIDE * k + 1
}

/// Lowering the first `r` send flags leaves every other slot unchanged.
proof fn lemma_clear_sends_upto_preserves(slots: Seq<i64>, r: int)
    requires
        0 <= r <= 8,
        slots.len() == MAX_SIZE,
    ensures
        clear_sends_upto_spec(slots, r).len() == slots.len(),
        forall|j: int| 0 <= j < slots.len()
            && !(exists|k: int| 0 <= k < r && j == #[trigger] send_flag_index(k))
            ==> #[trigger] clear_sends_upto_spec(slots, r)[j] == slots[j],
    decreases r,
{
    if r > 0 {
        lemma_clear_sends_upto_preserves(slots, r - 1);
        assert forall|j: int| 0 <= j < slots.len()
            && !(exists|k: int| 0 <= k < r && j == #[trigger] send_flag_index(k))
            implies #[trigger] clear_sends_upto_spec(slots, r)[j] == slots[j] by {
            assert(!(exists|k: int| 0 <= k < r - 1 && j == send_flag_index(k)));
            assert(j != send_flag_index(r - 1));
        }
    }
}

/// Routes the latest transmission on radio `r`'s channel into its receive
/// buffer, or clears the receive flag.
fn latch_radio_one(slots: &mut StateSlotArray, r: usize, outbox: &Vec<RadioSend>)
    requires
        old(slots).wf(),
        r < 8,
    ensures
        final(slots).wf(),
        final(slots)@ == latch_one_spec(old(slots)@, outbox@, radio_base_spec() + RADIO_STRIDE * r),
{
    let idxs = radio_indices(r);
    let channel: i64 = slots.read(idxs.channel);
    match last_send_on(outbox, channel) {
        Option::Some(m) => {
            slots.write(idxs.receive, 1);
            slots.write(idxs.data[0], m.d0);
            slots.write(idxs.data[1], m.d1);
            slots.write(idxs.data[2], m.d2);
            slots.write(idxs.data[3], m.d3);
        },
        Option::None => {
            slots.write(idxs.receive, 0);
        },
    }
}

impl<A: Agent> AgentInstance<A> {
    /// Every part of the instance is well formed.
    pub open spec fn wf(&self) -> bool {
        self.boundary.wf() && self.config.wf() && forall|i: int| 0 <= i < 4
            ==> #[trigger] self.reloads[i] >= 0
    }

    /// Creates an agent instance: fresh boundary seeded from the
    /// configuration, all weapons ready.
    pub fn new(code: A, config: AgentConfig, env: Environment) -> (r: AgentInstance<A>)
        requires
            env.wf(),
            config.wf(),
        ensures
            r.wf(),
            r.config == config,
            r.boundary.env == env,
            forall|i: int| 0 <= i < 4 ==> #[trigger] r.reloads[i] == 0,
    {
        let seed_value: i64 = config.seed_value;
        let seed: u128 = if seed_value >= 0 {
            seed_value as u128
        } else {
            ((seed_value as i128) + 0x1_0000_0000_0000_0000i128) as u128
        };
        AgentInstance {
            boundary: AgentBoundary::new(env, seed),
            code,
            config,
            reloads: [0, 0, 0, 0],
        }
    }

    /// Publish phase: writes the host's snapshot, the configuration, the
    /// reload timers, the clock and the selected radar contact into the
    /// agent's register file. The contact is selected by the radar window
    /// the agent configured on the previous tick.
    pub fn publish(&mut self, snap: &PhysicsSnapshot, tick: i64)
        requires
            old(self).wf(),
            snap.wf(),
        ensures
            final(self).wf(),
            final(self).boundary.slots@ == publish_slots_spec(
                old(self).boundary.slots@, *snap, old(self).config, old(self).reloads@, tick),
            final(self).boundary.env == old(self).boundary.env,
            final(self).boundary.rng == old(self).boundary.rng,
            final(self).boundary.dbg == old(self).boundary.dbg,
            final(self).config == old(self).config,
            final(self).reloads == old(self).reloads,
    {
        let h: i64 = self.boundary.slots.read(SystemState::RadarHeading);
        let w: i64 = self.boundary.slots.read(SystemState::RadarWidth);
        let lo: i64 = self.boundary.slots.read(SystemState::RadarMinDistance);
        let hi: i64 = self.boundary.slots.read(SystemState::RadarMaxDistance);
        let contact: Option<ScanResult> = select_contact(&snap.contacts, snap.position, h, w, lo, hi);
        let found: i64 = if contact.is_some() { 1 } else { 0 };
        let (contact_class, contact_px, contact_py, contact_vx, contact_vy, contact_rssi, contact_snr):
            (i64, i64, i64, i64, i64, i64, i64) = match contact {
            Option::Some(ct) => (
                ct.class.value(), ct.position.x, ct.position.y, ct.velocity.x, ct.velocity.y,
                ct.rssi, ct.snr,
            ),
            Option::None => (0, 0, 0, 0, 0, 0, 0),
        };
        let cls: i64 = self.config.class.value();
        let tick: i64 = tick;
        self.boundary.slots.write(SystemState::Class, cls);
        self.boundary.slots.write(SystemState::Id, self.config.id);
        self.boundary.slots.write(SystemState::Seed, self.config.seed_value);
        self.boundary.slots.write(SystemState::PositionX, snap.position.x);
        self.boundary.slots.write(SystemState::PositionY, snap.position.y);
        self.boundary.slots.write(SystemState::VelocityX, snap.velocity.x);
        self.boundary.slots.write(SystemState::VelocityY, snap.velocity.y);
        self.boundary.slots.write(SystemState::Heading, snap.heading);
        self.boundary.slots.write(SystemState::AngularVelocity, snap.angular_velocity);
        self.boundary.slots.write(SystemState::Health, snap.health);
        self.boundary.slots.write(SystemState::Fuel, snap.fuel);
        self.boundary.slots.write(SystemState::CurrentTick, tick);
        self.boundary.slots.write(SystemState::MaxForwardAcceleration, self.config.limits.forward);
        self.boundary.slots.write(SystemState::MaxBackwardAcceleration, self.config.limits.backward);
        self.boundary.slots.write(SystemState::MaxLateralAcceleration, self.config.limits.lateral);
        self.boundary.slots.write(SystemState::MaxAngularAcceleration, self.config.limits.angular);
        self.boundary.slots.write(SystemState::ReloadTicks0, self.reloads[0]);
        self.boundary.slots.write(SystemState::ReloadTicks1, self.reloads[1]);
        self.boundary.slots.write(SystemState::ReloadTicks2, self.reloads[2]);
        self.boundary.slots.write(SystemState::ReloadTicks3, self.reloads[3]);
        self.boundary.slots.write(SystemState::RadarContactFound, found);
        self.boundary.slots.write(SystemState::RadarContactClass, contact_class);
        self.boundary.slots.write(SystemState::RadarContactPositionX, contact_px);
        self.boundary.slots.write(SystemState::RadarContactPositionY, contact_py);
        self.boundary.slots.write(SystemState::RadarContactVelocityX, contact_vx);
        self.boundary.slots.write(SystemState::RadarContactVelocityY, contact_vy);
        self.boundary.slots.write(SystemState::RadarContactRssi, contact_rssi);
        self.boundary.slots.write(SystemState::RadarContactSnr, contact_snr);
    }

    /// Clears the debug overlay buffers, as happens before every tick's
    /// invocation begins, regardless of what the previous tick drew.
    pub fn begin_tick(&mut self)
        requires
            old(self).wf(),
        ensures
            final(self).wf(),
            final(self).boundary.dbg.is_empty_spec(),
            final(self).boundary.slots == old(self).boundary.slots,
            final(self).boundary.env == old(self).boundary.env,
            final(self).boundary.rng == old(self).boundary.rng,
            final(self).config == old(self).config,
            final(self).reloads == old(self).reloads,
    {
        self.boundary.dbg.reset();
    }

    /// Invoke phase: runs the agent's entry point exactly once. A module
    /// that exhausts its resource budget reports an incomplete tick; its
    /// register writes and drawings are discarded, so a faulted tick leaves
    /// no output changes and never reaches the other agents.
    pub fn invoke(&mut self) -> (completed: bool)
        requires
            old(self).wf(),
        ensures
            final(self).wf(),
            final(self).boundary.env == old(self).boundary.env,
            final(self).config == old(self).config,
            final(self).reloads == old(self).reloads,
            !completed ==> final(self).boundary.slots@ == old(self).boundary.slots@,
            !completed ==> final(self).boundary.dbg.is_empty_spec(),
    {
        let saved: StateSlotArray = self.boundary.slots.duplicate();
        let completed: bool = self.code.tick(&mut self.boundary);
        if !completed {
            self.boundary.slots = saved;
            self.boundary.dbg.reset();
        }
        completed
    }

    /// Commit phase: reads the agent's actuator outputs, clamps them to the
    /// configured limits, resolves fire requests against the host-owned
    /// reload timers, rearms successful shots and clears the consumed fire
    /// flags.
    pub fn commit(&mut self) -> (cmd: AgentCommands)
        requires
            old(self).wf(),
        ensures
            final(self).wf(),
            final(self).boundary.slots@ == clear_fires_spec(old(self).boundary.slots@),
            final(self).boundary.env == old(self).boundary.env,
            final(self).boundary.rng == old(self).boundary.rng,
            final(self).boundary.dbg == old(self).boundary.dbg,
            final(self).config == old(self).config,
            final(self).reloads@ == commit_reloads_spec(
                old(self).boundary.slots@, old(self).reloads@, old(self).config.cooldowns@),
            cmd.accel == clamp_accel_spec(
                Vec2 {
                    x: spec_read(old(self).boundary.slots@, SystemState::AccelerateX),
                    y: spec_read(old(self).boundary.slots@, SystemState::AccelerateY),
                },
                old(self).config.limits.forward as int,
                old(self).config.limits.backward as int,
                old(self).config.limits.lateral as int,
            ),
            cmd.torque == clamp_spec(
                spec_read(old(self).boundary.slots@, SystemState::Torque) as int,
                -(old(self).config.limits.angular as int),
                old(self).config.limits.angular as int,
            ),
            cmd.aims[0] == spec_read(old(self).boundary.slots@, SystemState::Aim0),
            cmd.aims[1] == spec_read(old(self).boundary.slots@, SystemState::Aim1),
            cmd.aims[2] == spec_read(old(self).boundary.slots@, SystemState::Aim2),
            cmd.aims[3] == spec_read(old(self).boundary.slots@, SystemState::Aim3),
            forall|i: int| 0 <= i < 4 ==> (#[trigger] cmd.fires[i]) == fire_success_spec(
                old(self).boundary.slots@, old(self).reloads@, i),
            cmd.explode == (spec_read(old(self).boundary.slots@, SystemState::Explode) != 0),
            cmd.ability == ability_from_value_spec(
                spec_read(old(self).boundary.slots@, SystemState::ActivateAbility) as int),
            cmd.ecm == ecm_from_value_spec(
                spec_read(old(self).boundary.slots@, SystemState::RadarEcmMode) as int),
            commands_within_limits(cmd, old(self).config.limits),
    {
        proof {
            crate::accel::lemma_accel_clamped(
                Vec2 {
                    x: spec_read(self.boundary.slots@, SystemState::AccelerateX),
                    y: spec_read(self.boundary.slots@, SystemState::AccelerateY),
                },
                self.config.limits.forward as int,
                self.config.limits.backward as int,
                self.config.limits.lateral as int,
            );
        }
        let accel_raw = Vec2 {
            x: self.boundary.slots.read(SystemState::AccelerateX),
            y: self.boundary.slots.read(SystemState::AccelerateY),
        };
        let accel = clamp_acceleration(
            accel_raw,
            self.config.limits.forward,
            self.config.limits.backward,
            self.config.limits.lateral,
        );
        let torque: i64 = clamp_i64(
            self.boundary.slots.read(SystemState::Torque),
            -self.config.limits.angular,
            self.config.limits.angular,
        );
        let aims: [i64; 4] = [
            self.boundary.slots.read(SystemState::Aim0),
            self.boundary.slots.read(SystemState::Aim1),
            self.boundary.slots.read(SystemState::Aim2),
            self.boundary.slots.read(SystemState::Aim3),
        ];
        let f0: bool = self.boundary.slots.read(SystemState::Fire0) != 0 && self.reloads[0] == 0;
        let f1: bool = self.boundary.slots.read(SystemState::Fire1) != 0 && self.reloads[1] == 0;
        let f2: bool = self.boundary.slots.read(SystemState::Fire2) != 0 && self.reloads[2] == 0;
        let f3: bool = self.boundary.slots.read(SystemState::Fire3) != 0 && self.reloads[3] == 0;
        let fires: [bool; 4] = [f0, f1, f2, f3];
        let explode: bool = self.boundary.slots.read(SystemState::Explode) != 0;
        let ability = Ability::from_value(self.boundary.slots.read(SystemState::ActivateAbility));
        let ecm = EcmMode::from_value(self.boundary.slots.read(SystemState::RadarEcmMode));
        let r0: i64 = if f0 { self.config.cooldowns[0] } else { self.reloads[0] };
        let r1: i64 = if f1 { self.config.cooldowns[1] } else { self.reloads[1] };
        let r2: i64 = if f2 { self.config.cooldowns[2] } else { self.reloads[2] };
        let r3: i64 = if f3 { self.config.cooldowns[3] } else { self.reloads[3] };
        self.reloads = [r0, r1, r2, r3];
        self.boundary.slots.write(SystemState::Fire0, 0);
        self.boundary.slots.write(SystemState::Fire1, 0);
        self.boundary.slots.write(SystemState::Fire2, 0);
        self.boundary.slots.write(SystemState::Fire3, 0);
        proof {
            assert(self.reloads@ =~= commit_reloads_spec(
                old(self).boundary.slots@, old(self).reloads@, old(self).config.cooldowns@));
        }
        AgentCommands { accel, torque, aims, fires, explode, ability, ecm }
    }

    /// Collects this agent's pending radio transmissions into the shared
    /// outbox, in radio order, and lowers the consumed send flags.
    #[verifier::rlimit(100)]
    pub fn collect_sends(&mut self, outbox: &mut Vec<RadioSend>)
        requires
            old(self).wf(),
        ensures
            final(self).wf(),
            final(outbox)@ == old(outbox)@ + sends_upto_spec(old(self).boundary.slots@, 8),
            final(self).boundary.slots@ == clear_sends_spec(old(self).boundary.slots@),
            final(self).boundary.env == old(self).boundary.env,
            final(self).boundary.rng == old(self).boundary.rng,
            final(self).boundary.dbg == old(self).boundary.dbg,
            final(self).config == old(self).config,
            final(self).reloads == old(self).reloads,
    {
        let ghost slots0 = self.boundary.slots@;
        proof {
            reveal_with_fuel(sends_upto_spec, 9);
        }
        collect_radio(&mut self.boundary.slots, 0, outbox, Ghost(slots0));
        proof {
            assert(outbox@ =~= old(outbox)@ + sends_upto_spec(slots0, 1));
        }
        collect_radio(&mut self.boundary.slots, 1, outbox, Ghost(slots0));
        proof {
            assert(outbox@ =~= old(outbox)@ + sends_upto_spec(slots0, 2));
        }
        collect_radio(&mut self.boundary.slots, 2, outbox, Ghost(slots0));
        proof {
            assert(outbox@ =~= old(outbox)@ + sends_upto_spec(slots0, 3));
        }
        collect_radio(&mut self.boundary.slots, 3, outbox, Ghost(slots0));
        proof {
            assert(outbox@ =~= old(outbox)@ + sends_upto_spec(slots0, 4));
        }
        collect_radio(&mut self.boundary.slots, 4, outbox, Ghost(slots0));
        proof {
            assert(outbox@ =~= old(outbox)@ + sends_upto_spec(slots0, 5));
        }
        collect_radio(&mut self.boundary.slots, 5, outbox, Ghost(slots0));
        proof {
            assert(outbox@ =~= old(outbox)@ + sends_upto_spec(slots0, 6));
        }
        collect_radio(&mut self.boundary.slots, 6, outbox, Ghost(slots0));
        proof {
            assert(outbox@ =~= old(outbox)@ + sends_upto_spec(slots0, 7));
        }
        collect_radio(&mut self.boundary.slots, 7, outbox, Ghost(slots0));
        proof {
            assert(outbox@ =~= old(outbox)@ + sends_upto_spec(slots0, 8));
        }
    }

    /// Latch phase: routes this tick's transmissions into the agent's
    /// receive buffers, one radio at a time. A radio tuned to a channel
    /// someone sent on receives the latest such transmission next tick;
    /// every other receive flag clears.
    pub fn latch_radio(&mut self, outbox: &Vec<RadioSend>)
        requires
            old(self).wf(),
        ensures
            final(self).wf(),
            final(self).boundary.slots@ == latch_spec(old(self).boundary.slots@, outbox@),
            final(self).boundary.env == old(self).boundary.env,
            final(self).boundary.rng == old(self).boundary.rng,
            final(self).boundary.dbg == old(self).boundary.dbg,
            final(self).config == old(self).config,
            final(self).reloads == old(self).reloads,
    {
        proof {
            reveal_with_fuel(latch_upto_spec, 9);
        }
        latch_radio_one(&mut self.boundary.slots, 0, outbox);
        latch_radio_one(&mut self.boundary.slots, 1, outbox);
        latch_radio_one(&mut self.boundary.slots, 2, outbox);
        latch_radio_one(&mut self.boundary.slots, 3, outbox);
        latch_radio_one(&mut self.boundary.slots, 4, outbox);
        latch_radio_one(&mut self.boundary.slots, 5, outbox);
        latch_radio_one(&mut self.boundary.slots, 6, outbox);
        latch_radio_one(&mut self.boundary.slots, 7, outbox);
    }

    /// Advance phase for this agent: each nonzero reload timer counts down
    /// by exactly one tick, and stops at zero.
    pub fn advance_reloads(&mut self)
        requires
            old(self).wf(),
        ensures
            final(self).wf(),
            forall|i: int| 0 <= i < 4
                ==> (#[trigger] final(self).reloads[i]) as int == decrement_spec(old(self).reloads[i] as int),
            final(self).boundary == old(self).boundary,
            final(self).config == old(self).config,
    {
        let r0: i64 = if self.reloads[0] > 0 { self.reloads[0] - 1 } else { 0 };
        let r1: i64 = if self.reloads[1] > 0 { self.reloads[1] - 1 } else { 0 };
        let r2: i64 = if self.reloads[2] > 0 { self.reloads[2] - 1 } else { 0 };
        let r3: i64 = if self.reloads[3] > 0 { self.reloads[3] - 1 } else { 0 };
        self.reloads = [r0, r1, r2, r3];
    }
}

/// The whole core: every live agent plus the shared clock. Idle when no
/// agents are loaded; stepping it is the one repeating transition.
pub struct Simulation<A> {
    /// The live agents, in creation order — also their invocation order.
    pub agents: Vec<AgentInstance<A>>,
    /// The shared tick counter.
    pub tick: i64,
}

impl<A: Agent> Simulation<A> {
    /// Every agent is well formed and the clock has room to advance.
    pub open spec fn wf(&self) -> bool {
        0 <= self.tick && forall|i: int| 0 <= i < self.agents@.len()
            ==> (#[trigger] self.agents@[i]).wf()
    }

    /// An idle simulation: no agents, clock at zero.
    pub fn new() -> (r: Simulation<A>)
        ensures
            r.wf(),
            r.agents@.len() == 0,
            r.tick == 0,
    {
        Simulation { agents: Vec::new(), tick: 0 }
    }

    /// Adds an agent at the end of the invocation order.
    pub fn add_agent(&mut self, code: A, config: AgentConfig, env: Environment)
        requires
            old(self).wf(),
            env.wf(),
            config.wf(),
        ensures
            final(self).wf(),
            final(self).agents@.len() == old(self).agents@.len() + 1,
            final(self).tick == old(self).tick,
    {
        let inst = AgentInstance::new(code, config, env);
        self.agents.push(inst);
    }

    /// Removes the agent at `index` from the simulation, between ticks, as
    /// when a ship is destroyed or despawned. Later agents keep their
    /// relative order.
    pub fn remove_agent(&mut self, index: usize)
        requires
            old(self).wf(),
            index < old(self).agents@.len(),
        ensures
            final(self).wf(),
            final(self).agents@.len() == old(self).agents@.len() - 1,
            final(self).tick == old(self).tick,
    {
        let _ = self.agents.remove(index);
    }

    /// One tick: publish every snapshot, invoke every agent once, commit
    /// every agent's outputs, then advance — route the radio traffic, count
    /// the reload timers down and step the clock. Returns the committed
    /// commands in agent order, for the external physics engine.
    ///
    /// No phase of a later agent runs before the same phase of an earlier
    /// agent, and no agent observes another agent's output from the same
    /// tick: transmissions sent now are latched for the next tick only.
    pub fn step(&mut self, inputs: &Vec<PhysicsSnapshot>) -> (cmds: Vec<AgentCommands>)
        requires
            old(self).wf(),
            old(self).tick < i64::MAX,
            inputs@.len() == old(self).agents@.len(),
            forall|i: int| 0 <= i < inputs@.len() ==> (#[trigger] inputs@[i]).wf(),
        ensures
            final(self).wf(),
            final(self).agents@.len() == old(self).agents@.len(),
            final(self).tick == old(self).tick + 1,
            cmds@.len() == old(self).agents@.len(),
            forall|i: int| 0 <= i < cmds@.len()
                ==> (#[trigger] final(self).agents@[i]).config == old(self).agents@[i].config,
            forall|i: int| 0 <= i < cmds@.len() ==> commands_within_limits(
                #[trigger] cmds@[i], final(self).agents@[i].config.limits),
    {
        let n: usize = self.agents.len();
        // Publish: every agent sees the same tick's snapshot before any
        // agent runs.
        let mut i: usize = 0;
        while i < n
            invariant
                0 <= i <= n,
                n == self.agents@.len(),
                inputs@.len() == n,
                forall|k: int| 0 <= k < inputs@.len() ==> (#[trigger] inputs@[k]).wf(),
                forall|k: int| 0 <= k < n ==> (#[trigger] self.agents@[k]).wf(),
                forall|k: int| 0 <= k < n
                    ==> (#[trigger] self.agents@[k]).config == old(self).agents@[k].config,
                self.tick == old(self).tick,
                0 <= self.tick < i64::MAX,
            decreases n - i,
        {
            let tick: i64 = self.tick;
            let a = vec_index_mut(&mut self.agents, i);
            a.publish(&inputs[i], tick);
            i = i + 1;
        }
        // Invoke: each agent runs exactly once, over cleared debug buffers,
        // in creation order.
        let mut i: usize = 0;
        while i < n
            invariant
                0 <= i <= n,
                n == self.agents@.len(),
                forall|k: int| 0 <= k < n ==> (#[trigger] self.agents@[k]).wf(),
                forall|k: int| 0 <= k < n
                    ==> (#[trigger] self.agents@[k]).config == old(self).agents@[k].config,
                self.tick == old(self).tick,
                0 <= self.tick < i64::MAX,
            decreases n - i,
        {
            let a = vec_index_mut(&mut self.agents, i);
            a.begin_tick();
            let _ = a.invoke();
            i = i + 1;
        }
        // Commit: consume the output slots and collect radio traffic.
        let mut cmds: Vec<AgentCommands> = Vec::new();
        let mut outbox: Vec<RadioSend> = Vec::new();
        let mut i: usize = 0;
        while i < n
            invariant
                0 <= i <= n,
                n == self.agents@.len(),
                cmds@.len() == i,
                forall|k: int| 0 <= k < n ==> (#[trigger] self.agents@[k]).wf(),
                forall|k: int| 0 <= k < n
                    ==> (#[trigger] self.agents@[k]).config == old(self).agents@[k].config,
                forall|k: int| 0 <= k < i ==> commands_within_limits(
                    #[trigger] cmds@[k], self.agents@[k].config.limits),
                self.tick == old(self).tick,
                0 <= self.tick < i64::MAX,
            decreases n - i,
        {
            let a = vec_index_mut(&mut self.agents, i);
            let cmd = a.commit();
            a.collect_sends(&mut outbox);
            cmds.push(cmd);
            i = i + 1;
        }
        // Advance: latch this tick's sends for next tick, count reloads
        // down, step the clock.
        let mut i: usize = 0;
        while i < n
            invariant
                0 <= i <= n,
                n == self.agents@.len(),
                forall|k: int| 0 <= k < n ==> (#[trigger] self.agents@[k]).wf(),
                forall|k: int| 0 <= k < n
                    ==> (#[trigger] self.agents@[k]).config == old(self).agents@[k].config,
                forall|k: int| 0 <= k < cmds@.len() ==> commands_within_limits(
                    #[trigger] cmds@[k], self.agents@[k].config.limits),
                cmds@.len() == n,
                self.tick == old(self).tick,
                0 <= self.tick < i64::MAX,
            decreases n - i,
        {
            let a = vec_index_mut(&mut self.agents, i);
            a.latch_radio(&outbox);
            a.advance_reloads();
            i = i + 1;
        }
        self.tick = self.tick + 1;
        cmds
    }
}


/// What one latch pass does to radio `j` after the first `k` radios were
/// latched: channels are never touched, radios not yet latched keep their
/// buffers, and a latched radio holds exactly the latest transmission on
/// the channel it was tuned to — or a lowered receive flag if there was
/// none.
pub proof fn lemma_latch_observes(slots: Seq<i64>, outbox: Seq<RadioSend>, k: int, j: int)
    requires
        slots.len() == MAX_SIZE,
        0 <= j < 8,
        0 <= k <= 8,
    ensures
        ({
            let base = radio_base_spec() + RADIO_STRIDE * j;
            let after = latch_upto_spec(slots, outbox, k);
            &&& after.len() == slots.len()
            &&& after[base] == slots[base]
            &&& (j >= k ==> after[base + 2] == slots[base + 2] && after[base + 3] == slots[base + 3]
                && after[base + 4] == slots[base + 4] && after[base + 5] == slots[base + 5]
                && after[base + 6] == slots[base + 6])
            &&& (j < k ==> match last_send_on_spec(outbox, slots[base]) {
                Option::Some(m) => after[base + 2] == 1 && after[base + 3] == m.d0
                    && after[base + 4] == m.d1 && after[base + 5] == m.d2 && after[base + 6] == m.d3,
                Option::None => after[base + 2] == 0,
            })
        }),
    decreases k,
{
    if k > 0 {
        lemma_latch_observes(slots, outbox, k - 1, j);
        if j != k - 1 {
            lemma_latch_observes(slots, outbox, k - 1, k - 1);
        }
    }
}

/// Radio round trip, receiving side: after the advance phase routes this
/// tick's transmissions, a radio tuned to channel `c` observes the latest
/// transmission sent on `c` this tick, with its payload intact; a radio
/// tuned to a silent channel observes nothing.
pub proof fn lemma_radio_round_trip(slots: Seq<i64>, outbox: Seq<RadioSend>, r: int)
    requires
        slots.len() == MAX_SIZE,
        0 <= r < 8,
    ensures
        ({
            let base = radio_base_spec() + RADIO_STRIDE * r;
            let after = latch_spec(slots, outbox);
            match last_send_on_spec(outbox, slots[base]) {
                Option::Some(m) => after[base + 2] == 1 && after[base + 3] == m.d0
                    && after[base + 4] == m.d1 && after[base + 5] == m.d2 && after[base + 6] == m.d3,
                Option::None => after[base + 2] == 0,
            }
        }),
{
    lemma_latch_observes(slots, outbox, 8, r);
}

/// Radio round trip, sending side: a send leaves every receive buffer of
/// every radio untouched, so a message sent at one tick is absent from all
/// receives within that same tick and becomes observable only after the
/// advance phase latches it.
pub proof fn lemma_send_invisible_same_tick(slots: Seq<i64>, msg: crate::agent::Message, r: int)
    requires
        slots.len() == MAX_SIZE,
        0 <= r < 8,
    ensures
        crate::agent::send_spec(slots, msg)[radio_base_spec() + RADIO_STRIDE * r + 2]
            == slots[radio_base_spec() + RADIO_STRIDE * r + 2],
{
}

/// The last transmission on a channel is the one most recently pushed with
/// that channel: later sends on the same channel overwrite earlier ones.
pub proof fn lemma_last_send_wins(outbox: Seq<RadioSend>, send: RadioSend)
    requires
        outbox.len() > 0,
        outbox.last() == send,
    ensures
        last_send_on_spec(outbox, send.channel) == Some(send),
{
}

/// Reload monotonicity: a successful shot rearms the mount to its full
/// cooldown of at least one tick, a mount still cooling down cannot fire,
/// and the advance phase counts every nonzero timer down by exactly one
/// tick until it reaches zero, where it stays.
pub proof fn lemma_reload_monotonic(slots: Seq<i64>, reloads: Seq<i64>, cooldowns: Seq<i64>, i: int)
    requires
        0 <= i < 4,
        reloads.len() == 4,
        cooldowns.len() == 4,
        cooldowns[i] >= 1,
        reloads[i] >= 0,
    ensures
        fire_success_spec(slots, reloads, i)
            ==> commit_reloads_spec(slots, reloads, cooldowns)[i] == cooldowns[i] >= 1,
        reloads[i] > 0 ==> !fire_success_spec(slots, reloads, i),
        !fire_success_spec(slots, reloads, i)
            ==> commit_reloads_spec(slots, reloads, cooldowns)[i] == reloads[i],
        reloads[i] > 0 ==> decrement_spec(reloads[i] as int) == reloads[i] - 1,
        reloads[i] == 0 ==> decrement_spec(reloads[i] as int) == 0,
{
}

/// The publish phase leaves the whole radio table alone: everything latched
/// for this tick survives until the agent's code runs and can receive it.
pub proof fn lemma_publish_preserves_radio(
    slots: Seq<i64>,
    snap: PhysicsSnapshot,
    config: AgentConfig,
    reloads: Seq<i64>,
    tick: i64,
    j: int,
)
    requires
        slots.len() == MAX_SIZE,
        radio_base_spec() <= j <= radio_base_spec() + RADIO_STRIDE * 8,
    ensures
        publish_slots_spec(slots, snap, config, reloads, tick)[j] == slots[j],
{
}

/// The commit phase consumes fire flags and send flags only: the receive
/// flag and payload buffers of every radio keep their latched values.
pub proof fn lemma_commit_preserves_receive(slots: Seq<i64>, r: int)
    requires
        slots.len() == MAX_SIZE,
        0 <= r < 8,
    ensures
        clear_fires_spec(slots)[radio_base_spec() + RADIO_STRIDE * r + 2]
            == slots[radio_base_spec() + RADIO_STRIDE * r + 2],
        forall|o: int| 2 <= o <= 6
            ==> #[trigger] clear_sends_spec(slots)[radio_base_spec() + RADIO_STRIDE * r + o]
                == slots[radio_base_spec() + RADIO_STRIDE * r + o],
{
    lemma_clear_sends_upto_preserves(slots, 8);
    assert forall|o: int| 2 <= o <= 6
        implies #[trigger] clear_sends_spec(slots)[radio_base_spec() + RADIO_STRIDE * r + o]
            == slots[radio_base_spec() + RADIO_STRIDE * r + o] by {
        let j = radio_base_spec() + RADIO_STRIDE * r + o;
        assert(!(exists|k: int| 0 <= k < 8 && j == #[trigger] send_flag_index(k))) by {
            assert forall|k: int| 0 <= k < 8 implies j != send_flag_index(k) by {}
        }
    }
}

/// Replay determinism of the host: every phase of the tick is a function
/// of the previous state and the tick's inputs alone, so two runs whose
/// states and inputs agree commit identical register files, identical
/// radio traffic and identical reload timers. Together with the proved
/// purity of the per-agent generator, a run is repeatable whenever the
/// agent code itself is.
pub proof fn lemma_host_phases_deterministic(
    slots_a: Seq<i64>,
    slots_b: Seq<i64>,
    snap_a: PhysicsSnapshot,
    snap_b: PhysicsSnapshot,
    config_a: AgentConfig,
    config_b: AgentConfig,
    reloads_a: Seq<i64>,
    reloads_b: Seq<i64>,
    cooldowns_a: Seq<i64>,
    cooldowns_b: Seq<i64>,
    tick_a: i64,
    tick_b: i64,
    outbox_a: Seq<RadioSend>,
    outbox_b: Seq<RadioSend>,
)
    requires
        slots_a == slots_b,
        snap_a == snap_b,
        config_a == config_b,
        reloads_a == reloads_b,
        cooldowns_a == cooldowns_b,
        tick_a == tick_b,
        outbox_a == outbox_b,
    ensures
        publish_slots_spec(slots_a, snap_a, config_a, reloads_a, tick_a)
            == publish_slots_spec(slots_b, snap_b, config_b, reloads_b, tick_b),
        clear_fires_spec(slots_a) == clear_fires_spec(slots_b),
        commit_reloads_spec(slots_a, reloads_a, cooldowns_a)
            == commit_reloads_spec(slots_b, reloads_b, cooldowns_b),
        sends_upto_spec(slots_a, 8) == sends_upto_spec(slots_b, 8),
        clear_sends_spec(slots_a) == clear_sends_spec(slots_b),
        latch_spec(slots_a, outbox_a) == latch_spec(slots_b, outbox_b),
{
}

} // verus!
