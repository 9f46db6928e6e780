//! The boundary of one sandboxed agent: its private register file,
//! environment view, random number generator and debug buffers, together with
//! every accessor the agent code may call.
//!
//! Nothing here reaches outside the boundary: each accessor reads or writes
//! the agent's own slots, and each contract says exactly which slots move.
use vstd::prelude::*;
use crate::accel::{clamp_accel_spec, clamp_acceleration, sanitize_limit, sanitize_limit_spec};
use crate::dbg::DebugState;
use crate::envdata::{getenv_spec, parse_number_spec, parse_number, Environment};
use crate::mathx::{
    clamp_i64, clamp_spec, norm_angle, norm_angle_spec, rotate_x_spec, rotate_y_spec, vec2, Vec2,
    COORD_LIMIT, SCALE, TAU_MRAD,
};
use crate::radio::{radio_indices, radio_base_spec, MAX_RADIOS, RADIO_STRIDE};
use crate::rng::RngState;
use crate::slots::{spec_read, spec_write, slot_index_spec, StateSlotArray, SystemState};
use crate::types::{
    ability_value_spec, class_from_value_spec, ecm_value_spec, Ability, Class, EcmMode,
};

verus! {

/// The time between two simulation ticks, in microseconds.
pub const TICK_LENGTH_MICROS: i64 = 16667;

/// Ticks per second of simulated time.
pub const TICKS_PER_SECOND: i64 = 60;

/// A radio payload: four numeric values, opaque to the transport.
pub type Message = [i64; 4];

/// A radar contact: the strongest emitter inside the configured window.
#[derive(Copy, Clone, PartialEq, Eq, Structural, Debug)]
pub struct ScanResult {
    /// The contact's class.
    pub class: Class,
    /// The contact's approximate position.
    pub position: Vec2,
    /// The contact's approximate velocity.
    pub velocity: Vec2,
    /// The received signal strength.
    pub rssi: i64,
    /// The signal-to-noise ratio.
    pub snr: i64,
}

/// The private memory of one agent instance: register file, environment,
/// generator and debug buffers. Exactly one agent owns each boundary; no
/// other agent can observe or mutate it.
pub struct AgentBoundary {
    /// The register file shared with the host.
    pub slots: StateSlotArray,
    /// The immutable environment view.
    pub env: Environment,
    /// The deterministic generator, seeded by the host.
    pub rng: RngState,
    /// The per-tick debug overlay buffers.
    pub dbg: DebugState,
}

/// The environment, generator and debug buffers are untouched between the
/// two states; only the register file moved.
pub open spec fn same_companions(pre: AgentBoundary, post: AgentBoundary) -> bool {
    post.env == pre.env && post.rng == pre.rng && post.dbg == pre.dbg
}

impl AgentBoundary {
    /// Every part of the boundary is well formed.
    pub open spec fn wf(&self) -> bool {
        self.slots.wf() && self.env.wf() && self.dbg.wf() && self.rng.wf()
    }

    /// Builds the boundary of a fresh agent: zeroed registers, the given
    /// environment, a generator seeded by the host, and empty debug buffers.
    pub fn new(env: Environment, seed: u128) -> (r: AgentBoundary)
        requires
            env.wf(),
        ensures
            r.wf(),
            forall|i: int| 0 <= i < r.slots@.len() ==> r.slots@[i] == 0i64,
            r.env == env,
            r.rng.state_spec() == crate::rng::pcg_seeded_state_spec(seed),
            r.dbg.is_empty_spec(),
    {
        AgentBoundary {
            slots: StateSlotArray::new(),
            env,
            rng: RngState::new(seed),
            dbg: DebugState::new(),
        }
    }

    /// The per-ship identifier published by the host.
    pub fn id(&self) -> (r: i64)
        requires
            self.wf(),
        ensures
            r == spec_read(self.slots@, SystemState::Id),
    {
        self.slots.read(SystemState::Id)
    }

    /// The ship class published by the host.
    pub fn class(&self) -> (r: Class)
        requires
            self.wf(),
        ensures
            r == class_from_value_spec(spec_read(self.slots@, SystemState::Class) as int),
    {
        Class::from_value(self.slots.read(SystemState::Class))
    }

    /// The seed value published by the host, for initializing a generator.
    pub fn seed(&self) -> (r: u128)
        requires
            self.wf(),
        ensures
            r == seed_of_slot(spec_read(self.slots@, SystemState::Seed)),
    {
        let v: i64 = self.slots.read(SystemState::Seed);
        if v >= 0 {
            v as u128
        } else {
            ((v as i128) + 0x1_0000_0000_0000_0000i128) as u128
        }
    }

    /// The current position, in fixed-point meters.
    pub fn position(&self) -> (r: Vec2)
        requires
            self.wf(),
        ensures
            r.x == spec_read(self.slots@, SystemState::PositionX),
            r.y == spec_read(self.slots@, SystemState::PositionY),
    {
        vec2(
            self.slots.read(SystemState::PositionX),
            self.slots.read(SystemState::PositionY),
        )
    }

    /// The current velocity, in fixed-point meters per second.
    pub fn velocity(&self) -> (r: Vec2)
        requires
            self.wf(),
        ensures
            r.x == spec_read(self.slots@, SystemState::VelocityX),
            r.y == spec_read(self.slots@, SystemState::VelocityY),
    {
        vec2(
            self.slots.read(SystemState::VelocityX),
            self.slots.read(SystemState::VelocityY),
        )
    }

    /// The current heading, in milliradians.
    pub fn heading(&self) -> (r: i64)
        requires
            self.wf(),
        ensures
            r == spec_read(self.slots@, SystemState::Heading),
    {
        self.slots.read(SystemState::Heading)
    }

    /// The current angular velocity, in milliradians per second.
    pub fn angular_velocity(&self) -> (r: i64)
        requires
            self.wf(),
        ensures
            r == spec_read(self.slots@, SystemState::AngularVelocity),
    {
        self.slots.read(SystemState::AngularVelocity)
    }

    /// The current health published by the host.
    pub fn health(&self) -> (r: i64)
        requires
            self.wf(),
        ensures
            r == spec_read(self.slots@, SystemState::Health),
    {
        self.slots.read(SystemState::Health)
    }

    /// The current fuel published by the host.
    pub fn fuel(&self) -> (r: i64)
        requires
            self.wf(),
        ensures
            r == spec_read(self.slots@, SystemState::Fuel),
    {
        self.slots.read(SystemState::Fuel)
    }

    /// The published forward and backward acceleration limits, as a pair.
    pub fn max_acceleration(&self) -> (r: Vec2)
        requires
            self.wf(),
        ensures
            r.x == spec_read(self.slots@, SystemState::MaxForwardAcceleration),
            r.y == spec_read(self.slots@, SystemState::MaxBackwardAcceleration),
    {
        vec2(
            self.slots.read(SystemState::MaxForwardAcceleration),
            self.slots.read(SystemState::MaxBackwardAcceleration),
        )
    }

    /// The published forward acceleration limit.
    pub fn max_forward_acceleration(&self) -> (r: i64)
        requires
            self.wf(),
        ensures
            r == spec_read(self.slots@, SystemState::MaxForwardAcceleration),
    {
        self.slots.read(SystemState::MaxForwardAcceleration)
    }

    /// The published backward acceleration limit.
    pub fn max_backward_acceleration(&self) -> (r: i64)
        requires
            self.wf(),
        ensures
            r == spec_read(self.slots@, SystemState::MaxBackwardAcceleration),
    {
        self.slots.read(SystemState::MaxBackwardAcceleration)
    }

    /// The published lateral acceleration limit.
    pub fn max_lateral_acceleration(&self) -> (r: i64)
        requires
            self.wf(),
        ensures
            r == spec_read(self.slots@, SystemState::MaxLateralAcceleration),
    {
        self.slots.read(SystemState::MaxLateralAcceleration)
    }

    /// The published angular acceleration limit.
    pub fn max_angular_acceleration(&self) -> (r: i64)
        requires
            self.wf(),
        ensures
            r == spec_read(self.slots@, SystemState::MaxAngularAcceleration),
    {
        self.slots.read(SystemState::MaxAngularAcceleration)
    }

    /// The number of ticks elapsed since the simulation began.
    pub fn current_tick(&self) -> (r: i64)
        requires
            self.wf(),
        ensures
            r == spec_read(self.slots@, SystemState::CurrentTick),
    {
        self.slots.read(SystemState::CurrentTick)
    }

    /// The elapsed simulated time in milliseconds.
    pub fn current_time(&self) -> (r: i64)
        requires
            self.wf(),
        ensures
            r == time_of_tick(spec_read(self.slots@, SystemState::CurrentTick) as int),
    {
        let t: i64 = clamp_i64(
            self.slots.read(SystemState::CurrentTick),
            0,
            0x20_0000_0000_0000,
        );
        t * 1000 / TICKS_PER_SECOND
    }

    /// Commands a linear acceleration for the next tick.
    ///
    /// The command is decomposed into the agent's local forward/lateral axes
    /// and clamped to the published per-axis limits before it reaches the
    /// registers, so the physics engine only ever sees bounded actuation.
    pub fn accelerate(&mut self, acceleration: Vec2)
        requires
            old(self).wf(),
        ensures
            final(self).wf(),
            same_companions(*old(self), *final(self)),
            final(self).slots@ == spec_write(
                spec_write(
                    old(self).slots@,
                    SystemState::AccelerateX,
                    accel_command_spec(old(self).slots@, acceleration).x,
                ),
                SystemState::AccelerateY,
                accel_command_spec(old(self).slots@, acceleration).y,
            ),
    {
        let heading: i64 = self.slots.read(SystemState::Heading);
        let neg: i64 = TAU_MRAD - norm_angle(heading);
        let local: Vec2 = acceleration.clamped(COORD_LIMIT).rotate(neg);
        let maxf: i64 = self.slots.read(SystemState::MaxForwardAcceleration);
        let maxb: i64 = self.slots.read(SystemState::MaxBackwardAcceleration);
        let maxl: i64 = self.slots.read(SystemState::MaxLateralAcceleration);
        let a: Vec2 = clamp_acceleration(local, maxf, maxb, maxl);
        self.slots.write(SystemState::AccelerateX, a.x);
        self.slots.write(SystemState::AccelerateY, a.y);
    }

    /// Commands an angular acceleration for the next tick.
    pub fn torque(&mut self, angular_acceleration: i64)
        requires
            old(self).wf(),
        ensures
            final(self).wf(),
            same_companions(*old(self), *final(self)),
            final(self).slots@ == spec_write(old(self).slots@, SystemState::Torque, angular_acceleration),
    {
        self.slots.write(SystemState::Torque, angular_acceleration);
    }

    /// Rotates toward the given angular speed, by commanding the signed
    /// maximum angular acceleration until the target speed is reached.
    /// Sustained calls converge the angular velocity instead of jumping.
    pub fn turn(&mut self, speed: i64)
        requires
            old(self).wf(),
        ensures
            final(self).wf(),
            same_companions(*old(self), *final(self)),
            final(self).slots@ == spec_write(
                old(self).slots@,
                SystemState::Torque,
                turn_torque_spec(old(self).slots@, speed as int),
            ),
    {
        let maxang: i64 = sanitize_limit(self.slots.read(SystemState::MaxAngularAcceleration));
        let target: i64 = clamp_i64(speed, -(maxang / 5), maxang / 5);
        let vel: i64 = self.slots.read(SystemState::AngularVelocity);
        let diff: i128 = (target as i128) - (vel as i128);
        let cmd: i64 = if diff > 0 { maxang } else if diff < 0 { -maxang } else { 0 };
        self.slots.write(SystemState::Torque, cmd);
    }

    /// Aims the turreted weapon at `index`; out-of-range indices are a no-op.
    pub fn aim(&mut self, index: usize, heading: i64)
        requires
            old(self).wf(),
        ensures
            final(self).wf(),
            same_companions(*old(self), *final(self)),
            index == 0 ==> final(self).slots@ == spec_write(old(self).slots@, SystemState::Aim0, heading),
            index == 1 ==> final(self).slots@ == spec_write(old(self).slots@, SystemState::Aim1, heading),
            index == 2 ==> final(self).slots@ == spec_write(old(self).slots@, SystemState::Aim2, heading),
            index == 3 ==> final(self).slots@ == spec_write(old(self).slots@, SystemState::Aim3, heading),
            index > 3 ==> final(self).slots@ == old(self).slots@,
    {
        let slot: SystemState = match index {
            0 => SystemState::Aim0,
            1 => SystemState::Aim1,
            2 => SystemState::Aim2,
            3 => SystemState::Aim3,
            _ => { return; },
        };
        self.slots.write(slot, heading);
    }

    /// Raises the one-shot fire flag of the weapon at `index`; out-of-range
    /// indices are a no-op. The host consumes and clears the flag.
    pub fn fire(&mut self, index: usize)
        requires
            old(self).wf(),
        ensures
            final(self).wf(),
            same_companions(*old(self), *final(self)),
            index == 0 ==> final(self).slots@ == spec_write(old(self).slots@, SystemState::Fire0, 1),
            index == 1 ==> final(self).slots@ == spec_write(old(self).slots@, SystemState::Fire1, 1),
            index == 2 ==> final(self).slots@ == spec_write(old(self).slots@, SystemState::Fire2, 1),
            index == 3 ==> final(self).slots@ == spec_write(old(self).slots@, SystemState::Fire3, 1),
            index > 3 ==> final(self).slots@ == old(self).slots@,
    {
        let slot: SystemState = match index {
            0 => SystemState::Fire0,
            1 => SystemState::Fire1,
            2 => SystemState::Fire2,
            3 => SystemState::Fire3,
            _ => { return; },
        };
        self.slots.write(slot, 1);
    }

    /// The remaining cooldown of the weapon at `index`, zero when ready;
    /// out-of-range indices read as ready.
    pub fn reload_ticks(&self, index: usize) -> (r: i64)
        requires
            self.wf(),
        ensures
            index == 0 ==> r == spec_read(self.slots@, SystemState::ReloadTicks0),
            index == 1 ==> r == spec_read(self.slots@, SystemState::ReloadTicks1),
            index == 2 ==> r == spec_read(self.slots@, SystemState::ReloadTicks2),
            index == 3 ==> r == spec_read(self.slots@, SystemState::ReloadTicks3),
            index > 3 ==> r == 0,
    {
        let slot: SystemState = match index {
            0 => SystemState::ReloadTicks0,
            1 => SystemState::ReloadTicks1,
            2 => SystemState::ReloadTicks2,
            3 => SystemState::ReloadTicks3,
            _ => { return 0; },
        };
        self.slots.read(slot)
    }

    /// Raises the self-destruct flag, irreversible within the tick.
    pub fn explode(&mut self)
        requires
            old(self).wf(),
        ensures
            final(self).wf(),
            same_companions(*old(self), *final(self)),
            final(self).slots@ == spec_write(old(self).slots@, SystemState::Explode, 1),
    {
        self.slots.write(SystemState::Explode, 1);
    }

    /// The heading the radar is pointed at.
    pub fn radar_heading(&self) -> (r: i64)
        requires
            self.wf(),
        ensures
            r == spec_read(self.slots@, SystemState::RadarHeading),
    {
        self.slots.read(SystemState::RadarHeading)
    }

    /// Points the radar; takes effect next tick.
    pub fn set_radar_heading(&mut self, heading: i64)
        requires
            old(self).wf(),
        ensures
            final(self).wf(),
            same_companions(*old(self), *final(self)),
            final(self).slots@ == spec_write(old(self).slots@, SystemState::RadarHeading, heading),
    {
        self.slots.write(SystemState::RadarHeading, heading);
    }

    /// The radar's field of view, in milliradians.
    pub fn radar_width(&self) -> (r: i64)
        requires
            self.wf(),
        ensures
            r == spec_read(self.slots@, SystemState::RadarWidth),
    {
        self.slots.read(SystemState::RadarWidth)
    }

    /// Sets the radar's field of view; takes effect next tick.
    pub fn set_radar_width(&mut self, width: i64)
        requires
            old(self).wf(),
        ensures
            final(self).wf(),
            same_companions(*old(self), *final(self)),
            final(self).slots@ == spec_write(old(self).slots@, SystemState::RadarWidth, width),
    {
        self.slots.write(SystemState::RadarWidth, width);
    }

    /// The radar's minimum distance filter.
    pub fn radar_min_distance(&self) -> (r: i64)
        requires
            self.wf(),
        ensures
            r == spec_read(self.slots@, SystemState::RadarMinDistance),
    {
        self.slots.read(SystemState::RadarMinDistance)
    }

    /// Sets the radar's minimum distance filter; takes effect next tick.
    pub fn set_radar_min_distance(&mut self, dist: i64)
        requires
            old(self).wf(),
        ensures
            final(self).wf(),
            same_companions(*old(self), *final(self)),
            final(self).slots@ == spec_write(old(self).slots@, SystemState::RadarMinDistance, dist),
    {
        self.slots.write(SystemState::RadarMinDistance, dist);
    }

    /// The radar's maximum distance filter.
    pub fn radar_max_distance(&self) -> (r: i64)
        requires
            self.wf(),
        ensures
            r == spec_read(self.slots@, SystemState::RadarMaxDistance),
    {
        self.slots.read(SystemState::RadarMaxDistance)
    }

    /// Sets the radar's maximum distance filter; takes effect next tick.
    pub fn set_radar_max_distance(&mut self, dist: i64)
        requires
            old(self).wf(),
        ensures
            final(self).wf(),
            same_companions(*old(self), *final(self)),
            final(self).slots@ == spec_write(old(self).slots@, SystemState::RadarMaxDistance, dist),
    {
        self.slots.write(SystemState::RadarMaxDistance, dist);
    }

    /// Sets this agent's own counter-measure emission mode, observed by
    /// other agents' radars, not its own.
    pub fn set_radar_ecm_mode(&mut self, mode: EcmMode)
        requires
            old(self).wf(),
        ensures
            final(self).wf(),
            same_companions(*old(self), *final(self)),
            final(self).slots@ == spec_write(
                old(self).slots@,
                SystemState::RadarEcmMode,
                ecm_value_spec(mode) as i64,
            ),
    {
        let v: i64 = mode.value();
        self.slots.write(SystemState::RadarEcmMode, v);
    }

    /// The radar contact with the highest signal strength, if the last scan
    /// found one inside the configured window.
    pub fn scan(&self) -> (r: Option<ScanResult>)
        requires
            self.wf(),
        ensures
            r is Some <==> spec_read(self.slots@, SystemState::RadarContactFound) != 0,
            r is Some ==> r->Some_0 == scan_result_spec(self.slots@),
    {
        if self.slots.read(SystemState::RadarContactFound) == 0 {
            return None;
        }
        Some(ScanResult {
            class: Class::from_value(self.slots.read(SystemState::RadarContactClass)),
            position: vec2(
                self.slots.read(SystemState::RadarContactPositionX),
                self.slots.read(SystemState::RadarContactPositionY),
            ),
            velocity: vec2(
                self.slots.read(SystemState::RadarContactVelocityX),
                self.slots.read(SystemState::RadarContactVelocityY),
            ),
            rssi: self.slots.read(SystemState::RadarContactRssi),
            snr: self.slots.read(SystemState::RadarContactSnr),
        })
    }

    /// Selects which radio subsequent radio calls address; out-of-range
    /// indices are saturated into range.
    pub fn select_radio(&mut self, index: usize)
        requires
            old(self).wf(),
        ensures
            final(self).wf(),
            same_companions(*old(self), *final(self)),
            final(self).slots@ == spec_write(
                old(self).slots@,
                SystemState::SelectedRadio,
                clamp_spec(index as int, 0, (MAX_RADIOS - 1) as int) as i64,
            ),
    {
        let sel: usize = if index > MAX_RADIOS - 1 { MAX_RADIOS - 1 } else { index };
        self.slots.write(SystemState::SelectedRadio, sel as i64);
    }

    /// Sets the channel of the selected radio; takes effect next tick.
    pub fn set_radio_channel(&mut self, channel: i64)
        requires
            old(self).wf(),
        ensures
            final(self).wf(),
            same_companions(*old(self), *final(self)),
            final(self).slots@ == old(self).slots@.update(
                radio_base_spec() + RADIO_STRIDE * selected_radio_spec(old(self).slots@),
                channel,
            ),
    {
        let sel: usize = self.selected_radio();
        let idxs = radio_indices(sel);
        self.slots.write(idxs.channel, channel);
    }

    /// The channel of the selected radio.
    pub fn get_radio_channel(&self) -> (r: i64)
        requires
            self.wf(),
        ensures
            r == self.slots@[radio_base_spec() + RADIO_STRIDE * selected_radio_spec(self.slots@)],
    {
        let sel: usize = self.selected_radio();
        let idxs = radio_indices(sel);
        self.slots.read(idxs.channel)
    }

    /// Sends a message on the selected radio: overwrites the pending payload
    /// and raises the send flag. The message becomes receivable next tick.
    pub fn send(&mut self, msg: Message)
        requires
            old(self).wf(),
        ensures
            final(self).wf(),
            same_companions(*old(self), *final(self)),
            final(self).slots@ == send_spec(old(self).slots@, msg),
    {
        let sel: usize = self.selected_radio();
        let idxs = radio_indices(sel);
        self.slots.write(idxs.send, 1);
        self.slots.write(idxs.data[0], msg[0]);
        self.slots.write(idxs.data[1], msg[1]);
        self.slots.write(idxs.data[2], msg[2]);
        self.slots.write(idxs.data[3], msg[3]);
    }

    /// The message latched on the selected radio, if its receive flag is set.
    pub fn receive(&self) -> (r: Option<Message>)
        requires
            self.wf(),
        ensures
            ({
                let base = radio_base_spec() + RADIO_STRIDE * selected_radio_spec(self.slots@);
                &&& r is Some <==> self.slots@[base + 2] != 0
                &&& r is Some ==> (forall|i: int| 0 <= i < 4 ==> r->Some_0[i] == self.slots@[base + 3 + i])
            }),
    {
        let sel: usize = self.selected_radio();
        let idxs = radio_indices(sel);
        if self.slots.read(idxs.receive) != 0 {
            let m: Message = [
                self.slots.read(idxs.data[0]),
                self.slots.read(idxs.data[1]),
                self.slots.read(idxs.data[2]),
                self.slots.read(idxs.data[3]),
            ];
            Some(m)
        } else {
            None
        }
    }

    /// The saturated selected-radio index.
    fn selected_radio(&self) -> (r: usize)
        requires
            self.wf(),
        ensures
            r == selected_radio_spec(self.slots@),
            r < MAX_RADIOS,
    {
        let v: i64 = self.slots.read(SystemState::SelectedRadio);
        clamp_i64(v, 0, (MAX_RADIOS - 1) as i64) as usize
    }

    /// Reads one register directly: the primitive read of the ABI.
    pub fn read_system_state(&self, index: SystemState) -> (v: i64)
        requires
            self.wf(),
        ensures
            v == spec_read(self.slots@, index),
    {
        self.slots.read(index)
    }

    /// Writes one register directly: the primitive write of the ABI.
    pub fn write_system_state(&mut self, index: SystemState, value: i64)
        requires
            old(self).wf(),
        ensures
            final(self).wf(),
            same_companions(*old(self), *final(self)),
            final(self).slots@ == spec_write(old(self).slots@, index, value),
    {
        self.slots.write(index, value);
    }

    /// Compatibility alias for `aim`.
    pub fn aim_gun(&mut self, index: usize, heading: i64)
        requires
            old(self).wf(),
        ensures
            final(self).wf(),
            same_companions(*old(self), *final(self)),
            index == 0 ==> final(self).slots@ == spec_write(old(self).slots@, SystemState::Aim0, heading),
            index == 1 ==> final(self).slots@ == spec_write(old(self).slots@, SystemState::Aim1, heading),
            index == 2 ==> final(self).slots@ == spec_write(old(self).slots@, SystemState::Aim2, heading),
            index == 3 ==> final(self).slots@ == spec_write(old(self).slots@, SystemState::Aim3, heading),
            index > 3 ==> final(self).slots@ == old(self).slots@,
    {
        self.aim(index, heading);
    }

    /// Compatibility alias for `fire`.
    pub fn fire_gun(&mut self, index: usize)
        requires
            old(self).wf(),
        ensures
            final(self).wf(),
            same_companions(*old(self), *final(self)),
            index == 0 ==> final(self).slots@ == spec_write(old(self).slots@, SystemState::Fire0, 1),
            index == 1 ==> final(self).slots@ == spec_write(old(self).slots@, SystemState::Fire1, 1),
            index == 2 ==> final(self).slots@ == spec_write(old(self).slots@, SystemState::Fire2, 1),
            index == 3 ==> final(self).slots@ == spec_write(old(self).slots@, SystemState::Fire3, 1),
            index > 3 ==> final(self).slots@ == old(self).slots@,
    {
        self.fire(index);
    }

    /// Compatibility shim: raises the fire flag of the missile mount that
    /// `index` selects for this agent's class; a no-op for classes or
    /// indices without such a mount.
    pub fn launch_missile(&mut self, index: usize)
        requires
            old(self).wf(),
        ensures
            final(self).wf(),
            same_companions(*old(self), *final(self)),
            ({
                let cls = class_from_value_spec(spec_read(old(self).slots@, SystemState::Class) as int);
                match launch_missile_slot_spec(cls, index as int) {
                    Option::Some(tag) => final(self).slots@ == spec_write(old(self).slots@, tag, 1),
                    Option::None => final(self).slots@ == old(self).slots@,
                }
            }),
    {
        let cls: Class = self.class();
        let slot: SystemState = match (cls, index) {
            (Class::Fighter, 0) => SystemState::Fire1,
            (Class::Frigate, 0) => SystemState::Fire3,
            (Class::Cruiser, 0) => SystemState::Fire1,
            (Class::Cruiser, 1) => SystemState::Fire2,
            (Class::Cruiser, 2) => SystemState::Fire3,
            _ => { return; },
        };
        self.slots.write(slot, 1);
    }

    /// Transmits the intent to activate a special ability; the host enforces
    /// legality and cooldown.
    pub fn activate_ability(&mut self, ability: Ability)
        requires
            old(self).wf(),
        ensures
            final(self).wf(),
            same_companions(*old(self), *final(self)),
            final(self).slots@ == spec_write(
                old(self).slots@,
                SystemState::ActivateAbility,
                ability_value_spec(ability) as i64,
            ),
    {
        let v: i64 = ability.value();
        self.slots.write(SystemState::ActivateAbility, v);
    }

    /// The position of the scenario's designated target.
    pub fn target(&self) -> (r: Vec2)
        requires
            self.wf(),
        ensures
            r.x == spec_read(self.slots@, SystemState::RadarContactPositionX),
            r.y == spec_read(self.slots@, SystemState::RadarContactPositionY),
    {
        vec2(
            self.slots.read(SystemState::RadarContactPositionX),
            self.slots.read(SystemState::RadarContactPositionY),
        )
    }

    /// The velocity of the scenario's designated target.
    pub fn target_velocity(&self) -> (r: Vec2)
        requires
            self.wf(),
        ensures
            r.x == spec_read(self.slots@, SystemState::RadarContactVelocityX),
            r.y == spec_read(self.slots@, SystemState::RadarContactVelocityY),
    {
        vec2(
            self.slots.read(SystemState::RadarContactVelocityX),
            self.slots.read(SystemState::RadarContactVelocityY),
        )
    }

    /// Looks up a key in the environment buffer.
    pub fn getenv(&self, key: &Vec<u8>) -> (r: Option<Vec<u8>>)
        requires
            self.wf(),
        ensures
            r is Some <==> getenv_spec(self.env@, key@) is Some,
            r is Some ==> r->Some_0@ == getenv_spec(self.env@, key@)->Some_0,
    {
        self.env.getenv(key)
    }

    /// The scenario name from the environment, or a fixed fallback.
    pub fn scenario_name(&self) -> (r: Vec<u8>)
        requires
            self.wf(),
        ensures
            getenv_spec(self.env@, scenario_name_key()) is Some
                ==> r@ == getenv_spec(self.env@, scenario_name_key())->Some_0,
            getenv_spec(self.env@, scenario_name_key()) is None
                ==> r@ == unknown_name(),
    {
        let key: Vec<u8> = scenario_name_key_vec();
        match self.env.getenv(&key) {
            Some(v) => v,
            None => unknown_name_vec(),
        }
    }

    /// The world size from the environment, in fixed-point meters; malformed
    /// or missing values read as zero.
    pub fn world_size(&self) -> (r: i64)
        requires
            self.wf(),
        ensures
            r == world_size_spec(self.env@),
    {
        let key: Vec<u8> = world_size_key_vec();
        match self.env.getenv(&key) {
            Some(v) => parse_number(&v, WORLD_SIZE_CAP) * SCALE,
            None => 0,
        }
    }

    /// Draws a value in `[low, high)` from the agent's own generator; an
    /// empty or inverted interval reads back its low bound without drawing.
    pub fn rand(&mut self, low: i64, high: i64) -> (r: i64)
        requires
            old(self).wf(),
        ensures
            final(self).wf(),
            final(self).slots == old(self).slots,
            final(self).env == old(self).env,
            final(self).dbg == old(self).dbg,
            low < high && high - low <= i64::MAX ==> {
                &&& low <= r < high
                &&& r == RngState::rand_range_value_spec(
                    crate::rng::pcg_output_spec(old(self).rng.state_spec()), low as int, high as int)
                &&& final(self).rng.state_spec() == crate::rng::pcg_step_spec(
                    old(self).rng.state_spec(), old(self).rng.inc_spec())
            },
            !(low < high && high - low <= i64::MAX) ==> r == low && final(self).rng == old(self).rng,
    {
        if low < high && (high as i128) - (low as i128) <= i64::MAX as i128 {
            self.rng.rand_range(low, high)
        } else {
            low
        }
    }
}

/// The seed a slot value denotes: its two's-complement bits, zero extended.
pub open spec fn seed_of_slot(v: i64) -> u128 {
    if v >= 0 { v as u128 } else { (v + 0x1_0000_0000_0000_0000) as u128 }
}

/// Elapsed simulated milliseconds at a tick count.
pub open spec fn time_of_tick(t: int) -> int {
    clamp_spec(t, 0, 0x20_0000_0000_0000) * 1000 / (TICKS_PER_SECOND as int)
}

/// The torque the turn law commands: the signed maximum angular
/// acceleration, toward the clamped target speed, zero once reached.
pub open spec fn turn_torque_spec(slots: Seq<i64>, speed: int) -> i64 {
    let maxang = sanitize_limit_spec(spec_read(slots, SystemState::MaxAngularAcceleration) as int);
    let target = clamp_spec(speed, -(maxang / 5), maxang / 5);
    let vel = spec_read(slots, SystemState::AngularVelocity) as int;
    if target > vel { maxang as i64 } else if target < vel { (-maxang) as i64 } else { 0i64 }
}

/// The local acceleration command that reaches the registers: the commanded
/// vector saturated to the coordinate range, rotated into the agent's local
/// frame, and clamped to the published limits.
pub open spec fn accel_command_spec(slots: Seq<i64>, acceleration: Vec2) -> Vec2 {
    let heading = spec_read(slots, SystemState::Heading) as int;
    let neg = (TAU_MRAD as int) - norm_angle_spec(heading);
    let clamped = Vec2 {
        x: clamp_spec(acceleration.x as int, -(COORD_LIMIT as int), COORD_LIMIT as int) as i64,
        y: clamp_spec(acceleration.y as int, -(COORD_LIMIT as int), COORD_LIMIT as int) as i64,
    };
    let local = Vec2 {
        x: rotate_x_spec(clamped, neg) as i64,
        y: rotate_y_spec(clamped, neg) as i64,
    };
    clamp_accel_spec(
        local,
        spec_read(slots, SystemState::MaxForwardAcceleration) as int,
        spec_read(slots, SystemState::MaxBackwardAcceleration) as int,
        spec_read(slots, SystemState::MaxLateralAcceleration) as int,
    )
}

/// The contact published in the radar slots.
pub open spec fn scan_result_spec(slots: Seq<i64>) -> ScanResult {
    ScanResult {
        class: class_from_value_spec(spec_read(slots, SystemState::RadarContactClass) as int),
        position: Vec2 {
            x: spec_read(slots, SystemState::RadarContactPositionX),
            y: spec_read(slots, SystemState::RadarContactPositionY),
        },
        velocity: Vec2 {
            x: spec_read(slots, SystemState::RadarContactVelocityX),
            y: spec_read(slots, SystemState::RadarContactVelocityY),
        },
        rssi: spec_read(slots, SystemState::RadarContactRssi),
        snr: spec_read(slots, SystemState::RadarContactSnr),
    }
}

/// The saturated selected-radio index in a register file.
pub open spec fn selected_radio_spec(slots: Seq<i64>) -> int {
    clamp_spec(spec_read(slots, SystemState::SelectedRadio) as int, 0, (MAX_RADIOS - 1) as int)
}

/// The register file after a send on the selected radio: the send flag rises
/// and the four payload slots take the message.
pub open spec fn send_spec(slots: Seq<i64>, msg: Message) -> Seq<i64> {
    let base = radio_base_spec() + RADIO_STRIDE * selected_radio_spec(slots);
    slots.update(base + 1, 1i64)
        .update(base + 3, msg[0])
        .update(base + 4, msg[1])
        .update(base + 5, msg[2])
        .update(base + 6, msg[3])
}

/// The key of the scenario name entry.
pub open spec fn scenario_name_key() -> Seq<u8> {
    seq![83u8, 67u8, 69u8, 78u8, 65u8, 82u8, 73u8, 79u8, 95u8, 78u8, 65u8, 77u8, 69u8]
}

fn scenario_name_key_vec() -> (r: Vec<u8>)
    ensures
        r@ == scenario_name_key(),
{
    let mut r: Vec<u8> = Vec::new();
    r.push(83);
    r.push(67);
    r.push(69);
    r.push(78);
    r.push(65);
    r.push(82);
    r.push(73);
    r.push(79);
    r.push(95);
    r.push(78);
    r.push(65);
    r.push(77);
    r.push(69);
    proof {
        assert(r@ =~= scenario_name_key());
    }
    r
}

/// The key of the world size entry.
pub open spec fn world_size_key() -> Seq<u8> {
    seq![87u8, 79u8, 82u8, 76u8, 68u8, 95u8, 83u8, 73u8, 90u8, 69u8]
}

fn world_size_key_vec() -> (r: Vec<u8>)
    ensures
        r@ == world_size_key(),
{
    let mut r: Vec<u8> = Vec::new();
    r.push(87);
    r.push(79);
    r.push(82);
    r.push(76);
    r.push(68);
    r.push(95);
    r.push(83);
    r.push(73);
    r.push(90);
    r.push(69);
    proof {
        assert(r@ =~= world_size_key());
    }
    r
}

/// The fallback scenario name.
pub open spec fn unknown_name() -> Seq<u8> {
    seq![117u8, 110u8, 107u8, 110u8, 111u8, 119u8, 110u8]
}

fn unknown_name_vec() -> (r: Vec<u8>)
    ensures
        r@ == unknown_name(),
{
    let mut r: Vec<u8> = Vec::new();
    r.push(117);
    r.push(110);
    r.push(107);
    r.push(110);
    r.push(111);
    r.push(119);
    r.push(110);
    proof {
        assert(r@ =~= unknown_name());
    }
    r
}

/// Largest world size accepted from the environment, in meters.
pub const WORLD_SIZE_CAP: i64 = 1_000_000_000;

/// The world size an environment denotes, in fixed-point meters.
pub open spec fn world_size_spec(env: Seq<u8>) -> int {
    match getenv_spec(env, world_size_key()) {
        Option::Some(v) => parse_number_spec(v, WORLD_SIZE_CAP as int) * (SCALE as int),
        Option::None => 0,
    }
}

/// The fire slot a missile launch addresses for a class, if any: each class
/// maps its missile indices onto fixed weapon mounts.
pub open spec fn launch_missile_slot_spec(cls: Class, index: int) -> Option<SystemState> {
    if cls == Class::Fighter && index == 0 {
        Some(SystemState::Fire1)
    } else if cls == Class::Frigate && index == 0 {
        Some(SystemState::Fire3)
    } else if cls == Class::Cruiser && index == 0 {
        Some(SystemState::Fire1)
    } else if cls == Class::Cruiser && index == 1 {
        Some(SystemState::Fire2)
    } else if cls == Class::Cruiser && index == 2 {
        Some(SystemState::Fire3)
    } else {
        None
    }
}

} // verus!
