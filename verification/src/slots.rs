//! The register file shared between the host and one agent: a fixed array of
//! numeric slots, addressed by stable tags. The tag-to-index mapping is part of
//! the binary interface and must be identical on both sides of the boundary.
use vstd::prelude::*;

verus! {

/// Number of slots in the register file. Some high indices are reserved so the
/// interface can grow without renumbering existing tags.
pub const MAX_SIZE: usize = 128;

/// Stable tag for one numeric slot of the register file.
///
/// The order of the tags fixes the index of each slot; appending new tags keeps
/// every existing index unchanged.
#[allow(missing_docs)]
#[derive(Copy, Clone, PartialEq, Eq, Structural, Debug)]
pub enum SystemState {
    Class,
    Seed,
    PositionX,
    PositionY,
    VelocityX,
    VelocityY,
    Heading,
    AngularVelocity,
    AccelerateX,
    AccelerateY,
    Torque,
    Aim0,
    Aim1,
    Aim2,
    Aim3,
    Fire0,
    Fire1,
    Fire2,
    Fire3,
    Explode,
    RadarHeading,
    RadarWidth,
    RadarContactFound,
    RadarContactClass,
    RadarContactPositionX,
    RadarContactPositionY,
    RadarContactVelocityX,
    RadarContactVelocityY,
    DebugTextPointer,
    DebugTextLength,
    MaxForwardAcceleration,
    MaxLateralAcceleration,
    MaxAngularAcceleration,
    DebugLinesPointer,
    DebugLinesLength,
    RadarMinDistance,
    RadarMaxDistance,
    CurrentTick,
    MaxBackwardAcceleration,
    ActivateAbility,
    Radio0Channel,
    Radio0Send,
    Radio0Receive,
    Radio0Data0,
    Radio0Data1,
    Radio0Data2,
    Radio0Data3,
    Radio1Channel,
    Radio1Send,
    Radio1Receive,
    Radio1Data0,
    Radio1Data1,
    Radio1Data2,
    Radio1Data3,
    Radio2Channel,
    Radio2Send,
    Radio2Receive,
    Radio2Data0,
    Radio2Data1,
    Radio2Data2,
    Radio2Data3,
    Radio3Channel,
    Radio3Send,
    Radio3Receive,
    Radio3Data0,
    Radio3Data1,
    Radio3Data2,
    Radio3Data3,
    Radio4Channel,
    Radio4Send,
    Radio4Receive,
    Radio4Data0,
    Radio4Data1,
    Radio4Data2,
    Radio4Data3,
    Radio5Channel,
    Radio5Send,
    Radio5Receive,
    Radio5Data0,
    Radio5Data1,
    Radio5Data2,
    Radio5Data3,
    Radio6Channel,
    Radio6Send,
    Radio6Receive,
    Radio6Data0,
    Radio6Data1,
    Radio6Data2,
    Radio6Data3,
    Radio7Channel,
    Radio7Send,
    Radio7Receive,
    Radio7Data0,
    Radio7Data1,
    Radio7Data2,
    Radio7Data3,
    SelectedRadio,
    DrawnTextPointer,
    DrawnTextLength,
    RadarEcmMode,
    Health,
    Fuel,
    RadarContactRssi,
    RadarContactSnr,
    ReloadTicks0,
    ReloadTicks1,
    ReloadTicks2,
    ReloadTicks3,
    Id,
    Size,
}

/// The index of `slot` in the register file, as contracts speak of it.
pub open spec fn slot_index_spec(slot: SystemState) -> int {
    match slot {
        SystemState::Class => 0,
        SystemState::Seed => 1,
        SystemState::PositionX => 2,
        SystemState::PositionY => 3,
        SystemState::VelocityX => 4,
        SystemState::VelocityY => 5,
        SystemState::Heading => 6,
        SystemState::AngularVelocity => 7,
        SystemState::AccelerateX => 8,
        SystemState::AccelerateY => 9,
        SystemState::Torque => 10,
        SystemState::Aim0 => 11,
        SystemState::Aim1 => 12,
        SystemState::Aim2 => 13,
        SystemState::Aim3 => 14,
        SystemState::Fire0 => 15,
        SystemState::Fire1 => 16,
        SystemState::Fire2 => 17,
        SystemState::Fire3 => 18,
        SystemState::Explode => 19,
        SystemState::RadarHeading => 20,
        SystemState::RadarWidth => 21,
        SystemState::RadarContactFound => 22,
        SystemState::RadarContactClass => 23,
        SystemState::RadarContactPositionX => 24,
        SystemState::RadarContactPositionY => 25,
        SystemState::RadarContactVelocityX => 26,
        SystemState::RadarContactVelocityY => 27,
        SystemState::DebugTextPointer => 28,
        SystemState::DebugTextLength => 29,
        SystemState::MaxForwardAcceleration => 30,
        SystemState::MaxLateralAcceleration => 31,
        SystemState::MaxAngularAcceleration => 32,
        SystemState::DebugLinesPointer => 33,
        SystemState::DebugLinesLength => 34,
        SystemState::RadarMinDistance => 35,
        SystemState::RadarMaxDistance => 36,
        SystemState::CurrentTick => 37,
        SystemState::MaxBackwardAcceleration => 38,
        SystemState::ActivateAbility => 39,
        SystemState::Radio0Channel => 40,
        SystemState::Radio0Send => 41,
        SystemState::Radio0Receive => 42,
        SystemState::Radio0Data0 => 43,
        SystemState::Radio0Data1 => 44,
        SystemState::Radio0Data2 => 45,
        SystemState::Radio0Data3 => 46,
        SystemState::Radio1Channel => 47,
        SystemState::Radio1Send => 48,
        SystemState::Radio1Receive => 49,
        SystemState::Radio1Data0 => 50,
        SystemState::Radio1Data1 => 51,
        SystemState::Radio1Data2 => 52,
        SystemState::Radio1Data3 => 53,
        SystemState::Radio2Channel => 54,
        SystemState::Radio2Send => 55,
        SystemState::Radio2Receive => 56,
        SystemState::Radio2Data0 => 57,
        SystemState::Radio2Data1 => 58,
        SystemState::Radio2Data2 => 59,
        SystemState::Radio2Data3 => 60,
        SystemState::Radio3Channel => 61,
        SystemState::Radio3Send => 62,
        SystemState::Radio3Receive => 63,
        SystemState::Radio3Data0 => 64,
        SystemState::Radio3Data1 => 65,
        SystemState::Radio3Data2 => 66,
        SystemState::Radio3Data3 => 67,
        SystemState::Radio4Channel => 68,
        SystemState::Radio4Send => 69,
        SystemState::Radio4Receive => 70,
        SystemState::Radio4Data0 => 71,
        SystemState::Radio4Data1 => 72,
        SystemState::Radio4Data2 => 73,
        SystemState::Radio4Data3 => 74,
        SystemState::Radio5Channel => 75,
        SystemState::Radio5Send => 76,
        SystemState::Radio5Receive => 77,
        SystemState::Radio5Data0 => 78,
        SystemState::Radio5Data1 => 79,
        SystemState::Radio5Data2 => 80,
        SystemState::Radio5Data3 => 81,
        SystemState::Radio6Channel => 82,
        SystemState::Radio6Send => 83,
        SystemState::Radio6Receive => 84,
        SystemState::Radio6Data0 => 85,
        SystemState::Radio6Data1 => 86,
        SystemState::Radio6Data2 => 87,
        SystemState::Radio6Data3 => 88,
        SystemState::Radio7Channel => 89,
        SystemState::Radio7Send => 90,
        SystemState::Radio7Receive => 91,
        SystemState::Radio7Data0 => 92,
        SystemState::Radio7Data1 => 93,
        SystemState::Radio7Data2 => 94,
        SystemState::Radio7Data3 => 95,
        SystemState::SelectedRadio => 96,
        SystemState::DrawnTextPointer => 97,
        SystemState::DrawnTextLength => 98,
        SystemState::RadarEcmMode => 99,
        SystemState::Health => 100,
        SystemState::Fuel => 101,
        SystemState::RadarContactRssi => 102,
        SystemState::RadarContactSnr => 103,
        SystemState::ReloadTicks0 => 104,
        SystemState::ReloadTicks1 => 105,
        SystemState::ReloadTicks2 => 106,
        SystemState::ReloadTicks3 => 107,
        SystemState::Id => 108,
        SystemState::Size => 109,
    }
}

/// Maps a slot tag to its index in the register file.
pub fn slot_index(slot: SystemState) -> (i: usize)
    ensures
        i == slot_index_spec(slot),
        i < MAX_SIZE,
{
    match slot {
        SystemState::Class => 0,
        SystemState::Seed => 1,
        SystemState::PositionX => 2,
        SystemState::PositionY => 3,
        SystemState::VelocityX => 4,
        SystemState::VelocityY => 5,
        SystemState::Heading => 6,
        SystemState::AngularVelocity => 7,
        SystemState::AccelerateX => 8,
        SystemState::AccelerateY => 9,
        SystemState::Torque => 10,
        SystemState::Aim0 => 11,
        SystemState::Aim1 => 12,
        SystemState::Aim2 => 13,
        SystemState::Aim3 => 14,
        SystemState::Fire0 => 15,
        SystemState::Fire1 => 16,
        SystemState::Fire2 => 17,
        SystemState::Fire3 => 18,
        SystemState::Explode => 19,
        SystemState::RadarHeading => 20,
        SystemState::RadarWidth => 21,
        SystemState::RadarContactFound => 22,
        SystemState::RadarContactClass => 23,
        SystemState::RadarContactPositionX => 24,
        SystemState::RadarContactPositionY => 25,
        SystemState::RadarContactVelocityX => 26,
        SystemState::RadarContactVelocityY => 27,
        SystemState::DebugTextPointer => 28,
        SystemState::DebugTextLength => 29,
        SystemState::MaxForwardAcceleration => 30,
        SystemState::MaxLateralAcceleration => 31,
        SystemState::MaxAngularAcceleration => 32,
        SystemState::DebugLinesPointer => 33,
        SystemState::DebugLinesLength => 34,
        SystemState::RadarMinDistance => 35,
        SystemState::RadarMaxDistance => 36,
        SystemState::CurrentTick => 37,
        SystemState::MaxBackwardAcceleration => 38,
        SystemState::ActivateAbility => 39,
        SystemState::Radio0Channel => 40,
        SystemState::Radio0Send => 41,
        SystemState::Radio0Receive => 42,
        SystemState::Radio0Data0 => 43,
        SystemState::Radio0Data1 => 44,
        SystemState::Radio0Data2 => 45,
        SystemState::Radio0Data3 => 46,
        SystemState::Radio1Channel => 47,
        SystemState::Radio1Send => 48,
        SystemState::Radio1Receive => 49,
        SystemState::Radio1Data0 => 50,
        SystemState::Radio1Data1 => 51,
        SystemState::Radio1Data2 => 52,
        SystemState::Radio1Data3 => 53,
        SystemState::Radio2Channel => 54,
        SystemState::Radio2Send => 55,
        SystemState::Radio2Receive => 56,
        SystemState::Radio2Data0 => 57,
        SystemState::Radio2Data1 => 58,
        SystemState::Radio2Data2 => 59,
        SystemState::Radio2Data3 => 60,
        SystemState::Radio3Channel => 61,
        SystemState::Radio3Send => 62,
        SystemState::Radio3Receive => 63,
        SystemState::Radio3Data0 => 64,
        SystemState::Radio3Data1 => 65,
        SystemState::Radio3Data2 => 66,
        SystemState::Radio3Data3 => 67,
        SystemState::Radio4Channel => 68,
        SystemState::Radio4Send => 69,
        SystemState::Radio4Receive => 70,
        SystemState::Radio4Data0 => 71,
        SystemState::Radio4Data1 => 72,
        SystemState::Radio4Data2 => 73,
        SystemState::Radio4Data3 => 74,
        SystemState::Radio5Channel => 75,
        SystemState::Radio5Send => 76,
        SystemState::Radio5Receive => 77,
        SystemState::Radio5Data0 => 78,
        SystemState::Radio5Data1 => 79,
        SystemState::Radio5Data2 => 80,
        SystemState::Radio5Data3 => 81,
        SystemState::Radio6Channel => 82,
        SystemState::Radio6Send => 83,
        SystemState::Radio6Receive => 84,
        SystemState::Radio6Data0 => 85,
        SystemState::Radio6Data1 => 86,
        SystemState::Radio6Data2 => 87,
        SystemState::Radio6Data3 => 88,
        SystemState::Radio7Channel => 89,
        SystemState::Radio7Send => 90,
        SystemState::Radio7Receive => 91,
        SystemState::Radio7Data0 => 92,
        SystemState::Radio7Data1 => 93,
        SystemState::Radio7Data2 => 94,
        SystemState::Radio7Data3 => 95,
        SystemState::SelectedRadio => 96,
        SystemState::DrawnTextPointer => 97,
        SystemState::DrawnTextLength => 98,
        SystemState::RadarEcmMode => 99,
        SystemState::Health => 100,
        SystemState::Fuel => 101,
        SystemState::RadarContactRssi => 102,
        SystemState::RadarContactSnr => 103,
        SystemState::ReloadTicks0 => 104,
        SystemState::ReloadTicks1 => 105,
        SystemState::ReloadTicks2 => 106,
        SystemState::ReloadTicks3 => 107,
        SystemState::Id => 108,
        SystemState::Size => 109,
    }
}

/// Reading the slot model at a tag.
pub open spec fn spec_read(vals: Seq<i64>, slot: SystemState) -> i64 {
    vals[slot_index_spec(slot)]
}

/// Writing the slot model at a tag.
pub open spec fn spec_write(vals: Seq<i64>, slot: SystemState, v: i64) -> Seq<i64> {
    vals.update(slot_index_spec(slot), v)
}

/// One agent's register file: a fixed-length array of numeric slot values,
/// owned by exactly one agent instance and shared with the host only through
/// `read` and `write`.
pub struct StateSlotArray {
    vals: Vec<i64>,
}

impl View for StateSlotArray {
    type V = Seq<i64>;

    closed spec fn view(&self) -> Seq<i64> {
        self.vals@
    }
}

impl StateSlotArray {
    /// The register file always holds exactly `MAX_SIZE` slots.
    pub open spec fn wf(&self) -> bool {
        self@.len() == MAX_SIZE
    }

    /// A fresh register file with every slot zero.
    pub fn new() -> (r: Self)
        ensures
            r.wf(),
            forall|i: int| 0 <= i < MAX_SIZE ==> r@[i] == 0i64,
    {
        let vals: Vec<i64> = vec![0i64; MAX_SIZE];
        StateSlotArray { vals }
    }

    /// Reads one slot. Every slot is always readable; a slot never written
    /// still holds its initial value.
    pub fn read(&self, slot: SystemState) -> (v: i64)
        requires
            self.wf(),
        ensures
            v == spec_read(self@, slot),
    {
        let i = slot_index(slot);
        self.vals[i]
    }

    /// An independent copy of the register file, slot for slot.
    pub fn duplicate(&self) -> (r: Self)
        requires
            self.wf(),
        ensures
            r.wf(),
            r@ == self@,
    {
        let mut vals: Vec<i64> = Vec::new();
        let mut i: usize = 0;
        while i < self.vals.len()
            invariant
                0 <= i <= self.vals@.len(),
                vals@ =~= self.vals@.take(i as int),
            decreases self.vals@.len() - i,
        {
            vals.push(self.vals[i]);
            i = i + 1;
        }
        proof {
            assert(vals@ =~= self.vals@);
        }
        StateSlotArray { vals }
    }

    /// Writes one slot, leaving every other slot unchanged.
    pub fn write(&mut self, slot: SystemState, v: i64)
        requires
            old(self).wf(),
        ensures
            final(self).wf(),
            final(self)@ == spec_write(old(self)@, slot, v),
    {
        let i = slot_index(slot);
        self.vals[i] = v;
    }
}

/// Register semantics: a write is read back unchanged within the same tick,
/// and disturbs no other slot.
pub proof fn lemma_write_then_read(vals: Seq<i64>, slot: SystemState, v: i64)
    requires
        vals.len() == MAX_SIZE,
    ensures
        spec_read(spec_write(vals, slot, v), slot) == v,
        forall|other: SystemState| slot_index_spec(other) != slot_index_spec(slot)
            ==> spec_read(spec_write(vals, slot, v), other) == spec_read(vals, other),
{
}

} // verus!
