//! Closed enumerations of the control interface and their slot encodings.
//!
//! Each enumeration travels through the register file as a small integer; the
//! encoding and decoding functions here are the only places that fix those
//! numbers, and they are inverses of one another on the valid range.
use vstd::prelude::*;

verus! {

/// Identifiers for each class of ship. Exactly one class is assigned to an
/// agent at creation and never changes.
#[allow(missing_docs)]
#[derive(Copy, Clone, PartialEq, Eq, Structural, Debug)]
pub enum Class {
    Fighter,
    Frigate,
    Cruiser,
    Asteroid,
    Target,
    Missile,
    Torpedo,
    Unknown,
}

/// Special abilities available to different ship classes. The interface only
/// transmits the intent; legality and cooldown are the host's business.
#[derive(Copy, Clone, PartialEq, Eq, Structural, Debug)]
pub enum Ability {
    /// No-op.
    Inactive,
    /// A temporary burst of forward acceleration.
    Boost,
    /// A directed jet of shrapnel on self-destruct instead of a circle.
    ShapedCharge,
    /// Mimics the radar signature of a larger class for a short time.
    Decoy,
    /// Deflects projectiles for a short time.
    Shield,
}

/// Electronic counter-measure modes, observed by other agents' radars.
#[derive(Copy, Clone, PartialEq, Eq, Structural, Debug)]
pub enum EcmMode {
    /// No counter-measures; other radars work normally.
    Off,
    /// Degrades the signal-to-noise ratio of affected enemy radars.
    Noise,
}

/// The slot encoding of a class.
pub open spec fn class_value_spec(c: Class) -> int {
    match c {
        Class::Fighter => 0,
        Class::Frigate => 1,
        Class::Cruiser => 2,
        Class::Asteroid => 3,
        Class::Target => 4,
        Class::Missile => 5,
        Class::Torpedo => 6,
        Class::Unknown => 7,
    }
}

/// The class a slot value decodes to; every out-of-range value reads as
/// `Unknown`.
pub open spec fn class_from_value_spec(v: int) -> Class {
    if v == 0 { Class::Fighter }
    else if v == 1 { Class::Frigate }
    else if v == 2 { Class::Cruiser }
    else if v == 3 { Class::Asteroid }
    else if v == 4 { Class::Target }
    else if v == 5 { Class::Missile }
    else if v == 6 { Class::Torpedo }
    else { Class::Unknown }
}

impl Class {
    /// Encodes the class for the register file.
    pub fn value(self) -> (v: i64)
        ensures
            v == class_value_spec(self),
            0 <= v <= 7,
    {
        match self {
            Class::Fighter => 0,
            Class::Frigate => 1,
            Class::Cruiser => 2,
            Class::Asteroid => 3,
            Class::Target => 4,
            Class::Missile => 5,
            Class::Torpedo => 6,
            Class::Unknown => 7,
        }
    }

    /// Decodes a register value; out-of-range values decode to `Unknown`.
    pub fn from_value(v: i64) -> (c: Class)
        ensures
            c == class_from_value_spec(v as int),
    {
        if v == 0 { Class::Fighter }
        else if v == 1 { Class::Frigate }
        else if v == 2 { Class::Cruiser }
        else if v == 3 { Class::Asteroid }
        else if v == 4 { Class::Target }
        else if v == 5 { Class::Missile }
        else if v == 6 { Class::Torpedo }
        else { Class::Unknown }
    }
}

/// Decoding a class's own encoding gives the class back.
pub proof fn lemma_class_value_roundtrip(c: Class)
    ensures
        class_from_value_spec(class_value_spec(c)) == c,
{
}

/// The slot encoding of an ability.
pub open spec fn ability_value_spec(a: Ability) -> int {
    match a {
        Ability::Inactive => 0,
        Ability::Boost => 1,
        Ability::ShapedCharge => 2,
        Ability::Decoy => 3,
        Ability::Shield => 4,
    }
}

/// The ability a slot value decodes to; out-of-range values read as inactive.
pub open spec fn ability_from_value_spec(v: int) -> Ability {
    if v == 1 { Ability::Boost }
    else if v == 2 { Ability::ShapedCharge }
    else if v == 3 { Ability::Decoy }
    else if v == 4 { Ability::Shield }
    else { Ability::Inactive }
}

impl Ability {
    /// Encodes the ability for the register file.
    pub fn value(self) -> (v: i64)
        ensures
            v == ability_value_spec(self),
            0 <= v <= 4,
    {
        match self {
            Ability::Inactive => 0,
            Ability::Boost => 1,
            Ability::ShapedCharge => 2,
            Ability::Decoy => 3,
            Ability::Shield => 4,
        }
    }

    /// Decodes a register value; out-of-range values decode to inactive.
    pub fn from_value(v: i64) -> (a: Ability)
        ensures
            a == ability_from_value_spec(v as int),
    {
        if v == 1 { Ability::Boost }
        else if v == 2 { Ability::ShapedCharge }
        else if v == 3 { Ability::Decoy }
        else if v == 4 { Ability::Shield }
        else { Ability::Inactive }
    }
}

/// Decoding an ability's own encoding gives the ability back.
pub proof fn lemma_ability_value_roundtrip(a: Ability)
    ensures
        ability_from_value_spec(ability_value_spec(a)) == a,
{
}

/// The slot encoding of a counter-measure mode.
pub open spec fn ecm_value_spec(m: EcmMode) -> int {
    match m {
        EcmMode::Off => 0,
        EcmMode::Noise => 1,
    }
}

/// The mode a slot value decodes to; out-of-range values read as off.
pub open spec fn ecm_from_value_spec(v: int) -> EcmMode {
    if v == 1 { EcmMode::Noise } else { EcmMode::Off }
}

impl EcmMode {
    /// Encodes the mode for the register file.
    pub fn value(self) -> (v: i64)
        ensures
            v == ecm_value_spec(self),
            0 <= v <= 1,
    {
        match self {
            EcmMode::Off => 0,
            EcmMode::Noise => 1,
        }
    }

    /// Decodes a register value; out-of-range values decode to off.
    pub fn from_value(v: i64) -> (m: EcmMode)
        ensures
            m == ecm_from_value_spec(v as int),
    {
        if v == 1 { EcmMode::Noise } else { EcmMode::Off }
    }
}

/// Decoding a mode's own encoding gives the mode back.
pub proof fn lemma_ecm_value_roundtrip(m: EcmMode)
    ensures
        ecm_from_value_spec(ecm_value_spec(m)) == m,
{
}

} // verus!
