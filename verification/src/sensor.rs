//! Selection of the strongest radar contact inside a configured window.
//!
//! The external sensor model reports candidate contacts with their signal
//! strength and noise ratio; the core filters them through the scanning
//! agent's heading/width/distance window and keeps the one with the highest
//! received signal strength. The window test is exact integer geometry over
//! the same fixed-point trigonometry the agents use.
use vstd::prelude::*;
use crate::agent::ScanResult;
use crate::mathx::{
    clamp_i64, clamp_spec, cos_fp, cos_fp_spec, sin_fp, sin_fp_spec, Vec2, COORD_LIMIT, SCALE,
    TAU_MRAD,
};

verus! {

/// The largest coordinate magnitude the sensor geometry accepts.
pub const SENSOR_COORD_LIMIT: i64 = 0x2000_0000_0000;

/// A position is within the sensor's coordinate range.
pub open spec fn sensor_pos_ok(p: Vec2) -> bool {
    -SENSOR_COORD_LIMIT <= p.x <= SENSOR_COORD_LIMIT && -SENSOR_COORD_LIMIT <= p.y
        <= SENSOR_COORD_LIMIT
}

/// Whether a contact at `pos` lies inside the scan window of an agent at
/// `own` with the given radar heading, width and distance band.
///
/// The distance band compares squared distances; the cone compares the
/// projection of the offset onto the radar axis against the cosine of the
/// half width, cross-multiplied so everything stays in integers.
pub open spec fn in_window_spec(
    own: Vec2,
    pos: Vec2,
    heading: int,
    width: int,
    min_dist: int,
    max_dist: int,
) -> bool {
    let dx = pos.x - own.x;
    let dy = pos.y - own.y;
    let dist2 = dx * dx + dy * dy;
    let lo = clamp_spec(min_dist, 0, COORD_LIMIT as int);
    let hi = clamp_spec(max_dist, 0, COORD_LIMIT as int);
    let half = clamp_spec(width, 0, TAU_MRAD as int) / 2;
    let c = cos_fp_spec(half);
    let dot = dx * cos_fp_spec(heading) + dy * sin_fp_spec(heading);
    &&& lo * lo <= dist2
    &&& dist2 <= hi * hi
    &&& (if c >= 0 {
        dot >= 0 && dot * dot >= dist2 * c * c
    } else {
        dot >= 0 || dot * dot <= dist2 * c * c
    })
}

/// Executable window test, following `in_window_spec` exactly.
pub fn in_window(
    own: Vec2,
    pos: Vec2,
    heading: i64,
    width: i64,
    min_dist: i64,
    max_dist: i64,
) -> (r: bool)
    requires
        sensor_pos_ok(own),
        sensor_pos_ok(pos),
    ensures
        r == in_window_spec(own, pos, heading as int, width as int, min_dist as int, max_dist as int),
{
    let dx: i128 = (pos.x as i128) - (own.x as i128);
    let dy: i128 = (pos.y as i128) - (own.y as i128);
    proof {
        lemma_square_bound(dx as int, 70368744177664);
        lemma_square_bound(dy as int, 70368744177664);
    }
    let dist2: i128 = dx * dx + dy * dy;
    let lo: i128 = clamp_i64(min_dist, 0, COORD_LIMIT) as i128;
    let hi: i128 = clamp_i64(max_dist, 0, COORD_LIMIT) as i128;
    let half: i64 = clamp_i64(width, 0, TAU_MRAD) / 2;
    let c: i64 = cos_fp(half);
    let ch: i64 = cos_fp(heading);
    let sh: i64 = sin_fp(heading);
    proof {
        lemma_product_bound(dx as int, ch as int, 70368744177664, 1000);
        lemma_product_bound(dy as int, sh as int, 70368744177664, 1000);
        lemma_square_bound(lo as int, COORD_LIMIT as int);
        lemma_square_bound(hi as int, COORD_LIMIT as int);
    }
    let dot: i128 = dx * (ch as i128) + dy * (sh as i128);
    proof {
        lemma_square_bound(dot as int, 140737488355328000);
        lemma_square_bound(c as int, 1000);
        lemma_product_bound(dist2 as int, (c as int) * (c as int), 9903520314283042199192993792, 1000000);
    }
    let lo2: i128 = lo * lo;
    let hi2: i128 = hi * hi;
    if !(lo2 <= dist2 && dist2 <= hi2) {
        return false;
    }
    let dot2: i128 = dot * dot;
    let rhs: i128 = dist2 * ((c as i128) * (c as i128));
    proof {
        assert((dist2 as int) * ((c as int) * (c as int)) == (dist2 as int) * (c as int) * (c as int))
            by (nonlinear_arith);
    }
    if c >= 0 {
        dot >= 0 && dot2 >= rhs
    } else {
        dot >= 0 || dot2 <= rhs
    }
}

/// A value bounded in magnitude has a nonnegative, bounded square.
proof fn lemma_square_bound(a: int, m: int)
    requires
        0 <= m,
        -m <= a <= m,
    ensures
        0 <= a * a <= m * m,
{
    assert(0 <= a * a <= m * m) by (nonlinear_arith) requires -m <= a <= m;
}

/// The product of two magnitude-bounded values is magnitude bounded.
proof fn lemma_product_bound(a: int, b: int, ma: int, mb: int)
    requires
        0 <= ma,
        0 <= mb,
        -ma <= a <= ma,
        -mb <= b <= mb,
    ensures
        -(ma * mb) <= a * b <= ma * mb,
{
    assert(-(ma * mb) <= a * b <= ma * mb) by (nonlinear_arith)
        requires -ma <= a <= ma && -mb <= b <= mb && 0 <= ma && 0 <= mb;
}

/// The strongest in-window contact among the first `n` candidates, scanning
/// from the front and replacing only on strictly higher signal strength.
pub open spec fn best_contact_spec(
    contacts: Seq<ScanResult>,
    own: Vec2,
    heading: int,
    width: int,
    min_dist: int,
    max_dist: int,
) -> Option<ScanResult>
    decreases contacts.len(),
{
    if contacts.len() == 0 {
        None
    } else {
        let prior = best_contact_spec(
            contacts.drop_last(), own, heading, width, min_dist, max_dist);
        let last = contacts.last();
        if in_window_spec(own, last.position, heading, width, min_dist, max_dist) {
            match prior {
                Option::Some(b) => if last.rssi > b.rssi { Some(last) } else { Some(b) },
                Option::None => Some(last),
            }
        } else {
            prior
        }
    }
}

/// Selects the contact the scan exposes: the strongest candidate inside the
/// window, earliest first on ties.
pub fn select_contact(
    contacts: &Vec<ScanResult>,
    own: Vec2,
    heading: i64,
    width: i64,
    min_dist: i64,
    max_dist: i64,
) -> (r: Option<ScanResult>)
    requires
        sensor_pos_ok(own),
        forall|i: int| 0 <= i < contacts@.len() ==> sensor_pos_ok((#[trigger] contacts@[i]).position),
    ensures
        r == best_contact_spec(
            contacts@, own, heading as int, width as int, min_dist as int, max_dist as int),
{
    let mut best: Option<ScanResult> = None;
    let mut i: usize = 0;
    while i < contacts.len()
        invariant
            0 <= i <= contacts@.len(),
            sensor_pos_ok(own),
            forall|k: int| 0 <= k < contacts@.len()
                ==> sensor_pos_ok((#[trigger] contacts@[k]).position),
            best == best_contact_spec(
                contacts@.take(i as int), own, heading as int, width as int, min_dist as int,
                max_dist as int),
        decreases contacts@.len() - i,
    {
        let cand: ScanResult = contacts[i];
        let inside: bool = in_window(own, cand.position, heading, width, min_dist, max_dist);
        proof {
            assert(contacts@.take(i + 1).drop_last() =~= contacts@.take(i as int));
            assert(contacts@.take(i + 1).last() == contacts@[i as int]);
        }
        if inside {
            best = match best {
                Option::Some(b) => if cand.rssi > b.rssi { Some(cand) } else { Some(b) },
                Option::None => Some(cand),
            };
        }
        i = i + 1;
    }
    proof {
        assert(contacts@.take(contacts@.len() as int) =~= contacts@);
    }
    best
}

/// Radar exclusivity: the selection never exposes more than one contact, the
/// exposed contact lies inside the configured window, it is one of the
/// candidates, and no in-window candidate has a strictly higher signal
/// strength. When no candidate is inside the window, nothing is exposed.
pub proof fn lemma_radar_exclusivity(
    contacts: Seq<ScanResult>,
    own: Vec2,
    heading: int,
    width: int,
    min_dist: int,
    max_dist: int,
)
    ensures
        ({
            let r = best_contact_spec(contacts, own, heading, width, min_dist, max_dist);
            &&& r is Some <==> exists|i: int| 0 <= i < contacts.len()
                && in_window_spec(own, (#[trigger] contacts[i]).position, heading, width, min_dist, max_dist)
            &&& r is Some ==> in_window_spec(own, r->Some_0.position, heading, width, min_dist, max_dist)
            &&& r is Some ==> exists|i: int| 0 <= i < contacts.len() && contacts[i] == r->Some_0
            &&& forall|i: int| 0 <= i < contacts.len()
                && in_window_spec(own, (#[trigger] contacts[i]).position, heading, width, min_dist, max_dist)
                ==> contacts[i].rssi <= r->Some_0.rssi
        }),
    decreases contacts.len(),
{
    if contacts.len() > 0 {
        lemma_radar_exclusivity(contacts.drop_last(), own, heading, width, min_dist, max_dist);
        let prior = best_contact_spec(contacts.drop_last(), own, heading, width, min_dist, max_dist);
        let r = best_contact_spec(contacts, own, heading, width, min_dist, max_dist);
        assert forall|i: int| 0 <= i < contacts.len() - 1
            implies contacts.drop_last()[i] == contacts[i] by {}
        if r is Some {
            if prior is Some {
                let ghost j = choose|i: int| 0 <= i < contacts.drop_last().len()
                    && contacts.drop_last()[i] == prior->Some_0;
            }
        }
    }
}

} // verus!
