//! The codec operations over a validated declaration: `encode` maps a member
//! to its discriminant, `decode` maps any representable integer to the nearest
//! declared member.
//!
//! `decode` never fails: it scans the members in declaration order, keeps the
//! first member seen at the smallest absolute distance from the target (a
//! later member takes over only on a strict improvement), and stops as soon as
//! the distance reaches zero.

use vstd::prelude::*;

use crate::model::Disc;
use crate::model::EnumModel;
use crate::model::Member;
use crate::model::ReprType;

verus! {

/// The absolute difference between two integers.
pub open spec fn dist(a: int, b: int) -> int {
    if a >= b {
        a - b
    } else {
        b - a
    }
}

/// The index of the best candidate among the first `n` members: the first one
/// whose discriminant is at the smallest absolute distance from `target`.
pub open spec fn best_upto(members: Seq<Member>, target: int, n: int) -> int
    decreases n,
{
    if n <= 1 {
        0
    } else {
        let prev = best_upto(members, target, n - 1);
        if dist(members[n - 1].disc.as_int(), target) < dist(members[prev].disc.as_int(), target) {
            n - 1
        } else {
            prev
        }
    }
}

/// The member index that decoding `target` against `m` resolves to.
pub open spec fn decode_index(m: EnumModel, target: int) -> int {
    best_upto(m.members@, target, m.members@.len() as int)
}

/// The discriminant that encoding member `i` of `m` yields.
pub open spec fn encode_disc(m: EnumModel, i: int) -> Disc {
    m.members@[i].disc
}

/// `best_upto` picks an index of the prefix, its distance is minimal over the
/// prefix, and every earlier index has a strictly larger distance.
pub proof fn lemma_best_upto_props(members: Seq<Member>, target: int, n: int)
    requires
        1 <= n <= members.len(),
    ensures
        0 <= best_upto(members, target, n) < n,
        forall|j: int|
            0 <= j < n ==> dist((#[trigger] members[j]).disc.as_int(), target) >= dist(
                members[best_upto(members, target, n)].disc.as_int(),
                target,
            ),
        forall|j: int|
            0 <= j < best_upto(members, target, n) ==> dist(
                (#[trigger] members[j]).disc.as_int(),
                target,
            ) > dist(members[best_upto(members, target, n)].disc.as_int(), target),
    decreases n,
{
    if n > 1 {
        lemma_best_upto_props(members, target, n - 1);
    }
}

/// Once the best candidate sits at distance zero, scanning further members
/// never changes it: a later member would need a strictly smaller distance.
pub proof fn lemma_best_upto_stable(members: Seq<Member>, target: int, n: int, m: int)
    requires
        1 <= n <= m <= members.len(),
        dist(members[best_upto(members, target, n)].disc.as_int(), target) == 0,
    ensures
        best_upto(members, target, m) == best_upto(members, target, n),
    decreases m - n,
{
    if m > n {
        lemma_best_upto_stable(members, target, n, m - 1);
    }
}

/// Two discriminants that fit one representation type are at most the whole
/// width of that type apart, so their distance fits a `u128`.
pub proof fn lemma_dist_in_range(a: Disc, b: Disc, r: ReprType)
    requires
        a.fits(r),
        b.fits(r),
    ensures
        dist(a.as_int(), b.as_int()) <= u128::MAX,
{
}

/// The absolute difference between two discriminant values.
pub fn disc_distance(a: Disc, b: Disc) -> (d: u128)
    requires
        a.canonical(),
        b.canonical(),
        dist(a.as_int(), b.as_int()) <= u128::MAX,
    ensures
        d == dist(a.as_int(), b.as_int()),
{
    match (a, b) {
        (Disc::NonNeg(x), Disc::NonNeg(y)) => if x >= y {
            x - y
        } else {
            y - x
        },
        (Disc::Neg(x), Disc::Neg(y)) => if x >= y {
            x - y
        } else {
            y - x
        },
        (Disc::NonNeg(x), Disc::Neg(y)) => x + y,
        (Disc::Neg(x), Disc::NonNeg(y)) => x + y,
    }
}

/// Encode: the member at index `member` maps to its declared discriminant.
/// Total over the declared members, with no failure mode.
pub fn encode(model: &EnumModel, member: usize) -> (d: Disc)
    requires
        member < model.members@.len(),
    ensures
        d == encode_disc(*model, member as int),
{
    model.members[member].disc
}

/// Decode: resolve `target` to the nearest declared member.
///
/// The result is the first member in declaration order whose discriminant has
/// the smallest absolute distance from `target`; scanning stops early once a
/// distance of zero is reached. Decoding never fails: some member index is
/// returned for every representable target.
pub fn decode(model: &EnumModel, target: Disc) -> (idx: usize)
    requires
        model.wf(),
        target.fits(model.repr),
    ensures
        idx < model.members@.len(),
        idx == decode_index(*model, target.as_int()),
{
    let ghost t = target.as_int();
    let n: usize = model.members.len();
    let mut best: usize = 0;
    proof {
        lemma_dist_in_range(model.members@[0].disc, target, model.repr);
    }
    let mut best_dist: u128 = disc_distance(model.members[0].disc, target);
    let mut i: usize = 1;
    while i < n && best_dist != 0
        invariant
            model.wf(),
            target.fits(model.repr),
            t == target.as_int(),
            n == model.members@.len(),
            1 <= i <= n,
            best == best_upto(model.members@, t, i as int),
            0 <= best < i,
            best_dist == dist(model.members@[best as int].disc.as_int(), t),
        decreases n - i,
    {
        proof {
            lemma_dist_in_range(model.members@[i as int].disc, target, model.repr);
        }
        let d: u128 = disc_distance(model.members[i].disc, target);
        if d < best_dist {
            best = i;
            best_dist = d;
        }
        i = i + 1;
    }
    proof {
        if i < n {
            lemma_best_upto_stable(model.members@, t, i as int, n as int);
        }
    }
    best
}

} // verus!
