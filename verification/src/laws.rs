//! The behavioural laws of the codec, each proved once and for all over the
//! spec functions that `encode` and `decode` are pinned to.

use vstd::prelude::*;

use crate::codec::best_upto;
use crate::codec::decode_index;
use crate::codec::dist;
use crate::codec::encode_disc;
use crate::codec::lemma_best_upto_props;
use crate::model::EnumModel;

verus! {

/// Decoding is total: whatever the target, some declared member is the result.
pub proof fn lemma_decode_total(m: EnumModel, target: int)
    requires
        m.members@.len() >= 1,
    ensures
        0 <= decode_index(m, target) < m.members@.len(),
{
    lemma_best_upto_props(m.members@, target, m.members@.len() as int);
}

/// An exact match wins: if some member's discriminant equals the target, the
/// first such member in declaration order is the result, wherever it stands.
pub proof fn lemma_exact_match(m: EnumModel, target: int, i: int)
    requires
        0 <= i < m.members@.len(),
        m.members@[i].disc.as_int() == target,
        forall|j: int| 0 <= j < i ==> (#[trigger] m.members@[j]).disc.as_int() != target,
    ensures
        decode_index(m, target) == i,
{
    let members = m.members@;
    let n = members.len() as int;
    let r = decode_index(m, target);
    lemma_best_upto_props(members, target, n);
    assert(dist(members[i].disc.as_int(), target) == 0);
    assert(dist(members[r].disc.as_int(), target) == 0);
    if r < i {
        assert(members[r].disc.as_int() == target);
    }
    if r > i {
        assert(dist(members[i].disc.as_int(), target) > 0);
    }
}

/// Round trip: encoding a member and decoding the result yields that member
/// back, provided no earlier member was declared with the same discriminant.
pub proof fn lemma_round_trip(m: EnumModel, i: int)
    requires
        0 <= i < m.members@.len(),
        forall|j: int|
            0 <= j < i ==> (#[trigger] m.members@[j]).disc.as_int()
                != m.members@[i].disc.as_int(),
    ensures
        decode_index(m, encode_disc(m, i).as_int()) == i,
{
    lemma_exact_match(m, m.members@[i].disc.as_int(), i);
}

/// Encode does not depend on declaration order: a member bound to a
/// discriminant encodes to that discriminant wherever it stands, in this
/// declaration or in any reordering of it.
pub proof fn lemma_encode_order_irrelevant(m1: EnumModel, m2: EnumModel, i1: int, i2: int)
    requires
        0 <= i1 < m1.members@.len(),
        0 <= i2 < m2.members@.len(),
        m1.members@[i1] == m2.members@[i2],
    ensures
        encode_disc(m1, i1) == encode_disc(m2, i2),
{
}

/// A target strictly between two bracketing discriminants `d1 < target < d2`
/// resolves to the numerically closer of the two; on an exact midpoint tie,
/// the earliest member declared at either discriminant is the result.
pub proof fn lemma_between(m: EnumModel, target: int, i: int, j: int)
    requires
        0 <= i < m.members@.len(),
        0 <= j < m.members@.len(),
        m.members@[i].disc.as_int() < target < m.members@[j].disc.as_int(),
        forall|k: int|
            0 <= k < m.members@.len() ==> (#[trigger] m.members@[k]).disc.as_int()
                <= m.members@[i].disc.as_int() || m.members@[k].disc.as_int()
                >= m.members@[j].disc.as_int(),
    ensures
        ({
            let d1 = m.members@[i].disc.as_int();
            let d2 = m.members@[j].disc.as_int();
            let r = decode_index(m, target);
            &&& (target - d1 < d2 - target ==> m.members@[r].disc.as_int() == d1)
            &&& (d2 - target < target - d1 ==> m.members@[r].disc.as_int() == d2)
            &&& (target - d1 == d2 - target ==> {
                &&& (m.members@[r].disc.as_int() == d1 || m.members@[r].disc.as_int() == d2)
                &&& forall|k: int|
                    0 <= k < r ==> (#[trigger] m.members@[k]).disc.as_int() != d1
                        && m.members@[k].disc.as_int() != d2
            })
        }),
{
    let members = m.members@;
    let n = members.len() as int;
    let d1 = members[i].disc.as_int();
    let d2 = members[j].disc.as_int();
    let r = decode_index(m, target);
    lemma_best_upto_props(members, target, n);
    assert(dist(members[i].disc.as_int(), target) == target - d1);
    assert(dist(members[j].disc.as_int(), target) == d2 - target);
    let dr = members[r].disc.as_int();
    assert(dr <= d1 || dr >= d2);
    if target - d1 < d2 - target {
        assert(dist(dr, target) <= target - d1);
        assert(dr <= d1);
        assert(dr == d1);
    }
    if d2 - target < target - d1 {
        assert(dist(dr, target) <= d2 - target);
        assert(dr >= d2);
        assert(dr == d2);
    }
    if target - d1 == d2 - target {
        assert(dist(dr, target) <= target - d1);
        assert(dr == d1 || dr == d2);
        assert(forall|k: int|
            0 <= k < r ==> dist((#[trigger] members[k]).disc.as_int(), target) > dist(
                dr,
                target,
            ));
    }
}

} // verus!
