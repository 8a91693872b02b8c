use repr_codec::codec::decode;
use repr_codec::codec::encode;
use repr_codec::model::Disc;
use repr_codec::model::EnumModel;
use repr_codec::model::Member;
use repr_codec::model::ReprType;
use repr_codec::model::ReprWidth;
use repr_codec::model::Signedness;

fn member(name: &str, disc: Disc) -> Member {
    Member { name: String::from(name), disc }
}

fn u8_model(pairs: &[(&str, u128)]) -> EnumModel {
    EnumModel {
        name: String::from("SmallPrime"),
        repr: ReprType { width: ReprWidth::W8, sign: Signedness::Unsigned },
        members: pairs.iter().map(|(n, d)| member(n, Disc::NonNeg(*d))).collect(),
    }
}

fn primes() -> EnumModel {
    u8_model(&[("Two", 2), ("Three", 3), ("Five", 5), ("Seven", 7)])
}

#[test]
fn encode_returns_declared_discriminant() {
    let m = primes();
    assert_eq!(encode(&m, 0), Disc::NonNeg(2));
    assert_eq!(encode(&m, 1), Disc::NonNeg(3));
    assert_eq!(encode(&m, 2), Disc::NonNeg(5));
    assert_eq!(encode(&m, 3), Disc::NonNeg(7));
}

#[test]
fn round_trip_on_every_member() {
    let m = primes();
    for i in 0..m.members.len() {
        assert_eq!(decode(&m, encode(&m, i)), i);
    }
}

#[test]
fn decode_is_total_over_the_representation() {
    let m = primes();
    for target in 0..=255u128 {
        let idx = decode(&m, Disc::NonNeg(target));
        assert!(idx < m.members.len());
    }
}

#[test]
fn decode_scenario_exact_and_nearest() {
    let m = primes();
    assert_eq!(m.members[decode(&m, Disc::NonNeg(7))].name, "Seven");
    assert_eq!(m.members[decode(&m, Disc::NonNeg(4))].name, "Three");
    assert_eq!(m.members[decode(&m, Disc::NonNeg(0))].name, "Two");
    assert_eq!(m.members[decode(&m, Disc::NonNeg(100))].name, "Seven");
}

#[test]
fn decode_exact_match_takes_first_occurrence() {
    let m = u8_model(&[("A", 3), ("B", 7), ("C", 7)]);
    assert_eq!(decode(&m, Disc::NonNeg(7)), 1);
}

#[test]
fn decode_duplicate_discriminants_earlier_wins() {
    let m = u8_model(&[("A", 5), ("B", 5)]);
    assert_eq!(decode(&m, Disc::NonNeg(5)), 0);
}

#[test]
fn decode_midpoint_tie_earlier_declared_wins() {
    let m = u8_model(&[("Three", 3), ("Five", 5)]);
    assert_eq!(m.members[decode(&m, Disc::NonNeg(4))].name, "Three");
}

#[test]
fn decode_tie_break_depends_on_declaration_order() {
    let forward = u8_model(&[("Three", 3), ("Five", 5)]);
    let reversed = u8_model(&[("Five", 5), ("Three", 3)]);
    assert_eq!(forward.members[decode(&forward, Disc::NonNeg(4))].name, "Three");
    assert_eq!(reversed.members[decode(&reversed, Disc::NonNeg(4))].name, "Five");
}

#[test]
fn encode_does_not_depend_on_declaration_order() {
    let forward = u8_model(&[("Three", 3), ("Five", 5)]);
    let reversed = u8_model(&[("Five", 5), ("Three", 3)]);
    assert_eq!(encode(&forward, 0), encode(&reversed, 1));
    assert_eq!(encode(&forward, 1), encode(&reversed, 0));
}

#[test]
fn decode_with_negative_discriminants() {
    let m = EnumModel {
        name: String::from("Offset"),
        repr: ReprType { width: ReprWidth::W8, sign: Signedness::Signed },
        members: vec![member("M", Disc::Neg(5)), member("N", Disc::NonNeg(4))],
    };
    assert_eq!(m.members[decode(&m, Disc::Neg(1))].name, "M");
    assert_eq!(m.members[decode(&m, Disc::NonNeg(0))].name, "N");
    assert_eq!(m.members[decode(&m, Disc::Neg(5))].name, "M");
}

#[test]
fn decode_at_signed_extremes() {
    let min = Disc::Neg(170141183460469231731687303715884105728);
    let max = Disc::NonNeg(170141183460469231731687303715884105727);
    let m = EnumModel {
        name: String::from("Wide"),
        repr: ReprType { width: ReprWidth::W128, sign: Signedness::Signed },
        members: vec![member("Min", min), member("Max", max)],
    };
    assert_eq!(m.members[decode(&m, Disc::NonNeg(0))].name, "Max");
    assert_eq!(m.members[decode(&m, Disc::Neg(1))].name, "Min");
    assert_eq!(m.members[decode(&m, min)].name, "Min");
    assert_eq!(m.members[decode(&m, max)].name, "Max");
}

#[test]
fn decode_at_unsigned_extremes() {
    let top = Disc::NonNeg(u128::MAX);
    let m = EnumModel {
        name: String::from("WideU"),
        repr: ReprType { width: ReprWidth::W128, sign: Signedness::Unsigned },
        members: vec![member("Zero", Disc::NonNeg(0)), member("Top", top)],
    };
    assert_eq!(m.members[decode(&m, Disc::NonNeg(1u128 << 127))].name, "Top");
    assert_eq!(m.members[decode(&m, Disc::NonNeg((1u128 << 127) - 1))].name, "Zero");
    assert_eq!(m.members[decode(&m, top)].name, "Top");
}

#[test]
fn decode_single_member_takes_everything() {
    let m = u8_model(&[("Only", 9)]);
    for target in [0u128, 9, 255] {
        assert_eq!(decode(&m, Disc::NonNeg(target)), 0);
    }
}
