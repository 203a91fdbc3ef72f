use performance::values::{Date, Decimal};
use performance::appraisal::AppraisalId;
use performance::goal::GoalId;

#[test]
fn decimal_range() {
    assert!(Decimal::new(1, 28).is_some());
    assert!(Decimal::new(1, 29).is_none());
    assert!(Decimal::new(79228162514264337593543950335, 0).is_some());
    assert!(Decimal::new(79228162514264337593543950336, 0).is_none());
    assert!(Decimal::new(-79228162514264337593543950335, 3).is_some());
    let d = Decimal::new(-1250, 2).unwrap();
    assert_eq!(d.mantissa(), -1250);
    assert_eq!(d.scale(), 2);
    assert!(d.is_negative());
    assert!(d.is_not_positive());
    assert!(!Decimal::zero().is_negative());
    assert!(Decimal::zero().is_not_positive());
    assert_eq!(Decimal::from_i64(7).mantissa(), 7);
}

#[test]
fn decimal_above_whole_number() {
    assert!(!Decimal::new(10000, 2).unwrap().is_above(100));
    assert!(Decimal::new(10001, 2).unwrap().is_above(100));
    assert!(Decimal::new(1, 0).unwrap().is_above(0));
    assert!(!Decimal::new(-5, 0).unwrap().is_above(0));
    assert!(!Decimal::new(1000000000000000000000000000, 25).unwrap().is_above(100));
    assert!(Decimal::new(1000000000000000000000000001, 25).unwrap().is_above(100));
}

#[test]
fn dates_in_order() {
    let a = Date { year: 2026, month: 1, day: 31 };
    let b = Date { year: 2026, month: 2, day: 1 };
    let c = Date { year: 2025, month: 12, day: 31 };
    assert!(a.on_or_before(&b));
    assert!(!b.on_or_before(&a));
    assert!(c.on_or_before(&a));
    assert!(a.on_or_before(&a));
}

#[test]
fn uuid_text_is_hyphenated_lower_case() {
    let v: u128 = 0x67e55044_10b1_426f_9247_bb680e5fe0c8;
    assert_eq!(GoalId::new(v).to_string(), "67e55044-10b1-426f-9247-bb680e5fe0c8");
    assert_eq!(AppraisalId::new(v).to_string(), "67e55044-10b1-426f-9247-bb680e5fe0c8");
    assert_eq!(GoalId::new(0).to_string(), "00000000-0000-0000-0000-000000000000");
}

#[test]
fn ids_parse_back() {
    let v: u128 = 0xa1a2a3a4_b1b2_c1c2_d1d2_d3d4d5d6d7d8;
    let id = GoalId::new(v);
    assert_eq!(GoalId::from_str(&id.to_string()).unwrap(), id);
    assert_eq!(GoalId::from_str("A1A2A3A4-B1B2-C1C2-D1D2-D3D4D5D6D7D8").unwrap(), id);
    assert_eq!(GoalId::from_str("a1a2a3a4b1b2c1c2d1d2d3d4d5d6d7d8").unwrap(), id);
    let e = GoalId::from_str("not-a-uuid").unwrap_err();
    assert_eq!(e.text, "not-a-uuid");
    assert_eq!(id.into_inner(), v);
    assert_eq!(*id.as_ref(), v);
    let back: u128 = id.into();
    assert_eq!(back, v);
    let again: GoalId = v.into();
    assert_eq!(again, id);
}

#[test]
fn generated_ids_are_random_version_4() {
    let a = GoalId::generate();
    let b = GoalId::generate();
    assert_ne!(a, b);
    assert_eq!(a.0 & 0xF000C000000000000000u128, 0x40008000000000000000u128);
    let text = a.to_string();
    assert_eq!(&text[14..15], "4");
    let id = AppraisalId::generate();
    assert_eq!(id.0 & 0xF000C000000000000000u128, 0x40008000000000000000u128);
}
