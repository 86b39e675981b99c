//! Tests of the phone inventory and its parameter-target tables.

use phonate::phones::{
    nonvocalic_target, vocalic_target, vocalic_target_glide, ParamTarget, ParamTargetGlide, Phone,
};

#[test]
fn parse_known_names() {
    assert!(matches!(Phone::parse("aa"), Some(Phone::Aa)));
    assert!(matches!(Phone::parse("axp"), Some(Phone::Axp)));
    assert!(matches!(Phone::parse("qq"), Some(Phone::Qq)));
    assert!(matches!(Phone::parse("sil"), Some(Phone::Sil)));
    assert!(matches!(Phone::parse("zz"), Some(Phone::Zz)));
}

#[test]
fn parse_unknown_names() {
    assert!(Phone::parse("").is_none());
    assert!(Phone::parse("a").is_none());
    assert!(Phone::parse("AA").is_none());
    assert!(Phone::parse("aaa").is_none());
    assert!(Phone::parse("zzz").is_none());
}

#[test]
fn nonvocalic_row_bb() {
    let t: ParamTarget = nonvocalic_target(Phone::Bb).unwrap();
    assert_eq!(t.av, 0);
    assert_eq!(t.avc, 54);
    assert_eq!(t.asp, 0);
    assert_eq!(t.af, 0);
    assert_eq!(t.ab, 72);
    assert_eq!(t.f1, 200);
    assert_eq!(t.f2, 900);
    assert_eq!(t.f3, 2100);
    assert_eq!(t.f4, 3300);
    assert_eq!(t.b1, 65);
    assert_eq!(t.b2, 90);
    assert_eq!(t.b3, 125);
}

#[test]
fn vocalic_row_aa() {
    let t = vocalic_target(Phone::Aa).unwrap();
    assert_eq!(t.av, 57);
    assert_eq!(t.f1, 700);
    assert_eq!(t.f2, 1220);
    assert_eq!(t.f3, 2600);
    assert_eq!(t.b1, 130);
    assert_eq!(t.b2, 70);
    assert_eq!(t.b3, 160);
}

#[test]
fn glide_row_ae() {
    let g: ParamTargetGlide = vocalic_target_glide(Phone::Ae).unwrap();
    assert_eq!(g.f1, 650);
    assert_eq!(g.f2, 1490);
    assert_eq!(g.f3, 2470);
}

#[test]
fn tables_partition_the_inventory() {
    // A phone is listed in exactly one of the two target tables.
    let samples = [
        Phone::Aa,
        Phone::Ae,
        Phone::Bb,
        Phone::Hh,
        Phone::Iy,
        Phone::Qq,
        Phone::Sil,
        Phone::Uw,
        Phone::Zz,
    ];
    for p in samples {
        assert!(vocalic_target(p).is_some() != nonvocalic_target(p).is_some());
    }
}

#[test]
fn glides_are_vocalic() {
    let samples = [Phone::Ae, Phone::Aa, Phone::Bb, Phone::Uw, Phone::Sil, Phone::Yu];
    for p in samples {
        if vocalic_target_glide(p).is_some() {
            assert!(vocalic_target(p).is_some());
        }
    }
    assert!(vocalic_target_glide(Phone::Aa).is_none());
    assert!(vocalic_target_glide(Phone::Yu).is_some());
}
