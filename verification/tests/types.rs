use sc_rs::types::Attention;
use sc_rs::types::DotKind;
use sc_rs::types::DotStats;

#[test]
fn dot_stats_start_at_zero() {
    let s = DotStats::new();
    assert_eq!(s.convex, 0);
    assert_eq!(s.toroidal, 0);
    assert_eq!(s.concave, 0);
    assert_eq!(DotStats::default(), s);
}

#[test]
fn attention_states_are_distinct() {
    assert_ne!(Attention::Far, Attention::Buried);
    assert_ne!(Attention::Far, Attention::Consider);
    assert_ne!(Attention::Consider, Attention::Buried);
}

#[test]
fn dot_kinds_are_distinct() {
    assert_ne!(DotKind::Contact, DotKind::Reentrant);
    assert_ne!(DotKind::Contact, DotKind::Cavity);
    assert_ne!(DotKind::Reentrant, DotKind::Cavity);
}
