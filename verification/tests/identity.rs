//! The identity assigner: stable, collision-free anonymous labels.

use pokemon2rdf::ident::AnonId;

#[test]
fn root_label() {
    assert_eq!(AnonId::root("berry", 3).label(), "berry3");
    assert_eq!(AnonId::root("pokemon", 0).label(), "pokemon0");
}

#[test]
fn child_labels_follow_the_path() {
    let root = AnonId::root("pokemon", 12);
    let m = root.child("move", 4);
    let v = m.child("versionGroup", 0);
    assert_eq!(m.label(), "pokemon12_move4");
    assert_eq!(v.label(), "pokemon12_move4_versionGroup0");
}

#[test]
fn labels_are_deterministic_across_runs() {
    let a = AnonId::root("berry", 7).child("flavor", 2).label();
    let b = AnonId::root("berry", 7).child("flavor", 2).label();
    assert_eq!(a, b);
}

#[test]
fn distinct_occurrences_get_distinct_labels() {
    let root = AnonId::root("berry", 1);
    let first = root.child("flavor", 0).label();
    let second = root.child("flavor", 1).label();
    assert_ne!(first, second);
}

#[test]
fn distinct_fields_get_distinct_labels() {
    let root = AnonId::root("nature", 5);
    let a = root.child("battlestylepreference", 0).label();
    let b = root.child("pokeathlonstatchange", 0).label();
    assert_ne!(a, b);
}

#[test]
fn distinct_parents_get_distinct_labels() {
    let a = AnonId::root("berry", 1).child("flavor", 23).label();
    let b = AnonId::root("berry", 12).child("flavor", 3).label();
    assert_ne!(a, b);
}

#[test]
fn duplicate_preserves_the_path() {
    let id = AnonId::root("species", 42).child("flavortext", 9);
    assert_eq!(id.duplicate().label(), id.label());
}
