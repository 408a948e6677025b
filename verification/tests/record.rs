use intro::first;
use intro::record::Unit;

/// Reads and writes the open field, through a pattern that leaves room for
/// fields to come.
fn flip(unit: &mut Unit) -> bool {
    let Unit { field, .. } = *unit;
    unit.field = !field;
    unit.field
}

#[test]
fn open_field_can_be_read_and_written_from_outside() {
    let access: fn(&mut Unit) -> bool = flip;
    let _ = access;
}

#[test]
fn unit_holds_two_booleans() {
    assert_eq!(std::mem::size_of::<Unit>(), 2 * std::mem::size_of::<bool>());
}

#[test]
fn first_returns_unit() {
    assert_eq!(first(), ());
}
