use lunamate_ui::revision::next_revision;

#[test]
fn revision_wraps_past_zero() {
    assert_eq!(next_revision(0), 1);
    assert_eq!(next_revision(41), 42);
    assert_eq!(next_revision(u64::MAX), 1);
}
