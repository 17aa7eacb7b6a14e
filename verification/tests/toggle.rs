use theme_toggle::toggle::current_or_fallback;
use theme_toggle::toggle::next_flag;
use theme_toggle::toggle::normalize;
use theme_toggle::toggle::toggle;
use theme_toggle::toggle::FALLBACK;

#[test]
fn dark_becomes_light() {
    assert_eq!(toggle(0), 1);
}

#[test]
fn light_becomes_dark() {
    assert_eq!(toggle(1), 0);
}

#[test]
fn malformed_flag_becomes_dark() {
    assert_eq!(toggle(5), 0);
    assert_eq!(toggle(2), 0);
    assert_eq!(toggle(u32::MAX), 0);
}

#[test]
fn normalize_maps_nonzero_to_one() {
    assert_eq!(normalize(0), 0);
    assert_eq!(normalize(1), 1);
    assert_eq!(normalize(5), 1);
    assert_eq!(normalize(u32::MAX), 1);
}

#[test]
fn toggle_is_one_minus_normalized() {
    for flag in [0u32, 1, 2, 5, 255, 0x8000_0000, u32::MAX] {
        assert_eq!(toggle(flag), 1 - normalize(flag));
    }
}

#[test]
fn toggling_twice_restores_a_well_formed_flag() {
    assert_eq!(toggle(toggle(0)), 0);
    assert_eq!(toggle(toggle(1)), 1);
}

#[test]
fn toggling_twice_normalizes_a_malformed_flag() {
    assert_eq!(toggle(toggle(5)), 1);
    assert_eq!(toggle(toggle(u32::MAX)), 1);
}

#[test]
fn fallback_is_light() {
    assert_eq!(FALLBACK, 1);
    assert_eq!(current_or_fallback(None), 1);
}

#[test]
fn a_read_flag_is_taken_as_it_is() {
    assert_eq!(current_or_fallback(Some(0)), 0);
    assert_eq!(current_or_fallback(Some(1)), 1);
    assert_eq!(current_or_fallback(Some(7)), 7);
}

#[test]
fn failed_read_leads_to_dark() {
    assert_eq!(next_flag(None), 0);
}

#[test]
fn next_flag_complements_what_was_read() {
    assert_eq!(next_flag(Some(0)), 1);
    assert_eq!(next_flag(Some(1)), 0);
    assert_eq!(next_flag(Some(5)), 0);
}
