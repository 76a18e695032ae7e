use broutille::math::{check_ratios, max_attenuation, ratios_warning};

#[test]
fn check_ratios_accepts_a_sum_of_100() {
    assert_eq!(check_ratios(vec![40, 30, 30]), false);
}

#[test]
fn check_ratios_flags_a_sum_under_100() {
    assert_eq!(check_ratios(vec![50, 40]), true);
}

#[test]
fn check_ratios_flags_a_sum_over_100() {
    assert_eq!(check_ratios(vec![60, 50]), true);
}

#[test]
fn check_ratios_flags_an_empty_group() {
    assert_eq!(check_ratios(vec![]), true);
}

#[test]
fn check_ratios_sums_exactly_without_wrapping() {
    // 200 + 156 is 356, not 100 modulo 256.
    assert_eq!(check_ratios(vec![200, 156]), true);
}

#[test]
fn check_ratios_accepts_a_single_full_ratio() {
    assert_eq!(check_ratios(vec![100]), false);
}

#[test]
fn ratios_warning_is_quiet_on_an_empty_group() {
    assert_eq!(ratios_warning(vec![]), false);
}

#[test]
fn ratios_warning_flags_a_bad_group() {
    assert_eq!(ratios_warning(vec![50, 40]), true);
}

#[test]
fn ratios_warning_is_quiet_on_a_full_group() {
    assert_eq!(ratios_warning(vec![25, 25, 50]), false);
}

#[test]
fn max_attenuation_of_no_ferments_is_zero() {
    assert_eq!(max_attenuation(vec![]), 0);
}

#[test]
fn max_attenuation_picks_the_strongest_ferment() {
    assert_eq!(max_attenuation(vec![75, 80, 70]), 80);
}

#[test]
fn max_attenuation_of_a_single_ferment_is_its_own() {
    assert_eq!(max_attenuation(vec![66]), 66);
}
