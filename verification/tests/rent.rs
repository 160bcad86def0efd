use nft_vault::{calculate_rent, rent_between, RENT_PER_DAY, SECONDS_PER_DAY};

#[test]
fn rent_of_no_time_is_zero() {
    assert_eq!(calculate_rent(0), 0);
}

#[test]
fn rent_of_one_day_is_one_unit() {
    assert_eq!(calculate_rent(86_400), 1_000_000_000);
    assert_eq!(calculate_rent(SECONDS_PER_DAY as i64), RENT_PER_DAY);
}

#[test]
fn rent_of_half_a_day_is_half_a_unit() {
    assert_eq!(calculate_rent(43_200), 500_000_000);
}

#[test]
fn rent_is_rounded_down() {
    assert_eq!(calculate_rent(1), 11_574);
    assert_eq!(calculate_rent(2), 23_148);
    assert_eq!(calculate_rent(86_399), 999_988_425);
    assert_eq!(calculate_rent(86_401), 1_000_011_574);
}

#[test]
fn rent_is_exact_where_the_quotient_is_whole() {
    assert_eq!(calculate_rent(27), 312_500);
    assert_eq!(calculate_rent(54), 625_000);
    assert_eq!(calculate_rent(7 * 86_400), 7_000_000_000);
}

#[test]
fn rent_of_negative_time_is_zero() {
    assert_eq!(calculate_rent(-1), 0);
    assert_eq!(calculate_rent(-86_400), 0);
    assert_eq!(calculate_rent(i64::MIN), 0);
}

#[test]
fn rent_stops_at_the_largest_amount() {
    assert_eq!(calculate_rent(i64::MAX), u64::MAX);
    assert_eq!(calculate_rent(1_593_798_687_968_505), 18_446_744_073_709_548_611);
    assert_eq!(calculate_rent(1_593_798_687_968_506), u64::MAX);
}

#[test]
fn rent_never_decreases_with_time() {
    let mut last = 0;
    for seconds in 0..200_000i64 {
        let rent = calculate_rent(seconds);
        assert!(rent >= last);
        last = rent;
    }
}

#[test]
fn rent_between_two_times() {
    assert_eq!(rent_between(1000, 87_400), 1_000_000_000);
    assert_eq!(rent_between(1000, 1000), 0);
    assert_eq!(rent_between(1000, 999), 0);
    assert_eq!(rent_between(i64::MAX, i64::MIN), 0);
    assert_eq!(rent_between(-43_200, 0), 500_000_000);
    assert_eq!(
        rent_between(i64::MIN, i64::MAX),
        (u64::MAX as u128) * 1_000_000_000 / 86_400
    );
}
