use lib::widgets::readout::Readout;

#[test]
fn it_renders_the_ends_of_the_range_and_a_carry() {
    for (value, suffix, expected) in [
        (0, "%", "0%"),
        (5, "%", "5%"),
        (9, "%", "9%"),
        (10, "%", "10%"),
        (99, "%", "99%"),
        (100, "%", "100%"),
        (7, "", "7"),
        (-1, "%", "-1%"),
    ] {
        assert_eq!(Readout::new(value, suffix).as_str(), expected);
    }
}

#[test]
fn it_survives_zero_and_the_smallest_integer() {
    assert_eq!(Readout::new(0, "").as_str(), "0");
    assert_eq!(Readout::new(i32::MIN, "").as_str(), "-2147483648");
    assert_eq!(Readout::new(i32::MAX, "").as_str(), "2147483647");
}

#[test]
fn a_number_keeps_its_digits_when_the_suffix_is_too_long() {
    let readout = Readout::new(i32::MIN, "percent");
    assert_eq!(readout.as_str(), "-2147483648perce");
}

#[test]
fn a_suffix_is_cut_between_characters() {
    assert_eq!(Readout::new(i32::MIN, "°°°").as_str(), "-2147483648°°");
    assert_eq!(Readout::new(0, "°C").as_str(), "0°C");
}

#[test]
fn a_negative_number_keeps_its_sign_and_a_long_suffix_its_head() {
    assert_eq!(Readout::new(-42, "px").as_str(), "-42px");
    assert_eq!(Readout::new(123456, "abcdefghijk").as_str(), "123456abcdefghij");
}

#[test]
fn the_clock_facade_reads_the_host_it_is_given() {
    let mut host = lib::testing::TestHost::new();
    host.set_millis(1234);
    assert_eq!(lib::host::millis(&host), 1234);
}
