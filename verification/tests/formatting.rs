use loan_calc::formatting::get_formatter;
use loan_calc::formatting::present_int;
use num_format::Buffer;
use num_format::CustomFormat;
use num_format::Grouping;

#[test]
fn groups_of_three_with_spaces() {
    let f = get_formatter();
    assert_eq!(present_int(1_234_567, &f), "1 234 567");
}

#[test]
fn minus_sign_prefix() {
    let f = get_formatter();
    assert_eq!(present_int(-42, &f), "-42");
}

#[test]
fn zero_is_a_single_digit() {
    let f = get_formatter();
    assert_eq!(present_int(0, &f), "0");
}

#[test]
fn grouping_boundaries() {
    let f = get_formatter();
    assert_eq!(present_int(1, &f), "1");
    assert_eq!(present_int(12, &f), "12");
    assert_eq!(present_int(123, &f), "123");
    assert_eq!(present_int(999, &f), "999");
    assert_eq!(present_int(1_000, &f), "1 000");
    assert_eq!(present_int(1_234, &f), "1 234");
    assert_eq!(present_int(12_345, &f), "12 345");
    assert_eq!(present_int(100_000, &f), "100 000");
    assert_eq!(present_int(1_000_000, &f), "1 000 000");
}

#[test]
fn negative_numbers_group_too() {
    let f = get_formatter();
    assert_eq!(present_int(-1_234_567, &f), "-1 234 567");
    assert_eq!(present_int(-1_000, &f), "-1 000");
    assert_eq!(present_int(-999, &f), "-999");
}

#[test]
fn extreme_values() {
    let f = get_formatter();
    assert_eq!(present_int(i64::MAX, &f), "9 223 372 036 854 775 807");
    assert_eq!(present_int(i64::MIN, &f), "-9 223 372 036 854 775 808");
}

#[test]
fn agrees_with_the_formatting_library() {
    let library_format = CustomFormat::builder()
        .grouping(Grouping::Standard)
        .minus_sign("-")
        .separator(" ")
        .build()
        .unwrap();
    let f = get_formatter();
    let samples: [i64; 16] = [
        0,
        1,
        -1,
        9,
        10,
        99,
        100,
        999,
        1_000,
        -1_000,
        123_456,
        -123_456,
        1_234_567,
        987_654_321,
        i64::MAX,
        i64::MIN,
    ];
    for n in samples {
        let mut buf = Buffer::default();
        buf.write_formatted(&n, &library_format);
        assert_eq!(present_int(n, &f), buf.as_str());
    }
}
