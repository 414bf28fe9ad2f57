use test_temp_file::naming::{physical_name, render_decimal};

#[test]
fn single_digits_are_written_as_one_character() {
    let expected = ["0", "1", "2", "3", "4", "5", "6", "7", "8", "9"];
    let mut n: u32 = 0;
    while n < 10 {
        assert_eq!(render_decimal(n), expected[n as usize]);
        n += 1;
    }
}

#[test]
fn numbers_are_written_without_leading_zeros() {
    assert_eq!(render_decimal(10), "10");
    assert_eq!(render_decimal(42), "42");
    assert_eq!(render_decimal(100), "100");
    assert_eq!(render_decimal(1009), "1009");
    assert_eq!(render_decimal(2147483646), "2147483646");
    assert_eq!(render_decimal(u32::MAX), "4294967295");
}

#[test]
fn decimal_agrees_with_the_standard_rendering() {
    let mut n: u32 = 0;
    while n < 5000 {
        assert_eq!(render_decimal(n), n.to_string());
        n += 1;
    }
    let mut m: u32 = u32::MAX;
    while m > u32::MAX - 5000 {
        assert_eq!(render_decimal(m), m.to_string());
        m -= 1;
    }
}

#[test]
fn physical_name_joins_suffix_and_name_with_underscores() {
    assert_eq!(physical_name(42, "foo.txt"), "_42_foo.txt");
    assert_eq!(physical_name(0, "test_file.txt"), "_0_test_file.txt");
    assert_eq!(physical_name(2147483646, "a"), "_2147483646_a");
}

#[test]
fn physical_name_of_an_empty_name_ends_in_an_underscore() {
    assert_eq!(physical_name(5, ""), "_5_");
}

#[test]
fn physical_name_keeps_every_character_of_the_name() {
    assert_eq!(physical_name(3, "_7_\u{4e2d}\u{6587} x/y"), "_3__7_\u{4e2d}\u{6587} x/y");
}

#[test]
fn physical_names_differ_where_suffix_or_name_differs() {
    assert_ne!(physical_name(1, "foo"), physical_name(2, "foo"));
    assert_ne!(physical_name(1, "foo"), physical_name(1, "fop"));
    assert_ne!(physical_name(1, "1_foo"), physical_name(11, "foo"));
    assert_eq!(physical_name(17, "foo"), physical_name(17, "foo"));
}
