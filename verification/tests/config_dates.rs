use odoo::config::{HrSelection, Odoo};
use odoo::text::{decimal_text, pad_left_text, pad_right_text, signed_decimal_text, two_digits_text};

#[test]
fn selection_of_a_day() {
    let s = HrSelection::for_day(2021, 3, 5);
    assert_eq!(s.invoice_date, "2021-03-05");
    assert_eq!(s.invoice_date_in, "2021-03-05T00:00:00+00:00");
    assert_eq!(s.invoice_date_out, "2021-03-05T23:59:59+00:00");
}

#[test]
fn selection_of_a_short_year_pads_with_spaces() {
    let s = HrSelection::for_day(5, 1, 2);
    assert_eq!(s.invoice_date, "   5-01-02");
    assert_eq!(s.invoice_date_in, "0005-01-02T00:00:00+00:00");
}

#[test]
fn selection_of_a_negative_year() {
    let s = HrSelection::for_day(-1, 12, 31);
    assert_eq!(s.invoice_date, "  -1-12-31");
    assert_eq!(s.invoice_date_in, "-0001-12-31T00:00:00+00:00");
    assert_eq!(s.invoice_date_out, "-0001-12-31T23:59:59+00:00");
}

#[test]
fn selection_of_a_five_digit_year() {
    let s = HrSelection::for_day(10000, 1, 1);
    assert_eq!(s.invoice_date, "10000-01-01");
    assert_eq!(s.invoice_date_in, "+10000-01-01T00:00:00+00:00");
}

#[test]
fn settings_from_arguments() {
    let o = Odoo::from_arguments(
        "http://odoo".to_string(),
        "db".to_string(),
        "me".to_string(),
        "pw".to_string(),
        2020,
        2,
        29,
    );
    assert_eq!(o.connection.url, "http://odoo");
    assert_eq!(o.connection.db, "db");
    assert_eq!(o.connection.username, "me");
    assert_eq!(o.connection.password, "pw");
    assert_eq!(o.hr_selection.invoice_date, "2020-02-29");
    assert_eq!(o.hr_selection.invoice_date_out, "2020-02-29T23:59:59+00:00");
}

#[test]
fn dates_that_exist() {
    assert!(HrSelection::day_exists(2020, 2, 29));
    assert!(!HrSelection::day_exists(2021, 2, 29));
    assert!(!HrSelection::day_exists(1900, 2, 29));
    assert!(HrSelection::day_exists(2000, 2, 29));
    assert!(!HrSelection::day_exists(2021, 13, 1));
    assert!(!HrSelection::day_exists(2021, 4, 31));
    assert!(!HrSelection::day_exists(2021, 1, 0));
    assert!(HrSelection::day_exists(262142, 12, 31));
    assert!(!HrSelection::day_exists(262143, 1, 1));
    assert!(HrSelection::day_exists(-262143, 1, 1));
    assert!(!HrSelection::day_exists(-262144, 12, 31));
}

#[test]
fn selection_at_the_ends_of_the_calendar() {
    let s = HrSelection::for_day(-262143, 1, 1);
    assert_eq!(s.invoice_date, "-262143-01-01");
    assert_eq!(s.invoice_date_in, "-262143-01-01T00:00:00+00:00");
    let s = HrSelection::for_day(1999, 12, 31);
    assert_eq!(s.invoice_date_out, "1999-12-31T23:59:59+00:00");
}

#[test]
fn decimal_and_padding() {
    assert_eq!(decimal_text(0), "0");
    assert_eq!(decimal_text(1234567), "1234567");
    assert_eq!(signed_decimal_text(-42), "-42");
    assert_eq!(signed_decimal_text(i32::MIN), "-2147483648");
    assert_eq!(two_digits_text(7), "07");
    assert_eq!(two_digits_text(123), "123");
    assert_eq!(pad_left_text("ab", 5, '*'), "***ab");
    assert_eq!(pad_left_text("abcdef", 5, '*'), "abcdef");
    assert_eq!(pad_right_text("é", 3), "é  ");
    assert_eq!(pad_right_text("abcd", 3), "abcd");
}
