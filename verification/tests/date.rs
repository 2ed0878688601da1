use ptmp::date::{format_iso_date, format_year, LocalDate};
use ptmp::template::template_is_checked;

#[test]
fn dates_outside_the_calendar_ranges_are_refused() {
    assert!(LocalDate::new(2024, 0, 1).is_none());
    assert!(LocalDate::new(2024, 13, 1).is_none());
    assert!(LocalDate::new(2024, 1, 0).is_none());
    assert!(LocalDate::new(2024, 1, 32).is_none());
    assert!(LocalDate::new(2024, 12, 31).is_some());
}

#[test]
fn iso_dates_are_zero_padded() {
    let d = LocalDate::new(2024, 1, 2).unwrap();
    assert_eq!(format_iso_date(&d), "2024-01-02");
    assert_eq!(format_year(&d), "2024");
    let d = LocalDate::new(5, 11, 30).unwrap();
    assert_eq!(format_iso_date(&d), "0005-11-30");
    assert_eq!(format_year(&d), "0005");
}

#[test]
fn years_beyond_four_digits_carry_a_sign() {
    let d = LocalDate::new(12345, 6, 7).unwrap();
    assert_eq!(format_iso_date(&d), "+12345-06-07");
    assert_eq!(format_year(&d), "+12345");
    let d = LocalDate::new(-1, 1, 1).unwrap();
    assert_eq!(format_iso_date(&d), "-0001-01-01");
    assert_eq!(format_year(&d), "-0001");
}

#[test]
fn dates_format_as_chrono_does() {
    for (y, m, d) in [(2024, 2, 29), (1, 1, 1), (9999, 12, 31), (10000, 1, 1), (-44, 3, 15)] {
        let n = chrono::NaiveDate::from_ymd_opt(y, m, d).unwrap();
        let ld = LocalDate::new(y, m, d).unwrap();
        assert_eq!(format_iso_date(&ld), n.format("%Y-%m-%d").to_string());
        assert_eq!(format_year(&ld), n.format("%Y").to_string());
    }
}

#[test]
fn checked_templates() {
    for t in ["", "plain", "{{ title }}", "{{ title2 }}", "{% if a %}x{% endif %}", "{# c #}"] {
        assert!(template_is_checked(t), "{t}");
    }
    for t in [
        "{{ 1.0 }}",
        "{{ a | upper }}",
        "{{- a -}}",
        "{{ now() }}",
        "{{ a[0] }}",
        "{% set x = \"s\" %}",
        "{{ a * b }}",
        "{% for i in range(end=3) %}{% endfor %}",
    ] {
        assert!(!template_is_checked(t), "{t}");
    }
}
