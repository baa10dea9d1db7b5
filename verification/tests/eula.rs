use mcinit::eula::{eula_for_date, generate_eula, EULA_DATE_FORMAT};

#[test]
fn text_has_date_line_and_setting() {
    assert_eq!(
        eula_for_date("Tue Nov 14 23:13:20 CET 2023"),
        "#Tue Nov 14 23:13:20 CET 2023\neula=true"
    );
    assert_eq!(eula_for_date(""), "#\neula=true");
}

#[test]
fn date_is_written_in_berlin_winter_time() {
    assert_eq!(
        generate_eula(0),
        Some("#Thu Jan 01 01:00:00 CET 1970\neula=true".to_string())
    );
    assert_eq!(
        generate_eula(1_700_000_000),
        Some("#Tue Nov 14 23:13:20 CET 2023\neula=true".to_string())
    );
}

#[test]
fn date_is_written_in_berlin_summer_time() {
    assert_eq!(
        generate_eula(1_688_169_600),
        Some("#Sat Jul 01 02:00:00 CEST 2023\neula=true".to_string())
    );
}

#[test]
fn time_beyond_the_calendar_has_no_text() {
    assert_eq!(generate_eula(i64::MAX), None);
    assert_eq!(generate_eula(i64::MIN), None);
}

#[test]
fn date_layout() {
    assert_eq!(EULA_DATE_FORMAT, "%a %b %d %H:%M:%S %Z %Y");
}

#[test]
fn text_has_two_lines() {
    let text = generate_eula(1_700_000_000).unwrap();
    let lines: Vec<&str> = text.lines().collect();
    assert_eq!(lines, vec!["#Tue Nov 14 23:13:20 CET 2023", "eula=true"]);
}
