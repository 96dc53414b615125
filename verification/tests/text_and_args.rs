use maple_alarm::args::{parse_u64, resolve_reset_secs, startup_reset_secs, DEFAULT_RESET_SECS};
use maple_alarm::text::{format_clock, remaining_menu_text, tray_tip};

fn words(ws: &[&str]) -> Vec<String> {
    ws.iter().map(|w| w.to_string()).collect()
}

#[test]
fn clock_texts() {
    assert_eq!(format_clock(0), "0:00");
    assert_eq!(format_clock(5), "0:05");
    assert_eq!(format_clock(59), "0:59");
    assert_eq!(format_clock(60), "1:00");
    assert_eq!(format_clock(65), "1:05");
    assert_eq!(format_clock(110), "1:50");
    assert_eq!(format_clock(599), "9:59");
    assert_eq!(format_clock(600), "10:00");
    assert_eq!(format_clock(3661), "61:01");
    assert_eq!(format_clock(u64::MAX), format!("{}:{:02}", u64::MAX / 60, u64::MAX % 60));
}

#[test]
fn tooltip_and_menu_texts() {
    assert_eq!(tray_tip(110), "Alarm - 1:50");
    assert_eq!(tray_tip(0), "Alarm - 0:00");
    assert_eq!(remaining_menu_text(5), "남은 시간: 0:05");
    assert_eq!(remaining_menu_text(125), "남은 시간: 2:05");
}

#[test]
fn parse_matches_std() {
    for t in ["0", "7", "110", "+50", "007", "18446744073709551615", "18446744073709551616",
              "", "+", "-1", "-0", "1a", " 5", "5 ", "++5", "１２", "99999999999999999999999", "+0"] {
        assert_eq!(parse_u64(t), t.parse::<u64>().ok(), "text {:?}", t);
    }
}

#[test]
fn seconds_flag_names_the_length() {
    assert_eq!(resolve_reset_secs(&words(&["--seconds", "50"]), None), Some(50));
    assert_eq!(resolve_reset_secs(&words(&["-s", "7"]), None), Some(7));
}

#[test]
fn bare_number_names_the_length() {
    assert_eq!(resolve_reset_secs(&words(&["foo", "30"]), None), Some(30));
}

#[test]
fn flag_with_bad_value_skips_that_value() {
    // the word after the flag is taken even though it is no number
    assert_eq!(resolve_reset_secs(&words(&["--seconds", "x", "40"]), None), Some(40));
    assert_eq!(resolve_reset_secs(&words(&["-s", "-s", "9"]), None), Some(9));
}

#[test]
fn trailing_flag_falls_back_to_environment() {
    assert_eq!(resolve_reset_secs(&words(&["--seconds"]), Some("15")), Some(15));
    assert_eq!(resolve_reset_secs(&words(&[]), Some("15")), Some(15));
    assert_eq!(resolve_reset_secs(&words(&[]), Some("soon")), None);
    assert_eq!(resolve_reset_secs(&words(&["a"]), None), None);
}

#[test]
fn command_line_wins_over_environment() {
    assert_eq!(resolve_reset_secs(&words(&["20"]), Some("15")), Some(20));
}

#[test]
fn default_length_is_110() {
    assert_eq!(DEFAULT_RESET_SECS, 110);
    assert_eq!(startup_reset_secs(&words(&[]), None), 110);
    assert_eq!(startup_reset_secs(&words(&["--seconds", "50"]), None), 50);
}
