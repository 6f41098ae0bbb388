use battery_daemon::config::Config;
use battery_daemon::config::parse_cli_args;
use battery_daemon::config::parse_config_file;

fn args(list: &[&str]) -> Vec<String> {
    list.iter().map(|s| s.to_string()).collect()
}

#[test]
fn config_file_sets_both_keys() {
    let mut interval: u64 = 60;
    let mut threshold: u8 = 30;
    parse_config_file("interval=120\nthreshold=25\n", &mut interval, &mut threshold);
    assert_eq!(interval, 120);
    assert_eq!(threshold, 25);
}

#[test]
fn config_file_ignores_comments_blanks_and_unknown_keys() {
    let mut interval: u64 = 60;
    let mut threshold: u8 = 30;
    let content = "# a comment\n\n  interval = 90 \nnot a pair\ncolor=red\n";
    parse_config_file(content, &mut interval, &mut threshold);
    assert_eq!(interval, 90);
    assert_eq!(threshold, 30);
}

#[test]
fn config_file_keeps_old_value_on_bad_input() {
    let mut interval: u64 = 60;
    let mut threshold: u8 = 30;
    parse_config_file("interval=abc\nthreshold=300\n", &mut interval, &mut threshold);
    assert_eq!(interval, 60);
    assert_eq!(threshold, 30);
}

#[test]
fn config_file_without_trailing_newline() {
    let mut interval: u64 = 60;
    let mut threshold: u8 = 30;
    parse_config_file("threshold=10", &mut interval, &mut threshold);
    assert_eq!(threshold, 10);
}

#[test]
fn config_file_with_crlf_endings() {
    let mut interval: u64 = 60;
    let mut threshold: u8 = 30;
    parse_config_file("interval=45\r\nthreshold=5\r\n", &mut interval, &mut threshold);
    assert_eq!(interval, 45);
    assert_eq!(threshold, 5);
}

#[test]
fn later_lines_override_earlier_ones() {
    let mut interval: u64 = 60;
    let mut threshold: u8 = 30;
    parse_config_file("interval=10\ninterval=20\n", &mut interval, &mut threshold);
    assert_eq!(interval, 20);
}

#[test]
fn cli_long_flags() {
    let mut interval: u64 = 60;
    let mut threshold: u8 = 30;
    parse_cli_args(&args(&["prog", "--interval", "90", "--threshold", "20"]), &mut interval, &mut threshold);
    assert_eq!(interval, 90);
    assert_eq!(threshold, 20);
}

#[test]
fn cli_short_flags() {
    let mut interval: u64 = 60;
    let mut threshold: u8 = 30;
    parse_cli_args(&args(&["prog", "-i", "15", "-t", "7"]), &mut interval, &mut threshold);
    assert_eq!(interval, 15);
    assert_eq!(threshold, 7);
}

#[test]
fn cli_flag_without_value_is_ignored() {
    let mut interval: u64 = 60;
    let mut threshold: u8 = 30;
    parse_cli_args(&args(&["prog", "--interval"]), &mut interval, &mut threshold);
    assert_eq!(interval, 60);
}

#[test]
fn cli_bad_value_is_skipped_but_consumed() {
    let mut interval: u64 = 60;
    let mut threshold: u8 = 30;
    parse_cli_args(&args(&["prog", "--interval", "abc", "--threshold", "7"]), &mut interval, &mut threshold);
    assert_eq!(interval, 60);
    assert_eq!(threshold, 7);
}

#[test]
fn cli_unrelated_arguments_are_ignored() {
    let mut interval: u64 = 60;
    let mut threshold: u8 = 30;
    parse_cli_args(&args(&["prog", "--verbose", "-t", "9"]), &mut interval, &mut threshold);
    assert_eq!(interval, 60);
    assert_eq!(threshold, 9);
}

#[test]
fn resolve_defaults() {
    let c = Config::resolve(None, None, None, &args(&["prog"]));
    assert_eq!(c.check_interval, 60);
    assert_eq!(c.threshold, 30);
}

#[test]
fn resolve_file_overrides_defaults() {
    let c = Config::resolve(Some("interval=100\nthreshold=40\n"), None, None, &args(&["prog"]));
    assert_eq!(c.check_interval, 100);
    assert_eq!(c.threshold, 40);
}

#[test]
fn resolve_env_overrides_file() {
    let c = Config::resolve(
        Some("interval=100\nthreshold=40\n"),
        Some("200"),
        Some("50"),
        &args(&["prog"]),
    );
    assert_eq!(c.check_interval, 200);
    assert_eq!(c.threshold, 50);
}

#[test]
fn resolve_cli_overrides_env() {
    let c = Config::resolve(
        Some("interval=100\n"),
        Some("200"),
        Some("50"),
        &args(&["prog", "--interval", "300", "-t", "60"]),
    );
    assert_eq!(c.check_interval, 300);
    assert_eq!(c.threshold, 60);
}

#[test]
fn file_threshold_above_one_hundred_keeps_old_value() {
    let mut interval: u64 = 60;
    let mut threshold: u8 = 30;
    parse_config_file("threshold=150\n", &mut interval, &mut threshold);
    assert_eq!(threshold, 30);
    parse_config_file("threshold=100\n", &mut interval, &mut threshold);
    assert_eq!(threshold, 100);
}

#[test]
fn cli_threshold_above_one_hundred_is_skipped_but_consumed() {
    let mut interval: u64 = 60;
    let mut threshold: u8 = 30;
    parse_cli_args(&args(&["prog", "-t", "150", "-i", "90"]), &mut interval, &mut threshold);
    assert_eq!(threshold, 30);
    assert_eq!(interval, 90);
}

#[test]
fn resolve_env_threshold_above_one_hundred_falls_back() {
    let c = Config::resolve(Some("threshold=40\n"), None, Some("200"), &args(&["prog"]));
    assert_eq!(c.threshold, 40);
}

#[test]
fn resolve_bad_env_falls_back_to_file() {
    let c = Config::resolve(
        Some("interval=100\n"),
        Some("not a number"),
        None,
        &args(&["prog"]),
    );
    assert_eq!(c.check_interval, 100);
    assert_eq!(c.threshold, 30);
}
