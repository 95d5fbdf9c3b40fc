use wt_cli::diff::diff_stat;
use wt_cli::num::dec_of;
use wt_cli::num::parse_usize;
use wt_cli::style::Style;
use wt_cli::style::render_error;
use wt_cli::text::str_string;
use wt_cli::text::to_chars;
use wt_cli::text::trim_str;

#[test]
fn apply_wraps_in_escape_codes_when_enabled() {
    let on = Style { enabled: true };
    let off = Style { enabled: false };
    assert_eq!(on.apply("32", "created"), "\x1b[32mcreated\x1b[0m");
    assert_eq!(off.apply("32", "created"), "created");
}

#[test]
fn resolve_honors_the_overrides_in_turn() {
    assert!(Style::resolve(true, false, false, None, None).enabled);
    assert!(!Style::resolve(true, true, false, None, None).enabled);
    assert!(Style::resolve(false, true, true, None, None).enabled);
    assert!(
        !Style::resolve(true, false, true, Some("0".to_string()), None).enabled
    );
    assert!(
        !Style::resolve(true, false, false, None, Some("dumb".to_string())).enabled
    );
    assert!(
        Style::resolve(true, false, false, Some("1".to_string()), Some("xterm".to_string()))
            .enabled
    );
}

#[test]
fn error_chain_uses_distinct_connectors() {
    let lines = render_error(
        "failed to create worktree",
        &vec!["command failed".to_string(), "disk full".to_string()],
    );
    assert_eq!(
        lines,
        vec![
            "error: failed to create worktree".to_string(),
            "       \u{251c}\u{2500} command failed".to_string(),
            "       \u{2514}\u{2500} disk full".to_string(),
        ],
    );
}

#[test]
fn diff_stat_sums_the_columns() {
    let out = "3\t1\tsrc/main.rs\n10\t0\tREADME.md\n-\t-\tlogo.png\n";
    assert_eq!(diff_stat(out), (13, 1));
}

#[test]
fn diff_stat_of_empty_output_is_zero() {
    assert_eq!(diff_stat(""), (0, 0));
}

#[test]
fn diff_stat_ignores_unparsable_fields() {
    assert_eq!(diff_stat("x\t4\tweird\n2\ty\tother\n"), (2, 4));
}

#[test]
fn decimal_round_trip() {
    assert_eq!(dec_of(0), vec!['0']);
    assert_eq!(dec_of(907), vec!['9', '0', '7']);
    assert_eq!(parse_usize(&to_chars("907")), Some(907));
    assert_eq!(parse_usize(&to_chars("")), None);
    assert_eq!(parse_usize(&to_chars("12a")), None);
    assert_eq!(parse_usize(&to_chars("99999999999999999999999999")), None);
}

#[test]
fn trim_strips_surrounding_whitespace() {
    assert_eq!(trim_str("  fatal: oops\n"), "fatal: oops");
    assert_eq!(trim_str("\t\r\n "), "");
    assert_eq!(str_string("abc"), "abc");
}
