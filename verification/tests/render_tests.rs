use pkg_updates_notifier::diag::{collect_output, split_semis, translate_diagnostics};
use pkg_updates_notifier::events::{OutputError, ProgressOutput, UnitText};
use pkg_updates_notifier::strings::{join, u64_to_string};

fn no_units() -> UnitText {
    UnitText {
        size: String::new(),
        elapsed: String::new(),
        rate: String::new(),
    }
}

#[test]
fn hit_renders_id_and_description() {
    let event = ProgressOutput::Hit(3, "Debian bookworm InRelease".to_string());
    assert_eq!(event.render(&no_units()), "Hit:3 Debian bookworm InRelease");
}

#[test]
fn fetch_renders_with_the_formatted_size() {
    let event = ProgressOutput::Fetch(12, "Debian bookworm main".to_string(), 1500);
    let units = UnitText {
        size: "1.50 KB".to_string(),
        elapsed: String::new(),
        rate: String::new(),
    };
    assert_eq!(event.render(&units), "Get:12 Debian bookworm main [1.50 KB]");
}

#[test]
fn stop_with_zero_bytes_renders_nothing_to_fetch() {
    let event = ProgressOutput::Stop(0, 42, 7);
    let units = UnitText {
        size: "0 B".to_string(),
        elapsed: "42s".to_string(),
        rate: "7 B".to_string(),
    };
    assert_eq!(event.render(&units), "Nothing to fetch.");
}

#[test]
fn stop_with_bytes_renders_the_summary() {
    let event = ProgressOutput::Stop(1024, 2, 512);
    let units = UnitText {
        size: "1.02 KB".to_string(),
        elapsed: "2s".to_string(),
        rate: "512 B".to_string(),
    };
    assert_eq!(event.render(&units), "Fetched 1.02 KB in 2s (512 B/s)");
}

#[test]
fn diagnostics_render_with_the_prefix_stripped() {
    let events = translate_diagnostics("E: foo;W: bar").expect("both parts carry a prefix");
    assert_eq!(events.len(), 2);
    assert_eq!(events[0].render(&no_units()), "E: foo");
    assert_eq!(events[1].render(&no_units()), "W: bar");
}

#[test]
fn diagnostic_variants_render_their_severity_letter() {
    let notice = ProgressOutput::Error(OutputError::Notice("N: just so".to_string()));
    let debug = ProgressOutput::Error(OutputError::Debug("D:verbose".to_string()));
    assert_eq!(notice.render(&no_units()), "N: just so");
    assert_eq!(debug.render(&no_units()), "D:verbose");
}

#[test]
fn translation_stops_at_the_first_unprefixed_part() {
    let r = translate_diagnostics("E: a;no prefix;W: b");
    assert!(matches!(r, Err(m) if m == "no prefix"));
}

#[test]
fn split_keeps_empty_parts_and_order() {
    let parts = split_semis("a;b;;c");
    assert_eq!(parts, vec!["a", "b", "", "c"]);
    assert_eq!(split_semis(""), vec![""]);
    assert_eq!(split_semis("solo"), vec!["solo"]);
}

#[test]
fn collect_output_without_failure_keeps_the_events() {
    let events = vec![ProgressOutput::Hit(1, "a".to_string())];
    let out = collect_output(events, None).expect("no failure text was given");
    assert_eq!(out.len(), 1);
    assert!(matches!(&out[0], ProgressOutput::Hit(1, _)));
}

#[test]
fn collect_output_appends_translated_diagnostics() {
    let events = vec![ProgressOutput::Hit(1, "a".to_string())];
    let out = collect_output(events, Some("W: mirror lag")).expect("the text is prefixed");
    assert_eq!(out.len(), 2);
    assert_eq!(out[1].render(&no_units()), "W: mirror lag");
}

#[test]
fn collect_output_fails_fast_on_an_unprefixed_part() {
    let events = vec![ProgressOutput::Hit(1, "a".to_string())];
    let r = collect_output(events, Some("E: a;X"));
    assert!(matches!(r, Err(m) if m == "X"));
}

#[test]
fn decimal_rendering_is_exact() {
    assert_eq!(u64_to_string(0), "0");
    assert_eq!(u64_to_string(7), "7");
    assert_eq!(u64_to_string(42), "42");
    assert_eq!(u64_to_string(1234567890), "1234567890");
    assert_eq!(u64_to_string(u64::MAX), "18446744073709551615");
}

#[test]
fn join_places_the_separator_between_neighbours() {
    let parts = vec!["a".to_string(), "b".to_string(), "c".to_string()];
    assert_eq!(join(&parts, ","), "a,b,c");
    assert_eq!(join(&vec![], "\n"), "");
    assert_eq!(join(&vec!["one".to_string()], "\n"), "one");
}
