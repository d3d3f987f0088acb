use metrics_exporter_tracing::exporter::TracingExporter;
use metrics_exporter_tracing::interfaces::{Renderable, Sink};
use metrics_exporter_tracing::level::{ConfigError, Level};
use metrics_exporter_tracing::memory::{
    CountingTicker, FixedController, TextBuilder, TextRenderer, VecSink,
};

fn exporter_with(
    line: &str,
    level: Level,
    interval_ms: u64,
) -> Result<TracingExporter<FixedController, TextRenderer, VecSink>, ConfigError> {
    let controller = FixedController {
        line: String::from(line),
    };
    TracingExporter::new(controller, TextBuilder, VecSink::new(), level, interval_ms)
}

#[test]
fn positive_interval_constructs() {
    let exporter = exporter_with("a=1", Level::Info, 10).unwrap();
    assert_eq!(exporter.level, Level::Info);
    assert_eq!(exporter.interval_ms, 10);
    assert_eq!(exporter.sink.entries.len(), 0);
}

#[test]
fn zero_interval_is_a_config_error() {
    match exporter_with("a=1", Level::Info, 0) {
        Ok(_) => panic!("a zero interval must be rejected"),
        Err(err) => assert_eq!(err, ConfigError::NonPositiveInterval),
    }
}

#[test]
fn config_error_has_a_message() {
    match exporter_with("a=1", Level::Info, 0) {
        Ok(_) => panic!("a zero interval must be rejected"),
        Err(err) => assert_eq!(
            err.message(),
            "the snapshot interval must be strictly positive"
        ),
    }
}

#[test]
fn turn_emits_exactly_one_event() {
    let mut exporter = exporter_with("a=1", Level::Info, 10).unwrap();
    exporter.turn();
    assert_eq!(exporter.sink.entries.len(), 1);
}

#[test]
fn turn_payload_is_the_drained_text_at_the_configured_level() {
    let mut exporter = exporter_with("a=1, b=2", Level::Info, 10).unwrap();
    exporter.turn();
    assert_eq!(exporter.sink.entries[0].0, Level::Info);
    assert_eq!(exporter.sink.entries[0].1, "a=1, b=2");
}

#[test]
fn turn_keeps_the_constructed_level_not_another() {
    let mut exporter = exporter_with("a=1, b=2", Level::Warn, 10).unwrap();
    exporter.turn();
    assert_eq!(exporter.sink.entries[0].0, Level::Warn);
    assert_ne!(exporter.sink.entries[0].0, Level::Info);
    assert_ne!(exporter.sink.entries[0].0, Level::Debug);
}

#[test]
fn turn_leaves_the_renderer_empty() {
    let mut exporter = exporter_with("a=1", Level::Info, 10).unwrap();
    exporter.turn();
    assert_eq!(exporter.observer.text, "");
}

#[test]
fn consecutive_turns_do_not_duplicate_values() {
    // observe -> {x:1}, drain, observe -> {x:1}, drain: two identical
    // events, no double accumulation and no silent retention.
    let mut exporter = exporter_with("x=1", Level::Info, 10).unwrap();
    exporter.turn();
    exporter.turn();
    assert_eq!(exporter.sink.entries.len(), 2);
    assert_eq!(exporter.sink.entries[0].1, "x=1");
    assert_eq!(exporter.sink.entries[1].1, "x=1");
}

#[test]
fn run_emits_one_event_per_elapsed_period() {
    let mut exporter = exporter_with("x=1", Level::Info, 10).unwrap();
    let mut ticker = CountingTicker::new();
    exporter.run(&mut ticker, 3);
    assert_eq!(exporter.sink.entries.len(), 3);
    for entry in &exporter.sink.entries {
        assert_eq!(entry.0, Level::Info);
        assert_eq!(entry.1, "x=1");
    }
}

#[test]
fn run_emits_nothing_before_the_first_period_elapses() {
    let mut exporter = exporter_with("x=1", Level::Info, 10).unwrap();
    let mut ticker = CountingTicker::new();
    exporter.run(&mut ticker, 0);
    assert_eq!(exporter.sink.entries.len(), 0);
}

#[test]
fn drain_returns_the_accumulation_and_clears_it() {
    let mut renderer = TextRenderer {
        text: String::from("a=1"),
    };
    assert_eq!(renderer.drain(), "a=1");
    assert_eq!(renderer.drain(), "");
}

#[test]
fn append_accumulates_in_order() {
    let mut renderer = TextRenderer {
        text: String::new(),
    };
    renderer.append_text("a=1");
    renderer.append_text(", b=2");
    assert_eq!(renderer.drain(), "a=1, b=2");
}

#[test]
fn vec_sink_records_events_oldest_first() {
    let mut sink = VecSink::new();
    sink.emit(Level::Debug, String::from("first"));
    sink.emit(Level::Error, String::from("second"));
    assert_eq!(sink.entries.len(), 2);
    assert_eq!(sink.entries[0], (Level::Debug, String::from("first")));
    assert_eq!(sink.entries[1], (Level::Error, String::from("second")));
}
