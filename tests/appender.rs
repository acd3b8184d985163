use log4rs_gelf::appender::{BufferAppender, BufferAppenderBuilder};
use log4rs_gelf::batch::Batch;
use log4rs_gelf::level::GelfLevel;
use serde_value::Value;

#[test]
fn builder_defaults() {
    let p = BufferAppenderBuilder::default().build();
    assert_eq!(p.processor.level(), GelfLevel::Alert);
    assert_eq!(p.metronome.frequency(), 500);
    assert_eq!(p.output.hostname(), "127.0.0.1");
    assert_eq!(p.output.port(), 12202);
    assert!(p.output.use_tls());
    assert!(p.output.null_character());
    let keys: Vec<&str> = p.additional_fields.iter().map(|(k, _)| k.as_str()).collect();
    assert_eq!(keys, vec!["pkg_name", "pkg_version"]);
}

#[test]
fn builder_settings_reach_pipeline() {
    let mut p = BufferAppender::builder()
        .set_level(GelfLevel::Informational)
        .set_hostname("localhost")
        .set_port(12201)
        .set_use_tls(false)
        .set_null_character(false)
        .set_buffer_size(Some(5))
        .set_buffer_duration(Some(50))
        .put_additional_field("component", Value::String("rust-cs".to_string()))
        .build();
    assert_eq!(p.processor.level(), GelfLevel::Informational);
    assert!(p.processor.send(log4rs_gelf::batch::GelfRecord::new(GelfLevel::Debugging, vec![])).is_none());
    assert_eq!(p.metronome.frequency(), 50);
    assert_eq!(p.output.hostname(), "localhost");
    assert_eq!(p.output.port(), 12201);
    assert!(!p.output.use_tls());
    assert!(!p.output.null_character());
    assert_eq!(p.additional_fields.len(), 3);
    assert_eq!(p.additional_fields[2].0, "component");
    for i in 0..4 {
        let ev = log4rs_gelf::batch::Event::Data(log4rs_gelf::batch::GelfRecord::new(GelfLevel::Error, vec![i]));
        assert_eq!(p.buffer.on_event(ev), log4rs_gelf::batch::Step::Wait);
    }
}

#[test]
fn unset_sizes_turn_triggers_off() {
    let mut p = BufferAppenderBuilder::default()
        .set_buffer_size(None)
        .set_buffer_duration(None)
        .build();
    assert_eq!(p.metronome.frequency(), 0);
    assert!(!p.metronome.is_enabled());
    for i in 0..200u8 {
        let ev = log4rs_gelf::batch::Event::Data(log4rs_gelf::batch::GelfRecord::new(GelfLevel::Error, vec![i]));
        assert_eq!(p.buffer.on_event(ev), log4rs_gelf::batch::Step::Wait);
    }
}

#[test]
fn ldp_builder_sets_host_level_and_token() {
    let p = BufferAppender::builder_ldp("gra1.logs.example", "tok-123").build();
    assert_eq!(p.output.hostname(), "gra1.logs.example");
    assert_eq!(p.processor.level(), GelfLevel::Informational);
    assert_eq!(p.additional_fields.len(), 3);
    assert_eq!(p.additional_fields[2].0, "X-OVH-TOKEN");
    assert_eq!(p.additional_fields[2].1, Value::String("tok-123".to_string()));
    assert_eq!(p.additional_fields[0].1, Value::String("log4rs_gelf".to_string()));
}

#[test]
fn put_replaces_same_key() {
    let p = BufferAppenderBuilder::default()
        .put_additional_field("pkg_name", Value::String("other".to_string()))
        .put_additional_field("env", Value::U8(1))
        .extend_additional_field(vec![
            ("env".to_string(), Value::U8(2)),
            ("zone".to_string(), Value::Bool(true)),
        ])
        .build();
    let keys: Vec<&str> = p.additional_fields.iter().map(|(k, _)| k.as_str()).collect();
    assert_eq!(keys, vec!["pkg_name", "pkg_version", "env", "zone"]);
    assert_eq!(p.additional_fields[0].1, Value::String("other".to_string()));
    assert_eq!(p.additional_fields[2].1, Value::U8(2));
}
