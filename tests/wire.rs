use log4rs_gelf::batch::GelfRecord;
use log4rs_gelf::builder::Builder;
use log4rs_gelf::encode::{host_or_default, GelfEncoder, GelfEncoderBuilder};
use log4rs_gelf::error::Error;
use log4rs_gelf::level::GelfLevel;
use log4rs_gelf::output::GelfTcpOutput;
use log4rs_gelf::tcp::{check_hosts, CacheStep, TcpCache};

#[test]
fn gelf_level_codes_and_mapping() {
    assert_eq!(GelfLevel::Emergency.code(), 0);
    assert_eq!(GelfLevel::Notice.code(), 5);
    assert_eq!(GelfLevel::Debugging.code(), 7);
    assert_eq!(GelfLevel::from(log::Level::Trace), GelfLevel::Debugging);
    assert_eq!(GelfLevel::from(log::Level::Debug), GelfLevel::Debugging);
    assert_eq!(GelfLevel::from(log::Level::Info), GelfLevel::Informational);
    assert_eq!(GelfLevel::from(log::Level::Warn), GelfLevel::Warning);
    assert_eq!(GelfLevel::from(log::Level::Error), GelfLevel::Error);
}

#[test]
fn output_frames_each_record_with_nul() {
    let out = GelfTcpOutput::new("127.0.0.1".to_string(), 12202, false, true);
    let batch = vec![
        GelfRecord::new(GelfLevel::Error, b"{\"a\":1}".to_vec()),
        GelfRecord::new(GelfLevel::Error, b"{}".to_vec()),
    ];
    let frames = out.frames(&batch);
    assert_eq!(frames, vec![b"{\"a\":1}\0".to_vec(), b"{}\0".to_vec()]);
    assert_eq!(out.port(), 12202);
    assert_eq!(out.hostname(), "127.0.0.1");
    assert!(!out.use_tls());
}

#[test]
fn output_frames_without_nul() {
    let out = GelfTcpOutput::new("h".to_string(), 1, true, false);
    let r = GelfRecord::new(GelfLevel::Alert, b"xy".to_vec());
    assert_eq!(out.frame(&r), b"xy".to_vec());
    assert!(out.frames(&Vec::new()).is_empty());
}

#[test]
fn encoder_frames_json_line() {
    let enc = GelfEncoder::new(true, serde_json::Map::new());
    assert_eq!(enc.frame("{\"k\":\"v\"}"), b"{\"k\":\"v\"}\0".to_vec());
    let plain = GelfEncoder::new(false, serde_json::Map::new());
    assert_eq!(plain.frame("{}"), b"{}".to_vec());
    assert!(!plain.hostname().is_empty());
}

#[test]
fn encoder_builder_prefixes_field_names() {
    let b = GelfEncoder::builder()
        .null_character(true)
        .add_field("component", serde_json::Value::from("rust-cs"));
    let enc = <GelfEncoderBuilder as Builder>::build(b).unwrap();
    assert!(enc.additional_fields().contains_key("_component"));
    assert!(!enc.additional_fields().contains_key("component"));
    assert!(enc.null_character());
}

#[test]
fn hostname_fallback() {
    assert_eq!(host_or_default(None), "localhost");
    assert_eq!(host_or_default(Some("box".to_string())), "box");
}

#[test]
fn tcp_cache_sends_at_batch_size_and_drops_when_full() {
    let mut c = TcpCache::new(2, 3);
    assert_eq!(c.on_line(b"a".to_vec()), CacheStep::Buffered);
    assert_eq!(c.on_line(b"b".to_vec()), CacheStep::Send);
    c.on_sent(false);
    assert_eq!(c.len(), 2);
    assert_eq!(c.on_line(b"c".to_vec()), CacheStep::Send);
    assert_eq!(c.on_line(b"d".to_vec()), CacheStep::Dropped);
    assert_eq!(c.lines(), &vec![b"a".to_vec(), b"b".to_vec(), b"c".to_vec()]);
    c.on_sent(true);
    assert_eq!(c.len(), 0);
}

#[test]
fn tcp_hosts_required() {
    assert_eq!(check_hosts(0), Err(Error::InvalidConfiguration("No host set!".to_string())));
    assert_eq!(check_hosts(2), Ok(()));
    let e = Error::InvalidConfiguration("No host set!".to_string());
    assert_eq!(e.description(), "No host set!");
}

#[test]
fn gelf_level_from_code() {
    assert_eq!(GelfLevel::from_code(0), Some(GelfLevel::Emergency));
    assert_eq!(GelfLevel::from_code(6), Some(GelfLevel::Informational));
    assert_eq!(GelfLevel::from_code(8), None);
}

fn sample_fields() -> log4rs_gelf::encode::RecordFields {
    log4rs_gelf::encode::RecordFields {
        facility: "app::net".to_string(),
        file: "src/net.rs".to_string(),
        level: GelfLevel::Error,
        line: 42,
        message: "boom".to_string(),
        timestamp: 1_600_000_000,
    }
}

#[test]
fn encoder_object_has_gelf_keys_and_extra_fields() {
    let mut extra = serde_json::Map::new();
    extra.insert("_component".to_string(), serde_json::Value::from("rust-cs"));
    let enc = GelfEncoder::new(false, extra);
    let obj = enc.object(sample_fields());
    for key in ["facility", "file", "host", "level", "line", "short_message", "timestamp", "version", "_component"] {
        assert!(obj.contains_key(key), "missing {}", key);
    }
    assert_eq!(obj.len(), 9);
    assert_eq!(obj["level"], serde_json::Value::from(3));
    assert_eq!(obj["line"], serde_json::Value::from(42));
    assert_eq!(obj["version"], serde_json::Value::from("1.1"));
    assert_eq!(obj["short_message"], serde_json::Value::from("boom"));
}

#[test]
fn encoder_writes_json_line_with_nul() {
    let enc = GelfEncoder::new(true, serde_json::Map::new());
    let line = enc.encode(sample_fields()).unwrap();
    assert_eq!(*line.last().unwrap(), 0u8);
    let parsed: serde_json::Value = serde_json::from_slice(&line[..line.len() - 1]).unwrap();
    assert_eq!(parsed["facility"], serde_json::Value::from("app::net"));
    assert_eq!(parsed["timestamp"], serde_json::Value::from(1_600_000_000i64));
    let now = enc.encode_now("m".to_string(), "f".to_string(), GelfLevel::Notice, 1, "x".to_string()).unwrap();
    let parsed: serde_json::Value = serde_json::from_slice(&now[..now.len() - 1]).unwrap();
    assert_eq!(parsed["level"], serde_json::Value::from(5));
    assert!(parsed["timestamp"].as_i64().unwrap() > 1_600_000_000);
}

#[test]
fn frame_text_maps_serialiser_failure() {
    let enc = GelfEncoder::new(false, serde_json::Map::new());
    assert_eq!(enc.frame_text(Ok("{}".to_string())), Ok(b"{}".to_vec()));
    assert_eq!(enc.frame_text(Err("bad".to_string())), Err(Error::Parsing("bad".to_string())));
}

#[test]
fn gelf_level_from_name() {
    assert_eq!(GelfLevel::from_name("Informational"), Some(GelfLevel::Informational));
    assert_eq!(GelfLevel::from_name("Emergency"), Some(GelfLevel::Emergency));
    assert_eq!(GelfLevel::from_name("info"), None);
    assert_eq!(GelfLevel::from_name(""), None);
}

#[test]
fn encoder_host_name_and_overriding_fields() {
    let mut extra = serde_json::Map::new();
    extra.insert("host".to_string(), serde_json::Value::from("override"));
    let enc = GelfEncoder::with_hostname(false, extra, Some("box1".to_string()));
    assert_eq!(enc.hostname(), "box1");
    let obj = enc.object(sample_fields());
    assert_eq!(obj["host"], serde_json::Value::from("override"));
    let plain = GelfEncoder::with_hostname(false, serde_json::Map::new(), None);
    assert_eq!(plain.hostname(), "localhost");
    let line = plain.encode(sample_fields()).unwrap();
    let parsed: serde_json::Value = serde_json::from_slice(&line).unwrap();
    assert_eq!(parsed["host"], serde_json::Value::from("localhost"));
}

#[test]
fn encoder_builder_add_field_replaces_value() {
    let enc = GelfEncoder::builder()
        .add_field("component", serde_json::Value::from("a"))
        .add_field("component", serde_json::Value::from("b"))
        .build();
    assert_eq!(enc.additional_fields()["_component"], serde_json::Value::from("b"));
    assert_eq!(enc.additional_fields().len(), 1);
}
