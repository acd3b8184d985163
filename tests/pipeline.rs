use log4rs_gelf::batch::{Batch, BatchProcessor, Buffer, Event, GelfRecord, Metronome, NoProcessor, Step};
use log4rs_gelf::level::GelfLevel;
use log4rs_gelf::result::Error;

fn rec(level: GelfLevel, text: &str) -> GelfRecord {
    GelfRecord::new(level, text.as_bytes().to_vec())
}

fn io_error() -> Error {
    Error::IOError("connection refused".to_string())
}

#[test]
fn flush_delivers_records_in_enqueue_order() {
    let mut buffer = Buffer::new(0);
    let records = vec![
        rec(GelfLevel::Error, "a"),
        rec(GelfLevel::Warning, "b"),
        rec(GelfLevel::Notice, "c"),
        rec(GelfLevel::Informational, "d"),
    ];
    for r in records.iter() {
        assert_eq!(buffer.on_event(Event::Data(r.clone())), Step::Wait);
    }
    assert_eq!(buffer.on_event(Event::Send), Step::Deliver);
    assert_eq!(buffer.items(), &records);
    assert_eq!(buffer.on_delivery(Ok(())), Step::Wait);
    assert!(buffer.items().is_empty());
}

#[test]
fn flush_on_empty_batch_still_delivers() {
    let mut buffer = Buffer::new(3);
    assert_eq!(buffer.on_event(Event::Send), Step::Deliver);
    assert!(buffer.items().is_empty());
}

#[test]
fn filtered_record_never_reaches_channel() {
    let p = BatchProcessor::new(GelfLevel::Informational);
    assert!(p.send(rec(GelfLevel::Debugging, "b")).is_none());
    match p.send(rec(GelfLevel::Informational, "a")) {
        Some(Event::Data(r)) => assert_eq!(r, rec(GelfLevel::Informational, "a")),
        _ => panic!("record at the threshold must pass"),
    }
    match p.send(rec(GelfLevel::Emergency, "e")) {
        Some(Event::Data(r)) => assert_eq!(r.level, GelfLevel::Emergency),
        _ => panic!("more urgent record must pass"),
    }
    assert!(p.admits(GelfLevel::Warning));
    assert!(!p.admits(GelfLevel::Debugging));
    assert!(matches!(p.flush(), Some(Event::Send)));
}

#[test]
fn no_processor_drops_everything() {
    let p = NoProcessor;
    assert!(p.send(rec(GelfLevel::Emergency, "x")).is_none());
    assert!(p.flush().is_none());
}

#[test]
fn failed_delivery_keeps_batch_for_retry() {
    let mut buffer = Buffer::new(0);
    buffer.on_event(Event::Data(rec(GelfLevel::Error, "a")));
    buffer.on_event(Event::Data(rec(GelfLevel::Error, "b")));
    let before = buffer.items().clone();
    assert_eq!(buffer.on_event(Event::Send), Step::Deliver);
    assert_eq!(buffer.on_delivery(Err(io_error())), Step::Backoff);
    assert_eq!(buffer.items(), &before);
    assert_eq!(buffer.errors().len(), 1);
    assert_eq!(buffer.on_event(Event::Send), Step::Deliver);
    assert_eq!(buffer.items(), &before);
}

#[test]
fn five_consecutive_failures_are_fatal() {
    let mut buffer = Buffer::new(0);
    buffer.on_event(Event::Data(rec(GelfLevel::Alert, "a")));
    for _ in 0..4 {
        assert_eq!(buffer.on_event(Event::Send), Step::Deliver);
        assert_eq!(buffer.on_delivery(Err(io_error())), Step::Backoff);
    }
    assert_eq!(buffer.on_event(Event::Send), Step::Deliver);
    assert_eq!(buffer.on_delivery(Err(io_error())), Step::Fatal);
    assert_eq!(buffer.errors().len(), 5);
    assert_eq!(buffer.items().len(), 1);
}

#[test]
fn four_failures_then_success_resets_error_log() {
    let mut buffer = Buffer::new(0);
    buffer.on_event(Event::Data(rec(GelfLevel::Alert, "a")));
    for _ in 0..4 {
        assert_eq!(buffer.on_delivery(Err(io_error())), Step::Backoff);
    }
    assert_eq!(buffer.errors().len(), 4);
    assert_eq!(buffer.on_delivery(Ok(())), Step::Wait);
    assert!(buffer.errors().is_empty());
    assert!(buffer.items().is_empty());
    assert_eq!(buffer.on_delivery(Err(io_error())), Step::Backoff);
}

#[test]
fn end_to_end_level_and_batch_size() {
    let p = BatchProcessor::new(GelfLevel::Informational);
    let mut buffer = Buffer::new(0);
    let mut delivered: Vec<Vec<GelfRecord>> = Vec::new();
    for r in [rec(GelfLevel::Informational, "A"), rec(GelfLevel::Debugging, "B")] {
        if let Some(ev) = p.send(r) {
            buffer.on_event(ev);
        }
    }
    assert_eq!(buffer.on_event(p.flush().unwrap()), Step::Deliver);
    delivered.push(buffer.items().clone());
    buffer.on_delivery(Ok(()));
    assert_eq!(delivered, vec![vec![rec(GelfLevel::Informational, "A")]]);

    let mut buffer = Buffer::new(2);
    let mut batches: Vec<Vec<GelfRecord>> = Vec::new();
    for name in ["r1", "r2", "r3"] {
        if buffer.on_event(Event::Data(rec(GelfLevel::Error, name))) == Step::Deliver {
            batches.push(buffer.items().clone());
            buffer.on_delivery(Ok(()));
        }
    }
    assert_eq!(batches.len(), 1);
    assert_eq!(batches[0].len(), 2);
    assert_eq!(buffer.on_event(Event::Send), Step::Deliver);
    batches.push(buffer.items().clone());
    buffer.on_delivery(Ok(()));
    assert_eq!(batches[1], vec![rec(GelfLevel::Error, "r3")]);
}

#[test]
fn metronome_tick_delivers_pending_record() {
    let m = Metronome::new(50);
    assert!(m.is_enabled());
    assert_eq!(m.frequency(), 50);
    let mut buffer = Buffer::new(100);
    assert_eq!(buffer.on_event(Event::Data(rec(GelfLevel::Error, "x"))), Step::Wait);
    assert_eq!(buffer.on_event(Event::Send), Step::Deliver);
    assert_eq!(buffer.items().len(), 1);
}

#[test]
fn metronome_with_zero_period_is_off() {
    assert!(!Metronome::new(0).is_enabled());
}

#[test]
fn error_kinds() {
    assert_eq!(Error::ChannelError.kind(), "ChannelError");
    assert_eq!(io_error().kind(), "IOError");
    assert!(io_error().is_transport());
    assert!(Error::TLSError("x".to_string()).is_transport());
    assert!(!Error::ChannelError.is_transport());
}

#[test]
fn error_text_names_variant_and_detail() {
    assert_eq!(Error::ChannelError.to_text(), "ChannelError");
    assert_eq!(io_error().to_text(), "IOError: connection refused");
    assert_eq!(Error::FileNotFound("/tmp/x".to_string()).to_text(), "FileNotFound: /tmp/x");
}
