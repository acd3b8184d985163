use vstd::prelude::*;

use crate::level::GelfLevel;
use crate::result::Error;

verus! {

/// Consecutive failed deliveries after which the pipeline gives up.
pub const FATAL_THRESHOLD: usize = 5;

/// Pause, in milliseconds, after a failed delivery.
pub const BACKOFF_MILLIS: u64 = 100;

/// Exit status of the process after `FATAL_THRESHOLD` consecutive failures.
pub const FATAL_EXIT_CODE: i32 = 1;

/// Events the channel holds before producers wait.
pub const CHANNEL_CAPACITY: usize = 1000000;

/// Milliseconds a flush request leaves the buffer loop to deliver.
pub const FLUSH_GRACE_MILLIS: u64 = 2000;

/// One log record: its severity and the bytes the formatter made of it.
#[derive(Debug, Clone, PartialEq, Eq)]
pub struct GelfRecord {
    pub level: GelfLevel,
    pub payload: Vec<u8>,
}

impl GelfRecord {
    pub fn new(level: GelfLevel, payload: Vec<u8>) -> (r: GelfRecord)
        ensures
            r.level == level,
            r.payload == payload,
    {
        GelfRecord { level, payload }
    }
}

/// What travels through the event channel.
#[derive(Debug, Clone)]
pub enum Event {
    /// Deliver the batch now.
    Send,
    /// Append one record to the batch.
    Data(GelfRecord),
}

/// What the loop that drives a `Buffer` does next.
#[derive(Debug, Clone, Copy, PartialEq, Eq, Structural)]
pub enum Step {
    /// Wait for the next event.
    Wait,
    /// Hand the batch to the output.
    Deliver,
    /// Pause for `BACKOFF_MILLIS`, then wait for the next event.
    Backoff,
    /// Report every recorded error and end the process.
    Fatal,
}

/// Periodic source of `Event::Send`; a period of zero means no timer runs.
#[derive(Debug, Clone, Copy)]
pub struct Metronome {
    frequency: u64,
}

impl Metronome {
    pub closed spec fn period(&self) -> u64 {
        self.frequency
    }

    pub fn new(frequency: u64) -> (r: Metronome)
        ensures
            r.period() == frequency,
    {
        Metronome { frequency }
    }

    /// Milliseconds between two flush signals.
    pub fn frequency(&self) -> (r: u64)
        ensures
            r == self.period(),
    {
        self.frequency
    }

    /// Whether a timer should run at all.
    pub fn is_enabled(&self) -> (r: bool)
        ensures
            r == (self.period() > 0),
    {
        self.frequency > 0
    }
}

/// The batch after one event, and whether that event asks for a delivery.
/// A positive `batch_size` delivers as soon as the batch holds that many records.
pub open spec fn after_event(items: Seq<GelfRecord>, batch_size: nat, ev: Event) -> (Seq<GelfRecord>, bool) {
    match ev {
        Event::Send => (items, true),
        Event::Data(rec) => {
            let next = items.push(rec);
            (next, batch_size > 0 && next.len() >= batch_size)
        },
    }
}

/// Batch, error log and next step after a delivery attempt.
pub open spec fn after_delivery(
    items: Seq<GelfRecord>,
    errors: Seq<Error>,
    outcome: core::result::Result<(), Error>,
) -> (Seq<GelfRecord>, Seq<Error>, Step) {
    match outcome {
        Ok(_) => (Seq::empty(), Seq::empty(), Step::Wait),
        Err(e) => (
            items,
            errors.push(e),
            if errors.len() + 1 >= FATAL_THRESHOLD { Step::Fatal } else { Step::Backoff },
        ),
    }
}

/// Accumulates records and decides when to deliver, retry or give up.
/// The loop that owns it feeds it events and delivery outcomes.
#[derive(Debug)]
pub struct Buffer {
    items: Vec<GelfRecord>,
    errors: Vec<Error>,
    batch_size: usize,
}

impl Buffer {
    /// Records kept since the last successful delivery, in arrival order.
    pub closed spec fn pending(&self) -> Seq<GelfRecord> {
        self.items@
    }

    /// Failures since the last successful delivery.
    pub closed spec fn failures(&self) -> Seq<Error> {
        self.errors@
    }

    /// Size that triggers a delivery by itself; zero for none.
    pub closed spec fn trigger_size(&self) -> nat {
        self.batch_size as nat
    }

    pub fn new(batch_size: usize) -> (r: Buffer)
        ensures
            r.pending() == Seq::<GelfRecord>::empty(),
            r.failures() == Seq::<Error>::empty(),
            r.trigger_size() == batch_size,
    {
        Buffer { items: Vec::new(), errors: Vec::new(), batch_size }
    }

    /// The batch to deliver.
    pub fn items(&self) -> (r: &Vec<GelfRecord>)
        ensures
            r@ == self.pending(),
    {
        &self.items
    }

    /// The recorded failures, oldest first.
    pub fn errors(&self) -> (r: &Vec<Error>)
        ensures
            r@ == self.failures(),
    {
        &self.errors
    }

    /// Takes one event from the channel.
    pub fn on_event(&mut self, ev: Event) -> (r: Step)
        ensures
            final(self).pending() == after_event(old(self).pending(), old(self).trigger_size(), ev).0,
            r == (if after_event(old(self).pending(), old(self).trigger_size(), ev).1 {
                Step::Deliver
            } else {
                Step::Wait
            }),
            r == Step::Wait || r == Step::Deliver,
            final(self).failures() == old(self).failures(),
            final(self).trigger_size() == old(self).trigger_size(),
    {
        match ev {
            Event::Send => Step::Deliver,
            Event::Data(rec) => {
                self.items.push(rec);
                if self.batch_size > 0 && self.items.len() >= self.batch_size {
                    Step::Deliver
                } else {
                    Step::Wait
                }
            },
        }
    }

    /// Takes the outcome of handing the batch to the output.
    pub fn on_delivery(&mut self, outcome: core::result::Result<(), Error>) -> (r: Step)
        ensures
            (final(self).pending(), final(self).failures(), r) == after_delivery(
                old(self).pending(),
                old(self).failures(),
                outcome,
            ),
            final(self).trigger_size() == old(self).trigger_size(),
    {
        match outcome {
            Ok(()) => {
                self.items.clear();
                self.errors.clear();
                Step::Wait
            },
            Err(e) => {
                self.errors.push(e);
                if self.errors.len() >= FATAL_THRESHOLD {
                    Step::Fatal
                } else {
                    Step::Backoff
                }
            },
        }
    }
}

/// Whether a record of severity `level` passes a threshold: it must be at
/// least as urgent.
pub open spec fn admits(threshold: GelfLevel, level: GelfLevel) -> bool {
    level.code() <= threshold.code()
}

/// The front end that log call sites reach: it turns a record or a flush
/// request into the event to put on the channel, if any.
pub trait Batch {
    spec fn accepts(&self, level: GelfLevel) -> bool;

    spec fn forwards_flush(&self) -> bool;

    fn send(&self, rec: GelfRecord) -> (r: Option<Event>)
        ensures
            r == (if self.accepts(rec.level) { Some(Event::Data(rec)) } else { None }),
    ;

    fn flush(&self) -> (r: Option<Event>)
        ensures
            r == (if self.forwards_flush() { Some(Event::Send) } else { None }),
    ;
}

/// The processor in place before the pipeline starts: it drops everything.
#[derive(Debug, Clone, Copy)]
pub struct NoProcessor;

impl Batch for NoProcessor {
    open spec fn accepts(&self, level: GelfLevel) -> bool {
        false
    }

    open spec fn forwards_flush(&self) -> bool {
        false
    }

    fn send(&self, rec: GelfRecord) -> (r: Option<Event>) {
        None
    }

    fn flush(&self) -> (r: Option<Event>) {
        None
    }
}

/// The processor of a running pipeline: it admits records by severity.
#[derive(Debug, Clone, Copy)]
pub struct BatchProcessor {
    level: GelfLevel,
}

impl BatchProcessor {
    pub closed spec fn threshold(&self) -> GelfLevel {
        self.level
    }

    pub fn new(level: GelfLevel) -> (r: BatchProcessor)
        ensures
            r.threshold() == level,
    {
        BatchProcessor { level }
    }

    pub fn level(&self) -> (r: GelfLevel)
        ensures
            r == self.threshold(),
    {
        self.level
    }

    /// Whether a record of severity `level` gets through.
    pub fn admits(&self, level: GelfLevel) -> (r: bool)
        ensures
            r == admits(self.threshold(), level),
    {
        level.code() <= self.level.code()
    }
}

impl Batch for BatchProcessor {
    open spec fn accepts(&self, level: GelfLevel) -> bool {
        admits(self.threshold(), level)
    }

    open spec fn forwards_flush(&self) -> bool {
        true
    }

    fn send(&self, rec: GelfRecord) -> (r: Option<Event>) {
        if self.admits(rec.level) {
            Some(Event::Data(rec))
        } else {
            None
        }
    }

    fn flush(&self) -> (r: Option<Event>) {
        Some(Event::Send)
    }
}

/// The events that carry `recs`, one each, in order.
pub open spec fn data_events(recs: Seq<GelfRecord>) -> Seq<Event> {
    recs.map_values(|r: GelfRecord| Event::Data(r))
}

/// Feeds `events` to a batch that holds `items`, with every delivery
/// succeeding: the batch left pending and the batches delivered, in order.
pub open spec fn run_events(items: Seq<GelfRecord>, batch_size: nat, events: Seq<Event>) -> (
    Seq<GelfRecord>,
    Seq<Seq<GelfRecord>>,
)
    decreases events.len(),
{
    if events.len() == 0 {
        (items, Seq::empty())
    } else {
        let (next, deliver) = after_event(items, batch_size, events[0]);
        if deliver {
            let (left, sent) = run_events(
                after_delivery(next, Seq::empty(), Ok(())).0,
                batch_size,
                events.drop_first(),
            );
            (left, seq![next].add(sent))
        } else {
            run_events(next, batch_size, events.drop_first())
        }
    }
}

/// Feeds a run of failed deliveries to a batch that holds `items` and has
/// recorded `errors`: the batch and error log after them, and the step
/// decided after each.
pub open spec fn run_failures(items: Seq<GelfRecord>, errors: Seq<Error>, fails: Seq<Error>) -> (
    Seq<GelfRecord>,
    Seq<Error>,
    Seq<Step>,
)
    decreases fails.len(),
{
    if fails.len() == 0 {
        (items, errors, Seq::empty())
    } else {
        let (i, e, step) = after_delivery(items, errors, Err(fails[0]));
        let (i2, e2, steps) = run_failures(i, e, fails.drop_first());
        (i2, e2, seq![step].add(steps))
    }
}

proof fn lemma_data_then_send(items: Seq<GelfRecord>, recs: Seq<GelfRecord>, batch_size: nat)
    requires
        batch_size == 0 || items.len() + recs.len() < batch_size,
    ensures
        run_events(items, batch_size, data_events(recs).push(Event::Send)) == (
            Seq::<GelfRecord>::empty(),
            seq![items.add(recs)],
        ),
    decreases recs.len(),
{
    let evs = data_events(recs).push(Event::Send);
    if recs.len() == 0 {
        assert(evs[0] == Event::Send);
        assert(evs.drop_first() =~= Seq::<Event>::empty());
        assert(run_events(Seq::empty(), batch_size, Seq::<Event>::empty()) == (
            Seq::<GelfRecord>::empty(),
            Seq::<Seq<GelfRecord>>::empty(),
        ));
        assert(items.add(recs) =~= items);
        assert(seq![items].add(Seq::<Seq<GelfRecord>>::empty()) =~= seq![items]);
    } else {
        let rest = recs.drop_first();
        assert(evs[0] == Event::Data(recs[0]));
        assert(evs.drop_first() =~= data_events(rest).push(Event::Send));
        lemma_data_then_send(items.push(recs[0]), rest, batch_size);
        assert(items.push(recs[0]).add(rest) =~= items.add(recs));
    }
}

/// Records enqueued with no delivery between them, then a flush, reach the
/// output as one batch holding exactly those records in enqueue order, and
/// leave the batch empty. A size trigger must not fire on the way: it is
/// off, or larger than the number of records.
pub proof fn lemma_flush_delivers_in_order(recs: Seq<GelfRecord>, batch_size: nat)
    requires
        batch_size == 0 || recs.len() < batch_size,
    ensures
        run_events(Seq::empty(), batch_size, data_events(recs).push(Event::Send)) == (
            Seq::<GelfRecord>::empty(),
            seq![recs],
        ),
{
    lemma_data_then_send(Seq::empty(), recs, batch_size);
    assert(Seq::<GelfRecord>::empty().add(recs) =~= recs);
}

/// Each failed delivery keeps the batch as it was, neither dropping nor
/// repeating a record, and appends its error to the log. The step after the
/// k-th consecutive failure, counted from an empty log, is the fatal one
/// exactly when k reaches `FATAL_THRESHOLD`; before that it is a backoff.
pub proof fn lemma_failures_keep_batch(items: Seq<GelfRecord>, fails: Seq<Error>)
    ensures
        run_failures(items, Seq::empty(), fails).0 == items,
        run_failures(items, Seq::empty(), fails).1 == fails,
        run_failures(items, Seq::empty(), fails).2.len() == fails.len(),
        forall|k: int|
            0 <= k < fails.len() ==> (run_failures(items, Seq::empty(), fails).2[k] == Step::Fatal)
                == (k + 1 >= FATAL_THRESHOLD),
        forall|k: int|
            0 <= k < fails.len() && k + 1 < FATAL_THRESHOLD ==> run_failures(
                items,
                Seq::empty(),
                fails,
            ).2[k] == Step::Backoff,
{
    lemma_failures_from(items, Seq::empty(), fails);
    assert(Seq::<Error>::empty().add(fails) =~= fails);
}

proof fn lemma_failures_from(items: Seq<GelfRecord>, errors: Seq<Error>, fails: Seq<Error>)
    ensures
        run_failures(items, errors, fails).0 == items,
        run_failures(items, errors, fails).1 == errors.add(fails),
        run_failures(items, errors, fails).2.len() == fails.len(),
        forall|k: int|
            0 <= k < fails.len() ==> run_failures(items, errors, fails).2[k] == (if errors.len() + k
                + 1 >= FATAL_THRESHOLD {
                Step::Fatal
            } else {
                Step::Backoff
            }),
    decreases fails.len(),
{
    if fails.len() == 0 {
        assert(errors.add(fails) =~= errors);
    } else {
        let rest = fails.drop_first();
        lemma_failures_from(items, errors.push(fails[0]), rest);
        assert(errors.push(fails[0]).add(rest) =~= errors.add(fails));
        let (i2, e2, steps) = run_failures(items, errors.push(fails[0]), rest);
        let all = run_failures(items, errors, fails).2;
        assert forall|k: int| 0 <= k < fails.len() implies all[k] == (if errors.len() + k + 1
            >= FATAL_THRESHOLD {
            Step::Fatal
        } else {
            Step::Backoff
        }) by {
            if k > 0 {
                assert(all[k] == steps[k - 1]);
            }
        }
    }
}

/// Fewer than `FATAL_THRESHOLD` consecutive failures followed by a success
/// never end the process, and the success empties the batch and the error log.
pub proof fn lemma_success_after_failures_resets(items: Seq<GelfRecord>, fails: Seq<Error>)
    requires
        fails.len() < FATAL_THRESHOLD,
    ensures
        forall|k: int|
            0 <= k < fails.len() ==> run_failures(items, Seq::empty(), fails).2[k] != Step::Fatal,
        after_delivery(
            run_failures(items, Seq::empty(), fails).0,
            run_failures(items, Seq::empty(), fails).1,
            Ok(()),
        ) == (Seq::<GelfRecord>::empty(), Seq::<Error>::empty(), Step::Wait),
{
    lemma_failures_keep_batch(items, fails);
}

/// Whether every record of `recs` passes threshold `t`.
pub open spec fn all_admitted(t: GelfLevel, recs: Seq<GelfRecord>) -> bool {
    forall|i: int| 0 <= i < recs.len() ==> admits(t, #[trigger] recs[i].level)
}

/// Whether every record that `events` carry passes threshold `t`; this holds
/// of whatever a `BatchProcessor` with that threshold emits.
pub open spec fn events_admitted(t: GelfLevel, events: Seq<Event>) -> bool {
    forall|i: int|
        0 <= i < events.len() ==> (#[trigger] events[i] matches Event::Data(r) ==> admits(t, r.level))
}

proof fn lemma_admitted_run(
    p: BatchProcessor,
    items: Seq<GelfRecord>,
    batch_size: nat,
    events: Seq<Event>,
)
    requires
        all_admitted(p.threshold(), items),
        events_admitted(p.threshold(), events),
    ensures
        all_admitted(p.threshold(), run_events(items, batch_size, events).0),
        forall|k: int|
            0 <= k < run_events(items, batch_size, events).1.len() ==> all_admitted(
                p.threshold(),
                #[trigger] run_events(items, batch_size, events).1[k],
            ),
    decreases events.len(),
{
    let t = p.threshold();
    if events.len() > 0 {
        let (next, deliver) = after_event(items, batch_size, events[0]);
        assert(events_admitted(t, events.drop_first())) by {
            assert forall|i: int| 0 <= i < events.drop_first().len() implies (
            #[trigger] events.drop_first()[i] matches Event::Data(r) ==> admits(t, r.level)) by {
                assert(events.drop_first()[i] == events[i + 1]);
            }
        }
        assert(all_admitted(t, next)) by {
            if let Event::Data(r) = events[0] {
                assert forall|i: int| 0 <= i < next.len() implies admits(t, #[trigger] next[i].level) by {
                    if i < items.len() {
                        assert(next[i] == items[i]);
                    }
                }
            }
        }
        if deliver {
            assert(all_admitted(t, Seq::<GelfRecord>::empty()));
            lemma_admitted_run(p, Seq::empty(), batch_size, events.drop_first());
            let (left, sent) = run_events(Seq::empty(), batch_size, events.drop_first());
            let all = run_events(items, batch_size, events).1;
            assert(all == seq![next].add(sent));
            assert forall|k: int| 0 <= k < all.len() implies all_admitted(t, #[trigger] all[k]) by {
                if k > 0 {
                    assert(all[k] == sent[k - 1]);
                }
            }
        } else {
            lemma_admitted_run(p, next, batch_size, events.drop_first());
        }
    }
}

/// The events a processor with threshold `t` puts on the channel for a run
/// of calls, in order: `Some(r)` stands for `send(r)`, `None` for `flush()`.
pub open spec fn emitted(t: GelfLevel, calls: Seq<Option<GelfRecord>>) -> Seq<Event>
    decreases calls.len(),
{
    if calls.len() == 0 {
        Seq::empty()
    } else {
        let head: Seq<Event> = match calls[0] {
            None => seq![Event::Send],
            Some(r) => if admits(t, r.level) {
                seq![Event::Data(r)]
            } else {
                Seq::empty()
            },
        };
        head.add(emitted(t, calls.drop_first()))
    }
}

proof fn lemma_emitted_admitted(t: GelfLevel, calls: Seq<Option<GelfRecord>>)
    ensures
        events_admitted(t, emitted(t, calls)),
    decreases calls.len(),
{
    if calls.len() > 0 {
        lemma_emitted_admitted(t, calls.drop_first());
        let rest = emitted(t, calls.drop_first());
        let all = emitted(t, calls);
        let head_len = all.len() - rest.len();
        assert forall|i: int| 0 <= i < all.len() implies (#[trigger] all[i] matches Event::Data(
            r,
        ) ==> admits(t, r.level)) by {
            if i >= head_len {
                assert(all[i] == rest[i - head_len]);
            }
        }
    }
}

/// A record less urgent than the processor's threshold never reaches the
/// channel: whatever run of `send` and `flush` calls feeds the buffer, with
/// every delivery succeeding, no delivered batch and no pending batch holds
/// such a record, and the processor's `send` returns no event for it.
pub proof fn lemma_filtered_never_delivered(
    p: BatchProcessor,
    calls: Seq<Option<GelfRecord>>,
    batch_size: nat,
)
    ensures
        forall|rec: GelfRecord| !admits(p.threshold(), rec.level) ==> !p.accepts(rec.level),
        all_admitted(p.threshold(), run_events(Seq::empty(), batch_size, emitted(p.threshold(), calls)).0),
        forall|k: int|
            0 <= k < run_events(Seq::empty(), batch_size, emitted(p.threshold(), calls)).1.len()
                ==> all_admitted(
                p.threshold(),
                #[trigger] run_events(Seq::empty(), batch_size, emitted(p.threshold(), calls)).1[k],
            ),
{
    lemma_emitted_admitted(p.threshold(), calls);
    lemma_admitted_run(p, Seq::empty(), batch_size, emitted(p.threshold(), calls));
}

/// A failed delivery keeps the batch as it was. Records that arrive before
/// the next flush are appended after it, so the next attempt delivers the
/// kept records, unchanged and each once, followed by the new ones in
/// arrival order. A size trigger must not fire on the way.
pub proof fn lemma_retry_delivers_kept_batch(
    items: Seq<GelfRecord>,
    errors: Seq<Error>,
    e: Error,
    recs: Seq<GelfRecord>,
    batch_size: nat,
)
    requires
        batch_size == 0 || items.len() + recs.len() < batch_size,
    ensures
        after_delivery(items, errors, Err(e)).0 == items,
        run_events(
            after_delivery(items, errors, Err(e)).0,
            batch_size,
            data_events(recs).push(Event::Send),
        ).1 == seq![items.add(recs)],
{
    lemma_data_then_send(items, recs, batch_size);
}

/// Whether `events` carry `rec` in some data event.
pub open spec fn carried(events: Seq<Event>, rec: GelfRecord) -> bool {
    exists|i: int| 0 <= i < events.len() && #[trigger] events[i] == Event::Data(rec)
}

/// Every record in a batch that the buffer delivers, or still holds, was
/// either in it at the start or carried by one of the events it was fed:
/// the buffer adds no record of its own.
pub proof fn lemma_delivered_were_received(items: Seq<GelfRecord>, batch_size: nat, events: Seq<Event>)
    ensures
        forall|j: int|
            0 <= j < run_events(items, batch_size, events).0.len() ==> items.contains(
                #[trigger] run_events(items, batch_size, events).0[j],
            ) || carried(events, run_events(items, batch_size, events).0[j]),
        forall|k: int, j: int|
            0 <= k < run_events(items, batch_size, events).1.len() && 0 <= j
                < run_events(items, batch_size, events).1[k].len() ==> items.contains(
                #[trigger] run_events(items, batch_size, events).1[k][j],
            ) || carried(events, run_events(items, batch_size, events).1[k][j]),
    decreases events.len(),
{
    if events.len() > 0 {
        let rest = events.drop_first();
        let (next, deliver) = after_event(items, batch_size, events[0]);
        assert forall|r: GelfRecord| carried(rest, r) implies carried(events, r) by {
            let i = choose|i: int| 0 <= i < rest.len() && #[trigger] rest[i] == Event::Data(r);
            assert(events[i + 1] == Event::Data(r));
        }
        assert forall|r: GelfRecord| next.contains(r) implies items.contains(r) || carried(
            events,
            r,
        ) by {
            let i = choose|i: int| 0 <= i < next.len() && next[i] == r;
            if i < items.len() {
                assert(items[i] == r);
            } else {
                assert(events[0] == Event::Data(r));
            }
        }
        if deliver {
            lemma_delivered_were_received(Seq::empty(), batch_size, rest);
            let (left, sent) = run_events(Seq::empty(), batch_size, rest);
            let all = run_events(items, batch_size, events).1;
            assert(all == seq![next].add(sent));
            assert forall|k: int, j: int| 0 <= k < all.len() && 0 <= j < all[k].len() implies items.contains(
                #[trigger] all[k][j],
            ) || carried(events, all[k][j]) by {
                if k == 0 {
                    assert(next.contains(all[k][j]));
                } else {
                    assert(all[k] == sent[k - 1]);
                    assert(!Seq::<GelfRecord>::empty().contains(sent[k - 1][j]));
                }
            }
            assert forall|j: int| 0 <= j < left.len() implies items.contains(#[trigger] left[j])
                || carried(events, left[j]) by {
                assert(!Seq::<GelfRecord>::empty().contains(left[j]));
            }
        } else {
            lemma_delivered_were_received(next, batch_size, rest);
            let (left, sent) = run_events(next, batch_size, rest);
            assert forall|j: int| 0 <= j < left.len() implies items.contains(#[trigger] left[j])
                || carried(events, left[j]) by {
                assert(next.contains(left[j]) || carried(rest, left[j]));
            }
            assert forall|k: int, j: int| 0 <= k < sent.len() && 0 <= j < sent[k].len() implies items.contains(
                #[trigger] sent[k][j],
            ) || carried(events, sent[k][j]) by {
                assert(next.contains(sent[k][j]) || carried(rest, sent[k][j]));
            }
        }
    }
}

} // verus!
