use vstd::prelude::*;

use crate::batch::{BatchProcessor, Buffer, Metronome};
use crate::level::GelfLevel;
use crate::output::GelfTcpOutput;

verus! {

#[verifier::external_type_specification]
#[verifier::external_body]
pub struct ExValue(serde_value::Value);

/// Records per batch when no size is set.
pub const DEFAULT_BUFFER_SIZE: usize = 100;

/// Milliseconds between periodic flushes when no duration is set.
pub const DEFAULT_BUFFER_DURATION: u64 = 500;

/// Port of the collector unless set.
pub const DEFAULT_PORT: u64 = 12202;

/// Name and version put on every record unless overridden.
pub const PKG_NAME: &'static str = "log4rs_gelf";

pub const PKG_VERSION: &'static str = "0.1.0";

/// The field value that holds the string `s`.
pub uninterp spec fn value_string(s: Seq<char>) -> serde_value::Value;

/// Relies on the `serde_value::Value::String` variant: wraps a string as a field value.
#[verifier::external_body]
fn string_value(s: String) -> (r: serde_value::Value)
    ensures
        r == value_string(s@),
{
    serde_value::Value::String(s)
}

/// The settings of a new builder.
pub open spec fn default_view() -> BuilderView {
    BuilderView {
        level: GelfLevel::Alert,
        hostname: "127.0.0.1"@,
        port: DEFAULT_PORT,
        use_tls: true,
        null_character: true,
        buffer_size: Some(DEFAULT_BUFFER_SIZE),
        buffer_duration: Some(DEFAULT_BUFFER_DURATION),
        fields: seq![
            ("pkg_name"@, value_string("log4rs_gelf"@)),
            ("pkg_version"@, value_string("0.1.0"@)),
        ],
    }
}

/// Handle on an installed GELF pipeline, which log call sites write to.
#[derive(Debug, Clone, Copy)]
pub struct BufferAppender;

/// The settings of a builder, as values.
pub struct BuilderView {
    pub level: GelfLevel,
    pub hostname: Seq<char>,
    pub port: u64,
    pub use_tls: bool,
    pub null_character: bool,
    pub buffer_size: Option<usize>,
    pub buffer_duration: Option<u64>,
    pub fields: Seq<(Seq<char>, serde_value::Value)>,
}

/// A field as values: its key's characters and its value.
pub open spec fn field_view(f: (String, serde_value::Value)) -> (Seq<char>, serde_value::Value) {
    (f.0@, f.1)
}

/// Whether no key occurs twice among `fields`.
pub open spec fn keys_unique(fields: Seq<(Seq<char>, serde_value::Value)>) -> bool {
    forall|i: int, j: int|
        0 <= i < fields.len() && 0 <= j < fields.len() && i != j ==> fields[i].0 != fields[j].0
}

/// `fields` after setting `key` to `value`: the entry with that key is
/// replaced in place, or a new one is appended.
pub open spec fn put_field(
    fields: Seq<(Seq<char>, serde_value::Value)>,
    key: Seq<char>,
    value: serde_value::Value,
) -> Seq<(Seq<char>, serde_value::Value)> {
    if exists|i: int| 0 <= i < fields.len() && fields[i].0 == key {
        let i = choose|i: int| 0 <= i < fields.len() && fields[i].0 == key;
        fields.update(i, (key, value))
    } else {
        fields.push((key, value))
    }
}

/// `fields` after setting each of `more`, in order.
pub open spec fn put_fields(
    fields: Seq<(Seq<char>, serde_value::Value)>,
    more: Seq<(Seq<char>, serde_value::Value)>,
) -> Seq<(Seq<char>, serde_value::Value)>
    decreases more.len(),
{
    if more.len() == 0 {
        fields
    } else {
        put_fields(put_field(fields, more[0].0, more[0].1), more.drop_first())
    }
}

/// The components of a pipeline, configured and not yet started.
pub struct Pipeline {
    pub processor: BatchProcessor,
    pub metronome: Metronome,
    pub buffer: Buffer,
    pub output: GelfTcpOutput,
    pub additional_fields: Vec<(String, serde_value::Value)>,
}

/// Settings of a GELF pipeline, set one by one.
#[derive(Debug)]
pub struct BufferAppenderBuilder {
    level: GelfLevel,
    hostname: String,
    port: u64,
    use_tls: bool,
    null_character: bool,
    buffer_size: Option<usize>,
    buffer_duration: Option<u64>,
    additional_fields: Vec<(String, serde_value::Value)>,
}

impl View for BufferAppenderBuilder {
    type V = BuilderView;

    closed spec fn view(&self) -> BuilderView {
        BuilderView {
            level: self.level,
            hostname: self.hostname@,
            port: self.port,
            use_tls: self.use_tls,
            null_character: self.null_character,
            buffer_size: self.buffer_size,
            buffer_duration: self.buffer_duration,
            fields: self.additional_fields@.map_values(|f: (String, serde_value::Value)| field_view(f)),
        }
    }
}

impl BufferAppenderBuilder {
    /// No two additional fields share a key.
    pub open spec fn wf(&self) -> bool {
        keys_unique(self@.fields)
    }

    /// Sets `key` to `value` among the additional fields.
    fn put_owned(&mut self, key: String, value: serde_value::Value)
        requires
            old(self).wf(),
        ensures
            final(self).wf(),
            final(self)@ == (BuilderView {
                fields: put_field(old(self)@.fields, key@, value),
                ..old(self)@
            }),
    {
        let ghost fields0 = self@.fields;
        let ghost kv = key@;
        let n = self.additional_fields.len();
        let mut i: usize = 0;
        while i < n
            invariant
                n == self.additional_fields@.len(),
                i <= n,
                self@ == old(self)@,
                fields0 == self@.fields,
                keys_unique(fields0),
                kv == key@,
                forall|j: int| 0 <= j < i ==> #[trigger] fields0[j].0 != kv,
            decreases n - i,
        {
            if self.additional_fields[i].0 == key {
                assert(fields0[i as int].0 == kv);
                let ghost c = choose|c: int| 0 <= c < fields0.len() && fields0[c].0 == kv;
                assert(c == i as int);
                self.additional_fields.set(i, (key, value));
                assert(self@.fields =~= fields0.update(i as int, (kv, value)));
                return;
            }
            i += 1;
        }
        assert(!exists|c: int| 0 <= c < fields0.len() && fields0[c].0 == kv);
        self.additional_fields.push((key, value));
        assert(self@.fields =~= fields0.push((kv, value)));
    }

    /// Sets the threshold: records less severe than `level` are ignored.
    pub fn set_level(self, level: GelfLevel) -> (r: BufferAppenderBuilder)
        ensures
            r@ == (BuilderView { level, ..self@ }),
    {
        BufferAppenderBuilder { level, ..self }
    }

    /// Sets the host name of the collector.
    pub fn set_hostname(self, hostname: &str) -> (r: BufferAppenderBuilder)
        ensures
            r@ == (BuilderView { hostname: hostname@, ..self@ }),
    {
        BufferAppenderBuilder { hostname: hostname.to_owned(), ..self }
    }

    /// Sets the port of the collector.
    pub fn set_port(self, port: u64) -> (r: BufferAppenderBuilder)
        ensures
            r@ == (BuilderView { port, ..self@ }),
    {
        BufferAppenderBuilder { port, ..self }
    }

    /// Turns transport encryption on or off.
    pub fn set_use_tls(self, use_tls: bool) -> (r: BufferAppenderBuilder)
        ensures
            r@ == (BuilderView { use_tls, ..self@ }),
    {
        BufferAppenderBuilder { use_tls, ..self }
    }

    /// Whether a NUL byte follows each record on the wire.
    pub fn set_null_character(self, null_character: bool) -> (r: BufferAppenderBuilder)
        ensures
            r@ == (BuilderView { null_character, ..self@ }),
    {
        BufferAppenderBuilder { null_character, ..self }
    }

    /// Sets how many records make the batch go out by themselves.
    pub fn set_buffer_size(self, buffer_size: Option<usize>) -> (r: BufferAppenderBuilder)
        ensures
            r@ == (BuilderView { buffer_size, ..self@ }),
    {
        BufferAppenderBuilder { buffer_size, ..self }
    }

    /// Sets the period, in milliseconds, of the timer that flushes the batch.
    pub fn set_buffer_duration(self, buffer_duration: Option<u64>) -> (r: BufferAppenderBuilder)
        ensures
            r@ == (BuilderView { buffer_duration, ..self@ }),
    {
        BufferAppenderBuilder { buffer_duration, ..self }
    }

    /// Adds a field put on every record, replacing one of the same key.
    pub fn put_additional_field(self, key: &str, value: serde_value::Value) -> (r:
        BufferAppenderBuilder)
        requires
            self.wf(),
        ensures
            r.wf(),
            r@ == (BuilderView { fields: put_field(self@.fields, key@, value), ..self@ }),
    {
        let mut b = self;
        b.put_owned(key.to_owned(), value);
        b
    }

    /// Adds several fields, in order, each replacing one of the same key.
    pub fn extend_additional_field(
        self,
        additional_fields: Vec<(String, serde_value::Value)>,
    ) -> (r: BufferAppenderBuilder)
        requires
            self.wf(),
        ensures
            r.wf(),
            r@ == (BuilderView {
                fields: put_fields(
                    self@.fields,
                    additional_fields@.map_values(|f: (String, serde_value::Value)| field_view(f)),
                ),
                ..self@
            }),
    {
        let mut b = self;
        let ghost start = b@;
        let ghost target = put_fields(
            start.fields,
            additional_fields@.map_values(|f: (String, serde_value::Value)| field_view(f)),
        );
        let mut more = additional_fields;
        while more.len() > 0
            invariant
                b.wf(),
                b@ == (BuilderView { fields: b@.fields, ..start }),
                put_fields(
                    b@.fields,
                    more@.map_values(|f: (String, serde_value::Value)| field_view(f)),
                ) == target,
            decreases more@.len(),
        {
            let ghost mv = more@.map_values(|f: (String, serde_value::Value)| field_view(f));
            let (k, v) = more.remove(0);
            assert(more@.map_values(|f: (String, serde_value::Value)| field_view(f))
                =~= mv.drop_first());
            b.put_owned(k, v);
        }
        assert(more@.map_values(|f: (String, serde_value::Value)| field_view(f))
            =~= Seq::<(Seq<char>, serde_value::Value)>::empty());
        b
    }

    /// The configured pipeline. An unset batch size turns the size trigger
    /// off, and an unset period turns the periodic flush off, as zero does.
    pub fn build(self) -> (r: Pipeline)
        ensures
            r.processor.threshold() == self@.level,
            r.metronome.period() == (match self@.buffer_duration {
                Some(d) => d,
                None => 0,
            }),
            r.buffer.pending() == Seq::<crate::batch::GelfRecord>::empty(),
            r.buffer.failures() == Seq::<crate::result::Error>::empty(),
            r.buffer.trigger_size() == (match self@.buffer_size {
                Some(s) => s,
                None => 0,
            }),
            r.output.host_spec() == self@.hostname,
            r.output.port_spec() == self@.port,
            r.output.tls_spec() == self@.use_tls,
            r.output.null_spec() == self@.null_character,
            r.additional_fields@.map_values(|f: (String, serde_value::Value)| field_view(f))
                == self@.fields,
    {
        let size = match self.buffer_size {
            Some(s) => s,
            None => 0,
        };
        let duration = match self.buffer_duration {
            Some(d) => d,
            None => 0,
        };
        Pipeline {
            processor: BatchProcessor::new(self.level),
            metronome: Metronome::new(duration),
            buffer: Buffer::new(size),
            output: GelfTcpOutput::new(self.hostname, self.port, self.use_tls, self.null_character),
            additional_fields: self.additional_fields,
        }
    }
}

impl Default for BufferAppenderBuilder {
    fn default() -> (r: BufferAppenderBuilder)
        ensures
            r.wf(),
            r@ == default_view(),
    {
        let mut fields: Vec<(String, serde_value::Value)> = Vec::new();
        fields.push(("pkg_name".to_owned(), string_value(PKG_NAME.to_owned())));
        fields.push(("pkg_version".to_owned(), string_value(PKG_VERSION.to_owned())));
        let r = BufferAppenderBuilder {
            level: GelfLevel::Alert,
            hostname: "127.0.0.1".to_owned(),
            port: DEFAULT_PORT,
            use_tls: true,
            null_character: true,
            buffer_size: Some(DEFAULT_BUFFER_SIZE),
            buffer_duration: Some(DEFAULT_BUFFER_DURATION),
            additional_fields: fields,
        };
        proof {
            reveal_strlit("pkg_name");
            reveal_strlit("pkg_version");
        }
        assert(r@.fields[0].0 == "pkg_name"@);
        assert(r@.fields[1].0 == "pkg_version"@);
        assert("pkg_name"@.len() != "pkg_version"@.len());
        assert(r@.fields =~= default_view().fields);
        r
    }
}

impl BufferAppender {
    /// A builder holding the default settings.
    pub fn builder() -> (r: BufferAppenderBuilder)
        ensures
            r.wf(),
            r@ == default_view(),
    {
        BufferAppenderBuilder::default()
    }

    /// A builder for a Logs Data Platform collector: the default settings,
    /// with `hostname` as collector, `Informational` as threshold, and the
    /// stream's `token` as the `X-OVH-TOKEN` field.
    pub fn builder_ldp(hostname: &str, token: &str) -> (r: BufferAppenderBuilder)
        ensures
            r.wf(),
            r@ == (BuilderView {
                hostname: hostname@,
                level: GelfLevel::Informational,
                fields: put_field(
                    default_view().fields,
                    "X-OVH-TOKEN"@,
                    value_string(token@),
                ),
                ..default_view()
            }),
    {
        BufferAppender::builder().set_hostname(hostname).set_level(GelfLevel::Informational).put_additional_field(
            "X-OVH-TOKEN",
            string_value(token.to_owned()),
        )
    }
}

} // verus!
