use vstd::prelude::*;
use vstd::string::{StringExecFns, StringSliceAdditionalSpecFns};
use vstd::utf8::encode_utf8;

use crate::builder::Builder;
use crate::level::GelfLevel;
use crate::output::{frame_bytes, frame_of};

verus! {

#[verifier::external_type_specification]
#[verifier::external_body]
#[verifier::reject_recursive_types(K)]
#[verifier::reject_recursive_types(V)]
pub struct ExJsonMap<K, V>(serde_json::Map<K, V>);

#[verifier::external_type_specification]
#[verifier::external_body]
pub struct ExJsonValue(serde_json::Value);

/// The entries of a JSON object, by key.
pub uninterp spec fn json_entries(m: serde_json::Map<String, serde_json::Value>) -> Map<Seq<char>, serde_json::Value>;

/// The JSON string value holding `s`.
pub uninterp spec fn json_string(s: Seq<char>) -> serde_json::Value;

/// The JSON number value of `n`.
pub uninterp spec fn json_number(n: i64) -> serde_json::Value;

/// The JSON text of an object with these entries.
pub uninterp spec fn json_text_of(entries: Map<Seq<char>, serde_json::Value>) -> Seq<char>;

/// An object with no entries.
pub open spec fn no_entries() -> Map<Seq<char>, serde_json::Value> {
    Map::empty()
}

/// Relies on serde_json's `Default` for `Map`, which makes a new object: it has no entries.
pub assume_specification[ <serde_json::Map<String, serde_json::Value> as core::default::Default>::default ]() -> (r:
    serde_json::Map<String, serde_json::Value>)
    ensures
        json_entries(r) == no_entries(),
;

/// Relies on serde_json::Map::insert: afterwards `k` holds `v`, and the
/// other entries are kept.
pub assume_specification[ serde_json::Map::<String, serde_json::Value>::insert ](
    m: &mut serde_json::Map<String, serde_json::Value>,
    k: String,
    v: serde_json::Value,
) -> (r: Option<serde_json::Value>)
    ensures
        json_entries(*final(m)) == json_entries(*old(m)).insert(k@, v),
;

/// Relies on serde_json's `From<String>` for `Value`: a JSON string.
#[verifier::external_body]
fn json_str(s: String) -> (r: serde_json::Value)
    ensures
        r == json_string(s@),
{
    serde_json::Value::from(s)
}

/// Relies on serde_json's `From<i64>` for `Value`: a JSON number.
#[verifier::external_body]
fn json_int(n: i64) -> (r: serde_json::Value)
    ensures
        r == json_number(n),
{
    serde_json::Value::from(n)
}

/// Relies on serde_json's `Extend` for `Map`, which inserts every entry of
/// `more` in turn: its entries replace those of the same key.
#[verifier::external_body]
fn merge_fields(
    map: &mut serde_json::Map<String, serde_json::Value>,
    more: &serde_json::Map<String, serde_json::Value>,
)
    ensures
        json_entries(*final(map)) == json_entries(*old(map)).union_prefer_right(json_entries(*more)),
{
    map.extend(more.clone())
}

/// Relies on serde_json::to_string: the JSON text of an object. With string
/// keys and `Value`s, serialisation has no way to fail; the object is kept
/// sorted by key, so the text depends on the entries alone.
#[verifier::external_body]
fn json_text(map: &serde_json::Map<String, serde_json::Value>) -> (r: Result<String, String>)
    ensures
        r is Ok,
        r matches Ok(t) ==> t@ == json_text_of(json_entries(*map)),
{
    serde_json::to_string(map).map_err(|e| e.to_string())
}

/// Relies on chrono's `From<SystemTime>` for `DateTime<Utc>`: the current
/// time, in whole seconds since the Unix epoch, negative before it. Nothing
/// is known of which time comes back.
#[verifier::external_body]
fn current_timestamp() -> i64 {
    chrono::DateTime::<chrono::Utc>::from(std::time::SystemTime::now()).timestamp()
}

/// The entries a GELF line carries for one record, before the additional fields.
pub open spec fn gelf_entries(host: Seq<char>, rec: RecordFields) -> Map<Seq<char>, serde_json::Value> {
    Map::empty().insert("facility"@, json_string(rec.facility@)).insert(
        "file"@,
        json_string(rec.file@),
    ).insert("host"@, json_string(host)).insert(
        "level"@,
        json_number(rec.level.code() as i64),
    ).insert("line"@, json_number(rec.line as i64)).insert(
        "short_message"@,
        json_string(rec.message@),
    ).insert("timestamp"@, json_number(rec.timestamp)).insert("version"@, json_string("1.1"@))
}

/// What the encoder reads from a log record, as plain values.
pub struct RecordFields {
    /// Module path of the call site, empty when unknown.
    pub facility: String,
    /// Source file of the call site, empty when unknown.
    pub file: String,
    pub level: GelfLevel,
    /// Source line of the call site, zero when unknown.
    pub line: u32,
    /// The formatted message.
    pub message: String,
    /// Seconds since the Unix epoch.
    pub timestamp: i64,
}

/// Relies on hostname::get: the name of this machine, when it has one that
/// is valid Unicode. Nothing is known of which name comes back.
#[verifier::external_body]
fn local_hostname() -> Option<String> {
    match hostname::get() {
        Ok(h) => h.into_string().ok(),
        Err(_) => None,
    }
}

/// The host name written into records: the one found, or `localhost`.
pub fn host_or_default(found: Option<String>) -> (r: String)
    ensures
        r@ == (match found {
            Some(h) => h@,
            None => "localhost"@,
        }),
{
    match found {
        Some(h) => h,
        None => "localhost".to_owned(),
    }
}

/// The key under which an additional field named `name` is written.
pub open spec fn field_key(name: Seq<char>) -> Seq<char> {
    seq!['_'] + name
}

/// Turns one log record into a GELF line: the record's own fields are laid
/// out by the caller, this adds the host name and the additional fields and
/// terminates the line.
#[derive(Debug)]
pub struct GelfEncoder {
    additionnal_fields: serde_json::Map<String, serde_json::Value>,
    hostname: String,
    null_character: bool,
}

impl GelfEncoder {
    pub closed spec fn null_spec(&self) -> bool {
        self.null_character
    }

    pub closed spec fn fields_spec(&self) -> serde_json::Map<String, serde_json::Value> {
        self.additionnal_fields
    }

    pub closed spec fn host_spec(&self) -> Seq<char> {
        self.hostname@
    }

    /// An encoder for this machine's host name.
    pub fn new(
        null_character: bool,
        additionnal_fields: serde_json::Map<String, serde_json::Value>,
    ) -> (r: GelfEncoder)
        ensures
            r.null_spec() == null_character,
            r.fields_spec() == additionnal_fields,
    {
        GelfEncoder::with_hostname(null_character, additionnal_fields, local_hostname())
    }

    /// An encoder for the host name `found`, or `localhost` when there is none.
    pub fn with_hostname(
        null_character: bool,
        additionnal_fields: serde_json::Map<String, serde_json::Value>,
        found: Option<String>,
    ) -> (r: GelfEncoder)
        ensures
            r.null_spec() == null_character,
            r.fields_spec() == additionnal_fields,
            r.host_spec() == (match found {
                Some(h) => h@,
                None => "localhost"@,
            }),
    {
        GelfEncoder { additionnal_fields, hostname: host_or_default(found), null_character }
    }

    /// The entries of the GELF object for `rec`: the record's own, then the
    /// additional fields, which win on a shared key.
    pub open spec fn object_entries(&self, rec: RecordFields) -> Map<Seq<char>, serde_json::Value> {
        gelf_entries(self.host_spec(), rec).union_prefer_right(json_entries(self.fields_spec()))
    }

    /// The line written for `rec`.
    pub open spec fn line_of(&self, rec: RecordFields) -> Seq<u8> {
        frame_of(encode_utf8(json_text_of(self.object_entries(rec))), self.null_spec())
    }

    pub fn builder() -> (r: GelfEncoderBuilder)
        ensures
            !r.null_spec(),
            json_entries(r.fields_spec()) == no_entries(),
    {
        GelfEncoderBuilder { null_character: false, additionnal_fields: serde_json::Map::default() }
    }

    pub fn null_character(self) -> (r: bool)
        ensures
            r == self.null_spec(),
    {
        self.null_character
    }

    pub fn hostname(&self) -> (r: &String)
        ensures
            r@ == self.host_spec(),
    {
        &self.hostname
    }

    pub fn additional_fields(&self) -> (r: &serde_json::Map<String, serde_json::Value>)
        ensures
            *r == self.fields_spec(),
    {
        &self.additionnal_fields
    }

    /// The GELF object for one record: its own fields, the host name, the
    /// format version, then the additional fields, which win on a shared key.
    pub fn object(&self, rec: RecordFields) -> (r: serde_json::Map<String, serde_json::Value>)
        ensures
            json_entries(r) == self.object_entries(rec),
    {
        let ghost rv = rec;
        let mut map = serde_json::Map::default();
        map.insert("facility".to_owned(), json_str(rec.facility));
        map.insert("file".to_owned(), json_str(rec.file));
        map.insert("host".to_owned(), json_str(self.hostname.clone()));
        map.insert("level".to_owned(), json_int(rec.level.code() as i64));
        map.insert("line".to_owned(), json_int(rec.line as i64));
        map.insert("short_message".to_owned(), json_str(rec.message));
        map.insert("timestamp".to_owned(), json_int(rec.timestamp));
        map.insert("version".to_owned(), json_str("1.1".to_owned()));
        assert(json_entries(map) == gelf_entries(self.host_spec(), rv));
        merge_fields(&mut map, &self.additionnal_fields);
        map
    }

    /// The line for a serialised record, or the serialiser's failure.
    pub fn frame_text(&self, text: Result<String, String>) -> (r: Result<Vec<u8>, crate::error::Error>)
        ensures
            text is Ok <==> r is Ok,
            text matches Ok(t) ==> r matches Ok(b) && b@ == frame_of(
                encode_utf8(t@),
                self.null_spec(),
            ),
            text matches Err(m) ==> r == Err::<Vec<u8>, crate::error::Error>(
                crate::error::Error::Parsing(m),
            ),
    {
        match text {
            Ok(t) => Ok(self.frame(t.as_str())),
            Err(e) => Err(crate::error::Error::Parsing(e)),
        }
    }

    /// Encodes one record into the line to write: its GELF object as JSON
    /// text, followed by a NUL byte when the encoder adds one.
    pub fn encode(&self, rec: RecordFields) -> (r: Result<Vec<u8>, crate::error::Error>)
        ensures
            r matches Ok(b) && b@ == self.line_of(rec),
    {
        let map = self.object(rec);
        self.frame_text(json_text(&map))
    }

    /// Encodes a record that happens now.
    pub fn encode_now(
        &self,
        facility: String,
        file: String,
        level: GelfLevel,
        line: u32,
        message: String,
    ) -> (r: Result<Vec<u8>, crate::error::Error>)
        ensures
            r is Ok,
            r matches Ok(b) ==> exists|timestamp: i64|
                b@ == self.line_of(
                    (RecordFields { facility, file, level, line, message, timestamp }),
                ),
    {
        let timestamp = current_timestamp();
        self.encode(RecordFields { facility, file, level, line, message, timestamp })
    }

    /// The bytes written for one serialised record.
    pub fn frame(&self, json: &str) -> (r: Vec<u8>)
        ensures
            r@ == frame_of(json.spec_bytes(), self.null_spec()),
    {
        frame_bytes(json.as_bytes(), self.null_character)
    }
}

/// Settings of a `GelfEncoder`.
pub struct GelfEncoderBuilder {
    null_character: bool,
    additionnal_fields: serde_json::Map<String, serde_json::Value>,
}

impl GelfEncoderBuilder {
    pub closed spec fn null_spec(&self) -> bool {
        self.null_character
    }

    pub closed spec fn fields_spec(&self) -> serde_json::Map<String, serde_json::Value> {
        self.additionnal_fields
    }

    /// Whether a NUL byte ends each line.
    pub fn null_character(self, null_character: bool) -> (r: GelfEncoderBuilder)
        ensures
            r.null_spec() == null_character,
            r.fields_spec() == self.fields_spec(),
    {
        GelfEncoderBuilder { null_character, ..self }
    }

    /// Adds a field written on every line, under `name` with a leading underscore.
    pub fn add_field(self, name: &str, value: serde_json::Value) -> (r: GelfEncoderBuilder)
        ensures
            r.null_spec() == self.null_spec(),
            json_entries(r.fields_spec()) == json_entries(self.fields_spec()).insert(
                field_key(name@),
                value,
            ),
    {
        let mut b = self;
        let key = String::from_str("_").concat(name);
        proof {
            reveal_strlit("_");
            assert(key@ =~= field_key(name@));
        }
        b.additionnal_fields.insert(key, value);
        b
    }
}

impl GelfEncoderBuilder {
    /// The encoder with these settings, for this machine's host name.
    pub fn build(self) -> (r: GelfEncoder)
        ensures
            r.null_spec() == self.null_spec(),
            r.fields_spec() == self.fields_spec(),
    {
        GelfEncoder::new(self.null_character, self.additionnal_fields)
    }
}

impl Builder for GelfEncoderBuilder {
    type TargetItem = GelfEncoder;

    fn new() -> GelfEncoderBuilder {
        GelfEncoder::builder()
    }

    fn build(self) -> Result<GelfEncoder, crate::error::Error> {
        Ok(GelfEncoderBuilder::build(self))
    }
}

} // verus!
