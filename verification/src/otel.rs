//! The OpenTelemetry writer: severities, its configuration, the OTLP/HTTP
//! JSON payload of a batch of log records, and when a batch is exported.

use vstd::prelude::*;

use crate::def::{CRITICAL, DEBUG, ERROR, EXCEPTION, INFO, NOTSET, SUCCESS, TRACE, WARNING};
use crate::filter::{filter_valid, passes_filters, passes_filters_spec};
use crate::file::{duration_from_secs, seconds};
use crate::text::{dec, push_decimal, push_str};

verus! {

/// Number of log records collected before they are exported.
pub const DEFAULT_OTEL_BATCH_SIZE: usize = 100;

/// The OpenTelemetry severity number of a level.
pub open spec fn severity_number_spec(level: u8) -> i32 {
    if level == TRACE {
        1
    } else if level == DEBUG {
        5
    } else if level == INFO {
        9
    } else if level == SUCCESS {
        10
    } else if level == WARNING {
        13
    } else if level == ERROR {
        17
    } else if level == CRITICAL {
        21
    } else if level == EXCEPTION {
        24
    } else {
        9
    }
}

/// The OpenTelemetry severity text of a level.
pub open spec fn severity_text_spec(level: u8) -> Seq<char> {
    if level == TRACE {
        "TRACE"@
    } else if level == DEBUG {
        "DEBUG"@
    } else if level == INFO {
        "INFO"@
    } else if level == SUCCESS {
        "INFO2"@
    } else if level == WARNING {
        "WARN"@
    } else if level == ERROR {
        "ERROR"@
    } else if level == CRITICAL {
        "FATAL"@
    } else if level == EXCEPTION {
        "FATAL4"@
    } else {
        "INFO"@
    }
}

/// Maps a level to the OpenTelemetry severity number.
pub fn level2severity_number(level: u8) -> (r: i32)
    ensures
        r == severity_number_spec(level),
{
    if level == TRACE {
        1
    } else if level == DEBUG {
        5
    } else if level == INFO {
        9
    } else if level == SUCCESS {
        10
    } else if level == WARNING {
        13
    } else if level == ERROR {
        17
    } else if level == CRITICAL {
        21
    } else if level == EXCEPTION {
        24
    } else {
        9
    }
}

/// Maps a level to the OpenTelemetry severity text.
pub fn level2severity_text(level: u8) -> (r: &'static str)
    ensures
        r@ == severity_text_spec(level),
{
    proof {
        reveal_strlit("TRACE");
        reveal_strlit("DEBUG");
        reveal_strlit("INFO");
        reveal_strlit("INFO2");
        reveal_strlit("WARN");
        reveal_strlit("ERROR");
        reveal_strlit("FATAL");
        reveal_strlit("FATAL4");
    }
    if level == TRACE {
        "TRACE"
    } else if level == DEBUG {
        "DEBUG"
    } else if level == INFO {
        "INFO"
    } else if level == SUCCESS {
        "INFO2"
    } else if level == WARNING {
        "WARN"
    } else if level == ERROR {
        "ERROR"
    } else if level == CRITICAL {
        "FATAL"
    } else if level == EXCEPTION {
        "FATAL4"
    } else {
        "INFO"
    }
}

/// What reaches the OpenTelemetry writer.
#[derive(Debug)]
pub enum OpenTelemetryTypeEnum {
    /// Level, domain, message.
    Message((u8, String, String)),
    Sync,
    Stop,
}

/// Configuration of the OpenTelemetry writer.
#[derive(Debug)]
pub struct OpenTelemetryWriterConfig {
    /// Only export log messages if enabled is true.
    pub enabled: bool,
    pub level: u8,
    pub domain_filter: Option<String>,
    pub message_filter: Option<String>,
    /// OTLP/HTTP endpoint of the collector; records go to
    /// `{endpoint}/v1/logs`.
    pub endpoint: String,
    /// The `service.name` resource attribute.
    pub service_name: String,
    /// Number of log records collected before they are exported.
    pub batch_size: usize,
    /// Interval after which buffered records are exported.
    pub timeout: Option<std::time::Duration>,
    pub debug: u8,
}

impl OpenTelemetryWriterConfig {
    pub fn new(level: u8, endpoint: String, service_name: String) -> (r: Self)
        ensures
            r.enabled,
            r.level == level,
            r.domain_filter is None,
            r.message_filter is None,
            r.endpoint == endpoint,
            r.service_name == service_name,
            r.batch_size == DEFAULT_OTEL_BATCH_SIZE,
            r.timeout == Some(seconds(1)),
            r.debug == 0,
    {
        Self {
            enabled: true,
            level,
            domain_filter: None,
            message_filter: None,
            endpoint,
            service_name,
            batch_size: DEFAULT_OTEL_BATCH_SIZE,
            timeout: Some(duration_from_secs(1)),
            debug: 0,
        }
    }
}

impl Default for OpenTelemetryWriterConfig {
    fn default() -> (r: Self)
        ensures
            r.enabled,
            r.level == NOTSET,
            r.domain_filter is None,
            r.message_filter is None,
            r.endpoint@ == "http://localhost:4318"@,
            r.service_name@ == "fastlogging"@,
            r.batch_size == DEFAULT_OTEL_BATCH_SIZE,
            r.timeout == Some(seconds(1)),
            r.debug == 0,
    {
        Self::new(NOTSET, "http://localhost:4318".to_string(), "fastlogging".to_string())
    }
}

/// A lower-case hexadecimal digit.
pub open spec fn hex_digit(d: nat) -> char {
    if d < 10 {
        ((48 + d) as u32) as char
    } else {
        ((87 + d) as u32) as char
    }
}

/// How `serde_json` writes one character inside a string: a quote and a
/// backslash behind a backslash, backspace, tab, line feed, form feed and
/// carriage return as `\b`, `\t`, `\n`, `\f`, `\r`, other characters below
/// U+0020 as `\u00` and two lower-case hex digits, everything else as it is.
pub open spec fn json_char(c: char) -> Seq<char> {
    let n = c as u32;
    if c == '"' {
        seq!['\\', '"']
    } else if c == '\\' {
        seq!['\\', '\\']
    } else if n == 8 {
        seq!['\\', 'b']
    } else if n == 9 {
        seq!['\\', 't']
    } else if n == 10 {
        seq!['\\', 'n']
    } else if n == 12 {
        seq!['\\', 'f']
    } else if n == 13 {
        seq!['\\', 'r']
    } else if n < 32 {
        seq!['\\', 'u', '0', '0', hex_digit((n / 16) as nat), hex_digit((n % 16) as nat)]
    } else {
        seq![c]
    }
}

/// The characters of `s`, each written as [`json_char`] does.
pub open spec fn json_escaped(s: Seq<char>) -> Seq<char>
    decreases s.len(),
{
    if s.len() == 0 {
        Seq::empty()
    } else {
        json_escaped(s.drop_last()) + json_char(s.last())
    }
}

/// What `serde_json` writes for a string: the string in quotes, with the
/// characters JSON requires escaped.
pub open spec fn json_string(s: Seq<char>) -> Seq<char> {
    seq!['"'] + json_escaped(s) + seq!['"']
}

/// Writes a string as a JSON string literal with `serde_json::to_string`.
#[verifier::external_body]
fn json_quote(s: &str) -> (r: String)
    ensures
        r@ == json_string(s@),
{
    serde_json::to_string(s).unwrap_or_default()
}

/// The current time in nanoseconds since the Unix epoch, from
/// `chrono::Utc::now`, 0 where it does not fit.
#[verifier::external_body]
fn now_unix_nanos() -> (r: i64) {
    chrono::Utc::now().timestamp_nanos_opt().unwrap_or_default()
}

/// The decimal text of a signed number.
pub open spec fn signed_dec(n: int) -> Seq<char> {
    if n < 0 {
        "-"@ + dec((-n) as nat)
    } else {
        dec(n as nat)
    }
}

fn push_signed(s: &mut String, n: i64)
    ensures
        final(s)@ == old(s)@ + signed_dec(n as int),
{
    if n < 0 {
        push_str(s, "-");
        let m: u64 = if n == i64::MIN {
            9223372036854775808u64
        } else {
            (-n) as u64
        };
        push_decimal(s, m);
        proof {
            reveal_strlit("-");
        }
        assert(final(s)@ =~= old(s)@ + signed_dec(n as int));
    } else {
        push_decimal(s, n as u64);
    }
}

/// A log record ready for the payload: its level, its domain and message
/// as JSON strings, and its time.
pub struct OtlpRecord {
    pub level: u8,
    pub domain_json: String,
    pub message_json: String,
    pub time_unix_nano: i64,
}

/// The JSON object of one log record, keys in the order `serde_json`
/// writes them.
pub open spec fn record_json(r: OtlpRecord) -> Seq<char> {
    "{\"attributes\":[{\"key\":\"domain\",\"value\":{\"stringValue\":"@ + r.domain_json@
        + "}}],\"body\":{\"stringValue\":"@ + r.message_json@ + "},\"severityNumber\":"@
        + signed_dec(severity_number_spec(r.level) as int) + ",\"severityText\":\""@
        + severity_text_spec(r.level) + "\",\"timeUnixNano\":\""@ + signed_dec(r.time_unix_nano as int)
        + "\"}"@
}

/// The records' objects, separated by commas.
pub open spec fn records_json(rs: Seq<OtlpRecord>) -> Seq<char>
    decreases rs.len(),
{
    if rs.len() == 0 {
        Seq::empty()
    } else if rs.len() == 1 {
        record_json(rs[0])
    } else {
        records_json(rs.drop_last()) + ","@ + record_json(rs.last())
    }
}

/// The OTLP/HTTP JSON payload for records of a service whose name is
/// `service_json` as a JSON string.
pub open spec fn otlp_payload(service_json: Seq<char>, rs: Seq<OtlpRecord>) -> Seq<char> {
    "{\"resourceLogs\":[{\"resource\":{\"attributes\":[{\"key\":\"service.name\",\"value\":{\"stringValue\":"@
        + service_json + "}}]},\"scopeLogs\":[{\"logRecords\":["@ + records_json(rs)
        + "],\"scope\":{}}]}]}"@
}

fn push_record(s: &mut String, r: &OtlpRecord)
    ensures
        final(s)@ == old(s)@ + record_json(*r),
{
    push_str(s, "{\"attributes\":[{\"key\":\"domain\",\"value\":{\"stringValue\":");
    push_str(s, r.domain_json.as_str());
    push_str(s, "}}],\"body\":{\"stringValue\":");
    push_str(s, r.message_json.as_str());
    push_str(s, "},\"severityNumber\":");
    push_signed(s, level2severity_number(r.level) as i64);
    push_str(s, ",\"severityText\":\"");
    push_str(s, level2severity_text(r.level));
    push_str(s, "\",\"timeUnixNano\":\"");
    push_signed(s, r.time_unix_nano);
    push_str(s, "\"}");
    assert(final(s)@ =~= old(s)@ + record_json(*r));
}

/// The payload for `records` of the service named by `service_json`.
pub fn otlp_json(service_json: &str, records: &[OtlpRecord]) -> (r: String)
    ensures
        r@ == otlp_payload(service_json@, records@),
{
    let mut s = String::new();
    push_str(&mut s, "{\"resourceLogs\":[{\"resource\":{\"attributes\":[{\"key\":\"service.name\",\"value\":{\"stringValue\":");
    push_str(&mut s, service_json);
    push_str(&mut s, "}}]},\"scopeLogs\":[{\"logRecords\":[");
    let ghost head = s@;
    let mut i: usize = 0;
    while i < records.len()
        invariant
            i <= records@.len(),
            s@ == head + records_json(records@.subrange(0, i as int)),
        decreases records@.len() - i,
    {
        let ghost before = s@;
        if i > 0 {
            push_str(&mut s, ",");
        }
        push_record(&mut s, &records[i]);
        proof {
            let sub = records@.subrange(0, i + 1);
            assert(sub.drop_last() =~= records@.subrange(0, i as int));
            assert(sub.last() == records@[i as int]);
            if i == 0 {
                assert(records@.subrange(0, 0) =~= Seq::<OtlpRecord>::empty());
            }
        }
        i = i + 1;
        assert(s@ =~= head + records_json(records@.subrange(0, i as int)));
    }
    push_str(&mut s, "],\"scope\":{}}]}]}");
    assert(records@.subrange(0, i as int) =~= records@);
    assert(s@ =~= otlp_payload(service_json@, records@));
    s
}

/// Whether `r` is the payload form of the record `x` (level, domain,
/// message), whatever its time.
pub open spec fn record_from(r: OtlpRecord, x: (u8, String, String)) -> bool {
    r.level == x.0 && r.domain_json@ == json_string(x.1@) && r.message_json@ == json_string(x.2@)
}

/// The payload for a batch of `(level, domain, message)` records of
/// `service_name`, each stamped with the time it is built at.
pub fn build_otlp_json(service_name: &str, records: &[(u8, String, String)]) -> (r: String)
    ensures
        exists|rs: Seq<OtlpRecord>| #[trigger] otlp_payload(json_string(service_name@), rs) == r@
            && rs.len() == records@.len() && forall|i: int|
            0 <= i < rs.len() ==> #[trigger] record_from(rs[i], records@[i]),
{
    let mut rs: Vec<OtlpRecord> = Vec::new();
    let mut i: usize = 0;
    while i < records.len()
        invariant
            i <= records@.len(),
            rs@.len() == i,
            forall|k: int| 0 <= k < i ==> #[trigger] record_from(rs@[k], records@[k]),
        decreases records@.len() - i,
    {
        let (level, domain, message) = &records[i];
        rs.push(
            OtlpRecord {
                level: *level,
                domain_json: json_quote(domain.as_str()),
                message_json: json_quote(message.as_str()),
                time_unix_nano: now_unix_nanos(),
            },
        );
        i = i + 1;
    }
    let service = json_quote(service_name);
    let r = otlp_json(service.as_str(), rs.as_slice());
    assert(otlp_payload(json_string(service_name@), rs@) == r@);
    r
}

/// The text with its trailing `/` characters removed.
pub open spec fn trim_slashes(s: Seq<char>) -> Seq<char>
    decreases s.len(),
{
    if s.len() > 0 && s.last() == '/' {
        trim_slashes(s.drop_last())
    } else {
        s
    }
}

/// The URL log records are posted to: the endpoint without trailing `/`,
/// then `/v1/logs`.
pub fn otlp_url(endpoint: &str) -> (r: String)
    ensures
        r@ == trim_slashes(endpoint@) + "/v1/logs"@,
{
    let cs = crate::text::chars_of(endpoint);
    let mut n: usize = cs.len();
    assert(endpoint@.subrange(0, n as int) =~= endpoint@);
    while n > 0 && cs[n - 1] == '/'
        invariant
            cs@ == endpoint@,
            n <= cs@.len(),
            trim_slashes(endpoint@) == trim_slashes(endpoint@.subrange(0, n as int)),
        decreases n,
    {
        proof {
            let t = endpoint@.subrange(0, n as int);
            assert(t.drop_last() =~= endpoint@.subrange(0, n - 1));
        }
        n = n - 1;
    }
    let mut r = String::new();
    let mut k: usize = 0;
    while k < n
        invariant
            cs@ == endpoint@,
            n <= cs@.len(),
            k <= n,
            r@ == endpoint@.subrange(0, k as int),
        decreases n - k,
    {
        crate::text::push_char(&mut r, cs[k]);
        k = k + 1;
        assert(r@ =~= endpoint@.subrange(0, k as int));
    }
    proof {
        let t = endpoint@.subrange(0, n as int);
        assert(!(t.len() > 0 && t.last() == '/'));
        assert(trim_slashes(t) == t);
    }
    push_str(&mut r, "/v1/logs");
    r
}

/// What the OpenTelemetry writer does for one event.
pub enum OtelEvent {
    Message { level: u8, domain: String, message: String },
    Sync,
    Stop,
    TimedOut,
    Disconnected,
}

/// The writer's step: whether a message joins the batch, whether the batch
/// is exported now, whether a sync is confirmed, and whether the writer
/// stops.
pub struct OtelStep {
    pub buffer: bool,
    pub export: bool,
    pub ack_sync: bool,
    pub stop: bool,
}

/// Whether `event` is a message the writer lets pass.
pub open spec fn otel_passes(config: OpenTelemetryWriterConfig, event: OtelEvent) -> bool {
    match event {
        OtelEvent::Message { level: _, domain, message } => passes_filters_spec(
            config.enabled,
            config.domain_filter,
            config.message_filter,
            domain@,
            message@,
        ),
        _ => false,
    }
}

/// Whether the writer exports its batch on `event`, holding `buffered`
/// records before it.
pub open spec fn otel_exports(config: OpenTelemetryWriterConfig, buffered: nat, event: OtelEvent) -> bool {
    match event {
        OtelEvent::Message { .. } => otel_passes(config, event) && buffered + 1 >= config.batch_size,
        OtelEvent::Sync => true,
        OtelEvent::Stop => true,
        OtelEvent::TimedOut => buffered > 0,
        OtelEvent::Disconnected => false,
    }
}

/// The record a message event becomes.
pub open spec fn otel_record(event: OtelEvent) -> (u8, Seq<char>, Seq<char>) {
    match event {
        OtelEvent::Message { level, domain, message } => (level, domain@, message@),
        _ => (0, Seq::empty(), Seq::empty()),
    }
}

/// The writer after the events `events`: the records still buffered and the
/// batches exported, in order. A passing message joins the buffer; an
/// export sends the buffer and empties it.
pub open spec fn otel_run(config: OpenTelemetryWriterConfig, events: Seq<OtelEvent>) -> (
    Seq<(u8, Seq<char>, Seq<char>)>,
    Seq<Seq<(u8, Seq<char>, Seq<char>)>>,
)
    decreases events.len(),
{
    if events.len() == 0 {
        (Seq::empty(), Seq::empty())
    } else {
        let (buf, batches) = otel_run(config, events.drop_last());
        let e = events.last();
        let buf2 = if otel_passes(config, e) {
            buf.push(otel_record(e))
        } else {
            buf
        };
        if otel_exports(config, buf.len(), e) {
            (Seq::empty(), batches.push(buf2))
        } else {
            (buf2, batches)
        }
    }
}

/// The records of `batches`, one batch after the other.
pub open spec fn concat_batches(batches: Seq<Seq<(u8, Seq<char>, Seq<char>)>>) -> Seq<(u8, Seq<char>, Seq<char>)>
    decreases batches.len(),
{
    if batches.len() == 0 {
        Seq::empty()
    } else {
        concat_batches(batches.drop_last()) + batches.last()
    }
}

/// The records of the passing messages among `events`, in order.
pub open spec fn otel_passing(config: OpenTelemetryWriterConfig, events: Seq<OtelEvent>) -> Seq<(u8, Seq<char>, Seq<char>)>
    decreases events.len(),
{
    if events.len() == 0 {
        Seq::empty()
    } else if otel_passes(config, events.last()) {
        otel_passing(config, events.drop_last()).push(otel_record(events.last()))
    } else {
        otel_passing(config, events.drop_last())
    }
}

/// Law: over any run of events, the exported batches followed by what is
/// still buffered are exactly the passing messages, in the order they came,
/// each once; with a batch size of at least one, no batch holds more than
/// the batch size and the buffer stays below it. When a sync is confirmed,
/// or the writer stops, nothing is left buffered: every record before it
/// has been exported.
pub proof fn law_otel_batching(config: OpenTelemetryWriterConfig, events: Seq<OtelEvent>)
    ensures
        concat_batches(otel_run(config, events).1) + otel_run(config, events).0 == otel_passing(
            config,
            events,
        ),
        config.batch_size >= 1 ==> otel_run(config, events).0.len() < config.batch_size,
        events.len() > 0 && (events.last() is Sync || events.last() is Stop) ==> otel_run(
            config,
            events,
        ).0.len() == 0,
        config.batch_size >= 1 ==> forall|i: int|
            0 <= i < otel_run(config, events).1.len() ==> #[trigger] otel_run(config, events).1[i].len()
                <= config.batch_size,
    decreases events.len(),
{
    if events.len() > 0 {
        let front = events.drop_last();
        law_otel_batching(config, front);
        let (buf, batches) = otel_run(config, front);
        let e = events.last();
        let buf2 = if otel_passes(config, e) {
            buf.push(otel_record(e))
        } else {
            buf
        };
        assert(concat_batches(batches) + buf2 =~= otel_passing(config, events));
        if otel_exports(config, buf.len(), e) {
            let nb = batches.push(buf2);
            assert(nb.drop_last() =~= batches);
            assert(concat_batches(nb) =~= concat_batches(batches) + buf2);
            assert(concat_batches(nb) + Seq::<(u8, Seq<char>, Seq<char>)>::empty() =~= concat_batches(nb));
            if config.batch_size >= 1 {
                assert forall|i: int| 0 <= i < nb.len() implies #[trigger] nb[i].len() <= config.batch_size by {
                    if i < batches.len() {
                        assert(nb[i] == batches[i]);
                    }
                }
            }
        }
    }
}

/// A message passes when the writer is on and both filters let it pass
/// (the message filter is tested against the message); it joins the batch,
/// which is exported once it holds `batch_size` records. A sync or stop
/// exports what is buffered; a timeout exports a non-empty batch.
pub fn otel_step(config: &OpenTelemetryWriterConfig, buffered: usize, event: &OtelEvent) -> (r: OtelStep)
    requires
        filter_valid(config.domain_filter),
        filter_valid(config.message_filter),
        buffered < usize::MAX,
    ensures
        r.buffer == otel_passes(*config, *event),
        r.export == otel_exports(*config, buffered as nat, *event),
        match *event {
            OtelEvent::Message { level, domain, message } => !r.ack_sync && !r.stop && if passes_filters_spec(
                config.enabled,
                config.domain_filter,
                config.message_filter,
                domain@,
                message@,
            ) {
                r.buffer && r.export == (buffered + 1 >= config.batch_size)
            } else {
                !r.buffer && !r.export
            },
            OtelEvent::Sync => !r.buffer && r.export && r.ack_sync && !r.stop,
            OtelEvent::Stop => !r.buffer && r.export && !r.ack_sync && r.stop,
            OtelEvent::TimedOut => !r.buffer && r.export == (buffered > 0) && !r.ack_sync && !r.stop,
            OtelEvent::Disconnected => !r.buffer && !r.export && !r.ack_sync && r.stop,
        },
{
    match event {
        OtelEvent::Message { level: _, domain, message } => {
            if passes_filters(
                config.enabled,
                &config.domain_filter,
                &config.message_filter,
                domain.as_str(),
                message.as_str(),
            ) {
                OtelStep { buffer: true, export: buffered + 1 >= config.batch_size, ack_sync: false, stop: false }
            } else {
                OtelStep { buffer: false, export: false, ack_sync: false, stop: false }
            }
        },
        OtelEvent::Sync => OtelStep { buffer: false, export: true, ack_sync: true, stop: false },
        OtelEvent::Stop => OtelStep { buffer: false, export: true, ack_sync: false, stop: true },
        OtelEvent::TimedOut => OtelStep { buffer: false, export: buffered > 0, ack_sync: false, stop: false },
        OtelEvent::Disconnected => OtelStep { buffer: false, export: false, ack_sync: false, stop: true },
    }
}

} // verus!
