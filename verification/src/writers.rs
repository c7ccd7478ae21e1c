//! What the writers do with a message: the console line and its color, the
//! file writer's steps and backup names, the syslog severity, and the
//! bookkeeping of a logging server over its clients.

use vstd::prelude::*;

use crate::console::{level_color, level_color_spec, uses_stderr, ConsoleColor, ConsoleTargetEnum, ConsoleWriterConfig};
use crate::file::{needs_rotation, CompressionMethodEnum, FileWriterConfig};
use crate::filter::{filter_valid, passes_filters, passes_filters_spec};
use crate::syslog::{syslog_severity, syslog_severity_spec, SyslogSeverity, SyslogWriterConfig};
use crate::error::LoggingError;
use crate::text::{after_last, chars_of, dec, push_char, push_decimal, push_str, str_eq, text_after_last};

verus! {

/// A line the console writer prints.
pub struct ConsoleLine {
    /// Printed to standard error, else to standard output.
    pub to_stderr: bool,
    /// The foreground color, when the writer colors its output.
    pub color: Option<ConsoleColor>,
    pub text: String,
}

/// What the console writer prints for a message: nothing when it is
/// switched off or a filter refuses it (the domain filter tests the domain,
/// the message filter the message), else the message on the stream its target selects, colored by
/// level when colors are on.
pub fn console_line(config: &ConsoleWriterConfig, level: u8, domain: &str, message: &str) -> (r:
    Option<ConsoleLine>)
    requires
        filter_valid(config.domain_filter),
        filter_valid(config.message_filter),
    ensures
        !passes_filters_spec(
            config.enabled,
            config.domain_filter,
            config.message_filter,
            domain@,
            message@,
        ) ==> r is None,
        passes_filters_spec(
            config.enabled,
            config.domain_filter,
            config.message_filter,
            domain@,
            message@,
        ) ==> (r matches Some(l) && l.text@ == message@ && l.to_stderr == match config.target {
            ConsoleTargetEnum::StdOut => false,
            ConsoleTargetEnum::StdErr => true,
            ConsoleTargetEnum::Both => level >= crate::def::ERROR,
        } && l.color == if config.colors {
            Some(level_color_spec(level))
        } else {
            None
        }),
{
    if !passes_filters(
        config.enabled,
        &config.domain_filter,
        &config.message_filter,
        domain,
        message,
    ) {
        return None;
    }
    let color = if config.colors {
        Some(level_color(level))
    } else {
        None
    };
    Some(ConsoleLine { to_stderr: uses_stderr(config.target, level), color, text: message.to_string() })
}

/// The severity the syslog writer sends a message with: none when it is
/// switched off, a filter refuses it (the domain filter tests the domain,
/// the message filter the message) or its level has no severity.
pub fn syslog_entry(config: &SyslogWriterConfig, level: u8, domain: &str, message: &str) -> (r:
    Option<SyslogSeverity>)
    requires
        filter_valid(config.domain_filter),
        filter_valid(config.message_filter),
    ensures
        r == if passes_filters_spec(config.enabled, config.domain_filter, config.message_filter, domain@, message@) {
            syslog_severity_spec(level)
        } else {
            None
        },
{
    if !passes_filters(config.enabled, &config.domain_filter, &config.message_filter, domain, message) {
        return None;
    }
    syslog_severity(level)
}

/// What reaches the file writer.
pub enum FileEvent {
    /// A message: its domain and its text.
    Message { domain: String, text: String },
    /// A request to rotate now.
    Rotate,
    /// A request to confirm that everything before it is written.
    Sync,
    Stop,
    /// Nothing came before the rotation deadline.
    TimedOut,
    /// The sending side is gone.
    Disconnected,
}

/// What the file writer does for an event.
pub struct FileStep {
    /// Text to append to the file.
    pub write: Option<String>,
    /// Confirm a sync request.
    pub ack_sync: bool,
    /// Rotate the file after writing.
    pub rotate: bool,
    /// End the writer.
    pub stop: bool,
    /// The size of the file afterwards, as the writer counts it.
    pub size: usize,
}

/// The rotation part of a step: rotate when a rotation is due or the file
/// has grown beyond its limit, with a backlog; a rotated file starts empty.
pub open spec fn after_rotation_check(config: FileWriterConfig, due: bool, size: nat, r: FileStep) -> bool {
    let rot = config.backlog > 0 && (due || (config.size > 0 && size > config.size));
    r.rotate == rot && r.size == if rot {
        0
    } else {
        size
    }
}

/// The file writer's step for one event, with the file at `size` bytes. A
/// message that passes the writer (switched on, the domain filter testing
/// the domain and the message filter the text) is appended with a line
/// break and counts with the bytes of its text; a timeout is a rotation request when the writer rotates by
/// time, and nothing otherwise.
pub fn file_step(config: &FileWriterConfig, size: usize, event: &FileEvent) -> (r: FileStep)
    requires
        event is Message ==> filter_valid(config.domain_filter) && filter_valid(config.message_filter),
        event matches FileEvent::Message { text, .. } ==> size + vstd::utf8::encode_utf8(text@).len()
            <= usize::MAX,
    ensures
        match *event {
            FileEvent::Stop | FileEvent::Disconnected => r.stop && r.write is None && !r.ack_sync
                && !r.rotate && r.size == size,
            FileEvent::TimedOut => !r.stop && r.write is None && !r.ack_sync && if config.timeout is None
                && config.time is None {
                !r.rotate && r.size == size
            } else {
                after_rotation_check(*config, true, size as nat, r)
            },
            FileEvent::Rotate => !r.stop && r.write is None && !r.ack_sync && after_rotation_check(
                *config,
                true,
                size as nat,
                r,
            ),
            FileEvent::Sync => !r.stop && r.write is None && r.ack_sync && after_rotation_check(
                *config,
                false,
                size as nat,
                r,
            ),
            FileEvent::Message { domain, text } => !r.stop && !r.ack_sync && if passes_filters_spec(
                config.enabled,
                config.domain_filter,
                config.message_filter,
                domain@,
                text@,
            ) {
                &&& r.write matches Some(w) && w@ == text@.push('\n')
                &&& after_rotation_check(
                    *config,
                    false,
                    (size + vstd::utf8::encode_utf8(text@).len()) as nat,
                    r,
                )
            } else {
                r.write is None && !r.rotate && r.size == size
            },
        },
{
    let (write, ack, due, new_size) = match event {
        FileEvent::Stop => {
            return FileStep { write: None, ack_sync: false, rotate: false, stop: true, size };
        },
        FileEvent::Disconnected => {
            return FileStep { write: None, ack_sync: false, rotate: false, stop: true, size };
        },
        FileEvent::TimedOut => {
            if config.timeout.is_none() && config.time.is_none() {
                return FileStep { write: None, ack_sync: false, rotate: false, stop: false, size };
            }
            (None, false, true, size)
        },
        FileEvent::Rotate => (None, false, true, size),
        FileEvent::Sync => (None, true, false, size),
        FileEvent::Message { domain, text } => {
            if !passes_filters(
                config.enabled,
                &config.domain_filter,
                &config.message_filter,
                domain.as_str(),
                text.as_str(),
            ) {
                return FileStep { write: None, ack_sync: false, rotate: false, stop: false, size };
            }
            let mut w = text.clone();
            push_char(&mut w, '\n');
            (Some(w), false, false, size + text.as_str().len())
        },
    };
    let rotate = needs_rotation(config.backlog, due, config.size, new_size);
    FileStep {
        write,
        ack_sync: ack,
        rotate,
        stop: false,
        size: if rotate {
            0
        } else {
            new_size
        },
    }
}

/// Whether the last component of a path has an extension: a `.` after its
/// first character.
pub open spec fn has_extension(path: Seq<char>) -> bool {
    let name = after_last(path, '/');
    name.len() > 0 && name.drop_first().contains('.')
}

/// The path with its extension replaced by `ext` (or `ext` added when it
/// has none).
pub open spec fn with_extension(path: Seq<char>, ext: Seq<char>) -> Seq<char> {
    let base = if has_extension(path) {
        path.subrange(0, path.len() - after_last(after_last(path, '/'), '.').len() - 1)
    } else {
        path
    };
    base + "."@ + ext
}

/// The name of backup `number` of a log file: its extension replaced by
/// `log.` and the number, with `.gz` for a compressed backup, so that the
/// first backup of `app.log` is `app.log.1`.
pub open spec fn backup_path_spec(path: Seq<char>, number: nat, compressed: bool) -> Seq<char> {
    with_extension(
        path,
        "log."@ + dec(number) + if compressed {
            ".gz"@
        } else {
            Seq::empty()
        },
    )
}

proof fn lemma_after_last_len(s: Seq<char>, c: char)
    ensures
        after_last(s, c).len() <= s.len(),
        after_last(s, c) == s.subrange(s.len() - after_last(s, c).len(), s.len() as int),
    decreases s.len(),
{
    if s.len() > 0 && s.last() != c {
        lemma_after_last_len(s.drop_last(), c);
        assert(after_last(s, c) =~= s.subrange(s.len() - after_last(s, c).len(), s.len() as int));
    } else if s.len() > 0 {
        assert(s.subrange(s.len() as int, s.len() as int) =~= Seq::<char>::empty());
    }
}

proof fn lemma_after_last_shorter(s: Seq<char>, c: char, j: int)
    requires
        0 <= j < s.len(),
        s[j] == c,
    ensures
        after_last(s, c).len() <= s.len() - j - 1,
    decreases s.len(),
{
    if s.last() != c {
        lemma_after_last_shorter(s.drop_last(), c, j);
    }
}

fn prefix_of(s: &str, k: usize) -> (r: String)
    requires
        k <= s@.len(),
    ensures
        r@ == s@.subrange(0, k as int),
{
    let cs = chars_of(s);
    let mut r = String::new();
    let mut i: usize = 0;
    while i < k
        invariant
            cs@ == s@,
            k <= cs@.len(),
            i <= k,
            r@ == s@.subrange(0, i as int),
        decreases k - i,
    {
        push_char(&mut r, cs[i]);
        i = i + 1;
        assert(r@ =~= s@.subrange(0, i as int));
    }
    r
}

/// The name of backup `number` of the log file at `path`.
pub fn backup_path(path: &str, number: usize, compressed: bool) -> (r: String)
    ensures
        r@ == backup_path_spec(path@, number as nat, compressed),
{
    let name = text_after_last(path, '/');
    let ncs = chars_of(name.as_str());
    let mut has_ext = false;
    let mut i: usize = 1;
    while i < ncs.len()
        invariant
            ncs@ == name@,
            1 <= i,
            ncs@.len() > 0 ==> i <= ncs@.len(),
            has_ext <==> exists|j: int| 1 <= j < i && j < ncs@.len() && ncs@[j] == '.',
        decreases ncs@.len() - i,
    {
        if ncs[i] == '.' {
            has_ext = true;
        }
        i = i + 1;
    }
    proof {
        let nm = name@;
        if nm.len() > 0 {
            if has_ext {
                let j = choose|j: int| 1 <= j < i && j < ncs@.len() && ncs@[j] == '.';
                assert(nm.drop_first()[j - 1] == '.');
                lemma_after_last_shorter(nm, '.', j);
            }
            if nm.drop_first().contains('.') {
                let j = choose|j: int| 0 <= j < nm.drop_first().len() && nm.drop_first()[j] == '.';
                assert(ncs@[j + 1] == '.');
            }
        }
        lemma_after_last_len(path@, '/');
        lemma_after_last_len(name@, '.');
    }
    let mut r = if has_ext {
        let ext = text_after_last(name.as_str(), '.');
        let n = chars_of(path).len();
        prefix_of(path, n - ext.unicode_len() - 1)
    } else {
        path.to_string()
    };
    push_str(&mut r, ".");
    push_str(&mut r, "log.");
    push_decimal(&mut r, number as u64);
    if compressed {
        push_str(&mut r, ".gz");
    }
    proof {
        reveal_strlit("log.");
        reveal_strlit(".gz");
        reveal_strlit(".");
    }
    assert(r@ =~= backup_path_spec(path@, number as nat, compressed));
    r
}

/// The backup a rotation compresses the current file into: backup 1,
/// marked `.gz` unless stored without compression.
pub fn rotated_backup_path(path: &str, compression: CompressionMethodEnum) -> (r: String)
    ensures
        r@ == backup_path_spec(path@, 1, compression != CompressionMethodEnum::Store),
{
    let compressed = match compression {
        CompressionMethodEnum::Store => false,
        _ => true,
    };
    backup_path(path, 1, compressed)
}


/// The errors counted for `addr`: those of its first entry, none without one.
pub open spec fn errors_in(entries: Seq<(String, usize)>, addr: Seq<char>) -> nat
    decreases entries.len(),
{
    if entries.len() == 0 {
        0
    } else if entries[0].0@ == addr {
        entries[0].1 as nat
    } else {
        errors_in(entries.drop_first(), addr)
    }
}

/// Most errors a client may cause before a logging server ignores it.
pub const CLIENT_ERRORS_MAX: usize = 3;

/// How many errors each client address has caused a logging server.
pub struct ClientLedger {
    pub errors: Vec<(String, usize)>,
}

impl ClientLedger {
    pub open spec fn errors_of(self, addr: Seq<char>) -> nat {
        errors_in(self.errors@, addr)
    }

    /// No client has caused an error yet.
    pub fn new() -> (r: Self)
        ensures
            forall|a: Seq<char>| #[trigger] r.errors_of(a) == 0,
    {
        ClientLedger { errors: Vec::new() }
    }

    fn position(&self, addr: &str) -> (r: Option<usize>)
        ensures
            r matches Some(i) ==> i < self.errors@.len() && self.errors@[i as int].0@ == addr@
                && self.errors_of(addr@) == self.errors@[i as int].1 && forall|j: int|
                0 <= j < i ==> self.errors@[j].0@ != addr@,
            r is None ==> self.errors_of(addr@) == 0 && forall|j: int|
                0 <= j < self.errors@.len() ==> self.errors@[j].0@ != addr@,
    {
        let mut i: usize = 0;
        assert(self.errors@.subrange(0, self.errors@.len() as int) =~= self.errors@);
        while i < self.errors.len()
            invariant
                i <= self.errors@.len(),
                forall|j: int| 0 <= j < i ==> self.errors@[j].0@ != addr@,
                errors_in(self.errors@, addr@) == errors_in(self.errors@.subrange(i as int, self.errors@.len() as int), addr@),
            decreases self.errors@.len() - i,
        {
            let ghost rest = self.errors@.subrange(i as int, self.errors@.len() as int);
            if str_eq(self.errors[i].0.as_str(), addr) {
                return Some(i);
            }
            assert(rest.drop_first() =~= self.errors@.subrange(i + 1, self.errors@.len() as int));
            i = i + 1;
        }
        None
    }

    /// Whether the server still serves `addr`: it has caused at most
    /// [`CLIENT_ERRORS_MAX`] errors.
    pub fn admits(&self, addr: &str) -> (r: bool)
        ensures
            r == (self.errors_of(addr@) <= CLIENT_ERRORS_MAX),
    {
        match self.position(addr) {
            Some(i) => self.errors[i].1 <= CLIENT_ERRORS_MAX,
            None => true,
        }
    }

    /// Takes the outcome of a connection from `addr`: a served connection
    /// tells whether the server is to stop, a failed one counts an error
    /// against the address.
    pub fn record(&mut self, addr: &str, outcome: &Result<bool, LoggingError>) -> (stop: bool)
        ensures
            outcome matches Ok(b) ==> stop == b && final(self).errors@ == old(self).errors@,
            outcome is Err ==> !stop && final(self).errors_of(addr@) == if old(self).errors_of(addr@)
                < usize::MAX {
                old(self).errors_of(addr@) + 1
            } else {
                old(self).errors_of(addr@)
            } && forall|a: Seq<char>| a != addr@ ==> #[trigger] final(self).errors_of(a)
                == old(self).errors_of(a),
    {
        match outcome {
            Ok(b) => *b,
            Err(_) => {
                match self.position(addr) {
                    Some(i) => {
                        let ghost before = self.errors@;
                        let (a, n) = self.errors.remove(i);
                        let m = if n < usize::MAX {
                            n + 1
                        } else {
                            n
                        };
                        self.errors.insert(i, (a, m));
                        proof {
                            assert(self.errors@ =~= before.update(i as int, (before[i as int].0, m)));
                            lemma_errors_update(before, i as int, m, addr@);
                            assert forall|x: Seq<char>| x != addr@ implies #[trigger] errors_in(self.errors@, x)
                                == errors_in(before, x) by {
                                lemma_errors_update_other(before, i as int, m, x);
                            }
                        }
                    },
                    None => {
                        let ghost before = self.errors@;
                        self.errors.push((addr.to_string(), 1));
                        proof {
                            let e = self.errors@.last();
                            assert(self.errors@ =~= before.push(e));
                            lemma_errors_push(before, e, addr@);
                            assert forall|x: Seq<char>| x != addr@ implies #[trigger] errors_in(self.errors@, x)
                                == errors_in(before, x) by {
                                lemma_errors_push(before, e, x);
                            }
                        }
                    },
                }
                false
            },
        }
    }
}

proof fn lemma_errors_update(s: Seq<(String, usize)>, i: int, m: usize, addr: Seq<char>)
    requires
        0 <= i < s.len(),
        s[i].0@ == addr,
        forall|j: int| 0 <= j < i ==> s[j].0@ != addr,
    ensures
        errors_in(s.update(i, (s[i].0, m)), addr) == m,
    decreases i,
{
    if i > 0 {
        assert(s.update(i, (s[i].0, m)).drop_first() =~= s.drop_first().update(i - 1, (s[i].0, m)));
        lemma_errors_update(s.drop_first(), i - 1, m, addr);
    }
}

proof fn lemma_errors_update_other(s: Seq<(String, usize)>, i: int, m: usize, x: Seq<char>)
    requires
        0 <= i < s.len(),
        s[i].0@ != x,
    ensures
        errors_in(s.update(i, (s[i].0, m)), x) == errors_in(s, x),
    decreases i,
{
    if i > 0 {
        assert(s.update(i, (s[i].0, m)).drop_first() =~= s.drop_first().update(i - 1, (s[i].0, m)));
        lemma_errors_update_other(s.drop_first(), i - 1, m, x);
    } else {
        assert(s.update(i, (s[i].0, m)).drop_first() =~= s.drop_first());
    }
}

proof fn lemma_errors_push(s: Seq<(String, usize)>, e: (String, usize), x: Seq<char>)
    requires
        forall|j: int| 0 <= j < s.len() ==> s[j].0@ != e.0@,
    ensures
        errors_in(s.push(e), x) == if e.0@ == x {
            e.1 as nat
        } else {
            errors_in(s, x)
        },
    decreases s.len(),
{
    if s.len() > 0 {
        assert(s.push(e).drop_first() =~= s.drop_first().push(e));
        lemma_errors_push(s.drop_first(), e, x);
    } else {
        assert(s.push(e).drop_first() =~= s);
    }
}

} // verus!
