//! Properties of how levels are named and rated for syslog and
//! OpenTelemetry, and of how log messages are laid out.

use vstd::prelude::*;

use crate::def::{
    level_band, level_short_spec, level_str_spec, level_string_spec, level_sym_spec, CRITICAL,
    DEBUG, ERROR, EXCEPTION, FATAL, INFO, NOLOG, SUCCESS, TRACE, WARNING,
};
use crate::message::{
    json_message, opt_text, string_message, wrap_nonempty, wrap_number, wrap_opt, xml_message,
    MessageFields,
};
use crate::otel::{severity_number_spec, severity_text_spec};
use crate::syslog::{syslog_severity_spec, SyslogSeverity};
use crate::text::dec;

verus! {

/// Law: each band of levels has its own long, short and symbol name, as
/// listed here: the band of a named level runs up to the next named level.
/// Levels of different bands get different names of each kind, and the
/// short name is three letters beginning as the long name does.
pub proof fn law_level_names(level: u8, other: u8)
    ensures
        level < TRACE ==> level_str_spec(level) == "NOTSET"@ && level_short_spec(level) == "NOT"@
            && level_sym_spec(level) == "N"@,
        TRACE <= level < DEBUG ==> level_str_spec(level) == "TRACE"@ && level_short_spec(level)
            == "TRC"@ && level_sym_spec(level) == "T"@,
        DEBUG <= level < INFO ==> level_str_spec(level) == "DEBUG"@ && level_short_spec(level)
            == "DBG"@ && level_sym_spec(level) == "D"@,
        INFO <= level < SUCCESS ==> level_str_spec(level) == "INFO"@ && level_short_spec(level)
            == "INF"@ && level_sym_spec(level) == "I"@,
        SUCCESS <= level < WARNING ==> level_str_spec(level) == "SUCCESS"@ && level_short_spec(
            level,
        ) == "SCS"@ && level_sym_spec(level) == "S"@,
        WARNING <= level < ERROR ==> level_str_spec(level) == "WARNING"@ && level_short_spec(level)
            == "WRN"@ && level_sym_spec(level) == "W"@,
        ERROR <= level < FATAL ==> level_str_spec(level) == "ERROR"@ && level_short_spec(level)
            == "ERR"@ && level_sym_spec(level) == "E"@,
        FATAL <= level < EXCEPTION ==> level_str_spec(level) == "FATAL"@ && level_short_spec(level)
            == "FTL"@ && level_sym_spec(level) == "F"@,
        EXCEPTION <= level < NOLOG ==> level_str_spec(level) == "EXCEPTION"@ && level_short_spec(
            level,
        ) == "EXC"@ && level_sym_spec(level) == "!"@,
        NOLOG <= level ==> level_str_spec(level) == "NOLOG"@ && level_short_spec(level) == "NOL"@
            && level_sym_spec(level) == "-"@,
        level_short_spec(level).len() == 3,
        level_short_spec(level)[0] == level_str_spec(level)[0],
        level_band(level) != level_band(other) ==> level_str_spec(level) != level_str_spec(other)
            && level_short_spec(level) != level_short_spec(other) && level_sym_spec(level)
            != level_sym_spec(other),
{
    reveal_strlit("NOTSET");
    reveal_strlit("TRACE");
    reveal_strlit("DEBUG");
    reveal_strlit("INFO");
    reveal_strlit("SUCCESS");
    reveal_strlit("WARNING");
    reveal_strlit("ERROR");
    reveal_strlit("FATAL");
    reveal_strlit("EXCEPTION");
    reveal_strlit("NOLOG");
    reveal_strlit("NOT");
    reveal_strlit("TRC");
    reveal_strlit("DBG");
    reveal_strlit("INF");
    reveal_strlit("SCS");
    reveal_strlit("WRN");
    reveal_strlit("ERR");
    reveal_strlit("FTL");
    reveal_strlit("EXC");
    reveal_strlit("NOL");
    reveal_strlit("N");
    reveal_strlit("T");
    reveal_strlit("D");
    reveal_strlit("I");
    reveal_strlit("S");
    reveal_strlit("W");
    reveal_strlit("E");
    reveal_strlit("F");
    reveal_strlit("!");
    reveal_strlit("-");
    if level_band(level) != level_band(other) {
        let (a, b) = (level_str_spec(level), level_str_spec(other));
        if a == b {
            assert(a[0] == b[0] && a[1] == b[1] && a[2] == b[2]);
        }
        let (a, b) = (level_short_spec(level), level_short_spec(other));
        if a == b {
            assert(a[0] == b[0] && a[1] == b[1] && a[2] == b[2]);
        }
        let (a, b) = (level_sym_spec(level), level_sym_spec(other));
        if a == b {
            assert(a[0] == b[0]);
        }
    }
}

/// The numerical code of a syslog severity (RFC 5424): the smaller, the
/// more severe.
pub open spec fn syslog_code(s: SyslogSeverity) -> int {
    match s {
        SyslogSeverity::Alert => 1,
        SyslogSeverity::Crit => 2,
        SyslogSeverity::Error => 3,
        SyslogSeverity::Warning => 4,
        SyslogSeverity::Notice => 5,
        SyslogSeverity::Info => 6,
        SyslogSeverity::Debug => 7,
    }
}

/// Whether `level` is one of the levels that syslog receives.
pub open spec fn syslog_named(level: u8) -> bool {
    level == DEBUG || level == INFO || level == SUCCESS || level == WARNING || level == ERROR
        || level == CRITICAL || level == EXCEPTION
}

/// Law: a message goes to syslog exactly when its level is one of the
/// named levels DEBUG, INFO, SUCCESS, WARNING, ERROR, CRITICAL and
/// EXCEPTION, each with its own severity: DEBUG as Debug, INFO as Info,
/// SUCCESS as Notice, WARNING as Warning, ERROR as Error, CRITICAL as Crit
/// and EXCEPTION as Alert. Of two such levels the higher one is sent with
/// the strictly more severe syslog severity.
pub proof fn law_syslog_severities(level: u8, other: u8)
    ensures
        syslog_severity_spec(level) is Some <==> syslog_named(level),
        syslog_severity_spec(DEBUG) == Some(SyslogSeverity::Debug),
        syslog_severity_spec(INFO) == Some(SyslogSeverity::Info),
        syslog_severity_spec(SUCCESS) == Some(SyslogSeverity::Notice),
        syslog_severity_spec(WARNING) == Some(SyslogSeverity::Warning),
        syslog_severity_spec(ERROR) == Some(SyslogSeverity::Error),
        syslog_severity_spec(CRITICAL) == Some(SyslogSeverity::Crit),
        syslog_severity_spec(EXCEPTION) == Some(SyslogSeverity::Alert),
        syslog_named(level) && syslog_named(other) && level < other ==> syslog_code(
            syslog_severity_spec(level)->0,
        ) > syslog_code(syslog_severity_spec(other)->0),
{
}

/// The OpenTelemetry short name of severity number `n`, from 1 to 24: the
/// name of its range of four (TRACE, DEBUG, INFO, WARN, ERROR, FATAL),
/// followed by its place in the range from the second place on.
pub open spec fn otel_short_name(n: i32) -> Seq<char> {
    let name = if n <= 4 {
        "TRACE"@
    } else if n <= 8 {
        "DEBUG"@
    } else if n <= 12 {
        "INFO"@
    } else if n <= 16 {
        "WARN"@
    } else if n <= 20 {
        "ERROR"@
    } else {
        "FATAL"@
    };
    let place = (n - 1) % 4 + 1;
    if place == 1 {
        name
    } else if place == 2 {
        name + "2"@
    } else if place == 3 {
        name + "3"@
    } else {
        name + "4"@
    }
}

/// Whether `level` is one of the named levels OpenTelemetry rates.
pub open spec fn otel_named(level: u8) -> bool {
    level == TRACE || level == DEBUG || level == INFO || level == SUCCESS || level == WARNING
        || level == ERROR || level == CRITICAL || level == EXCEPTION
}

/// Law: every level is exported with an OpenTelemetry severity number from
/// 1 to 24 and the severity text that OpenTelemetry gives that number. The
/// named levels are TRACE 1, DEBUG 5, INFO 9, SUCCESS 10, WARNING 13,
/// ERROR 17, CRITICAL 21 and EXCEPTION 24, so that of two named levels the
/// higher has the strictly higher number; every other level is rated as
/// INFO.
pub proof fn law_otel_severities(level: u8, other: u8)
    ensures
        1 <= severity_number_spec(level) <= 24,
        severity_text_spec(level) == otel_short_name(severity_number_spec(level)),
        severity_number_spec(TRACE) == 1,
        severity_number_spec(DEBUG) == 5,
        severity_number_spec(INFO) == 9,
        severity_number_spec(SUCCESS) == 10,
        severity_number_spec(WARNING) == 13,
        severity_number_spec(ERROR) == 17,
        severity_number_spec(CRITICAL) == 21,
        severity_number_spec(EXCEPTION) == 24,
        !otel_named(level) ==> severity_number_spec(level) == 9,
        otel_named(level) && otel_named(other) && level < other ==> severity_number_spec(level)
            < severity_number_spec(other),
{
    reveal_strlit("TRACE");
    reveal_strlit("DEBUG");
    reveal_strlit("INFO");
    reveal_strlit("INFO2");
    reveal_strlit("WARN");
    reveal_strlit("ERROR");
    reveal_strlit("FATAL");
    reveal_strlit("FATAL4");
    reveal_strlit("2");
    reveal_strlit("3");
    reveal_strlit("4");
    assert("INFO"@ + "2"@ =~= "INFO2"@);
    assert("FATAL"@ + "4"@ =~= "FATAL4"@);
}

/// Whether `s` ends with `t`.
pub open spec fn ends_with(s: Seq<char>, t: Seq<char>) -> bool {
    t.len() <= s.len() && s.subrange(s.len() - t.len(), s.len() as int) == t
}

proof fn lemma_front_back(a: Seq<char>, b: Seq<char>)
    ensures
        (a + b).take(a.len() as int) == a,
        ends_with(a + b, b),
{
    assert((a + b).take(a.len() as int) =~= a);
    assert((a + b).subrange((a + b).len() - b.len(), (a + b).len() as int) =~= b);
}

proof fn lemma_take_front(a: Seq<char>, b: Seq<char>, n: int)
    requires
        0 <= n <= a.len(),
    ensures
        (a + b).take(n) == a.take(n),
{
    assert((a + b).take(n) =~= a.take(n));
}

/// Law: a plain message begins with its date, followed by a space and the
/// host name when one is set, and ends with `{domain}: {level} {message}`,
/// the level named in the instance's chosen form.
pub proof fn law_plain_message_layout(f: MessageFields, level: u8, message: Seq<char>)
    ensures
        string_message(f, level, message).take(f.date@.len() as int) == f.date@,
        f.hostname matches Some(h) ==> string_message(f, level, message).take(
            (f.date@ + " "@ + h@).len() as int,
        ) == f.date@ + " "@ + h@,
        ends_with(
            string_message(f, level, message),
            " "@ + f.domain@ + ": "@ + level_string_spec(f.level2sym, level) + " "@ + message,
        ),
{
    let host = crate::message::wrap_opt(" "@, crate::message::opt_text(f.hostname), Seq::empty());
    let rest = crate::message::process_part(f.pname@, f.pid) + crate::message::thread_part(
        crate::message::opt_text(f.tname),
        f.tid,
    );
    let tail = " "@ + f.domain@ + ": "@ + level_string_spec(f.level2sym, level) + " "@ + message;
    let s = string_message(f, level, message);
    assert(s =~= (f.date@ + host) + (rest + tail));
    assert(s =~= (f.date@ + host + rest) + tail);
    lemma_front_back(f.date@ + host + rest, tail);
    lemma_front_back(f.date@ + host, rest + tail);
    lemma_take_front(f.date@, host, f.date@.len() as int);
    lemma_take_front(f.date@ + host, rest + tail, f.date@.len() as int);
    lemma_front_back(f.date@, host);
    if let Some(h) = f.hostname {
        assert(f.date@ + host =~= f.date@ + " "@ + h@);
    }
}

/// Whether `t` occurs in `s`.
pub open spec fn occurs_in(s: Seq<char>, t: Seq<char>) -> bool {
    exists|i: int| 0 <= i && i + t.len() <= s.len() && #[trigger] s.subrange(i, i + t.len()) == t
}

proof fn lemma_occurs(a: Seq<char>, t: Seq<char>, b: Seq<char>)
    ensures
        occurs_in(a + t + b, t),
{
    let s = a + t + b;
    assert(s.subrange(a.len() as int, (a.len() + t.len()) as int) =~= t);
}

proof fn lemma_plain_split(f: MessageFields, level: u8, message: Seq<char>)
    ensures
        string_message(f, level, message) == f.date@ + wrap_opt(" "@, opt_text(f.hostname), Seq::empty())
            + wrap_nonempty(" "@, f.pname@, Seq::empty()) + wrap_number(
            if f.pname@.len() == 0 {
                " ["@
            } else {
                "["@
            },
            f.pid,
            "]"@,
        ) + wrap_opt(">"@, opt_text(f.tname), Seq::empty()) + wrap_number(
            if f.tname is None {
                ">["@
            } else {
                "["@
            },
            f.tid,
            "]"@,
        ) + (" "@ + f.domain@ + ": "@ + level_string_spec(f.level2sym, level) + " "@ + message),
{
    assert(string_message(f, level, message) =~= f.date@ + wrap_opt(" "@, opt_text(f.hostname), Seq::empty())
            + wrap_nonempty(" "@, f.pname@, Seq::empty()) + wrap_number(
            if f.pname@.len() == 0 {
                " ["@
            } else {
                "["@
            },
            f.pid,
            "]"@,
        ) + wrap_opt(">"@, opt_text(f.tname), Seq::empty()) + wrap_number(
            if f.tname is None {
                ">["@
            } else {
                "["@
            },
            f.tid,
            "]"@,
        ) + (" "@ + f.domain@ + ": "@ + level_string_spec(f.level2sym, level) + " "@ + message));
}

proof fn lemma_name_occurs(x: Seq<char>, mark: Seq<char>, name: Seq<char>, y: Seq<char>)
    requires
        name.len() > 0,
    ensures
        occurs_in(x + wrap_nonempty(mark, name, Seq::empty()) + y, mark + name),
{
    assert(x + wrap_nonempty(mark, name, Seq::empty()) + y =~= x + (mark + name) + y);
    lemma_occurs(x, mark + name, y);
}

proof fn lemma_opt_name_occurs(x: Seq<char>, mark: Seq<char>, name: Seq<char>, y: Seq<char>)
    ensures
        occurs_in(x + wrap_opt(mark, Some(name), Seq::empty()) + y, mark + name),
{
    assert(x + wrap_opt(mark, Some(name), Seq::empty()) + y =~= x + (mark + name) + y);
    lemma_occurs(x, mark + name, y);
}

proof fn lemma_number_occurs(x: Seq<char>, lead: Seq<char>, n: u32, y: Seq<char>)
    requires
        n > 0,
        lead.len() >= 1,
        lead.last() == '[',
    ensures
        occurs_in(x + wrap_number(lead, n, "]"@) + y, "["@ + dec(n as nat) + "]"@),
{
    reveal_strlit("[");
    let d = "["@ + dec(n as nat) + "]"@;
    let front = x + lead.drop_last();
    assert(lead =~= lead.drop_last() + "["@);
    assert(x + wrap_number(lead, n, "]"@) + y =~= front + d + y);
    lemma_occurs(front, d, y);
}

/// Law: a plain message names, before its domain, the process when its
/// name is set (after a space) and its id when it is set (in brackets),
/// and the thread when its name is set (after `>`) and its id when it is
/// set (in brackets).
pub proof fn law_plain_message_parts(f: MessageFields, level: u8, message: Seq<char>)
    ensures
        f.pname@.len() > 0 ==> occurs_in(string_message(f, level, message), " "@ + f.pname@),
        f.pid > 0 ==> occurs_in(string_message(f, level, message), "["@ + dec(f.pid as nat) + "]"@),
        f.tname matches Some(t) ==> occurs_in(string_message(f, level, message), ">"@ + t@),
        f.tid > 0 ==> occurs_in(string_message(f, level, message), "["@ + dec(f.tid as nat) + "]"@),
{
    lemma_plain_split(f, level, message);
    reveal_strlit(" [");
    reveal_strlit(">[");
    reveal_strlit("[");
    let host = wrap_opt(" "@, opt_text(f.hostname), Seq::empty());
    let pn = wrap_nonempty(" "@, f.pname@, Seq::empty());
    let pl: Seq<char> = if f.pname@.len() == 0 {
        " ["@
    } else {
        "["@
    };
    let pi = wrap_number(pl, f.pid, "]"@);
    let tn = wrap_opt(">"@, opt_text(f.tname), Seq::empty());
    let tl: Seq<char> = if f.tname is None {
        ">["@
    } else {
        "["@
    };
    let ti = wrap_number(tl, f.tid, "]"@);
    let tail = " "@ + f.domain@ + ": "@ + level_string_spec(f.level2sym, level) + " "@ + message;
    let s = string_message(f, level, message);
    assert(s == f.date@ + host + pn + pi + tn + ti + tail);
    if f.pname@.len() > 0 {
        assert(s =~= (f.date@ + host) + pn + (pi + tn + ti + tail));
        lemma_name_occurs(f.date@ + host, " "@, f.pname@, pi + tn + ti + tail);
    }
    if f.pid > 0 {
        assert(s =~= (f.date@ + host + pn) + pi + (tn + ti + tail));
        lemma_number_occurs(f.date@ + host + pn, pl, f.pid, tn + ti + tail);
    }
    if let Some(t) = f.tname {
        assert(tn == wrap_opt(">"@, Some(t@), Seq::empty()));
        assert(s =~= (f.date@ + host + pn + pi) + tn + (ti + tail));
        lemma_opt_name_occurs(f.date@ + host + pn + pi, ">"@, t@, ti + tail);
    }
    if f.tid > 0 {
        assert(s =~= (f.date@ + host + pn + pi + tn) + ti + tail);
        lemma_number_occurs(f.date@ + host + pn + pi + tn, tl, f.tid, tail);
    }
}

/// Law: JSON and XML messages carry the host name under `host` right
/// after the date when one is set, and end with the message text.
pub proof fn law_structured_message_layout(f: MessageFields, level: u8, message: Seq<char>)
    ensures
        f.hostname matches Some(h) ==> json_message(f, level, message).take(
            ("{\"date\":\""@ + f.date@ + "\""@ + ",\"host\":\""@ + h@ + "\""@).len() as int,
        ) == "{\"date\":\""@ + f.date@ + "\""@ + ",\"host\":\""@ + h@ + "\""@,
        ends_with(json_message(f, level, message), "\",\"message\":\""@ + message + "\"}"@),
        f.hostname matches Some(h) ==> xml_message(f, level, message).take(
            ("<log><date>"@ + f.date@ + "</date>"@ + "<host>"@ + h@ + "</host>"@).len() as int,
        ) == "<log><date>"@ + f.date@ + "</date>"@ + "<host>"@ + h@ + "</host>"@,
        ends_with(xml_message(f, level, message), "</level><message>"@ + message + "</message></log>"@),
{
    lemma_json_layout(f, level, message);
    lemma_xml_layout(f, level, message);
}

#[verifier::spinoff_prover]
#[verifier::rlimit(40)]
proof fn lemma_json_layout(f: MessageFields, level: u8, message: Seq<char>)
    ensures
        f.hostname matches Some(h) ==> json_message(f, level, message).take(
            ("{\"date\":\""@ + f.date@ + "\""@ + ",\"host\":\""@ + h@ + "\""@).len() as int,
        ) == "{\"date\":\""@ + f.date@ + "\""@ + ",\"host\":\""@ + h@ + "\""@,
        ends_with(json_message(f, level, message), "\",\"message\":\""@ + message + "\"}"@),
{
    let head = "{\"date\":\""@ + f.date@ + "\""@ + crate::message::wrap_opt(
        ",\"host\":\""@,
        crate::message::opt_text(f.hostname),
        "\""@,
    );
    let mid = crate::message::wrap_nonempty(",\"pname\":\""@, f.pname@, "\""@)
        + crate::message::wrap_number(",\"pid\":"@, f.pid, Seq::empty()) + crate::message::wrap_opt(
        ",\"tname\":\""@,
        crate::message::opt_text(f.tname),
        "\""@,
    ) + crate::message::wrap_number(",\"tid\":"@, f.tid, Seq::empty()) + ",\"domain\":\""@
        + f.domain@ + "\",\"level\":\""@ + level_string_spec(f.level2sym, level);
    let tail = "\",\"message\":\""@ + message + "\"}"@;
    let j = json_message(f, level, message);
    assert(j =~= head + (mid + tail));
    assert(j =~= (head + mid) + tail);
    lemma_front_back(head, mid + tail);
    lemma_front_back(head + mid, tail);
    if let Some(h) = f.hostname {
        assert(head =~= "{\"date\":\""@ + f.date@ + "\""@ + ",\"host\":\""@ + h@ + "\""@);
    }
}

#[verifier::spinoff_prover]
#[verifier::rlimit(40)]
proof fn lemma_xml_layout(f: MessageFields, level: u8, message: Seq<char>)
    ensures
        f.hostname matches Some(h) ==> xml_message(f, level, message).take(
            ("<log><date>"@ + f.date@ + "</date>"@ + "<host>"@ + h@ + "</host>"@).len() as int,
        ) == "<log><date>"@ + f.date@ + "</date>"@ + "<host>"@ + h@ + "</host>"@,
        ends_with(xml_message(f, level, message), "</level><message>"@ + message + "</message></log>"@),
{
    let head = "<log><date>"@ + f.date@ + "</date>"@ + crate::message::wrap_opt(
        "<host>"@,
        crate::message::opt_text(f.hostname),
        "</host>"@,
    );
    let mid = crate::message::wrap_nonempty("<pname>"@, f.pname@, "</pname>"@)
        + crate::message::wrap_number("<pid>"@, f.pid, "</pid>"@) + crate::message::wrap_opt(
        "<tname>"@,
        crate::message::opt_text(f.tname),
        "</tname>"@,
    ) + crate::message::wrap_number("<tid>"@, f.tid, "</tid>"@) + "<domain>"@ + f.domain@
        + "</domain><level>"@ + level_string_spec(f.level2sym, level);
    let tail = "</level><message>"@ + message + "</message></log>"@;
    let x = xml_message(f, level, message);
    assert(x =~= head + (mid + tail));
    assert(x =~= (head + mid) + tail);
    lemma_front_back(head, mid + tail);
    lemma_front_back(head + mid, tail);
    if let Some(h) = f.hostname {
        assert(head =~= "<log><date>"@ + f.date@ + "</date>"@ + "<host>"@ + h@ + "</host>"@);
    }
}

} // verus!
