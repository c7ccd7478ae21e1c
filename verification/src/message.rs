//! The text of log messages: plain, JSON and XML structure.
//!
//! A plain message reads
//! `{date} {hostname} {pname}[{pid}]>{tname}[{tid}] {domain}: {level} {message}`,
//! where the host name, process name, process id, thread name and thread id
//! only appear when they are set.

use vstd::prelude::*;

use crate::def::{level2string, level_string_spec, LevelSyms};
use crate::text::{dec, push_decimal, push_str};

verus! {

/// The fields a message is built from, besides its level and text.
pub struct MessageFields {
    /// Local date and time of the message.
    pub date: String,
    pub hostname: Option<String>,
    pub pname: String,
    /// Process id; 0 means not logged.
    pub pid: u32,
    pub tname: Option<String>,
    /// Thread id; 0 means not logged.
    pub tid: u32,
    pub domain: String,
    pub level2sym: LevelSyms,
}

pub open spec fn opt_text(s: Option<String>) -> Option<Seq<char>> {
    match s {
        Some(v) => Some(v@),
        None => None,
    }
}

/// `prefix + text + suffix`, or nothing when there is no text.
pub open spec fn wrap_opt(prefix: Seq<char>, text: Option<Seq<char>>, suffix: Seq<char>) -> Seq<
    char,
> {
    match text {
        Some(t) => prefix + t + suffix,
        None => Seq::empty(),
    }
}

/// `prefix + text + suffix`, or nothing when the text is empty.
pub open spec fn wrap_nonempty(prefix: Seq<char>, text: Seq<char>, suffix: Seq<char>) -> Seq<
    char,
> {
    if text.len() > 0 {
        prefix + text + suffix
    } else {
        Seq::empty()
    }
}

/// `prefix + n + suffix` in decimal, or nothing when `n` is 0.
pub open spec fn wrap_number(prefix: Seq<char>, n: u32, suffix: Seq<char>) -> Seq<char> {
    if n > 0 {
        prefix + dec(n as nat) + suffix
    } else {
        Seq::empty()
    }
}

/// The process part of a plain message: ` {pname}` when the name is set,
/// then `[{pid}]` when the id is set, with a space in front when there is
/// no name.
pub open spec fn process_part(pname: Seq<char>, pid: u32) -> Seq<char> {
    wrap_nonempty(" "@, pname, Seq::empty()) + wrap_number(
        if pname.len() == 0 {
            " ["@
        } else {
            "["@
        },
        pid,
        "]"@,
    )
}

/// The thread part of a plain message: `>{tname}` when the name is set,
/// then `[{tid}]` when the id is set, with `>` in front when there is no
/// name.
pub open spec fn thread_part(tname: Option<Seq<char>>, tid: u32) -> Seq<char> {
    wrap_opt(">"@, tname, Seq::empty()) + wrap_number(
        if tname is None {
            ">["@
        } else {
            "["@
        },
        tid,
        "]"@,
    )
}

/// A plain message.
pub open spec fn string_message(f: MessageFields, level: u8, message: Seq<char>) -> Seq<char> {
    f.date@ + wrap_opt(" "@, opt_text(f.hostname), Seq::empty()) + process_part(f.pname@, f.pid)
        + thread_part(opt_text(f.tname), f.tid) + " "@ + f.domain@ + ": "@ + level_string_spec(
        f.level2sym,
        level,
    ) + " "@ + message
}

/// A JSON message. Texts are inserted as they are, without escaping.
pub open spec fn json_message(f: MessageFields, level: u8, message: Seq<char>) -> Seq<char> {
    "{\"date\":\""@ + f.date@ + "\""@ + wrap_opt(",\"host\":\""@, opt_text(f.hostname), "\""@)
        + wrap_nonempty(",\"pname\":\""@, f.pname@, "\""@) + wrap_number(",\"pid\":"@, f.pid, Seq::empty())
        + wrap_opt(",\"tname\":\""@, opt_text(f.tname), "\""@) + wrap_number(",\"tid\":"@, f.tid, Seq::empty())
        + ",\"domain\":\""@ + f.domain@ + "\",\"level\":\""@ + level_string_spec(f.level2sym, level)
        + "\",\"message\":\""@ + message + "\"}"@
}

/// An XML message. Texts are inserted as they are, without escaping.
pub open spec fn xml_message(f: MessageFields, level: u8, message: Seq<char>) -> Seq<char> {
    "<log><date>"@ + f.date@ + "</date>"@ + wrap_opt("<host>"@, opt_text(f.hostname), "</host>"@)
        + wrap_nonempty("<pname>"@, f.pname@, "</pname>"@) + wrap_number("<pid>"@, f.pid, "</pid>"@)
        + wrap_opt("<tname>"@, opt_text(f.tname), "</tname>"@) + wrap_number("<tid>"@, f.tid, "</tid>"@)
        + "<domain>"@ + f.domain@ + "</domain><level>"@ + level_string_spec(f.level2sym, level)
        + "</level><message>"@ + message + "</message></log>"@
}

fn push_wrap_opt(m: &mut String, prefix: &str, text: &Option<String>, suffix: &str)
    ensures
        final(m)@ == old(m)@ + wrap_opt(prefix@, opt_text(*text), suffix@),
{
    match text {
        Some(t) => {
            let ghost m0 = m@;
            push_str(m, prefix);
            push_str(m, t.as_str());
            push_str(m, suffix);
            assert(m@ =~= m0 + (prefix@ + t@ + suffix@));
        },
        None => {
            assert(m@ =~= m@ + Seq::<char>::empty());
        },
    }
}

fn push_wrap_nonempty(m: &mut String, prefix: &str, text: &str, suffix: &str)
    ensures
        final(m)@ == old(m)@ + wrap_nonempty(prefix@, text@, suffix@),
{
    if !text.is_empty() {
        let ghost m0 = m@;
        push_str(m, prefix);
        push_str(m, text);
        push_str(m, suffix);
        assert(m@ =~= m0 + (prefix@ + text@ + suffix@));
    } else {
        assert(m@ =~= m@ + Seq::<char>::empty());
    }
}

fn push_wrap_number(m: &mut String, prefix: &str, n: u32, suffix: &str)
    ensures
        final(m)@ == old(m)@ + wrap_number(prefix@, n, suffix@),
{
    if n > 0 {
        let ghost m0 = m@;
        push_str(m, prefix);
        push_decimal(m, n as u64);
        push_str(m, suffix);
        assert(m@ =~= m0 + (prefix@ + dec(n as nat) + suffix@));
    } else {
        assert(m@ =~= m@ + Seq::<char>::empty());
    }
}

fn push_text(m: &mut String, t: &str)
    ensures
        final(m)@ == old(m)@ + t@,
{
    push_str(m, t);
}

/// Appends a plain message to `buffer`.
pub fn build_string_message(buffer: &mut String, f: &MessageFields, level: u8, message: &str)
    ensures
        final(buffer)@ == old(buffer)@ + string_message(*f, level, message@),
{
    proof {
        reveal_strlit("");
    }
    let mut m = f.date.clone();
    push_wrap_opt(&mut m, " ", &f.hostname, "");
    let ghost p0 = m@;
    push_wrap_nonempty(&mut m, " ", f.pname.as_str(), "");
    push_wrap_number(&mut m, if f.pname.as_str().is_empty() { " [" } else { "[" }, f.pid, "]");
    assert(m@ =~= p0 + process_part(f.pname@, f.pid));
    let ghost t0 = m@;
    push_wrap_opt(&mut m, ">", &f.tname, "");
    push_wrap_number(&mut m, if f.tname.is_none() { ">[" } else { "[" }, f.tid, "]");
    assert(m@ =~= t0 + thread_part(opt_text(f.tname), f.tid));
    push_text(&mut m, " ");
    push_text(&mut m, f.domain.as_str());
    push_text(&mut m, ": ");
    push_text(&mut m, level2string(&f.level2sym, level));
    push_text(&mut m, " ");
    push_text(&mut m, message);
    assert(m@ == string_message(*f, level, message@));
    push_str(buffer, m.as_str());
}

/// Appends a JSON message to `buffer`.
pub fn build_json_message(buffer: &mut String, f: &MessageFields, level: u8, message: &str)
    ensures
        final(buffer)@ == old(buffer)@ + json_message(*f, level, message@),
{
    proof {
        reveal_strlit("");
    }
    let mut m = String::new();
    push_text(&mut m, "{\"date\":\"");
    assert(m@ =~= "{\"date\":\""@);
    push_text(&mut m, f.date.as_str());
    push_text(&mut m, "\"");
    push_wrap_opt(&mut m, ",\"host\":\"", &f.hostname, "\"");
    push_wrap_nonempty(&mut m, ",\"pname\":\"", f.pname.as_str(), "\"");
    push_wrap_number(&mut m, ",\"pid\":", f.pid, "");
    push_wrap_opt(&mut m, ",\"tname\":\"", &f.tname, "\"");
    push_wrap_number(&mut m, ",\"tid\":", f.tid, "");
    push_text(&mut m, ",\"domain\":\"");
    push_text(&mut m, f.domain.as_str());
    push_text(&mut m, "\",\"level\":\"");
    push_text(&mut m, level2string(&f.level2sym, level));
    push_text(&mut m, "\",\"message\":\"");
    push_text(&mut m, message);
    push_text(&mut m, "\"}");
    assert(m@ == json_message(*f, level, message@));
    push_str(buffer, m.as_str());
}

/// Appends an XML message to `buffer`.
pub fn build_xml_message(buffer: &mut String, f: &MessageFields, level: u8, message: &str)
    ensures
        final(buffer)@ == old(buffer)@ + xml_message(*f, level, message@),
{
    let mut m = String::new();
    push_text(&mut m, "<log><date>");
    assert(m@ =~= "<log><date>"@);
    push_text(&mut m, f.date.as_str());
    push_text(&mut m, "</date>");
    push_wrap_opt(&mut m, "<host>", &f.hostname, "</host>");
    push_wrap_nonempty(&mut m, "<pname>", f.pname.as_str(), "</pname>");
    push_wrap_number(&mut m, "<pid>", f.pid, "</pid>");
    push_wrap_opt(&mut m, "<tname>", &f.tname, "</tname>");
    push_wrap_number(&mut m, "<tid>", f.tid, "</tid>");
    push_text(&mut m, "<domain>");
    push_text(&mut m, f.domain.as_str());
    push_text(&mut m, "</domain><level>");
    push_text(&mut m, level2string(&f.level2sym, level));
    push_text(&mut m, "</level><message>");
    push_text(&mut m, message);
    push_text(&mut m, "</message></log>");
    assert(m@ == xml_message(*f, level, message@));
    push_str(buffer, m.as_str());
}

/// The text a logging server hands on for a message from a client:
/// `{peer}: {message}`.
pub open spec fn remote_message_spec(peer: Seq<char>, message: Seq<char>) -> Seq<char> {
    peer + ": "@ + message
}

pub fn remote_message(peer: &str, message: &str) -> (r: String)
    ensures
        r@ == remote_message_spec(peer@, message@),
{
    let mut r = peer.to_string();
    push_str(&mut r, ": ");
    push_str(&mut r, message);
    r
}

} // verus!
