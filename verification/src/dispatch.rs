//! The decisions of the logging thread: for each event from the loggers,
//! which text goes to which writers, which writers are synchronized, and
//! when the thread stops.

use vstd::prelude::*;

use crate::def::{LoggingTypeEnum, MessageStructEnum};
use crate::instance::{any_type_matches_spec, receives, LoggingInstance, Selector};
use crate::message::{
    build_json_message, build_string_message, build_xml_message, json_message, string_message,
    xml_message, MessageFields,
};

verus! {

/// What the logging thread does for one event.
pub enum WorkerAction {
    /// Hand `text`, a message of `level` in `domain`, to the writers `wids`.
    Deliver { level: u8, domain: String, text: String, wids: Vec<usize> },
    /// Synchronize the writers `wids`, waiting up to `timeout` for each, and
    /// confirm.
    Sync { wids: Vec<usize>, timeout: std::time::Duration },
    /// End the logging thread.
    Stop,
}

/// The text of a message in the given structure.
pub open spec fn structured_text(
    structured: MessageStructEnum,
    f: MessageFields,
    level: u8,
    message: Seq<char>,
) -> Seq<char> {
    match structured {
        MessageStructEnum::String => string_message(f, level, message),
        MessageStructEnum::Json => json_message(f, level, message),
        MessageStructEnum::Xml => xml_message(f, level, message),
    }
}

/// The local time now, formatted as `%Y.%m.%d %H:%M:%S` by `chrono`.
#[verifier::external_body]
fn local_date() -> (r: String) {
    chrono::Local::now().format("%Y.%m.%d %H:%M:%S").to_string()
}

impl LoggingInstance {
    /// The fields of a message of this instance, with the given date,
    /// domain and thread.
    pub open spec fn fields_spec(
        self,
        date: String,
        domain: String,
        tname: Option<String>,
        tid: u32,
    ) -> MessageFields {
        MessageFields {
            date,
            hostname: self.hostname,
            pname: self.pname,
            pid: self.pid,
            tname,
            tid,
            domain,
            level2sym: self.level2sym,
        }
    }

    /// Whether `ids` lists exactly the writers that receive messages of
    /// `level`, each once.
    pub open spec fn receivers(self, ids: Seq<usize>, level: u8) -> bool {
        &&& forall|w: usize| #[trigger]
            ids.contains(w) <==> (self.writer(w) matches Some(c) && receives(c, level))
        &&& forall|i: int, j: int| 0 <= i < j < ids.len() ==> ids[i] != ids[j]
    }

    /// Whether `r` is what the logging thread does for `event`, with the
    /// messages dated `date`. A message is built in the instance's
    /// structure and goes to every writer that receives its level; a
    /// message from a remote client is handed on as it came. A sync request
    /// names the writers of its kinds.
    pub open spec fn dispatched(self, event: LoggingTypeEnum, date: String, r: WorkerAction) -> bool {
        match event {
            LoggingTypeEnum::Stop => r is Stop,
            LoggingTypeEnum::Sync((types, timeout)) => r matches WorkerAction::Sync { wids, timeout: t }
                && t == timeout && forall|w: usize| #[trigger]
                wids@.contains(w) <==> (self.writer(w) matches Some(c) && any_type_matches_spec(
                    types@,
                    c,
                )),
            LoggingTypeEnum::MessageRemote((l, d, m)) => r matches WorkerAction::Deliver {
                level,
                domain,
                text,
                wids,
            } && level == l && domain@ == d@ && text@ == m@ && self.receivers(wids@, l),
            LoggingTypeEnum::Message((l, d, m)) => r matches WorkerAction::Deliver {
                level,
                domain,
                text,
                wids,
            } && level == l && domain@ == d@ && text@ == structured_text(
                self.structured,
                self.fields_spec(date, d, None, 0),
                l,
                m@,
            ) && self.receivers(wids@, l),
            LoggingTypeEnum::MessageExt((l, d, m, tid, tname)) => r matches WorkerAction::Deliver {
                level,
                domain,
                text,
                wids,
            } && level == l && domain@ == d@ && text@ == structured_text(
                self.structured,
                self.fields_spec(date, d, Some(tname), tid),
                l,
                m@,
            ) && self.receivers(wids@, l),
        }
    }

    fn message_fields(&self, date: String, domain: &String, tname: Option<String>, tid: u32) -> (r:
        MessageFields)
        ensures
            r.date == date,
            r.hostname == self.hostname,
            r.pname == self.pname,
            r.pid == self.pid,
            r.tname == tname,
            r.tid == tid,
            r.domain@ == domain@,
            r.level2sym == self.level2sym,
    {
        MessageFields {
            date,
            hostname: crate::def::clone_opt_string(&self.hostname),
            pname: self.pname.clone(),
            pid: self.pid,
            tname,
            tid,
            domain: domain.clone(),
            level2sym: self.level2sym,
        }
    }

    fn build_text(&self, f: &MessageFields, level: u8, message: &str) -> (r: String)
        ensures
            r@ == structured_text(self.structured, *f, level, message@),
    {
        let mut b = String::new();
        match self.structured {
            MessageStructEnum::String => build_string_message(&mut b, f, level, message),
            MessageStructEnum::Json => build_json_message(&mut b, f, level, message),
            MessageStructEnum::Xml => build_xml_message(&mut b, f, level, message),
        }
        assert(b@ =~= structured_text(self.structured, *f, level, message@));
        b
    }

    /// What the logging thread does for `event`, with messages dated
    /// `date`.
    pub fn dispatch_at(&self, event: LoggingTypeEnum, date: String) -> (r: WorkerAction)
        requires
            self.wf(),
        ensures
            self.dispatched(event, date, r),
    {
        match event {
            LoggingTypeEnum::Stop => WorkerAction::Stop,
            LoggingTypeEnum::Sync((types, timeout)) => {
                let wids = self.wids_selected(&Selector::AnyType(types));
                WorkerAction::Sync { wids, timeout }
            },
            LoggingTypeEnum::MessageRemote((l, d, m)) => {
                let wids = self.wids_selected(&Selector::Receiver(l));
                WorkerAction::Deliver { level: l, domain: d, text: m, wids }
            },
            LoggingTypeEnum::Message((l, d, m)) => {
                let f = self.message_fields(date, &d, None, 0);
                let text = self.build_text(&f, l, m.as_str());
                let wids = self.wids_selected(&Selector::Receiver(l));
                WorkerAction::Deliver { level: l, domain: d, text, wids }
            },
            LoggingTypeEnum::MessageExt((l, d, m, tid, tname)) => {
                let f = self.message_fields(date, &d, Some(tname), tid);
                let text = self.build_text(&f, l, m.as_str());
                let wids = self.wids_selected(&Selector::Receiver(l));
                WorkerAction::Deliver { level: l, domain: d, text, wids }
            },
        }
    }

    /// What the logging thread does for `event`, with messages dated now.
    pub fn dispatch(&self, event: LoggingTypeEnum) -> (r: WorkerAction)
        requires
            self.wf(),
        ensures
            exists|date: String| #[trigger] self.dispatched(event, date, r),
    {
        let date = local_date();
        let r = self.dispatch_at(event, date);
        assert(self.dispatched(event, date, r));
        r
    }
}

} // verus!
