//! Merging the contents of a configuration file into a logging instance.

use vstd::prelude::*;

use crate::config::{ConfigFile, FileConfig, FileMerge};
use crate::def::{clone_opt_string, WriterConfigEnum, WriterTypeEnum, NOTSET};
use crate::error::LoggingError;
use crate::instance::{
    address_selects, config_accepted, filter_matches, holds_stored, stored_config, LoggingInstance,
    Selector,
};
use crate::net::address_with_port;

verus! {

/// Whether a configuration file entry `entry` meets the writer configured
/// as `c` when the file is merged: the console, callback and syslog writers
/// meet every writer of their kind, a file writer the writers of the same
/// path (an empty path all of them), a network writer those at its
/// `address:port`.
pub open spec fn merge_meets(entry: WriterConfigEnum, c: WriterConfigEnum) -> bool {
    match entry {
        WriterConfigEnum::Root(_) => c is Root,
        WriterConfigEnum::Console(_) => c is Console,
        WriterConfigEnum::File(x) => c matches WriterConfigEnum::File(y) && (y.path@ == x.path@
            || x.path@.len() == 0),
        WriterConfigEnum::Client(x) => c matches WriterConfigEnum::Client(y) && address_selects(
            address_with_port(x.address@, x.port),
            y.address@,
            y.port,
        ),
        WriterConfigEnum::Server(x) => c matches WriterConfigEnum::Server(y) && address_selects(
            address_with_port(x.address@, x.port),
            y.address@,
            y.port,
        ),
        WriterConfigEnum::Callback(_) => c is Callback,
        WriterConfigEnum::Syslog(_) => c is Syslog,
    }
}

/// The writer kind that selects the writers an entry meets.
fn merge_kind(entry: &WriterConfigEnum) -> (r: WriterTypeEnum)
    ensures
        forall|c: WriterConfigEnum| #[trigger] filter_matches(r, c) == merge_meets(*entry, c),
{
    match entry {
        WriterConfigEnum::Root(_) => WriterTypeEnum::Root,
        WriterConfigEnum::Console(_) => WriterTypeEnum::Console,
        WriterConfigEnum::File(x) => WriterTypeEnum::File(x.path.clone()),
        WriterConfigEnum::Client(x) => WriterTypeEnum::Client(x.get_address_port()),
        WriterConfigEnum::Server(x) => WriterTypeEnum::Server(x.get_address_port()),
        WriterConfigEnum::Callback(_) => WriterTypeEnum::Callback,
        WriterConfigEnum::Syslog(_) => WriterTypeEnum::Syslog,
    }
}

/// Whether writer `w` of `a` is one that entry `entry` meets.
pub open spec fn merge_hit(a: LoggingInstance, entry: WriterConfigEnum, w: usize) -> bool {
    a.writer(w) matches Some(c) && !(c is Root) && merge_meets(entry, c)
}

/// Whether merging `entry` adds a writer: always, except in `Merge` mode
/// when the instance has a writer that the entry meets.
pub open spec fn merge_adds(a: LoggingInstance, entry: WriterConfigEnum, mode: FileMerge) -> bool {
    mode != FileMerge::Merge || !(exists|w: usize| #[trigger] merge_hit(a, entry, w))
}

/// Whether `b` is `a` after merging entry `entry` in `mode`. A root entry
/// sets the instance's level, domain, host name, thread settings, structure
/// and level names. Another entry first removes, in `MergeReplace` mode,
/// the writers it meets, and then adds its writer when [`merge_adds`].
pub open spec fn merge_step(
    a: LoggingInstance,
    entry: WriterConfigEnum,
    mode: FileMerge,
    b: LoggingInstance,
) -> bool {
    match entry {
        WriterConfigEnum::Root(rc) => {
            &&& b.level == rc.level
            &&& b.domain == rc.domain
            &&& b.hostname == rc.hostname
            &&& b.tname == rc.tname
            &&& b.tid == rc.tid
            &&& b.structured == rc.structured
            &&& b.level2sym == rc.level2sym
            &&& b.pname == a.pname
            &&& b.pid == a.pid
            &&& b.debug == a.debug
            &&& b.auth_key() == a.auth_key()
            &&& b.same_writers(a)
        },
        _ => {
            &&& b.same_settings(a)
            &&& if merge_adds(a, entry, mode) {
                &&& b.next_wid() == a.next_wid() + 1
                &&& holds_stored(b.writer(a.next_wid()), entry, a.auth_key())
            } else {
                b.next_wid() == a.next_wid()
            }
            &&& forall|w: usize|
                w != a.next_wid() ==> #[trigger] b.writer(w) == if mode == FileMerge::MergeReplace
                    && merge_hit(a, entry, w) {
                    None
                } else {
                    a.writer(w)
                }
        },
    }
}

/// Whether `b` is `a` prepared for merging file contents `f` in `mode`.
/// `Replace` takes the file's settings and removes every writer; the other
/// modes take the file's level when it is set, its domain when it is not
/// empty and its host name when it has one.
pub open spec fn merge_prelude(a: LoggingInstance, f: FileConfig, mode: FileMerge, b: LoggingInstance) -> bool {
    &&& b.pname == a.pname
    &&& b.pid == a.pid
    &&& b.debug == a.debug
    &&& b.auth_key() == a.auth_key()
    &&& b.next_wid() == a.next_wid()
    &&& if mode == FileMerge::Replace {
        &&& b.level == f.level
        &&& b.domain == f.domain
        &&& b.hostname == f.hostname
        &&& b.tname == f.tname
        &&& b.tid == f.tid
        &&& b.structured == f.structured
        &&& b.level2sym == f.level2sym
        &&& forall|w: usize| #[trigger] b.writer(w) is None
    } else {
        &&& b.level == if f.level != NOTSET {
            f.level
        } else {
            a.level
        }
        &&& b.domain == if f.domain@.len() > 0 {
            f.domain
        } else {
            a.domain
        }
        &&& b.hostname == if f.hostname is Some {
            f.hostname
        } else {
            a.hostname
        }
        &&& b.tname == a.tname
        &&& b.tid == a.tid
        &&& b.structured == a.structured
        &&& b.level2sym == a.level2sym
        &&& b.same_writers(a)
    }
}

/// Whether `states` is a run of merging `f` into `a`: the prelude, then
/// one step per entry of the file.
pub open spec fn merge_run(a: LoggingInstance, f: FileConfig, mode: FileMerge, states: Seq<LoggingInstance>) -> bool {
    &&& states.len() == f.configs@.len() + 1
    &&& merge_prelude(a, f, mode, states[0])
    &&& forall|i: int|
        0 <= i < f.configs@.len() ==> #[trigger] merge_step(states[i], f.configs@[i], mode, states[i + 1])
}

/// Whether `b` is `a` after merging `entry` in `mode` stopped because the
/// entry's writer would be added and cannot be set up: the writers the
/// entry meets are removed in `MergeReplace` mode, and nothing else changes.
pub open spec fn merge_step_failed(
    a: LoggingInstance,
    entry: WriterConfigEnum,
    mode: FileMerge,
    b: LoggingInstance,
) -> bool {
    &&& !(entry is Root)
    &&& merge_adds(a, entry, mode)
    &&& !config_accepted(entry)
    &&& b.same_settings(a)
    &&& b.next_wid() == a.next_wid()
    &&& forall|w: usize| #[trigger] b.writer(w) == if mode == FileMerge::MergeReplace
        && merge_hit(a, entry, w) {
        None
    } else {
        a.writer(w)
    }
}

/// Whether `states` is a run of merging `f` into `a` that got through the
/// prelude and the first `k` entries and stopped at entry `k`, leaving `b`.
pub open spec fn merge_run_failed(
    a: LoggingInstance,
    f: FileConfig,
    mode: FileMerge,
    states: Seq<LoggingInstance>,
    k: int,
    b: LoggingInstance,
) -> bool {
    &&& 0 <= k < f.configs@.len()
    &&& states.len() == k + 1
    &&& merge_prelude(a, f, mode, states[0])
    &&& forall|i: int| 0 <= i < k ==> #[trigger] merge_step(states[i], f.configs@[i], mode, states[i + 1])
    &&& merge_step_failed(states[k], f.configs@[k], mode, b)
}

impl LoggingInstance {
    /// Merges one configuration file entry.
    pub fn merge_entry(&mut self, entry: &WriterConfigEnum, mode: FileMerge) -> (r: Result<
        (),
        LoggingError,
    >)
        requires
            old(self).wf(),
            old(self).next_wid() < usize::MAX,
        ensures
            final(self).wf(),
            r is Ok <==> (!merge_adds(*old(self), *entry, mode) || entry is Root || config_accepted(
                *entry,
            )),
            r is Ok ==> merge_step(*old(self), *entry, mode, *final(self)),
            r matches Err(e) ==> e is InvalidEncryption && merge_step_failed(
                *old(self),
                *entry,
                mode,
                *final(self),
            ),
    {
        match entry {
            WriterConfigEnum::Root(rc) => {
                self.level = rc.level;
                self.domain = rc.domain.clone();
                self.hostname = clone_opt_string(&rc.hostname);
                self.tname = rc.tname;
                self.tid = rc.tid;
                self.structured = rc.structured;
                self.level2sym = rc.level2sym;
                Ok(())
            },
            _ => {
                let kind = merge_kind(entry);
                let hits = self.wids_selected(&Selector::Merged(kind));
                let ghost a = *self;
                proof {
                    assert forall|w: usize| #[trigger] hits@.contains(w) <==> merge_hit(a, *entry, w) by {
                        if a.writer(w) is Some {
                            assert(filter_matches(kind, a.writer(w)->0) == merge_meets(*entry, a.writer(w)->0));
                        }
                    }
                    assert(a.writer(a.next_wid()) is None) by {
                        if a.writer(a.next_wid()) is Some {
                            crate::instance::lemma_lookup_present(a.writers@, a.next_wid());
                        }
                    }
                }
                match mode {
                    FileMerge::MergeReplace => {
                        self.remove_writers(Some(hits));
                        self.add_writer_config(entry)?;
                        Ok(())
                    },
                    FileMerge::Merge => {
                        if hits.len() == 0 {
                            proof {
                                assert forall|w: usize| !#[trigger] merge_hit(a, *entry, w) by {
                                    if merge_hit(a, *entry, w) {
                                        assert(hits@.contains(w));
                                    }
                                }
                            }
                            self.add_writer_config(entry)?;
                        } else {
                            proof {
                                assert(hits@.contains(hits@[0]));
                                assert(merge_hit(a, *entry, hits@[0]));
                            }
                        }
                        Ok(())
                    },
                    FileMerge::Replace => {
                        self.add_writer_config(entry)?;
                        Ok(())
                    },
                }
            },
        }
    }
}

/// Whether `path` names a regular file on disk, from
/// `std::path::Path::is_file`; what is on disk is not stated.
#[verifier::external_body]
fn path_is_file(path: &str) -> (r: bool) {
    std::path::Path::new(path).is_file()
}

impl ConfigFile {
    /// Merges the file's contents into `instance` when its path names a
    /// file on disk (see [`ConfigFile::merge_found`]); a file that was never
    /// loaded (an empty path) or is no longer there changes nothing.
    pub fn merge(&self, instance: &mut LoggingInstance, mode: FileMerge) -> (r: Result<
        (),
        LoggingError,
    >)
        requires
            old(instance).wf(),
            old(instance).next_wid() + self.config.configs@.len() < usize::MAX,
        ensures
            final(instance).wf(),
            self.path@.len() == 0 ==> r is Ok && *final(instance) == *old(instance),
            r is Ok ==> *final(instance) == *old(instance) || exists|states: Seq<LoggingInstance>| #[trigger] merge_run(*old(instance), self.config, mode, states)
                && states.last() == *final(instance),
            (forall|i: int| 0 <= i < self.config.configs@.len() ==> config_accepted(
                #[trigger] self.config.configs@[i],
            )) ==> r is Ok,
            r matches Err(e) ==> e is InvalidEncryption,
            r is Err ==> exists|states: Seq<LoggingInstance>, k: int| #[trigger] merge_run_failed(
                *old(instance),
                self.config,
                mode,
                states,
                k,
                *final(instance),
            ),
    {
        if self.path.as_str().is_empty() {
            return Ok(());
        }
        let found = path_is_file(self.path.as_str());
        self.merge_found(instance, mode, found)
    }

    /// Merges the file's contents into `instance`, where `found` tells
    /// whether the file's path names a file on disk: the prelude of the
    /// mode, then each entry in order. An entry whose writer cannot be set
    /// up (an AES key that `ring` refuses) ends the merge with its error. A
    /// file that was never loaded (an empty path) or not found changes
    /// nothing.
    pub fn merge_found(&self, instance: &mut LoggingInstance, mode: FileMerge, found: bool) -> (r: Result<
        (),
        LoggingError,
    >)
        requires
            old(instance).wf(),
            old(instance).next_wid() + self.config.configs@.len() < usize::MAX,
        ensures
            final(instance).wf(),
            self.path@.len() == 0 || !found ==> r is Ok && *final(instance) == *old(instance),
            self.path@.len() > 0 && found && r is Ok ==> exists|states: Seq<LoggingInstance>| #[trigger] merge_run(*old(instance), self.config, mode, states)
                && states.last() == *final(instance),
            (forall|i: int| 0 <= i < self.config.configs@.len() ==> config_accepted(
                #[trigger] self.config.configs@[i],
            )) ==> r is Ok,
            r matches Err(e) ==> e is InvalidEncryption,
            r is Err ==> exists|states: Seq<LoggingInstance>, k: int| #[trigger] merge_run_failed(
                *old(instance),
                self.config,
                mode,
                states,
                k,
                *final(instance),
            ),
    {
        if self.path.as_str().is_empty() || !found {
            return Ok(());
        }
        let f = &self.config;
        let ghost a = *instance;
        match mode {
            FileMerge::Replace => {
                instance.level = f.level;
                instance.domain = f.domain.clone();
                instance.hostname = clone_opt_string(&f.hostname);
                instance.tname = f.tname;
                instance.tid = f.tid;
                instance.structured = f.structured;
                instance.level2sym = f.level2sym;
                instance.remove_writers(None);
            },
            _ => {
                if f.level != NOTSET {
                    instance.level = f.level;
                }
                if !f.domain.as_str().is_empty() {
                    instance.domain = f.domain.clone();
                }
                match &f.hostname {
                    Some(h) => {
                        instance.hostname = Some(h.clone());
                    },
                    None => {},
                }
            },
        }
        let ghost mut states: Seq<LoggingInstance> = seq![*instance];
        assert(merge_prelude(a, *f, mode, states[0]));
        let mut i: usize = 0;
        while i < f.configs.len()
            invariant
                instance.wf(),
                i <= f.configs@.len(),
                *f == self.config,
                a == *old(instance),
                self.path@.len() > 0,
                found,
                instance.next_wid() + f.configs@.len() - i < usize::MAX,
                states.len() == i + 1,
                states.last() == *instance,
                merge_prelude(a, *f, mode, states[0]),
                forall|j: int| 0 <= j < i ==> #[trigger] merge_step(states[j], f.configs@[j], mode, states[j + 1]),
            decreases f.configs@.len() - i,
        {
            let ghost before = *instance;
            match instance.merge_entry(&f.configs[i], mode) {
                Ok(()) => {},
                Err(e) => {
                    assert(merge_run_failed(*old(instance), self.config, mode, states, i as int, *instance));
                    return Err(e);
                },
            }
            proof {
                let s0 = states;
                states = states.push(*instance);
                assert forall|j: int| 0 <= j < i + 1 implies #[trigger] merge_step(states[j], f.configs@[j], mode, states[j + 1]) by {
                    if j < i {
                        assert(states[j] == s0[j]);
                        assert(states[j + 1] == s0[j + 1]);
                    }
                }
            }
            i = i + 1;
        }
        assert(merge_run(a, *f, mode, states));
        Ok(())
    }
}


/// The configurations of the listed writers of a registry, in
/// registration order.
pub open spec fn listed_configs(s: Seq<(usize, WriterConfigEnum)>) -> Seq<WriterConfigEnum>
    decreases s.len(),
{
    if s.len() == 0 {
        Seq::empty()
    } else if s.last().1 is Root {
        listed_configs(s.drop_last())
    } else {
        listed_configs(s.drop_last()).push(s.last().1)
    }
}

/// Whether `f` holds what saving instance `a` writes: its settings and
/// its listed writers in registration order.
pub open spec fn saved_from(a: LoggingInstance, f: FileConfig) -> bool {
    &&& f.level == a.level
    &&& f.domain == a.domain
    &&& f.hostname == a.hostname
    &&& f.pname == a.pname
    &&& f.pid == a.pid
    &&& f.tname == a.tname
    &&& f.tid == a.tid
    &&& f.structured == a.structured
    &&& f.level2sym == a.level2sym
    &&& f.configs@.len() == listed_configs(a.writers@).len()
    &&& forall|i: int|
        0 <= i < f.configs@.len() ==> #[trigger] f.configs@[i].same_as(listed_configs(a.writers@)[i])
}

/// The listed configurations of a registry hold no root configuration.
pub proof fn lemma_listed_configs_not_root(s: Seq<(usize, WriterConfigEnum)>)
    ensures
        forall|i: int| 0 <= i < listed_configs(s).len() ==> !(#[trigger] listed_configs(s)[i] is Root),
    decreases s.len(),
{
    if s.len() > 0 {
        lemma_listed_configs_not_root(s.drop_last());
        let front = listed_configs(s.drop_last());
        if !(s.last().1 is Root) {
            assert forall|i: int| 0 <= i < listed_configs(s).len() implies !(
            #[trigger] listed_configs(s)[i] is Root) by {
                if i < front.len() {
                    assert(listed_configs(s)[i] == front[i]);
                }
            }
        }
    }
}

impl ConfigFile {
    /// A configuration file at `path` with the settings and the listed
    /// writers of `instance`, in registration order.
    pub fn from_instance(path: String, instance: &LoggingInstance) -> (r: ConfigFile)
        ensures
            r.path == path,
            r.config.level == instance.level,
            r.config.domain == instance.domain,
            r.config.hostname == instance.hostname,
            r.config.pname == instance.pname,
            r.config.pid == instance.pid,
            r.config.tname == instance.tname,
            r.config.tid == instance.tid,
            r.config.structured == instance.structured,
            r.config.level2sym == instance.level2sym,
            r.config.configs@.len() == listed_configs(instance.writers@).len(),
            forall|i: int|
                0 <= i < r.config.configs@.len() ==> #[trigger] r.config.configs@[i].same_as(
                    listed_configs(instance.writers@)[i],
                ),
            saved_from(*instance, r.config),
    {
        let mut configs: Vec<WriterConfigEnum> = Vec::new();
        let mut i: usize = 0;
        while i < instance.writers.len()
            invariant
                i <= instance.writers@.len(),
                configs@.len() == listed_configs(instance.writers@.take(i as int)).len(),
                forall|k: int|
                    0 <= k < configs@.len() ==> #[trigger] configs@[k].same_as(
                        listed_configs(instance.writers@.take(i as int))[k],
                    ),
            decreases instance.writers@.len() - i,
        {
            let ghost s = instance.writers@;
            proof {
                assert(s.take(i + 1).drop_last() =~= s.take(i as int));
            }
            match &instance.writers[i].1 {
                WriterConfigEnum::Root(_) => {},
                c => {
                    configs.push(c.duplicate());
                },
            }
            i = i + 1;
        }
        assert(instance.writers@.take(i as int) =~= instance.writers@);
        ConfigFile {
            path,
            config: FileConfig {
                level: instance.level,
                domain: instance.domain.clone(),
                hostname: clone_opt_string(&instance.hostname),
                pname: instance.pname.clone(),
                pid: instance.pid,
                tname: instance.tname,
                tid: instance.tid,
                structured: instance.structured,
                level2sym: instance.level2sym,
                configs,
            },
        }
    }
}

/// The writer kinds a configuration file has one slot each for when an
/// instance is set up from it.
#[derive(Debug, Clone, Copy, PartialEq, Eq, Structural)]
pub enum WriterSlot {
    Console,
    File,
    Client,
    Server,
}

pub open spec fn in_slot(slot: WriterSlot, c: WriterConfigEnum) -> bool {
    match slot {
        WriterSlot::Console => c is Console,
        WriterSlot::File => c is File,
        WriterSlot::Client => c is Client,
        WriterSlot::Server => c is Server,
    }
}

fn in_slot_exec(slot: WriterSlot, c: &WriterConfigEnum) -> (r: bool)
    ensures
        r == in_slot(slot, *c),
{
    match slot {
        WriterSlot::Console => matches!(c, WriterConfigEnum::Console(_)),
        WriterSlot::File => matches!(c, WriterConfigEnum::File(_)),
        WriterSlot::Client => matches!(c, WriterConfigEnum::Client(_)),
        WriterSlot::Server => matches!(c, WriterConfigEnum::Server(_)),
    }
}

/// The index of the first entry of a slot.
pub open spec fn first_in_slot(configs: Seq<WriterConfigEnum>, slot: WriterSlot) -> Option<int>
    decreases configs.len(),
{
    if configs.len() == 0 {
        None
    } else if in_slot(slot, configs.last()) && first_in_slot(configs.drop_last(), slot) is None {
        Some(configs.len() - 1)
    } else {
        first_in_slot(configs.drop_last(), slot)
    }
}

proof fn lemma_first_in_slot(configs: Seq<WriterConfigEnum>, slot: WriterSlot, i: int)
    requires
        0 <= i <= configs.len(),
        forall|j: int| 0 <= j < i ==> !in_slot(slot, #[trigger] configs[j]),
    ensures
        i < configs.len() && in_slot(slot, configs[i]) ==> first_in_slot(configs, slot) == Some(i),
        i == configs.len() ==> first_in_slot(configs, slot) is None,
    decreases configs.len(),
{
    if configs.len() > 0 {
        if i < configs.len() {
            if i < configs.len() - 1 {
                lemma_first_in_slot(configs.drop_last(), slot, i);
            } else {
                lemma_first_in_slot(configs.drop_last(), slot, i);
            }
        } else {
            lemma_first_in_slot(configs.drop_last(), slot, i - 1);
        }
    }
}

fn find_slot(configs: &Vec<WriterConfigEnum>, slot: WriterSlot) -> (r: Option<usize>)
    ensures
        r matches Some(i) ==> i < configs@.len() && in_slot(slot, configs@[i as int])
            && first_in_slot(configs@, slot) == Some(i as int),
        r is None ==> first_in_slot(configs@, slot) is None,
{
    let mut i: usize = 0;
    while i < configs.len()
        invariant
            i <= configs@.len(),
            forall|j: int| 0 <= j < i ==> !in_slot(slot, #[trigger] configs@[j]),
        decreases configs@.len() - i,
    {
        if in_slot_exec(slot, &configs[i]) {
            proof {
                lemma_first_in_slot(configs@, slot, i as int);
            }
            return Some(i);
        }
        i = i + 1;
    }
    proof {
        lemma_first_in_slot(configs@, slot, i as int);
    }
    None
}

/// The configuration a slot is set up with: the given one, else the file's
/// first entry of the slot, if any.
pub open spec fn slot_choice(given: Option<WriterConfigEnum>, file: Seq<WriterConfigEnum>, slot: WriterSlot) -> Option<WriterConfigEnum> {
    match given {
        Some(c) => Some(c),
        None => match first_in_slot(file, slot) {
            Some(i) => Some(file[i]),
            None => None,
        },
    }
}

/// The file's entries after a given configuration took over its slot: it
/// replaces the slot's first entry, or is appended.
pub open spec fn slot_recorded(file: Seq<WriterConfigEnum>, c: WriterConfigEnum, slot: WriterSlot) -> Seq<WriterConfigEnum> {
    match first_in_slot(file, slot) {
        Some(i) => file.update(i, c),
        None => file.push(c),
    }
}

/// The writers an instance is set up with, in order: console, file, client
/// and server, each where [`slot_choice`] gives one.
pub open spec fn chosen_writers(
    file: Seq<WriterConfigEnum>,
    console: Option<WriterConfigEnum>,
    filew: Option<WriterConfigEnum>,
    connect: Option<WriterConfigEnum>,
    server: Option<WriterConfigEnum>,
) -> Seq<WriterConfigEnum> {
    opt_seq(slot_choice(console, file, WriterSlot::Console)) + opt_seq(
        slot_choice(filew, file, WriterSlot::File),
    ) + opt_seq(slot_choice(connect, file, WriterSlot::Client)) + opt_seq(
        slot_choice(server, file, WriterSlot::Server),
    )
}

pub open spec fn opt_seq(c: Option<WriterConfigEnum>) -> Seq<WriterConfigEnum> {
    match c {
        Some(x) => seq![x],
        None => Seq::empty(),
    }
}

pub open spec fn as_console(c: Option<crate::console::ConsoleWriterConfig>) -> Option<WriterConfigEnum> {
    match c {
        Some(x) => Some(WriterConfigEnum::Console(x)),
        None => None,
    }
}

pub open spec fn as_file(c: Option<crate::file::FileWriterConfig>) -> Option<WriterConfigEnum> {
    match c {
        Some(x) => Some(WriterConfigEnum::File(x)),
        None => None,
    }
}

pub open spec fn as_client(c: Option<crate::net::ClientWriterConfig>) -> Option<WriterConfigEnum> {
    match c {
        Some(x) => Some(WriterConfigEnum::Client(x)),
        None => None,
    }
}

pub open spec fn as_server(c: Option<crate::net::ServerConfig>) -> Option<WriterConfigEnum> {
    match c {
        Some(x) => Some(WriterConfigEnum::Server(x)),
        None => None,
    }
}

/// The writers an instance is set up with from file entries `file` and
/// the given console, file, client and server configurations.
pub open spec fn init_chosen(
    file: Seq<WriterConfigEnum>,
    console: Option<crate::console::ConsoleWriterConfig>,
    filew: Option<crate::file::FileWriterConfig>,
    connect: Option<crate::net::ClientWriterConfig>,
    server: Option<crate::net::ServerConfig>,
) -> Seq<WriterConfigEnum> {
    chosen_writers(file, as_console(console), as_file(filew), as_client(connect), as_server(server))
}

/// The file's entries after the given configurations took over their
/// slots, console first, then file, client and server.
pub open spec fn all_recorded(
    file: Seq<WriterConfigEnum>,
    console: Option<WriterConfigEnum>,
    filew: Option<WriterConfigEnum>,
    connect: Option<WriterConfigEnum>,
    server: Option<WriterConfigEnum>,
) -> Seq<WriterConfigEnum> {
    let f1 = opt_recorded(file, console, WriterSlot::Console);
    let f2 = opt_recorded(f1, filew, WriterSlot::File);
    let f3 = opt_recorded(f2, connect, WriterSlot::Client);
    opt_recorded(f3, server, WriterSlot::Server)
}

pub open spec fn opt_recorded(file: Seq<WriterConfigEnum>, given: Option<WriterConfigEnum>, slot: WriterSlot) -> Seq<WriterConfigEnum> {
    match given {
        Some(c) => slot_recorded(file, c, slot),
        None => file,
    }
}

/// Configurations that agree are accepted alike.
proof fn lemma_accepted_same_as(c1: WriterConfigEnum, c2: WriterConfigEnum)
    requires
        c1.same_as(c2),
    ensures
        config_accepted(c1) == config_accepted(c2),
{
    match (c1, c2) {
        (WriterConfigEnum::Client(x), WriterConfigEnum::Client(y)) => {
            assert(x.key@ == y.key@);
            match (x.key, y.key) {
                (crate::encryption::EncryptionMethod::AES(a), crate::encryption::EncryptionMethod::AES(b)) => {
                    assert(a@ == b@);
                },
                _ => {},
            }
        },
        (WriterConfigEnum::Server(x), WriterConfigEnum::Server(y)) => {
            assert(x.key@ == y.key@);
            match (x.key, y.key) {
                (crate::encryption::EncryptionMethod::AES(a), crate::encryption::EncryptionMethod::AES(b)) => {
                    assert(a@ == b@);
                },
                _ => {},
            }
        },
        _ => {},
    }
}

proof fn lemma_chosen_accepted(chosen: Seq<WriterConfigEnum>, spec: Seq<WriterConfigEnum>)
    requires
        chosen.len() == spec.len(),
        forall|i: int| 0 <= i < chosen.len() ==> #[trigger] chosen[i].same_as(spec[i]),
    ensures
        (forall|i: int| 0 <= i < chosen.len() ==> config_accepted(#[trigger] chosen[i])) <==> (forall|i: int|
            0 <= i < spec.len() ==> config_accepted(#[trigger] spec[i])),
{
    assert forall|i: int| 0 <= i < chosen.len() implies config_accepted(#[trigger] chosen[i]) == config_accepted(spec[i]) by {
        lemma_accepted_same_as(chosen[i], spec[i]);
    }
    assert forall|i: int| 0 <= i < spec.len() implies config_accepted(#[trigger] spec[i]) == config_accepted(chosen[i]) by {
        lemma_accepted_same_as(chosen[i], spec[i]);
    }
}

proof fn lemma_chosen_stored(
    inst: LoggingInstance,
    chosen: Seq<WriterConfigEnum>,
    spec: Seq<WriterConfigEnum>,
    wids: Seq<usize>,
    key: Seq<u8>,
)
    requires
        chosen.len() == spec.len(),
        wids.len() == chosen.len(),
        forall|i: int| 0 <= i < chosen.len() ==> #[trigger] chosen[i].same_as(spec[i]),
        forall|i: int| 0 <= i < wids.len() ==> #[trigger] wids[i] == 1 + i,
        forall|i: int| 0 <= i < wids.len() ==> holds_stored(#[trigger] inst.writer(wids[i]), chosen[i], key),
    ensures
        forall|i: int| 0 <= i < spec.len() ==> holds_stored(#[trigger] inst.writer((1 + i) as usize), spec[i], key),
{
    assert forall|i: int| 0 <= i < spec.len() implies holds_stored(#[trigger] inst.writer((1 + i) as usize), spec[i], key) by {
        assert(wids[i] == 1 + i);
        assert(holds_stored(inst.writer(wids[i]), chosen[i], key));
        lemma_stored_same_as(chosen[i], spec[i], key, inst.writer(wids[i])->0);
    }
}

/// Storing configurations that agree keeps the same.
proof fn lemma_stored_same_as(c1: WriterConfigEnum, c2: WriterConfigEnum, key: Seq<u8>, s: WriterConfigEnum)
    requires
        c1.same_as(c2),
        stored_config(c1, key, s),
    ensures
        stored_config(c2, key, s),
{
}

impl ConfigFile {
    #[verifier::spinoff_prover]
    fn choose_slot(&self, given: &Option<WriterConfigEnum>, slot: WriterSlot) -> (r: Option<WriterConfigEnum>)
        requires
            *given matches Some(c) ==> in_slot(slot, c),
        ensures
            r matches Some(y) ==> in_slot(slot, y),
            slot_choice(*given, self.config.configs@, slot) is None ==> r is None,
            slot_choice(*given, self.config.configs@, slot) is Some ==> (r is Some && r->0.same_as(
                slot_choice(*given, self.config.configs@, slot)->0,
            )),
    {
        match given {
            Some(c) => {
                Some(c.duplicate())
            },
            None => match find_slot(&self.config.configs, slot) {
                Some(i) => Some(self.config.configs[i].duplicate()),
                None => None,
            },
        }
    }

    #[verifier::spinoff_prover]
    fn record_slot(&mut self, given: Option<WriterConfigEnum>, slot: WriterSlot)
        ensures
            final(self).path == old(self).path,
            final(self).config.level == old(self).config.level,
            final(self).config.domain == old(self).config.domain,
            final(self).config.hostname == old(self).config.hostname,
            final(self).config.pname == old(self).config.pname,
            final(self).config.pid == old(self).config.pid,
            final(self).config.tname == old(self).config.tname,
            final(self).config.tid == old(self).config.tid,
            final(self).config.structured == old(self).config.structured,
            final(self).config.level2sym == old(self).config.level2sym,
            final(self).config.configs@ == opt_recorded(old(self).config.configs@, given, slot),
    {
        match given {
            Some(c) => {
                let ghost old_configs = self.config.configs@;
                let pos = find_slot(&self.config.configs, slot);
                match pos {
                    Some(i) => {
                        assert(first_in_slot(old_configs, slot) == Some(i as int));
                        self.config.configs.set(i, c);
                        assert(self.config.configs@ == old_configs.update(i as int, c));
                        assert(self.config.configs@ == slot_recorded(old_configs, c, slot));
                    },
                    None => {
                        assert(first_in_slot(old_configs, slot) is None);
                        self.config.configs.push(c);
                        assert(self.config.configs@ == slot_recorded(old_configs, c, slot));
                    },
                }
                assert(self.config.configs@ == opt_recorded(old_configs, given, slot));
            },
            None => {},
        }
    }

    /// Sets up a logging instance from the file's contents and the given
    /// settings, which take precedence: the level and domain; one console,
    /// file, client and server writer each, the given one (which the file
    /// then records in the slot's first entry, or appends) or else the
    /// file's first of that kind; the extended settings; and a syslog
    /// writer of the given level, which also makes the file keep the
    /// instance's message structure. Host name, process name, process id
    /// and message structure start from the file.
    #[verifier::spinoff_prover]
    pub fn init(
        &mut self,
        level: Option<u8>,
        domain: Option<String>,
        ext_config: Option<crate::config::ExtConfig>,
        console: Option<crate::console::ConsoleWriterConfig>,
        file: Option<crate::file::FileWriterConfig>,
        server: Option<crate::net::ServerConfig>,
        connect: Option<crate::net::ClientWriterConfig>,
        syslog: Option<u8>,
        auth_key: &[u8],
        pname: String,
        pid: u32,
    ) -> (r: Result<LoggingInstance, LoggingError>)
        ensures
            final(self).config.configs@ == all_recorded(
                old(self).config.configs@,
                as_console(console),
                as_file(file),
                as_client(connect),
                as_server(server),
            ),
            final(self).path == old(self).path,
            final(self).config.level == old(self).config.level,
            final(self).config.domain == old(self).config.domain,
            r is Ok <==> (forall|i: int|
                0 <= i < init_chosen(old(self).config.configs@, console, file, connect, server).len()
                    ==> config_accepted(
                    #[trigger] init_chosen(old(self).config.configs@, console, file, connect, server)[i],
                )),
            r matches Err(e) ==> e is InvalidEncryption,
            r matches Ok(inst) ==> inst.wf() && inst.auth_key() == auth_key@,
            r matches Ok(inst) ==> inst.level == (match level {
                Some(l) => l,
                None => old(self).config.level,
            }) && inst.domain == (match domain {
                Some(d) => d,
                None => old(self).config.domain,
            }),
            r matches Ok(inst) ==> (ext_config is None ==> {
                &&& inst.hostname == old(self).config.hostname
                &&& inst.pname == old(self).config.pname
                &&& inst.pid == old(self).config.pid
                &&& inst.structured == old(self).config.structured
                &&& !inst.tname && !inst.tid
            }),
            r matches Ok(inst) ==> (ext_config matches Some(x) ==> {
                &&& inst.structured == x.structured
                &&& inst.tname == x.tname && inst.tid == x.tid
                &&& inst.pid == (if x.pid {
                    pid
                } else {
                    0
                })
                &&& inst.pname@ == (if x.pname {
                    pname@
                } else {
                    Seq::empty()
                })
                &&& !x.hostname ==> inst.hostname is None
            }),
            r matches Ok(inst) ==> forall|i: int|
                0 <= i < init_chosen(old(self).config.configs@, console, file, connect, server).len()
                    ==> holds_stored(
                    #[trigger] inst.writer((1 + i) as usize),
                    init_chosen(old(self).config.configs@, console, file, connect, server)[i],
                    auth_key@,
                ),
            r matches Ok(inst) ==> (syslog is None ==> inst.next_wid() == 1 + init_chosen(
                old(self).config.configs@,
                console,
                file,
                connect,
                server,
            ).len() && final(self).config.structured == old(self).config.structured),
            r matches Ok(inst) ==> (syslog matches Some(l) ==> {
                let n = init_chosen(old(self).config.configs@, console, file, connect, server).len();
                &&& inst.next_wid() == 2 + n
                &&& final(self).config.structured == inst.structured
                &&& inst.writer((1 + n) as usize) matches Some(WriterConfigEnum::Syslog(y))
                &&& y.level == l && y.enabled && y.hostname == inst.hostname && y.process@ == inst.pname@
                    && y.pid == inst.pid
            }),
    {
        let cw = match console {
            Some(c) => Some(WriterConfigEnum::Console(c)),
            None => None,
        };
        let fw = match file {
            Some(c) => Some(WriterConfigEnum::File(c)),
            None => None,
        };
        let nw = match connect {
            Some(c) => Some(WriterConfigEnum::Client(c)),
            None => None,
        };
        let sw = match server {
            Some(c) => Some(WriterConfigEnum::Server(c)),
            None => None,
        };
        let chosen = self.chosen_configs(&cw, &fw, &nw, &sw);
        self.record_slot(cw, WriterSlot::Console);
        self.record_slot(fw, WriterSlot::File);
        self.record_slot(nw, WriterSlot::Client);
        self.record_slot(sw, WriterSlot::Server);
        let mut inst = self.base_instance(level, domain, auth_key);
        let ghost chosen_spec = init_chosen(old(self).config.configs@, console, file, connect, server);
        let wids = match inst.add_writer_configs(chosen.as_slice()) {
            Ok(w) => w,
            Err(e) => {
                proof {
                    lemma_chosen_accepted(chosen@, chosen_spec);
                }
                return Err(e);
            },
        };
        proof {
            lemma_chosen_accepted(chosen@, chosen_spec);
            lemma_chosen_stored(inst, chosen@, chosen_spec, wids@, auth_key@);
        }
        let ghost after_add = inst;
        match ext_config {
            Some(x) => inst.set_ext_config(&x, pname, pid),
            None => {},
        }
        proof {
            assert(inst.writers == after_add.writers);
            assert forall|i: int| 0 <= i < chosen_spec.len() implies holds_stored(
                #[trigger] inst.writer((1 + i) as usize),
                chosen_spec[i],
                auth_key@,
            ) by {
                assert(inst.writer((1 + i) as usize) == after_add.writer((1 + i) as usize));
            }
        }
        match syslog {
            Some(l) => {
                self.config.structured = inst.structured;
                let sc = crate::syslog::SyslogWriterConfig::new(
                    l,
                    clone_opt_string(&inst.hostname),
                    inst.pname.as_str(),
                    inst.pid,
                );
                let ghost before = inst;
                assert(before.writers == after_add.writers);
                let w = match inst.add_writer_config(&WriterConfigEnum::Syslog(sc)) {
                    Ok(w) => w,
                    Err(e) => {
                        return Err(e);
                    },
                };
                proof {
                    assert(w == 1 + chosen_spec.len());
                    assert forall|i: int| 0 <= i < chosen_spec.len() implies holds_stored(
                        #[trigger] inst.writer((1 + i) as usize),
                        chosen_spec[i],
                        auth_key@,
                    ) by {
                        assert((1 + i) as usize != w);
                        assert(before.writer((1 + i) as usize) == inst.writer((1 + i) as usize));
                        assert(before.writer((1 + i) as usize) == after_add.writer((1 + i) as usize));
                    }
                }
            },
            None => {},
        }
        Ok(inst)
    }

    /// What the slots are set up with, copied.
    fn chosen_configs(
        &self,
        cw: &Option<WriterConfigEnum>,
        fw: &Option<WriterConfigEnum>,
        nw: &Option<WriterConfigEnum>,
        sw: &Option<WriterConfigEnum>,
    ) -> (r: Vec<WriterConfigEnum>)
        requires
            *cw matches Some(c) ==> c is Console,
            *fw matches Some(c) ==> c is File,
            *nw matches Some(c) ==> c is Client,
            *sw matches Some(c) ==> c is Server,
        ensures
            forall|i: int| 0 <= i < r@.len() ==> !(#[trigger] r@[i] is Root),
            r@.len() == chosen_writers(self.config.configs@, *cw, *fw, *nw, *sw).len(),
            forall|i: int|
                0 <= i < r@.len() ==> #[trigger] r@[i].same_as(
                    chosen_writers(self.config.configs@, *cw, *fw, *nw, *sw)[i],
                ),
    {
        let mut chosen: Vec<WriterConfigEnum> = Vec::new();
        let c1 = self.choose_slot(cw, WriterSlot::Console);
        let c2 = self.choose_slot(fw, WriterSlot::File);
        let c3 = self.choose_slot(nw, WriterSlot::Client);
        let c4 = self.choose_slot(sw, WriterSlot::Server);
        match c1 {
            Some(c) => chosen.push(c),
            None => {},
        }
        match c2 {
            Some(c) => chosen.push(c),
            None => {},
        }
        match c3 {
            Some(c) => chosen.push(c),
            None => {},
        }
        match c4 {
            Some(c) => chosen.push(c),
            None => {},
        }
        chosen
    }

    /// An instance with the given level and domain, else the file's, and
    /// the file's host name, process name, process id and structure.
    fn base_instance(&self, level: Option<u8>, domain: Option<String>, auth_key: &[u8]) -> (r: LoggingInstance)
        ensures
            r.wf(),
            r.auth_key() == auth_key@,
            r.next_wid() == 1,
            forall|w: usize| #[trigger] r.writer(w) is None,
            r.level == (match level {
                Some(l) => l,
                None => self.config.level,
            }),
            r.domain == (match domain {
                Some(d) => d,
                None => self.config.domain,
            }),
            r.hostname == self.config.hostname,
            r.pname == self.config.pname,
            r.pid == self.config.pid,
            r.structured == self.config.structured,
            !r.tname && !r.tid,
            r.debug == 0,
    {
        let lvl = match level {
            Some(l) => l,
            None => self.config.level,
        };
        let dom = match domain {
            Some(d) => d,
            None => self.config.domain.clone(),
        };
        let mut inst = LoggingInstance::new(lvl, dom, auth_key);
        inst.hostname = clone_opt_string(&self.config.hostname);
        inst.pname = self.config.pname.clone();
        inst.pid = self.config.pid;
        inst.structured = self.config.structured;
        inst
    }
}


} // verus!
