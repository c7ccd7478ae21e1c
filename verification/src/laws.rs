//! Properties of the library that span several of its functions.

use vstd::prelude::*;

use crate::config::{FileConfig, FileMerge};
use crate::def::{LoggingTypeEnum, RootConfig, WriterConfigEnum};
use crate::dispatch::WorkerAction;
use crate::encryption::{key_bytes, method_code, EncryptionMethod};
use crate::error::LoggingError;
use crate::file::FileWriterConfig;
use crate::instance::{
    any_type_matches_spec, holds_stored, receives, lemma_lookup_index, lemma_lookup_present, listed, removal_ids, removed_configs,
    stored_config, with_enabled, with_level, LoggingInstance,
};
use crate::logging::{added, removed, removed_all, switched};
use crate::merge::{
    lemma_listed_configs_not_root, listed_configs, merge_hit, merge_run, merge_step, saved_from,
};
use crate::net::{
    address_port, connect_address, join_address_port, local_address, port_file_bytes_spec,
    port_file_read, port_text_valid,
};
use crate::text::{dec, lemma_after_last_joined, lemma_dec_reads_back, unsigned_digits};
use crate::writers::{after_rotation_check, FileStep};

verus! {

/// Whether a writer configuration is switched on.
pub open spec fn is_enabled(c: WriterConfigEnum) -> bool {
    match c {
        WriterConfigEnum::Console(x) => x.enabled,
        WriterConfigEnum::File(x) => x.enabled,
        WriterConfigEnum::Client(x) => x.enabled,
        WriterConfigEnum::Callback(x) => x.enabled,
        WriterConfigEnum::Syslog(x) => x.enabled,
        _ => true,
    }
}

/// Law: a writer added to an instance is listed under the id it was given
/// and holds what the instance keeps for its configuration; that id was
/// free before, so ids are never reused.
pub proof fn law_added_writer_is_listed(
    a: LoggingInstance,
    b: LoggingInstance,
    c: WriterConfigEnum,
    wid: usize,
)
    requires
        a.wf(),
        added(a, b, c, Ok(wid)),
        !(c is Root),
    ensures
        a.writer(wid) is None,
        listed(b.writer(wid)),
        stored_config(c, a.auth_key(), b.writer(wid)->0),
{
    if a.writer(wid) is Some {
        lemma_lookup_present(a.writers@, wid);
    }
}

/// Law: after a root configuration is added, the instance's settings read
/// back as a root configuration are that configuration.
pub proof fn law_root_config_read_back(
    a: LoggingInstance,
    b: LoggingInstance,
    rc: RootConfig,
    wid: usize,
)
    requires
        added(a, b, WriterConfigEnum::Root(rc), Ok(wid)),
    ensures
        b.root_settings() == rc,
{
}

/// Law: a removed writer is no longer listed, and the removal gives back
/// what was registered under its id.
pub proof fn law_removed_writer_is_gone(
    a: LoggingInstance,
    b: LoggingInstance,
    wid: usize,
    r: Option<WriterConfigEnum>,
)
    requires
        removed(a, b, wid, r),
    ensures
        !listed(b.writer(wid)),
        b.writer(wid) is None,
        r == a.writer(wid),
{
}

/// Law: removing the writers without naming any removes them all.
pub proof fn law_remove_all_empties(a: LoggingInstance, b: LoggingInstance, w: usize)
    requires
        removed_all(a, b, None),
    ensures
        !listed(b.writer(w)),
{
}

/// The first `k` registered configurations come back, in order, from
/// removing the first `k` registered ids.
proof fn lemma_removed_prefix(a: LoggingInstance, k: int)
    requires
        a.wf(),
        0 <= k <= a.writers@.len(),
    ensures
        removed_configs(a, a.wids().take(k)) == a.writers@.take(k).map_values(
            |e: (usize, WriterConfigEnum)| e.1,
        ),
    decreases k,
{
    let ids = a.wids().take(k);
    if k > 0 {
        lemma_removed_prefix(a, k - 1);
        assert(ids.drop_last() =~= a.wids().take(k - 1));
        let w = a.writers@[k - 1].0;
        assert(ids.last() == w);
        assert(!a.wids().take(k - 1).contains(w)) by {
            if a.wids().take(k - 1).contains(w) {
                let j = choose|j: int| 0 <= j < k - 1 && #[trigger] a.wids().take(k - 1)[j] == w;
                assert(a.writers@[j].0 == w);
            }
        }
        lemma_lookup_index(a.writers@, k - 1);
        assert(a.writers@.take(k).map_values(|e: (usize, WriterConfigEnum)| e.1) =~= a.writers@.take(
            k - 1,
        ).map_values(|e: (usize, WriterConfigEnum)| e.1).push(a.writers@[k - 1].1));
    } else {
        assert(a.writers@.take(0).map_values(|e: (usize, WriterConfigEnum)| e.1) =~= Seq::empty());
    }
}

/// Law: removing the writers without naming any gives back every
/// registered configuration, in the order the writers were registered.
pub proof fn law_remove_all_returns_registered(a: LoggingInstance)
    requires
        a.wf(),
    ensures
        removed_configs(a, removal_ids(a, None)) == a.writers@.map_values(
            |e: (usize, WriterConfigEnum)| e.1,
        ),
{
    lemma_removed_prefix(a, a.writers@.len() as int);
    assert(a.wids().take(a.writers@.len() as int) =~= a.wids());
    assert(a.writers@.take(a.writers@.len() as int) =~= a.writers@);
}

/// Law: switching a writer off and on again gives back the writer as it
/// was, when it was switched on before.
pub proof fn law_disable_enable_restores(
    a: LoggingInstance,
    b: LoggingInstance,
    c: LoggingInstance,
    wid: usize,
    r1: Result<(), LoggingError>,
    r2: Result<(), LoggingError>,
)
    requires
        switched(a, b, wid, false, r1),
        switched(b, c, wid, true, r2),
        a.writer(wid) matches Some(x) && is_enabled(x),
    ensures
        r1 is Ok && r2 is Ok,
        c.writer(wid) == a.writer(wid),
        forall|w: usize| #[trigger] c.writer(w) == a.writer(w),
{
    let x = a.writer(wid)->0;
    assert(b.writer(wid) == Some(with_enabled(x, false)));
    assert(c.writer(wid) == Some(with_enabled(with_enabled(x, false), true)));
    assert(with_enabled(with_enabled(x, false), true) == x);
}

/// Law: a writer's level, once set, is the level it reports.
pub proof fn law_level_set_is_read_back(c: WriterConfigEnum, level: u8)
    requires
        !(c is Root),
    ensures
        with_level(c, level).level_spec() == level,
{
}

/// Law: after an entry is merged in `MergeReplace` mode, none of the
/// writers it met before is left; the only writer that can still meet it
/// is the one it added.
pub proof fn law_merge_replace_leaves_one(
    a: LoggingInstance,
    b: LoggingInstance,
    entry: WriterConfigEnum,
    w: usize,
)
    requires
        a.wf(),
        !(entry is Root),
        merge_step(a, entry, FileMerge::MergeReplace, b),
        w != a.next_wid(),
    ensures
        !merge_hit(b, entry, w),
{
}

/// Law: merging an entry in `Merge` mode into an instance that already has
/// a writer the entry meets changes nothing.
pub proof fn law_merge_keeps_existing(
    a: LoggingInstance,
    b: LoggingInstance,
    entry: WriterConfigEnum,
    w: usize,
)
    requires
        !(entry is Root),
        merge_hit(a, entry, w),
        merge_step(a, entry, FileMerge::Merge, b),
    ensures
        b.same_settings(a),
        b.next_wid() == a.next_wid(),
        forall|x: usize| x != a.next_wid() ==> #[trigger] b.writer(x) == a.writer(x),
{
}

/// The first `k` entries of a configuration saved from `a`, merged in
/// `Replace` mode into `b`, are the writers of the `k`-th state of the
/// run, under consecutive ids from `b`'s next id on.
proof fn lemma_restore_prefix(
    a: LoggingInstance,
    b: LoggingInstance,
    f: FileConfig,
    states: Seq<LoggingInstance>,
    k: int,
)
    requires
        saved_from(a, f),
        merge_run(b, f, FileMerge::Replace, states),
        0 <= k <= f.configs@.len(),
    ensures
        restored_upto(a, b, f, states[k], k),
    decreases k,
{
    if k > 0 {
        lemma_restore_prefix(a, b, f, states, k - 1);
        lemma_listed_configs_not_root(a.writers@);
        let e = f.configs@[k - 1];
        assert(e.same_as(listed_configs(a.writers@)[k - 1]));
        assert(!(listed_configs(a.writers@)[k - 1] is Root));
        assert(!(e is Root));
        let i = k - 1;
        assert(merge_step(states[i], f.configs@[i], FileMerge::Replace, states[i + 1]));
        assert(i + 1 == k);
    }
}

/// Whether `c` holds the settings of `a` and, under the `k` ids from `b`'s
/// next id on, the first `k` entries of `f` as `b` keeps them when added;
/// no other writer.
pub open spec fn restored_upto(
    a: LoggingInstance,
    b: LoggingInstance,
    f: FileConfig,
    c: LoggingInstance,
    k: int,
) -> bool {
    &&& c.level == a.level
    &&& c.domain == a.domain
    &&& c.hostname == a.hostname
    &&& c.tname == a.tname
    &&& c.tid == a.tid
    &&& c.structured == a.structured
    &&& c.level2sym == a.level2sym
    &&& c.auth_key() == b.auth_key()
    &&& c.next_wid() == b.next_wid() + k
    &&& forall|j: int|
        0 <= j < k ==> holds_stored(
            #[trigger] c.writer((b.next_wid() + j) as usize),
            f.configs@[j],
            b.auth_key(),
        )
    &&& forall|w: usize| (w < b.next_wid() || w >= b.next_wid() + k) ==> #[trigger] c.writer(w) is None
}

/// Law: a configuration saved from instance `a` and merged in `Replace`
/// mode into instance `b` gives `b` the settings of `a` and, under
/// consecutive ids from `b`'s next id on, the writers of `a` in the order
/// they were registered, as `b` keeps them when they are added.
pub proof fn law_saved_config_restores(
    a: LoggingInstance,
    b: LoggingInstance,
    f: FileConfig,
    states: Seq<LoggingInstance>,
)
    requires
        saved_from(a, f),
        merge_run(b, f, FileMerge::Replace, states),
    ensures
        restored_upto(a, b, f, states.last(), f.configs@.len() as int),
        forall|j: int|
            0 <= j < f.configs@.len() ==> #[trigger] f.configs@[j].same_as(listed_configs(a.writers@)[j]),
{
    lemma_restore_prefix(a, b, f, states, f.configs@.len() as int);
}

/// The level and domain of each message handed to writer `w` by the
/// actions `acts`, in order.
pub open spec fn handed_to(w: usize, acts: Seq<WorkerAction>) -> Seq<(u8, Seq<char>)>
    decreases acts.len(),
{
    if acts.len() == 0 {
        Seq::empty()
    } else {
        let front = handed_to(w, acts.drop_last());
        match acts.last() {
            WorkerAction::Deliver { level, domain, text: _, wids } => if wids@.contains(w) {
                front.push((level, domain@))
            } else {
                front
            },
            _ => front,
        }
    }
}

/// Whether an action names each writer it hands a message to only once.
pub open spec fn names_once(a: WorkerAction) -> bool {
    match a {
        WorkerAction::Deliver { wids, .. } => forall|j: int, k: int|
            0 <= j < k < wids@.len() ==> wids@[j] != wids@[k],
        _ => true,
    }
}

/// The level and domain of each message among `events` that a writer with
/// configuration `c` receives, in order.
pub open spec fn admitted(c: WriterConfigEnum, events: Seq<LoggingTypeEnum>) -> Seq<(u8, Seq<char>)>
    decreases events.len(),
{
    if events.len() == 0 {
        Seq::empty()
    } else {
        let front = admitted(c, events.drop_last());
        match events.last() {
            LoggingTypeEnum::Message((l, d, _)) => if receives(c, l) {
                front.push((l, d@))
            } else {
                front
            },
            LoggingTypeEnum::MessageExt((l, d, _, _, _)) => if receives(c, l) {
                front.push((l, d@))
            } else {
                front
            },
            LoggingTypeEnum::MessageRemote((l, d, _)) => if receives(c, l) {
                front.push((l, d@))
            } else {
                front
            },
            _ => front,
        }
    }
}

/// Law: when the logging thread handles a run of events with the writers
/// unchanged, writer `w` is handed, in the order they came and once each,
/// exactly the messages whose level it receives; each action names it at
/// most once.
pub proof fn law_delivery_in_order(
    inst: LoggingInstance,
    w: usize,
    c: WriterConfigEnum,
    events: Seq<LoggingTypeEnum>,
    dates: Seq<String>,
    acts: Seq<WorkerAction>,
)
    requires
        inst.writer(w) == Some(c),
        events.len() == acts.len(),
        dates.len() == acts.len(),
        forall|i: int| 0 <= i < acts.len() ==> #[trigger] inst.dispatched(events[i], dates[i], acts[i]),
    ensures
        handed_to(w, acts) == admitted(c, events),
        forall|i: int| 0 <= i < acts.len() ==> names_once(#[trigger] acts[i]),
    decreases acts.len(),
{
    if acts.len() > 0 {
        let n = acts.len() - 1;
        law_delivery_in_order(inst, w, c, events.drop_last(), dates.drop_last(), acts.drop_last());
        assert(inst.dispatched(events[n], dates[n], acts[n]));
        assert(acts.drop_last().len() == n);
    }
    assert forall|i: int| 0 <= i < acts.len() implies names_once(#[trigger] acts[i]) by {
        assert(inst.dispatched(events[i], dates[i], acts[i]));
    }
}

/// Law: when the logging thread meets a sync request, the request names
/// writer `w` exactly when one of its kinds covers `w`'s configuration,
/// and by then `w` has been handed, in order and once each, exactly the
/// messages before the request whose level it receives.
pub proof fn law_sync_after_delivery(
    inst: LoggingInstance,
    w: usize,
    c: WriterConfigEnum,
    events: Seq<LoggingTypeEnum>,
    dates: Seq<String>,
    acts: Seq<WorkerAction>,
    k: int,
)
    requires
        inst.writer(w) == Some(c),
        events.len() == acts.len(),
        dates.len() == acts.len(),
        forall|i: int| 0 <= i < acts.len() ==> #[trigger] inst.dispatched(events[i], dates[i], acts[i]),
        0 <= k < acts.len(),
        events[k] is Sync,
    ensures
        handed_to(w, acts.take(k)) == admitted(c, events.take(k)),
        events[k] matches LoggingTypeEnum::Sync((types, _)) && acts[k] matches WorkerAction::Sync {
            wids,
            ..
        } && (wids@.contains(w) <==> any_type_matches_spec(types@, c)),
{
    let e = events.take(k);
    let d = dates.take(k);
    let a = acts.take(k);
    assert forall|i: int| 0 <= i < a.len() implies #[trigger] inst.dispatched(e[i], d[i], a[i]) by {
        assert(inst.dispatched(events[i], dates[i], acts[i]));
    }
    law_delivery_in_order(inst, w, c, e, d, a);
    assert(inst.dispatched(events[k], dates[k], acts[k]));
}

/// Law: an address written as `host:port` reads back with its port: the
/// port part is valid, the port read from it is the port written, and a
/// client connects to the address as written.
pub proof fn law_address_port_read_back(host: Seq<char>, port: u16)
    ensures
        port_text_valid(join_address_port(host, port)),
        address_port(join_address_port(host, port)) == port,
        connect_address(join_address_port(host, port), port) == join_address_port(host, port),
{
    let d = dec(port as nat);
    lemma_dec_reads_back(port as nat);
    reveal_strlit(":");
    let a = join_address_port(host, port);
    assert(a =~= host + seq![':'] + d);
    lemma_after_last_joined(host, ':', d);
    assert(a[host.len() as int] == ':');
    assert(a.contains(':'));
    assert(unsigned_digits(d) == d);
}

/// Law: asking for one writer's configuration and taking it from all the
/// listed configurations agree: both are absent for an unknown id and for
/// the root writer, and otherwise both have the settings of the stored
/// configuration.
pub proof fn law_one_and_all_configs_agree(
    inst: LoggingInstance,
    w: usize,
    one: Option<WriterConfigEnum>,
    all: Map<usize, WriterConfigEnum>,
)
    requires
        one is Some <==> listed(inst.writer(w)),
        one matches Some(c) ==> c.same_as(inst.writer(w)->0),
        forall|x: usize| #[trigger] all.contains_key(x) <==> listed(inst.writer(x)),
        forall|x: usize| #[trigger] all.contains_key(x) ==> all[x].same_as(inst.writer(x)->0),
    ensures
        one is Some <==> all.contains_key(w),
        one matches Some(c) ==> c.same_as(all[w]) && all[w].same_as(c),
{
    if all.contains_key(w) {
        let s = inst.writer(w)->0;
        assert(all[w].same_as(s));
    }
}

/// Law: a port file written for a server with a key reads back as the
/// server's address on the local host and the same key.
pub proof fn law_port_file_roundtrip(
    port: u16,
    key: EncryptionMethod,
    r: Result<Option<(String, EncryptionMethod)>, LoggingError>,
)
    requires
        key_bytes(key).len() > 0,
        port_file_read(port_file_bytes_spec(port, key), r),
    ensures
        r matches Ok(Some((a, k))) && a@ == local_address(port) && k@ == key@,
{
    let b = port_file_bytes_spec(port, key);
    assert(b.subrange(3, b.len() as int) =~= key_bytes(key));
    assert((b[0] + 256 * b[1]) as u16 == port);
}

/// Law: a file writer without backlog never rotates, and a rotated file
/// starts empty.
pub proof fn law_rotation(config: FileWriterConfig, due: bool, size: nat, r: FileStep)
    requires
        after_rotation_check(config, due, size, r),
    ensures
        config.backlog == 0 ==> !r.rotate,
        r.rotate ==> r.size == 0,
{
}

} // verus!
