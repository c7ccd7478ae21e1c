//! The state of a logging instance: its settings and the registry of its
//! writers, keyed by writer id.
//!
//! Writer id 0 is the root writer, the network writer of the instance
//! itself; every other writer gets the next free id when it is added, so
//! ids are never reused.

use vstd::prelude::*;

use crate::config::ExtConfig;
use crate::def::{
    clone_opt_string, LevelSyms, MessageStructEnum, RootConfig, WriterConfigEnum, WriterTypeEnum,
};
use crate::encryption::{EncryptionMethod, KeyModel};
use crate::error::LoggingError;
use crate::net::{
    connect_address, join_address_port, key_accepted, resolve_key, resolves_to, ClientWriterConfig,
    ServerConfig,
};
use crate::text::{contains_char, dec, push_decimal, push_str, str_eq};

verus! {

broadcast use vstd::std_specs::hash::group_hash_axioms;

/// The configuration registered under `wid`: the entry of `wid` that comes
/// last.
pub open spec fn lookup(s: Seq<(usize, WriterConfigEnum)>, wid: usize) -> Option<WriterConfigEnum>
    decreases s.len(),
{
    if s.len() == 0 {
        None
    } else if s.last().0 == wid {
        Some(s.last().1)
    } else {
        lookup(s.drop_last(), wid)
    }
}

/// No two entries share a writer id.
pub open spec fn unique_wids(s: Seq<(usize, WriterConfigEnum)>) -> bool {
    forall|i: int, j: int| 0 <= i < s.len() && 0 <= j < s.len() && i != j ==> s[i].0 != s[j].0
}

pub open spec fn wids_below(s: Seq<(usize, WriterConfigEnum)>, n: usize) -> bool {
    forall|i: int| 0 <= i < s.len() ==> s[i].0 < n
}

pub proof fn lemma_lookup_push(s: Seq<(usize, WriterConfigEnum)>, e: (usize, WriterConfigEnum), w: usize)
    ensures
        lookup(s.push(e), w) == if w == e.0 {
            Some(e.1)
        } else {
            lookup(s, w)
        },
{
    assert(s.push(e).drop_last() =~= s);
}

pub proof fn lemma_lookup_absent(s: Seq<(usize, WriterConfigEnum)>, w: usize)
    requires
        forall|i: int| 0 <= i < s.len() ==> s[i].0 != w,
    ensures
        lookup(s, w) is None,
    decreases s.len(),
{
    if s.len() > 0 {
        lemma_lookup_absent(s.drop_last(), w);
    }
}

pub proof fn lemma_lookup_present(s: Seq<(usize, WriterConfigEnum)>, w: usize)
    requires
        lookup(s, w) is Some,
    ensures
        exists|i: int| 0 <= i < s.len() && s[i].0 == w,
    decreases s.len(),
{
    if s.last().0 != w {
        lemma_lookup_present(s.drop_last(), w);
        let i = choose|i: int| 0 <= i < s.drop_last().len() && s.drop_last()[i].0 == w;
        assert(s[i].0 == w);
    }
}

pub proof fn lemma_lookup_index(s: Seq<(usize, WriterConfigEnum)>, i: int)
    requires
        unique_wids(s),
        0 <= i < s.len(),
    ensures
        lookup(s, s[i].0) == Some(s[i].1),
    decreases s.len(),
{
    if i < s.len() - 1 {
        assert(s.last().0 != s[i].0);
        assert(unique_wids(s.drop_last()));
        lemma_lookup_index(s.drop_last(), i);
    }
}

pub proof fn lemma_lookup_remove(s: Seq<(usize, WriterConfigEnum)>, i: int, w: usize)
    requires
        unique_wids(s),
        0 <= i < s.len(),
    ensures
        lookup(s.remove(i), w) == if w == s[i].0 {
            None
        } else {
            lookup(s, w)
        },
    decreases s.len(),
{
    let t = s.remove(i);
    if i == s.len() - 1 {
        assert(t =~= s.drop_last());
        if w == s[i].0 {
            assert forall|j: int| 0 <= j < t.len() implies t[j].0 != w by {
                assert(t[j] == s[j]);
            }
            lemma_lookup_absent(t, w);
        }
    } else {
        assert(t.last() == s.last());
        assert(t.drop_last() =~= s.drop_last().remove(i));
        assert(unique_wids(s.drop_last()));
        lemma_lookup_remove(s.drop_last(), i, w);
        if w == s[i].0 {
            assert(s.last().0 != w);
        }
    }
}

pub proof fn lemma_lookup_update(
    s: Seq<(usize, WriterConfigEnum)>,
    i: int,
    c: WriterConfigEnum,
    w: usize,
)
    requires
        unique_wids(s),
        0 <= i < s.len(),
    ensures
        lookup(s.update(i, (s[i].0, c)), w) == if w == s[i].0 {
            Some(c)
        } else {
            lookup(s, w)
        },
    decreases s.len(),
{
    let t = s.update(i, (s[i].0, c));
    if i == s.len() - 1 {
        assert(t.drop_last() =~= s.drop_last());
    } else {
        assert(t.last() == s.last());
        assert(t.drop_last() =~= s.drop_last().update(i, (s[i].0, c)));
        assert(unique_wids(s.drop_last()));
        lemma_lookup_update(s.drop_last(), i, c, w);
        if w == s[i].0 {
            assert(s.last().0 != w);
        }
    }
}

/// A writer configuration with a new level. The root writer's level is the
/// instance's level, so its entry stays.
pub open spec fn with_level(c: WriterConfigEnum, level: u8) -> WriterConfigEnum {
    match c {
        WriterConfigEnum::Root(x) => WriterConfigEnum::Root(x),
        WriterConfigEnum::Console(x) => WriterConfigEnum::Console(
            crate::console::ConsoleWriterConfig { level, ..x },
        ),
        WriterConfigEnum::File(x) => WriterConfigEnum::File(
            crate::file::FileWriterConfig { level, ..x },
        ),
        WriterConfigEnum::Client(x) => WriterConfigEnum::Client(ClientWriterConfig { level, ..x }),
        WriterConfigEnum::Server(x) => WriterConfigEnum::Server(ServerConfig { level, ..x }),
        WriterConfigEnum::Callback(x) => WriterConfigEnum::Callback(
            crate::callback::CallbackWriterConfig { level, ..x },
        ),
        WriterConfigEnum::Syslog(x) => WriterConfigEnum::Syslog(
            crate::syslog::SyslogWriterConfig { level, ..x },
        ),
    }
}

/// A writer configuration switched on or off. Root and server writers
/// have no such switch.
pub open spec fn with_enabled(c: WriterConfigEnum, enabled: bool) -> WriterConfigEnum {
    match c {
        WriterConfigEnum::Root(x) => WriterConfigEnum::Root(x),
        WriterConfigEnum::Console(x) => WriterConfigEnum::Console(
            crate::console::ConsoleWriterConfig { enabled, ..x },
        ),
        WriterConfigEnum::File(x) => WriterConfigEnum::File(
            crate::file::FileWriterConfig { enabled, ..x },
        ),
        WriterConfigEnum::Client(x) => WriterConfigEnum::Client(ClientWriterConfig { enabled, ..x }),
        WriterConfigEnum::Server(x) => WriterConfigEnum::Server(x),
        WriterConfigEnum::Callback(x) => WriterConfigEnum::Callback(
            crate::callback::CallbackWriterConfig { enabled, ..x },
        ),
        WriterConfigEnum::Syslog(x) => WriterConfigEnum::Syslog(
            crate::syslog::SyslogWriterConfig { enabled, ..x },
        ),
    }
}

fn set_config_level(c: WriterConfigEnum, level: u8) -> (r: WriterConfigEnum)
    ensures
        r == with_level(c, level),
{
    match c {
        WriterConfigEnum::Root(x) => WriterConfigEnum::Root(x),
        WriterConfigEnum::Console(mut x) => {
            x.level = level;
            WriterConfigEnum::Console(x)
        },
        WriterConfigEnum::File(mut x) => {
            x.level = level;
            WriterConfigEnum::File(x)
        },
        WriterConfigEnum::Client(mut x) => {
            x.level = level;
            WriterConfigEnum::Client(x)
        },
        WriterConfigEnum::Server(mut x) => {
            x.level = level;
            WriterConfigEnum::Server(x)
        },
        WriterConfigEnum::Callback(mut x) => {
            x.level = level;
            WriterConfigEnum::Callback(x)
        },
        WriterConfigEnum::Syslog(mut x) => {
            x.level = level;
            WriterConfigEnum::Syslog(x)
        },
    }
}

fn set_config_enabled(c: WriterConfigEnum, enabled: bool) -> (r: WriterConfigEnum)
    ensures
        r == with_enabled(c, enabled),
{
    match c {
        WriterConfigEnum::Root(x) => WriterConfigEnum::Root(x),
        WriterConfigEnum::Console(mut x) => {
            x.enabled = enabled;
            WriterConfigEnum::Console(x)
        },
        WriterConfigEnum::File(mut x) => {
            x.enabled = enabled;
            WriterConfigEnum::File(x)
        },
        WriterConfigEnum::Client(mut x) => {
            x.enabled = enabled;
            WriterConfigEnum::Client(x)
        },
        WriterConfigEnum::Server(x) => WriterConfigEnum::Server(x),
        WriterConfigEnum::Callback(mut x) => {
            x.enabled = enabled;
            WriterConfigEnum::Callback(x)
        },
        WriterConfigEnum::Syslog(mut x) => {
            x.enabled = enabled;
            WriterConfigEnum::Syslog(x)
        },
    }
}

/// Whether a configuration is one that a network writer with a bad AES key
/// would refuse.
pub open spec fn config_accepted(c: WriterConfigEnum) -> bool {
    match c {
        WriterConfigEnum::Client(x) => key_accepted(x.key),
        WriterConfigEnum::Server(x) => key_accepted(x.key),
        _ => true,
    }
}

/// Whether `s` is what the registry keeps for an added configuration `c`.
/// A network writer keeps its level, address, port and resolved key; a
/// client writer starts enabled, without filters and with debug level 0, a
/// server without port file. Other writers keep their configuration.
pub open spec fn stored_config(c: WriterConfigEnum, auth_key: Seq<u8>, s: WriterConfigEnum) -> bool {
    match c {
        WriterConfigEnum::Client(x) => s matches WriterConfigEnum::Client(y) && y.enabled && y.level
            == x.level && y.domain_filter is None && y.message_filter is None && y.address
            == x.address && y.port == x.port && resolves_to(x.key, auth_key, y.key) && y.debug == 0,
        WriterConfigEnum::Server(x) => s matches WriterConfigEnum::Server(y) && y.level == x.level
            && y.address == x.address && y.port == x.port && resolves_to(x.key, auth_key, y.key)
            && y.port_file is None,
        _ => s.same_as(c),
    }
}

/// Whether the registry holds what it keeps for an added configuration `c`.
pub open spec fn holds_stored(entry: Option<WriterConfigEnum>, c: WriterConfigEnum, auth_key: Seq<u8>) -> bool {
    entry matches Some(s) && stored_config(c, auth_key, s)
}

/// The reason a network writer gives for a key that `ring` refuses.
pub open spec fn net_key_error_text(key: EncryptionMethod) -> Seq<char> {
    "NetConfig: Invalid encryption "@ + crate::error::key_debug(key) + ": ring::error::Unspecified"@
}

/// The text of the error for a missing writer.
pub open spec fn missing_writer_text(wid: usize) -> Seq<char> {
    "Writer "@ + dec(wid as nat) + " does not exist"@
}

/// The text of the error for a root writer that is not a network writer.
pub open spec fn root_writer_kind_text() -> Seq<char> {
    "Only Server or Client type is allowed for Root logger"@
}

/// Whether a writer is listed among the writer configurations: all but
/// the root writer's entry.
pub open spec fn listed(c: Option<WriterConfigEnum>) -> bool {
    c matches Some(x) && !(x is Root)
}

/// Whether writer configuration `c` is of the kind `typ` selects: one kind,
/// all writers of a kind, or the file writer of a path, the client or server
/// of an address.
pub open spec fn type_matches(typ: WriterTypeEnum, c: WriterConfigEnum) -> bool {
    match typ {
        WriterTypeEnum::Root => c is Root,
        WriterTypeEnum::Console => c is Console,
        WriterTypeEnum::File(p) => c matches WriterConfigEnum::File(x) && x.path@ == p@,
        WriterTypeEnum::Files => c is File,
        WriterTypeEnum::Client(a) => c matches WriterConfigEnum::Client(x) && connect_address(
            x.address@,
            x.port,
        ) == a@,
        WriterTypeEnum::Clients => c is Client,
        WriterTypeEnum::Server(a) => c matches WriterConfigEnum::Server(x) && connect_address(
            x.address@,
            x.port,
        ) == a@,
        WriterTypeEnum::Servers => c is Server,
        WriterTypeEnum::Callback => c is Callback,
        WriterTypeEnum::Syslog => c is Syslog,
    }
}

/// Whether the text `a` names a network writer at `address` and `port`:
/// `a` is `address:port` with a single `:`, or, when `a` holds no `:`, the
/// address itself or empty.
pub open spec fn address_selects(a: Seq<char>, address: Seq<char>, port: u16) -> bool {
    if a.contains(':') {
        !address.contains(':') && a == join_address_port(address, port)
    } else {
        address == a || a.len() == 0
    }
}

/// Whether writer configuration `c` is among those that `wtype` selects
/// when a configuration file is merged: a file writer by path (an empty
/// path selects all), a network writer by address. `Files`, `Clients` and
/// `Servers` select none.
pub open spec fn filter_matches(wtype: WriterTypeEnum, c: WriterConfigEnum) -> bool {
    match wtype {
        WriterTypeEnum::Root => c is Root,
        WriterTypeEnum::Console => c is Console,
        WriterTypeEnum::File(p) => c matches WriterConfigEnum::File(x) && (x.path@ == p@ || p@.len()
            == 0),
        WriterTypeEnum::Client(a) => c matches WriterConfigEnum::Client(x) && address_selects(
            a@,
            x.address@,
            x.port,
        ),
        WriterTypeEnum::Server(a) => c matches WriterConfigEnum::Server(x) && address_selects(
            a@,
            x.address@,
            x.port,
        ),
        WriterTypeEnum::Callback => c is Callback,
        WriterTypeEnum::Syslog => c is Syslog,
        _ => false,
    }
}

/// Whether a writer hands a message of `level` on: root and server writers
/// never do, client and callback writers only while they are switched on,
/// the others (which test the switch themselves) from their own level on.
pub open spec fn receives(c: WriterConfigEnum, level: u8) -> bool {
    &&& !(c is Root)
    &&& !(c is Server)
    &&& c.level_spec() <= level
    &&& (c matches WriterConfigEnum::Client(x) ==> x.enabled)
    &&& (c matches WriterConfigEnum::Callback(x) ==> x.enabled)
}

/// A choice of writers by their configuration.
pub enum Selector {
    /// The writers of a kind.
    Type(WriterTypeEnum),
    /// The writers of any of these kinds.
    AnyType(Vec<WriterTypeEnum>),
    /// The writers that hand a message of this level on.
    Receiver(u8),
    /// The listed writers that a configuration file entry of this kind
    /// selects when it is merged.
    Merged(WriterTypeEnum),
    /// The server writers.
    Servers,
}

pub open spec fn selects(sel: Selector, c: WriterConfigEnum) -> bool {
    match sel {
        Selector::Type(t) => type_matches(t, c),
        Selector::AnyType(ts) => any_type_matches_spec(ts@, c),
        Selector::Receiver(level) => receives(c, level),
        Selector::Merged(t) => !(c is Root) && filter_matches(t, c),
        Selector::Servers => c is Server,
    }
}

/// Whether `c` is of one of the kinds `ts`.
pub open spec fn any_type_matches_spec(ts: Seq<WriterTypeEnum>, c: WriterConfigEnum) -> bool {
    exists|i: int| 0 <= i < ts.len() && #[trigger] type_matches(ts[i], c)
}

fn any_type_matches(ts: &Vec<WriterTypeEnum>, c: &WriterConfigEnum) -> (r: bool)
    ensures
        r == any_type_matches_spec(ts@, *c),
{
    let mut i: usize = 0;
    while i < ts.len()
        invariant
            i <= ts@.len(),
            forall|j: int| 0 <= j < i ==> !type_matches(ts@[j], *c),
        decreases ts@.len() - i,
    {
        if LoggingInstance::type_matches_exec(&ts[i], c) {
            assert(type_matches(ts@[i as int], *c));
            return true;
        }
        i = i + 1;
    }
    false
}

fn selects_exec(sel: &Selector, c: &WriterConfigEnum) -> (r: bool)
    ensures
        r == selects(*sel, *c),
{
    match sel {
        Selector::Type(t) => LoggingInstance::type_matches_exec(t, c),
        Selector::AnyType(ts) => any_type_matches(ts, c),
        Selector::Receiver(level) => match c {
            WriterConfigEnum::Root(_) => false,
            WriterConfigEnum::Server(_) => false,
            WriterConfigEnum::Client(x) => x.enabled && x.level <= *level,
            WriterConfigEnum::Callback(x) => x.enabled && x.level <= *level,
            _ => c.level() <= *level,
        },
        Selector::Merged(t) => !matches!(c, WriterConfigEnum::Root(_)) && LoggingInstance::filter_matches_exec(t, c),
        Selector::Servers => matches!(c, WriterConfigEnum::Server(_)),
    }
}

/// The last root configuration among `c`, if any.
pub open spec fn last_root(c: Seq<WriterConfigEnum>) -> Option<RootConfig>
    decreases c.len(),
{
    if c.len() == 0 {
        None
    } else {
        match c.last() {
            WriterConfigEnum::Root(rc) => Some(rc),
            _ => last_root(c.drop_last()),
        }
    }
}

/// Whether `b` has the settings that adding the configurations `c` to `a`
/// gives: those of the last root configuration among them, else those of
/// `a`.
pub open spec fn configured_settings(a: LoggingInstance, c: Seq<WriterConfigEnum>, b: LoggingInstance) -> bool {
    match last_root(c) {
        None => {
            &&& b.level == a.level
            &&& b.domain == a.domain
            &&& b.hostname == a.hostname
            &&& b.pname == a.pname
            &&& b.pid == a.pid
            &&& b.tname == a.tname
            &&& b.tid == a.tid
            &&& b.structured == a.structured
            &&& b.level2sym == a.level2sym
        },
        Some(rc) => {
            &&& b.level == rc.level
            &&& b.domain == rc.domain
            &&& b.hostname == rc.hostname
            &&& b.pname == rc.pname
            &&& b.pid == rc.pid
            &&& b.tname == rc.tname
            &&& b.tid == rc.tid
            &&& b.structured == rc.structured
            &&& b.level2sym == rc.level2sym
        },
    }
}

/// The configurations that removing the writers `ids` one after another
/// takes out of `inst`: for each id in turn, its configuration when it is
/// registered and was not named before.
pub open spec fn removed_configs(inst: LoggingInstance, ids: Seq<usize>) -> Seq<WriterConfigEnum>
    decreases ids.len(),
{
    if ids.len() == 0 {
        Seq::empty()
    } else {
        let front = ids.drop_last();
        let w = ids.last();
        if !front.contains(w) && inst.writer(w) is Some {
            removed_configs(inst, front).push(inst.writer(w)->0)
        } else {
            removed_configs(inst, front)
        }
    }
}

/// The ids a removal names: those given, or all registered ids in order.
pub open spec fn removal_ids(inst: LoggingInstance, wids: Option<Vec<usize>>) -> Seq<usize> {
    match wids {
        Some(ws) => ws@,
        None => inst.wids(),
    }
}

/// The state of a logging instance.
pub struct LoggingInstance {
    pub level: u8,
    pub domain: String,
    pub hostname: Option<String>,
    pub pname: String,
    pub pid: u32,
    pub tname: bool,
    pub tid: bool,
    pub structured: MessageStructEnum,
    pub level2sym: LevelSyms,
    pub debug: u8,
    /// The writers, by id, in registration order.
    pub writers: Vec<(usize, WriterConfigEnum)>,
    /// Next writer id.
    pub wid: usize,
    /// Key that network writers without key authenticate with.
    pub auth_key: Vec<u8>,
}

impl LoggingInstance {
    pub open spec fn wf(self) -> bool {
        &&& unique_wids(self.writers@)
        &&& wids_below(self.writers@, self.wid)
        &&& self.wid >= 1
    }

    /// The configuration of writer `wid`.
    pub open spec fn writer(self, wid: usize) -> Option<WriterConfigEnum> {
        lookup(self.writers@, wid)
    }

    /// The writer ids in registration order.
    pub open spec fn wids(self) -> Seq<usize> {
        self.writers@.map_values(|e: (usize, WriterConfigEnum)| e.0)
    }

    /// The id the next added writer gets.
    pub open spec fn next_wid(self) -> usize {
        self.wid
    }

    /// The key network writers without key authenticate with.
    pub open spec fn auth_key(self) -> Seq<u8> {
        self.auth_key@
    }

    /// Whether two states agree in everything but their writers.
    pub open spec fn same_settings(self, o: Self) -> bool {
        &&& self.level == o.level
        &&& self.domain == o.domain
        &&& self.hostname == o.hostname
        &&& self.pname == o.pname
        &&& self.pid == o.pid
        &&& self.tname == o.tname
        &&& self.tid == o.tid
        &&& self.structured == o.structured
        &&& self.level2sym == o.level2sym
        &&& self.debug == o.debug
        &&& self.auth_key() == o.auth_key()
    }

    /// Whether two states hold the same writers under the same ids.
    pub open spec fn same_writers(self, o: Self) -> bool {
        &&& self.next_wid() == o.next_wid()
        &&& forall|w: usize| #[trigger] self.writer(w) == o.writer(w)
    }

    /// A state without writers, with the given level and domain, and the
    /// default settings otherwise.
    pub fn new(level: u8, domain: String, auth_key: &[u8]) -> (r: Self)
        ensures
            r.wf(),
            r.level == level,
            r.domain == domain,
            r.hostname is None,
            r.pname@.len() == 0,
            r.pid == 0,
            !r.tname,
            !r.tid,
            r.structured == MessageStructEnum::String,
            r.level2sym == LevelSyms::Sym,
            r.debug == 0,
            r.auth_key() == auth_key@,
            r.next_wid() == 1,
            forall|w: usize| #[trigger] r.writer(w) is None,
            r.wids().len() == 0,
    {
        let r = Self {
            level,
            domain,
            hostname: None,
            pname: String::new(),
            pid: 0,
            tname: false,
            tid: false,
            structured: MessageStructEnum::String,
            level2sym: LevelSyms::Sym,
            debug: 0,
            writers: Vec::new(),
            wid: 1,
            auth_key: crate::encryption::slice_to_vec(auth_key),
        };
        assert(r.wids() =~= Seq::<usize>::empty());
        r
    }

    /// The key network writers without key authenticate with.
    pub fn get_auth_key(&self) -> (r: EncryptionMethod)
        ensures
            r@ == KeyModel::AuthKey(self.auth_key()),
    {
        EncryptionMethod::AuthKey(crate::encryption::clone_bytes(&self.auth_key))
    }

    /// The index of writer `wid` in the registry.
    fn find(&self, wid: usize) -> (r: Option<usize>)
        requires
            self.wf(),
        ensures
            r matches Some(i) ==> i < self.writers@.len() && self.writers@[i as int].0 == wid,
            r is None ==> forall|i: int| 0 <= i < self.writers@.len() ==> self.writers@[i].0 != wid,
            r is None <==> self.writer(wid) is None,
    {
        let mut i: usize = 0;
        while i < self.writers.len()
            invariant
                self.wf(),
                i <= self.writers@.len(),
                forall|j: int| 0 <= j < i ==> self.writers@[j].0 != wid,
            decreases self.writers@.len() - i,
        {
            if self.writers[i].0 == wid {
                proof {
                    lemma_lookup_index(self.writers@, i as int);
                }
                return Some(i);
            }
            i = i + 1;
        }
        proof {
            lemma_lookup_absent(self.writers@, wid);
        }
        None
    }

    /// Copies the settings of a root configuration into the instance.
    pub fn apply_root_config(&mut self, rc: &RootConfig)
        ensures
            final(self).level == rc.level,
            final(self).domain == rc.domain,
            final(self).hostname == rc.hostname,
            final(self).pname == rc.pname,
            final(self).pid == rc.pid,
            final(self).tname == rc.tname,
            final(self).tid == rc.tid,
            final(self).structured == rc.structured,
            final(self).level2sym == rc.level2sym,
            final(self).debug == old(self).debug,
            final(self).writers == old(self).writers,
            final(self).wid == old(self).wid,
            final(self).auth_key == old(self).auth_key,
    {
        self.level = rc.level;
        self.domain = rc.domain.clone();
        self.hostname = clone_opt_string(&rc.hostname);
        self.pname = rc.pname.clone();
        self.pid = rc.pid;
        self.tname = rc.tname;
        self.tid = rc.tid;
        self.structured = rc.structured;
        self.level2sym = rc.level2sym;
    }

    /// The settings of the instance as a root configuration.
    pub open spec fn root_settings(self) -> RootConfig {
        RootConfig {
            level: self.level,
            domain: self.domain,
            hostname: self.hostname,
            pname: self.pname,
            pid: self.pid,
            tname: self.tname,
            tid: self.tid,
            structured: self.structured,
            level2sym: self.level2sym,
        }
    }

    /// The settings of the instance as a root configuration.
    pub fn root_config(&self) -> (r: RootConfig)
        ensures
            r == self.root_settings(),
    {
        RootConfig {
            level: self.level,
            domain: self.domain.clone(),
            hostname: clone_opt_string(&self.hostname),
            pname: self.pname.clone(),
            pid: self.pid,
            tname: self.tname,
            tid: self.tid,
            structured: self.structured,
            level2sym: self.level2sym,
        }
    }

    /// What the registry keeps for an added configuration; a network writer
    /// with an AES key that `ring` refuses is an error.
    fn stored_writer_config(&self, config: &WriterConfigEnum) -> (r: Result<
        WriterConfigEnum,
        LoggingError,
    >)
        ensures
            r is Ok <==> config_accepted(*config),
            r matches Ok(s) ==> stored_config(*config, self.auth_key(), s),
            r matches Err(e) ==> e is InvalidEncryption,
    {
        match config {
            WriterConfigEnum::Client(x) => {
                let key = resolve_key("NetConfig", x.key.duplicate(), self.auth_key.as_slice())?;
                Ok(
                    WriterConfigEnum::Client(
                        ClientWriterConfig {
                            enabled: true,
                            level: x.level,
                            domain_filter: None,
                            message_filter: None,
                            address: x.address.clone(),
                            port: x.port,
                            key,
                            debug: 0,
                        },
                    ),
                )
            },
            WriterConfigEnum::Server(x) => {
                let key = resolve_key("NetConfig", x.key.duplicate(), self.auth_key.as_slice())?;
                Ok(
                    WriterConfigEnum::Server(
                        ServerConfig {
                            level: x.level,
                            address: x.address.clone(),
                            port: x.port,
                            key,
                            port_file: None,
                        },
                    ),
                )
            },
            _ => Ok(config.duplicate()),
        }
    }

    /// Registers a writer under the next free id and returns that id. A
    /// root configuration also sets the instance's settings; a network
    /// writer with an AES key that `ring` refuses is not added.
    pub fn add_writer_config(&mut self, config: &WriterConfigEnum) -> (r: Result<
        usize,
        LoggingError,
    >)
        requires
            old(self).wf(),
            old(self).next_wid() < usize::MAX,
        ensures
            final(self).wf(),
            r is Ok <==> config_accepted(*config),
            r matches Err(e) ==> e is InvalidEncryption && *final(self) == *old(self),
            r matches Ok(wid) ==> {
                &&& wid == old(self).next_wid()
                &&& final(self).next_wid() == wid + 1
                &&& holds_stored(final(self).writer(wid), *config, old(self).auth_key())
                &&& forall|w: usize| w != wid ==> #[trigger] final(self).writer(w) == old(self).writer(w)
                &&& final(self).wids() == old(self).wids().push(wid)
                &&& match *config {
                    WriterConfigEnum::Root(rc) => final(self).level == rc.level && final(self).domain == rc.domain && final(self).hostname == rc.hostname && final(self).pname == rc.pname && final(self).pid == rc.pid && final(self).tname
                        == rc.tname && final(self).tid == rc.tid && final(self).structured
                        == rc.structured && final(self).level2sym == rc.level2sym && final(self).debug == old(self).debug && final(self).auth_key() == old(self).auth_key(),
                    _ => final(self).same_settings(*old(self)),
                }
            },
    {
        let stored = self.stored_writer_config(config)?;
        match config {
            WriterConfigEnum::Root(rc) => self.apply_root_config(rc),
            _ => {},
        }
        let wid = self.wid;
        let ghost before = self.writers@;
        self.writers.push((wid, stored));
        self.wid = self.wid + 1;
        proof {
            assert forall|w: usize| #[trigger] lookup(self.writers@, w) == (if w == wid {
                Some(stored)
            } else {
                lookup(before, w)
            }) by {
                lemma_lookup_push(before, (wid, stored), w);
            }
            assert(self.wids() =~= old(self).wids().push(wid));
        }
        Ok(wid)
    }

    /// Registers writers one after the other under consecutive ids. On a
    /// refused configuration the writers before it stay added and the error
    /// is returned.
    pub fn add_writer_configs(&mut self, configs: &[WriterConfigEnum]) -> (r: Result<
        Vec<usize>,
        LoggingError,
    >)
        requires
            old(self).wf(),
            old(self).next_wid() + configs@.len() < usize::MAX,
        ensures
            final(self).wf(),
            final(self).auth_key() == old(self).auth_key(),
            final(self).debug == old(self).debug,
            (forall|i: int| 0 <= i < configs@.len() ==> !(#[trigger] configs@[i] is Root))
                ==> final(self).same_settings(*old(self)),
            r matches Err(e) ==> e is InvalidEncryption,
            r is Ok <==> forall|i: int| 0 <= i < configs@.len() ==> config_accepted(
                #[trigger] configs@[i],
            ),
            r matches Ok(wids) ==> {
                &&& wids@.len() == configs@.len()
                &&& forall|i: int|
                    0 <= i < wids@.len() ==> #[trigger] wids@[i] == old(self).next_wid() + i
                &&& forall|i: int|
                    0 <= i < wids@.len() ==> holds_stored(
                        #[trigger] final(self).writer(wids@[i]),
                        configs@[i],
                        old(self).auth_key(),
                    )
                &&& final(self).next_wid() == old(self).next_wid() + configs@.len()
                &&& forall|w: usize|
                    w < old(self).next_wid() ==> #[trigger] final(self).writer(w) == old(self).writer(w)
                &&& configured_settings(*old(self), configs@, *final(self))
            },
    {
        let mut wids: Vec<usize> = Vec::new();
        let mut i: usize = 0;
        while i < configs.len()
            invariant
                self.wf(),
                i <= configs@.len(),
                self.next_wid() == old(self).next_wid() + i,
                old(self).next_wid() + configs@.len() < usize::MAX,
                self.auth_key() == old(self).auth_key(),
                self.debug == old(self).debug,
                (forall|j: int| 0 <= j < configs@.len() ==> !(#[trigger] configs@[j] is Root))
                    ==> self.same_settings(*old(self)),
                wids@.len() == i,
                forall|j: int| 0 <= j < i ==> config_accepted(#[trigger] configs@[j]),
                forall|j: int| 0 <= j < i ==> #[trigger] wids@[j] == old(self).next_wid() + j,
                forall|j: int|
                    0 <= j < i ==> holds_stored(
                        #[trigger] self.writer(wids@[j]),
                        configs@[j],
                        old(self).auth_key(),
                    ),
                forall|w: usize|
                    w < old(self).next_wid() ==> #[trigger] self.writer(w) == old(self).writer(w),
                configured_settings(*old(self), configs@.take(i as int), *self),
            decreases configs@.len() - i,
        {
            let ghost prev = *self;
            proof {
                assert(configs@.take(i + 1).drop_last() =~= configs@.take(i as int));
                assert(configs@.take(i + 1).last() == configs@[i as int]);
            }
            match self.add_writer_config(&configs[i]) {
                Ok(wid) => {
                    wids.push(wid);
                    proof {
                        assert forall|j: int|
                            0 <= j < i + 1 implies holds_stored(
                            #[trigger] self.writer(wids@[j]),
                            configs@[j],
                            old(self).auth_key(),
                        ) by {
                            if j < i {
                                assert(prev.writer(wids@[j]) == self.writer(wids@[j]));
                            }
                        }
                    }
                    i = i + 1;
                },
                Err(e) => {
                    return Err(e);
                },
            }
        }
        assert(configs@.take(configs@.len() as int) =~= configs@);
        Ok(wids)
    }

    /// The configuration of writer `wid`; the root writer is not listed.
    pub fn get_writer_config(&self, wid: usize) -> (r: Option<WriterConfigEnum>)
        requires
            self.wf(),
        ensures
            r is Some <==> listed(self.writer(wid)),
            r matches Some(c) ==> c.same_as(self.writer(wid)->0),
    {
        match self.find(wid) {
            Some(i) => {
                proof {
                    lemma_lookup_index(self.writers@, i as int);
                }
                match &self.writers[i].1 {
                    WriterConfigEnum::Root(_) => None,
                    c => Some(c.duplicate()),
                }
            },
            None => None,
        }
    }

    /// The configurations of all writers but the root writer, by id.
    pub fn get_writer_configs(&self) -> (r: std::collections::HashMap<usize, WriterConfigEnum>)
        requires
            self.wf(),
        ensures
            forall|w: usize| #[trigger] r@.contains_key(w) <==> listed(self.writer(w)),
            forall|w: usize| #[trigger] r@.contains_key(w) ==> r@[w].same_as(self.writer(w)->0),
    {
        let mut r: std::collections::HashMap<usize, WriterConfigEnum> =
            std::collections::HashMap::new();
        let mut i: usize = 0;
        while i < self.writers.len()
            invariant
                self.wf(),
                i <= self.writers@.len(),
                forall|w: usize| #[trigger]
                    r@.contains_key(w) <==> listed(lookup(self.writers@.take(i as int), w)),
                forall|w: usize| #[trigger]
                    r@.contains_key(w) ==> r@[w].same_as(lookup(self.writers@.take(i as int), w)->0),
            decreases self.writers@.len() - i,
        {
            let ghost s = self.writers@;
            proof {
                assert(s.take(i + 1) =~= s.take(i as int).push(s[i as int]));
                assert forall|w: usize| #[trigger]
                    lookup(s.take(i + 1), w) == (if w == s[i as int].0 {
                        Some(s[i as int].1)
                    } else {
                        lookup(s.take(i as int), w)
                    }) by {
                    lemma_lookup_push(s.take(i as int), s[i as int], w);
                }
                assert forall|j: int| 0 <= j < s.take(i as int).len() implies s.take(i as int)[j].0
                    != s[i as int].0 by {}
                lemma_lookup_absent(s.take(i as int), s[i as int].0);
            }
            let wid = self.writers[i].0;
            match &self.writers[i].1 {
                WriterConfigEnum::Root(_) => {},
                c => {
                    r.insert(wid, c.duplicate());
                },
            }
            i = i + 1;
        }
        assert(self.writers@.take(i as int) =~= self.writers@);
        r
    }

    /// Removes writer `wid` and returns its configuration.
    pub fn remove_writer(&mut self, wid: usize) -> (r: Option<WriterConfigEnum>)
        requires
            old(self).wf(),
        ensures
            final(self).wf(),
            r == old(self).writer(wid),
            final(self).writer(wid) is None,
            forall|w: usize| w != wid ==> #[trigger] final(self).writer(w) == old(self).writer(w),
            final(self).next_wid() == old(self).next_wid(),
            final(self).same_settings(*old(self)),
    {
        match self.find(wid) {
            Some(i) => {
                let ghost before = self.writers@;
                proof {
                    lemma_lookup_index(before, i as int);
                }
                let (_, c) = self.writers.remove(i);
                proof {
                    assert forall|w: usize| #[trigger]
                        lookup(self.writers@, w) == (if w == wid {
                            None
                        } else {
                            lookup(before, w)
                        }) by {
                        lemma_lookup_remove(before, i as int, w);
                    }
                    assert forall|a: int, b: int|
                        0 <= a < self.writers@.len() && 0 <= b < self.writers@.len() && a != b
                            implies self.writers@[a].0 != self.writers@[b].0 by {
                        let a0 = if a < i { a } else { a + 1 };
                        let b0 = if b < i { b } else { b + 1 };
                        assert(self.writers@[a] == before[a0]);
                        assert(self.writers@[b] == before[b0]);
                    }
                    assert forall|a: int| 0 <= a < self.writers@.len() implies self.writers@[a].0
                        < self.wid by {
                        let a0 = if a < i { a } else { a + 1 };
                        assert(self.writers@[a] == before[a0]);
                    }
                }
                Some(c)
            },
            None => None,
        }
    }

    /// Removes the writers `wids`, or all writers when no ids are given, and
    /// returns the configurations of those that existed, in the order of
    /// `wids` (of the registry when no ids are given).
    pub fn remove_writers(&mut self, wids: Option<Vec<usize>>) -> (r: Vec<WriterConfigEnum>)
        requires
            old(self).wf(),
        ensures
            final(self).wf(),
            final(self).next_wid() == old(self).next_wid(),
            final(self).same_settings(*old(self)),
            match wids {
                None => forall|w: usize| #[trigger] final(self).writer(w) is None,
                Some(ws) => forall|w: usize| #[trigger]
                    final(self).writer(w) == if ws@.contains(w) {
                        None
                    } else {
                        old(self).writer(w)
                    },
            },
            wids is None ==> r@.len() == old(self).wids().len(),
            r@ == removed_configs(*old(self), removal_ids(*old(self), wids)),
    {
        let ghost id_seq = removal_ids(*old(self), wids);
        let ids: Vec<usize> = match wids {
            Some(ws) => ws,
            None => {
                let mut all: Vec<usize> = Vec::new();
                let mut k: usize = 0;
                while k < self.writers.len()
                    invariant
                        k <= self.writers@.len(),
                        all@ == self.writers@.take(k as int).map_values(
                            |e: (usize, WriterConfigEnum)| e.0,
                        ),
                    decreases self.writers@.len() - k,
                {
                    all.push(self.writers[k].0);
                    k = k + 1;
                    assert(all@ =~= self.writers@.take(k as int).map_values(
                        |e: (usize, WriterConfigEnum)| e.0,
                    ));
                }
                assert(self.writers@.take(k as int) =~= self.writers@);
                all
            },
        };
        let ghost orig = *old(self);
        assert(ids@ == id_seq);
        let mut removed: Vec<WriterConfigEnum> = Vec::new();
        let mut i: usize = 0;
        while i < ids.len()
            invariant
                self.wf(),
                removed@ == removed_configs(orig, ids@.subrange(0, i as int)),
                i <= ids@.len(),
                self.next_wid() == orig.next_wid(),
                self.same_settings(orig),
                forall|w: usize| #[trigger]
                    self.writer(w) == if ids@.subrange(0, i as int).contains(w) {
                        None
                    } else {
                        orig.writer(w)
                    },
                wids is None ==> ids@ == orig.wids(),
                wids is None ==> removed@.len() == i,
                wids is None ==> unique_wids(orig.writers@),
            decreases ids@.len() - i,
        {
            let ghost prev = *self;
            let w = ids[i];
            let res = self.remove_writer(w);
            proof {
                assert forall|x: usize| #[trigger]
                    self.writer(x) == if ids@.subrange(0, i + 1).contains(x) {
                        None
                    } else {
                        orig.writer(x)
                    } by {
                    let sub0 = ids@.subrange(0, i as int);
                    let sub1 = ids@.subrange(0, i + 1);
                    assert(sub1 =~= sub0.push(w));
                    if x == w {
                        assert(sub1[i as int] == w);
                    }
                    if sub0.contains(x) {
                        let j = choose|j: int| 0 <= j < sub0.len() && sub0[j] == x;
                        assert(sub1[j] == x);
                    }
                    if sub1.contains(x) {
                        let j = choose|j: int| 0 <= j < sub1.len() && sub1[j] == x;
                        if j < i {
                            assert(sub0[j] == x);
                        }
                    }
                }
                if wids is None {
                    let k = i as int;
                    assert(ids@[k] == orig.writers@[k].0);
                    assert(!ids@.subrange(0, i as int).contains(w)) by {
                        if ids@.subrange(0, i as int).contains(w) {
                            let j = choose|j: int|
                                0 <= j < i && ids@.subrange(0, i as int)[j] == w;
                            assert(orig.writers@[j].0 == orig.writers@[k].0);
                        }
                    }
                    lemma_lookup_index(orig.writers@, k);
                    assert(prev.writer(w) is Some);
                }
            }
            proof {
                let sub0 = ids@.subrange(0, i as int);
                let sub1 = ids@.subrange(0, i + 1);
                assert(sub1.drop_last() =~= sub0);
                assert(sub1.last() == w);
            }
            match res {
                Some(c) => removed.push(c),
                None => {},
            }
            i = i + 1;
        }
        proof {
            assert(ids@.subrange(0, i as int) =~= ids@);
            if wids is None {
                assert forall|w: usize| #[trigger] self.writer(w) is None by {
                    if !ids@.contains(w) {
                        if orig.writer(w) is Some {
                            lemma_lookup_present(orig.writers@, w);
                            let j = choose|j: int| 0 <= j < orig.writers@.len() && orig.writers@[j].0 == w;
                            assert(ids@[j] == w);
                        }
                    }
                }
            }
        }
        removed
    }

    /// The error for a writer id that is not registered.
    fn missing_writer(wid: usize) -> (e: LoggingError)
        ensures
            e matches LoggingError::InvalidValue(m) && m@ == missing_writer_text(wid),
    {
        let mut m = "Writer ".to_string();
        push_decimal(&mut m, wid as u64);
        push_str(&mut m, " does not exist");
        LoggingError::InvalidValue(m)
    }

    /// Replaces the configuration at index `i`.
    pub(crate) fn replace_at(&mut self, i: usize, c: WriterConfigEnum) -> (old_c: WriterConfigEnum)
        requires
            old(self).wf(),
            i < old(self).writers@.len(),
        ensures
            final(self).wf(),
            old_c == old(self).writers@[i as int].1,
            final(self).writers@ == old(self).writers@.update(
                i as int,
                (old(self).writers@[i as int].0, c),
            ),
            final(self).wid == old(self).wid,
            final(self).same_settings(*old(self)),
            forall|w: usize| #[trigger]
                final(self).writer(w) == if w == old(self).writers@[i as int].0 {
                    Some(c)
                } else {
                    old(self).writer(w)
                },
    {
        let ghost before = self.writers@;
        let (w, old_c) = self.writers.remove(i);
        self.writers.insert(i, (w, c));
        proof {
            assert(self.writers@ =~= before.update(i as int, (before[i as int].0, c)));
            assert forall|x: usize| #[trigger]
                lookup(self.writers@, x) == (if x == before[i as int].0 {
                    Some(c)
                } else {
                    lookup(before, x)
                }) by {
                lemma_lookup_update(before, i as int, c, x);
            }
        }
        old_c
    }

    /// Sets the level of writer `wid`; for the root writer that is the
    /// instance's level.
    pub fn set_level(&mut self, wid: usize, level: u8) -> (r: Result<(), LoggingError>)
        requires
            old(self).wf(),
        ensures
            final(self).wf(),
            final(self).next_wid() == old(self).next_wid(),
            old(self).writer(wid) is None ==> (r matches Err(LoggingError::InvalidValue(m)) && m@
                == missing_writer_text(wid)) && *final(self) == *old(self),
            old(self).writer(wid) matches Some(c) ==> r is Ok && if c is Root {
                final(self).level == level && final(self).same_writers(*old(self))
                    && final(self).domain == old(self).domain && final(self).debug == old(self).debug
            } else {
                final(self).same_settings(*old(self)) && forall|w: usize| #[trigger]
                    final(self).writer(w) == if w == wid {
                        Some(with_level(c, level))
                    } else {
                        old(self).writer(w)
                    }
            },
    {
        match self.find(wid) {
            None => Err(Self::missing_writer(wid)),
            Some(i) => {
                proof {
                    lemma_lookup_index(self.writers@, i as int);
                }
                if let WriterConfigEnum::Root(_) = &self.writers[i].1 {
                    self.level = level;
                    Ok(())
                } else {
                    let placeholder = WriterConfigEnum::Root(RootConfig::default());
                    let c = self.replace_at(i, placeholder);
                    let nc = set_config_level(c, level);
                    self.replace_at(i, nc);
                    Ok(())
                }
            },
        }
    }

    /// Switches writer `wid` on or off; root and server writers have no
    /// switch and stay as they are.
    pub fn set_enabled(&mut self, wid: usize, enabled: bool) -> (r: Result<(), LoggingError>)
        requires
            old(self).wf(),
        ensures
            final(self).wf(),
            final(self).next_wid() == old(self).next_wid(),
            final(self).same_settings(*old(self)),
            old(self).writer(wid) is None ==> (r matches Err(LoggingError::InvalidValue(m)) && m@
                == missing_writer_text(wid)) && *final(self) == *old(self),
            old(self).writer(wid) matches Some(c) ==> r is Ok && forall|w: usize| #[trigger]
                final(self).writer(w) == if w == wid {
                    Some(with_enabled(c, enabled))
                } else {
                    old(self).writer(w)
                },
    {
        match self.find(wid) {
            None => Err(Self::missing_writer(wid)),
            Some(i) => {
                proof {
                    lemma_lookup_index(self.writers@, i as int);
                }
                let placeholder = WriterConfigEnum::Root(RootConfig::default());
                let c = self.replace_at(i, placeholder);
                let nc = set_config_enabled(c, enabled);
                self.replace_at(i, nc);
                Ok(())
            },
        }
    }

    /// Switches writer `wid` on.
    pub fn enable(&mut self, wid: usize) -> (r: Result<(), LoggingError>)
        requires
            old(self).wf(),
        ensures
            final(self).wf(),
            final(self).next_wid() == old(self).next_wid(),
            final(self).same_settings(*old(self)),
            old(self).writer(wid) is None ==> (r matches Err(LoggingError::InvalidValue(m)) && m@
                == missing_writer_text(wid)) && *final(self) == *old(self),
            old(self).writer(wid) matches Some(c) ==> r is Ok && forall|w: usize| #[trigger]
                final(self).writer(w) == if w == wid {
                    Some(with_enabled(c, true))
                } else {
                    old(self).writer(w)
                },
    {
        self.set_enabled(wid, true)
    }

    /// Switches writer `wid` off.
    pub fn disable(&mut self, wid: usize) -> (r: Result<(), LoggingError>)
        requires
            old(self).wf(),
        ensures
            final(self).wf(),
            final(self).next_wid() == old(self).next_wid(),
            final(self).same_settings(*old(self)),
            old(self).writer(wid) is None ==> (r matches Err(LoggingError::InvalidValue(m)) && m@
                == missing_writer_text(wid)) && *final(self) == *old(self),
            old(self).writer(wid) matches Some(c) ==> r is Ok && forall|w: usize| #[trigger]
                final(self).writer(w) == if w == wid {
                    Some(with_enabled(c, false))
                } else {
                    old(self).writer(w)
                },
    {
        self.set_enabled(wid, false)
    }

    /// Sets the root writer, a client or a server, under id 0, replacing a
    /// root writer set before.
    pub fn set_root_writer_config(&mut self, config: &WriterConfigEnum) -> (r: Result<
        (),
        LoggingError,
    >)
        requires
            old(self).wf(),
        ensures
            final(self).wf(),
            final(self).next_wid() == old(self).next_wid(),
            final(self).same_settings(*old(self)),
            !(config is Client || config is Server) ==> (r matches Err(LoggingError::InvalidValue(m))
                && m@ == root_writer_kind_text()) && *final(self) == *old(self),
            (config is Client || config is Server) && !config_accepted(*config) ==> (r matches Err(
                e,
            ) && e is InvalidEncryption) && *final(self) == *old(self),
            (config is Client || config is Server) && config_accepted(*config) ==> r is Ok
                && holds_stored(final(self).writer(0), *config, old(self).auth_key()) && forall|
                w: usize,
            | w != 0 ==> #[trigger] final(self).writer(w) == old(self).writer(w),
    {
        match config {
            WriterConfigEnum::Client(_) => {},
            WriterConfigEnum::Server(_) => {},
            _ => {
                return Err(
                    LoggingError::InvalidValue(
                        "Only Server or Client type is allowed for Root logger".to_string(),
                    ),
                );
            },
        }
        let stored = self.stored_writer_config(config)?;
        match self.find(0) {
            Some(i) => {
                self.replace_at(i, stored);
            },
            None => {
                let ghost before = self.writers@;
                self.writers.push((0, stored));
                proof {
                    assert forall|w: usize| #[trigger] lookup(self.writers@, w) == (if w == 0 {
                        Some(stored)
                    } else {
                        lookup(before, w)
                    }) by {
                        lemma_lookup_push(before, (0, stored), w);
                    }
                }
            },
        }
        Ok(())
    }

    /// Sets the key of network writer `wid`. The writer takes the key even
    /// when `ring` refuses it as an AES key; the error then names the
    /// writer kind and the key. Other writers have no key.
    pub fn set_encryption(&mut self, wid: usize, key: EncryptionMethod) -> (r: Result<
        (),
        LoggingError,
    >)
        requires
            old(self).wf(),
        ensures
            final(self).wf(),
            final(self).next_wid() == old(self).next_wid(),
            final(self).same_settings(*old(self)),
            old(self).writer(wid) is None ==> (r matches Err(LoggingError::InvalidValue(m)) && m@
                == missing_writer_text(wid)) && *final(self) == *old(self),
            old(self).writer(wid) matches Some(c) ==> (!(c is Client || c is Server) ==> (r matches Err(
                e,
            ) && e is InvalidValue) && *final(self) == *old(self)),
            old(self).writer(wid) matches Some(c) ==> ((c is Client || c is Server) ==> {
                &&& r is Ok <==> key_accepted(key)
                &&& r matches Err(e) ==> (e matches LoggingError::InvalidEncryption(w, k, m) && m@ == net_key_error_text(key) && k@
                    == key@ && w@ == if c is Client {
                    "ClientWriter"@
                } else {
                    "LoggingServer"@
                })
                &&& forall|w: usize| w != wid ==> #[trigger] final(self).writer(w) == old(self).writer(w)
                &&& final(self).writer(wid) matches Some(n) && match (c, n) {
                    (WriterConfigEnum::Client(x), WriterConfigEnum::Client(y)) => ClientWriterConfig {
                        key: x.key,
                        ..y
                    } == x && (if key_accepted(key) {
                        resolves_to(key, old(self).auth_key(), y.key)
                    } else {
                        y.key@ == key@
                    }),
                    (WriterConfigEnum::Server(x), WriterConfigEnum::Server(y)) => ServerConfig {
                        key: x.key,
                        ..y
                    } == x && (if key_accepted(key) {
                        resolves_to(key, old(self).auth_key(), y.key)
                    } else {
                        y.key@ == key@
                    }),
                    _ => false,
                }
            }),
    {
        let i = match self.find(wid) {
            None => {
                return Err(Self::missing_writer(wid));
            },
            Some(i) => i,
        };
        proof {
            lemma_lookup_index(self.writers@, i as int);
        }
        let is_net = match &self.writers[i].1 {
            WriterConfigEnum::Client(_) => true,
            WriterConfigEnum::Server(_) => true,
            _ => false,
        };
        if !is_net {
            return Err(
                LoggingError::InvalidValue(
                    "Unable to configure encryption for this writer".to_string(),
                ),
            );
        }
        let placeholder = WriterConfigEnum::Root(RootConfig::default());
        let c = self.replace_at(i, placeholder);
        let kept = key.duplicate();
        let resolved = resolve_key("NetConfig", key, self.auth_key.as_slice());
        let (new_key, result) = match resolved {
            Ok(k) => (k, Ok(())),
            Err(e) => {
                let again = kept.duplicate();
                let m = e.to_string();
                proof {
                    reveal_strlit("NetConfig");
                    reveal_strlit(": Invalid encryption ");
                    reveal_strlit("NetConfig: Invalid encryption ");
                    reveal_strlit(": ");
                    reveal_strlit("ring::error::Unspecified");
                    reveal_strlit(": ring::error::Unspecified");
                    if let LoggingError::InvalidEncryption(_, k, _) = e {
                        assert(crate::error::key_debug(k) == crate::error::key_debug(key));
                    }
                    assert(m@ =~= net_key_error_text(key));
                }
                (kept, Err((again, m)))
            },
        };
        match c {
            WriterConfigEnum::Client(mut x) => {
                x.key = new_key;
                self.replace_at(i, WriterConfigEnum::Client(x));
                match result {
                    Ok(()) => Ok(()),
                    Err((k, m)) => Err(LoggingError::InvalidEncryption("ClientWriter".to_string(), k, m)),
                }
            },
            WriterConfigEnum::Server(mut x) => {
                x.key = new_key;
                self.replace_at(i, WriterConfigEnum::Server(x));
                match result {
                    Ok(()) => Ok(()),
                    Err((k, m)) => Err(LoggingError::InvalidEncryption("LoggingServer".to_string(), k, m)),
                }
            },
            other => {
                self.replace_at(i, other);
                Ok(())
            },
        }
    }

    fn type_matches_exec(typ: &WriterTypeEnum, c: &WriterConfigEnum) -> (r: bool)
        ensures
            r == type_matches(*typ, *c),
    {
        match typ {
            WriterTypeEnum::Root => matches!(c, WriterConfigEnum::Root(_)),
            WriterTypeEnum::Console => matches!(c, WriterConfigEnum::Console(_)),
            WriterTypeEnum::File(p) => match c {
                WriterConfigEnum::File(x) => str_eq(x.path.as_str(), p.as_str()),
                _ => false,
            },
            WriterTypeEnum::Files => matches!(c, WriterConfigEnum::File(_)),
            WriterTypeEnum::Client(a) => match c {
                WriterConfigEnum::Client(x) => str_eq(x.get_address().as_str(), a.as_str()),
                _ => false,
            },
            WriterTypeEnum::Clients => matches!(c, WriterConfigEnum::Client(_)),
            WriterTypeEnum::Server(a) => match c {
                WriterConfigEnum::Server(x) => str_eq(x.get_address().as_str(), a.as_str()),
                _ => false,
            },
            WriterTypeEnum::Servers => matches!(c, WriterConfigEnum::Server(_)),
            WriterTypeEnum::Callback => matches!(c, WriterConfigEnum::Callback(_)),
            WriterTypeEnum::Syslog => matches!(c, WriterConfigEnum::Syslog(_)),
        }
    }

    fn address_selects_exec(a: &str, address: &String, port: u16) -> (r: bool)
        ensures
            r == address_selects(a@, address@, port),
    {
        if contains_char(a, ':') {
            if contains_char(address.as_str(), ':') {
                false
            } else {
                let mut j = address.clone();
                push_str(&mut j, ":");
                push_decimal(&mut j, port as u64);
                str_eq(j.as_str(), a)
            }
        } else {
            str_eq(address.as_str(), a) || a.is_empty()
        }
    }

    fn filter_matches_exec(wtype: &WriterTypeEnum, c: &WriterConfigEnum) -> (r: bool)
        ensures
            r == filter_matches(*wtype, *c),
    {
        match wtype {
            WriterTypeEnum::Root => matches!(c, WriterConfigEnum::Root(_)),
            WriterTypeEnum::Console => matches!(c, WriterConfigEnum::Console(_)),
            WriterTypeEnum::File(p) => match c {
                WriterConfigEnum::File(x) => str_eq(x.path.as_str(), p.as_str()) || p.as_str().is_empty(),
                _ => false,
            },
            WriterTypeEnum::Client(a) => match c {
                WriterConfigEnum::Client(x) => Self::address_selects_exec(a.as_str(), &x.address, x.port),
                _ => false,
            },
            WriterTypeEnum::Server(a) => match c {
                WriterConfigEnum::Server(x) => Self::address_selects_exec(a.as_str(), &x.address, x.port),
                _ => false,
            },
            WriterTypeEnum::Callback => matches!(c, WriterConfigEnum::Callback(_)),
            WriterTypeEnum::Syslog => matches!(c, WriterConfigEnum::Syslog(_)),
            _ => false,
        }
    }

    /// Facts about the prefix `take(i + 1)` of the registry.
    pub proof fn lemma_take_step(self, i: int)
        requires
            self.wf(),
            0 <= i < self.writers@.len(),
        ensures
            forall|w: usize| #[trigger]
                lookup(self.writers@.take(i + 1), w) == if w == self.writers@[i].0 {
                    Some(self.writers@[i].1)
                } else {
                    lookup(self.writers@.take(i), w)
                },
            lookup(self.writers@.take(i), self.writers@[i].0) is None,
    {
        let s = self.writers@;
        assert(s.take(i + 1) =~= s.take(i).push(s[i]));
        assert forall|w: usize| #[trigger]
            lookup(s.take(i + 1), w) == (if w == s[i].0 {
                Some(s[i].1)
            } else {
                lookup(s.take(i), w)
            }) by {
            lemma_lookup_push(s.take(i), s[i], w);
        }
        assert forall|j: int| 0 <= j < s.take(i).len() implies s.take(i)[j].0 != s[i].0 by {}
        lemma_lookup_absent(s.take(i), s[i].0);
    }

    /// The ids of the writers that `sel` selects, in registration order.
    pub fn wids_selected(&self, sel: &Selector) -> (r: Vec<usize>)
        requires
            self.wf(),
        ensures
            forall|w: usize| #[trigger]
                r@.contains(w) <==> (self.writer(w) matches Some(c) && selects(*sel, c)),
            forall|i: int| 0 <= i < r@.len() ==> #[trigger] self.writer(r@[i]) is Some,
            forall|i: int, j: int| 0 <= i < j < r@.len() ==> r@[i] != r@[j],
    {
        let mut r: Vec<usize> = Vec::new();
        let mut i: usize = 0;
        while i < self.writers.len()
            invariant
                self.wf(),
                i <= self.writers@.len(),
                forall|w: usize| #[trigger]
                    r@.contains(w) <==> (lookup(self.writers@.take(i as int), w) matches Some(c)
                        && selects(*sel, c)),
                forall|k: int| 0 <= k < r@.len() ==> #[trigger] lookup(self.writers@.take(i as int), r@[k]) is Some,
                forall|k: int, j: int| 0 <= k < j < r@.len() ==> r@[k] != r@[j],
            decreases self.writers@.len() - i,
        {
            proof {
                self.lemma_take_step(i as int);
            }
            let ghost r0 = r@;
            if selects_exec(sel, &self.writers[i].1) {
                r.push(self.writers[i].0);
            }
            proof {
                let e = self.writers@[i as int];
                assert forall|w: usize| #[trigger]
                    r@.contains(w) <==> (lookup(self.writers@.take(i + 1), w) matches Some(c)
                        && selects(*sel, c)) by {
                    if r@.len() > r0.len() {
                        assert(r@ =~= r0.push(e.0));
                        if r@.contains(w) && w != e.0 {
                            let k = choose|k: int| 0 <= k < r@.len() && r@[k] == w;
                            assert(r0[k] == w);
                        }
                        if r0.contains(w) {
                            let k = choose|k: int| 0 <= k < r0.len() && r0[k] == w;
                            assert(r@[k] == w);
                        }
                        if w == e.0 {
                            assert(r@[r0.len() as int] == w);
                        }
                    }
                }
                assert forall|k: int| 0 <= k < r@.len() implies #[trigger] lookup(self.writers@.take(i + 1), r@[k]) is Some by {
                    if k < r0.len() {
                        assert(r@[k] == r0[k]);
                    }
                }
                if r@.len() > r0.len() {
                    assert forall|k: int| 0 <= k < r0.len() implies r0[k] != e.0 by {
                        assert(lookup(self.writers@.take(i as int), r0[k]) is Some);
                    }
                }
            }
            i = i + 1;
        }
        assert(self.writers@.take(i as int) =~= self.writers@);
        r
    }

    /// The ids of the writers of kind `typ`, in registration order.
    pub fn wids_of_type(&self, typ: &WriterTypeEnum) -> (r: Vec<usize>)
        requires
            self.wf(),
        ensures
            forall|w: usize| #[trigger]
                r@.contains(w) <==> (self.writer(w) matches Some(c) && type_matches(*typ, c)),
    {
        self.wids_selected(&Selector::Type(typ.duplicate()))
    }

    /// Switches all writers of kind `typ` on or off; no writer of that kind
    /// is an error.
    pub fn set_enabled_type(&mut self, typ: &WriterTypeEnum, enabled: bool) -> (r: Result<
        (),
        LoggingError,
    >)
        requires
            old(self).wf(),
        ensures
            final(self).wf(),
            final(self).next_wid() == old(self).next_wid(),
            final(self).same_settings(*old(self)),
            (forall|w: usize| !(#[trigger] old(self).writer(w) matches Some(c) && type_matches(*typ, c)))
                ==> (r matches Err(e) && e is InvalidValue) && *final(self) == *old(self),
            (exists|w: usize| #[trigger] old(self).writer(w) matches Some(c) && type_matches(*typ, c))
                ==> r is Ok && forall|w: usize| #[trigger]
                final(self).writer(w) == match old(self).writer(w) {
                    Some(c) => if type_matches(*typ, c) {
                        Some(with_enabled(c, enabled))
                    } else {
                        Some(c)
                    },
                    None => None,
                },
    {
        let wids = self.wids_of_type(typ);
        if wids.len() == 0 {
            proof {
                assert forall|w: usize| !(#[trigger] old(self).writer(w) matches Some(c) && type_matches(*typ, c)) by {
                    if old(self).writer(w) matches Some(c) && type_matches(*typ, c) {
                        assert(wids@.contains(w));
                    }
                }
            }
            return Err(LoggingError::InvalidValue("Writer type does not exist".to_string()));
        }
        proof {
            assert(wids@.contains(wids@[0]));
        }
        let ghost orig = *old(self);
        let mut i: usize = 0;
        while i < wids.len()
            invariant
                self.wf(),
                i <= wids@.len(),
                self.next_wid() == orig.next_wid(),
                self.same_settings(orig),
                forall|w: usize| #[trigger]
                    wids@.contains(w) <==> (orig.writer(w) matches Some(c) && type_matches(*typ, c)),
                forall|w: usize| #[trigger]
                    self.writer(w) == if wids@.subrange(0, i as int).contains(w) {
                        match orig.writer(w) {
                            Some(c) => Some(with_enabled(c, enabled)),
                            None => None,
                        }
                    } else {
                        orig.writer(w)
                    },
            decreases wids@.len() - i,
        {
            let w = wids[i];
            proof {
                assert(wids@.contains(w));
            }
            let _ = self.set_enabled(w, enabled);
            proof {
                assert forall|x: usize| #[trigger]
                    self.writer(x) == if wids@.subrange(0, i + 1).contains(x) {
                        match orig.writer(x) {
                            Some(c) => Some(with_enabled(c, enabled)),
                            None => None,
                        }
                    } else {
                        orig.writer(x)
                    } by {
                    let sub0 = wids@.subrange(0, i as int);
                    let sub1 = wids@.subrange(0, i + 1);
                    assert(sub1 =~= sub0.push(w));
                    if x == w {
                        assert(sub1[i as int] == w);
                    }
                    if sub0.contains(x) {
                        let j = choose|j: int| 0 <= j < sub0.len() && sub0[j] == x;
                        assert(sub1[j] == x);
                    }
                    if sub1.contains(x) {
                        let j = choose|j: int| 0 <= j < sub1.len() && sub1[j] == x;
                        if j < i {
                            assert(sub0[j] == x);
                        }
                    }
                }
            }
            i = i + 1;
        }
        proof {
            assert(wids@.subrange(0, i as int) =~= wids@);
        }
        Ok(())
    }

    /// Switches all writers of kind `typ` on.
    pub fn enable_type(&mut self, typ: &WriterTypeEnum) -> (r: Result<(), LoggingError>)
        requires
            old(self).wf(),
        ensures
            final(self).wf(),
            final(self).next_wid() == old(self).next_wid(),
            final(self).same_settings(*old(self)),
            (forall|w: usize| !(#[trigger] old(self).writer(w) matches Some(c) && type_matches(*typ, c)))
                ==> (r matches Err(e) && e is InvalidValue) && *final(self) == *old(self),
            (exists|w: usize| #[trigger] old(self).writer(w) matches Some(c) && type_matches(*typ, c))
                ==> r is Ok && forall|w: usize| #[trigger]
                final(self).writer(w) == match old(self).writer(w) {
                    Some(c) => if type_matches(*typ, c) {
                        Some(with_enabled(c, true))
                    } else {
                        Some(c)
                    },
                    None => None,
                },
    {
        self.set_enabled_type(typ, true)
    }

    /// Switches all writers of kind `typ` off.
    pub fn disable_type(&mut self, typ: &WriterTypeEnum) -> (r: Result<(), LoggingError>)
        requires
            old(self).wf(),
        ensures
            final(self).wf(),
            final(self).next_wid() == old(self).next_wid(),
            final(self).same_settings(*old(self)),
            (forall|w: usize| !(#[trigger] old(self).writer(w) matches Some(c) && type_matches(*typ, c)))
                ==> (r matches Err(e) && e is InvalidValue) && *final(self) == *old(self),
            (exists|w: usize| #[trigger] old(self).writer(w) matches Some(c) && type_matches(*typ, c))
                ==> r is Ok && forall|w: usize| #[trigger]
                final(self).writer(w) == match old(self).writer(w) {
                    Some(c) => if type_matches(*typ, c) {
                        Some(with_enabled(c, false))
                    } else {
                        Some(c)
                    },
                    None => None,
                },
    {
        self.set_enabled_type(typ, false)
    }
}

} // verus!
