//! Queries on the writer registry of a logging instance: the writers a
//! configuration file entry selects, and the server writers with their
//! addresses and ports.

use vstd::prelude::*;

use std::collections::HashMap;

use crate::def::{LevelSyms, MessageStructEnum, WriterConfigEnum, WriterTypeEnum};
use crate::error::LoggingError;
use crate::instance::{listed, lookup, selects, LoggingInstance, Selector};
use crate::net::{address_with_port, ServerConfig};
use crate::text::{dec, push_decimal, push_str};

verus! {

broadcast use vstd::std_specs::hash::group_hash_axioms;

/// The server configuration of a registry entry, if it is a server.
pub open spec fn server_of(c: Option<WriterConfigEnum>) -> Option<ServerConfig> {
    match c {
        Some(WriterConfigEnum::Server(x)) => Some(x),
        _ => None,
    }
}

/// The settings of a logging instance and its writer configurations.
pub struct LoggingConfig {
    pub level: u8,
    pub domain: String,
    pub hostname: Option<String>,
    pub pname: String,
    pub pid: u32,
    pub tname: bool,
    pub tid: bool,
    pub structured: MessageStructEnum,
    pub level2sym: LevelSyms,
    /// The configurations of all writers but the root writer, by id.
    pub configs: HashMap<usize, WriterConfigEnum>,
    pub debug: u8,
}

/// The text of the error for a writer id that holds no server.
pub open spec fn no_server_text(wid: usize) -> Seq<char> {
    "Writer wid="@ + dec(wid as nat) + " has invalid type"@
}

impl LoggingInstance {
    /// The configurations of the writers that `sel` selects, by id.
    pub fn configs_selected(&self, sel: &Selector) -> (r: HashMap<usize, WriterConfigEnum>)
        requires
            self.wf(),
        ensures
            forall|w: usize| #[trigger]
                r@.contains_key(w) <==> (self.writer(w) matches Some(c) && selects(*sel, c)),
            forall|w: usize| #[trigger] r@.contains_key(w) ==> r@[w].same_as(self.writer(w)->0),
    {
        let wids = self.wids_selected(sel);
        let mut r: HashMap<usize, WriterConfigEnum> = HashMap::new();
        let mut i: usize = 0;
        while i < wids.len()
            invariant
                self.wf(),
                i <= wids@.len(),
                forall|w: usize| #[trigger]
                    wids@.contains(w) <==> (self.writer(w) matches Some(c) && selects(*sel, c)),
                forall|k: int| 0 <= k < wids@.len() ==> #[trigger] self.writer(wids@[k]) is Some,
                forall|w: usize| #[trigger]
                    r@.contains_key(w) <==> wids@.subrange(0, i as int).contains(w),
                forall|w: usize| #[trigger] r@.contains_key(w) ==> r@[w].same_as(self.writer(w)->0),
            decreases wids@.len() - i,
        {
            let w = wids[i];
            proof {
                assert(self.writer(w) is Some);
            }
            match self.get_entry(w) {
                Some(c) => {
                    r.insert(w, c);
                },
                None => {},
            }
            proof {
                let sub0 = wids@.subrange(0, i as int);
                let sub1 = wids@.subrange(0, i + 1);
                assert(sub1 =~= sub0.push(w));
                assert forall|x: usize| #[trigger] r@.contains_key(x) <==> sub1.contains(x) by {
                    if sub1.contains(x) && x != w {
                        let j = choose|j: int| 0 <= j < sub1.len() && sub1[j] == x;
                        assert(sub0[j] == x);
                    }
                    if sub0.contains(x) {
                        let j = choose|j: int| 0 <= j < sub0.len() && sub0[j] == x;
                        assert(sub1[j] == x);
                    }
                    if x == w {
                        assert(sub1[i as int] == x);
                    }
                }
            }
            i = i + 1;
        }
        assert(wids@.subrange(0, i as int) =~= wids@);
        r
    }

    /// A copy of the configuration registered under `wid`, root writer
    /// included.
    pub fn get_entry(&self, wid: usize) -> (r: Option<WriterConfigEnum>)
        requires
            self.wf(),
        ensures
            r is Some <==> self.writer(wid) is Some,
            r matches Some(c) ==> c.same_as(self.writer(wid)->0),
    {
        let mut i: usize = 0;
        while i < self.writers.len()
            invariant
                self.wf(),
                i <= self.writers@.len(),
                forall|j: int| 0 <= j < i ==> self.writers@[j].0 != wid,
            decreases self.writers@.len() - i,
        {
            if self.writers[i].0 == wid {
                proof {
                    crate::instance::lemma_lookup_index(self.writers@, i as int);
                }
                return Some(self.writers[i].1.duplicate());
            }
            i = i + 1;
        }
        proof {
            crate::instance::lemma_lookup_absent(self.writers@, wid);
        }
        None
    }

    /// The configurations of the listed writers that a configuration file
    /// entry of kind `wtype` selects, by id.
    pub fn get_filtered_writer_configs(&self, wtype: &WriterTypeEnum) -> (r: HashMap<
        usize,
        WriterConfigEnum,
    >)
        requires
            self.wf(),
        ensures
            forall|w: usize| #[trigger]
                r@.contains_key(w) <==> (self.writer(w) matches Some(c) && selects(
                    Selector::Merged(*wtype),
                    c,
                )),
            forall|w: usize| #[trigger] r@.contains_key(w) ==> r@[w].same_as(self.writer(w)->0),
    {
        self.configs_selected(&Selector::Merged(wtype.duplicate()))
    }

    /// The configurations of the server writers, by id.
    pub fn get_server_configs(&self) -> (r: HashMap<usize, ServerConfig>)
        requires
            self.wf(),
        ensures
            forall|w: usize| #[trigger] r@.contains_key(w) <==> server_of(self.writer(w)) is Some,
            forall|w: usize| #[trigger] r@.contains_key(w) ==> {
                let v = r@[w];
                let x = server_of(self.writer(w))->0;
                v.same_as(x)
            },
    {
        let mut r: HashMap<usize, ServerConfig> = HashMap::new();
        let mut i: usize = 0;
        while i < self.writers.len()
            invariant
                self.wf(),
                i <= self.writers@.len(),
                forall|w: usize| #[trigger]
                    r@.contains_key(w) <==> server_of(lookup(self.writers@.take(i as int), w)) is Some,
                forall|w: usize| #[trigger] r@.contains_key(w) ==> {
                    let v = r@[w];
                    let x = server_of(lookup(self.writers@.take(i as int), w))->0;
                    v.same_as(x)
                },
            decreases self.writers@.len() - i,
        {
            proof {
                self.lemma_take_step(i as int);
            }
            let wid = self.writers[i].0;
            match &self.writers[i].1 {
                WriterConfigEnum::Server(x) => {
                    r.insert(wid, x.duplicate());
                },
                _ => {},
            }
            i = i + 1;
        }
        assert(self.writers@.take(i as int) =~= self.writers@);
        r
    }

    /// The addresses of the server writers, by id.
    pub fn get_server_addresses(&self) -> (r: HashMap<usize, String>)
        requires
            self.wf(),
        ensures
            forall|w: usize| #[trigger] r@.contains_key(w) <==> server_of(self.writer(w)) is Some,
            forall|w: usize| #[trigger] r@.contains_key(w) ==> {
                let v = r@[w];
                let x = server_of(self.writer(w))->0;
                v@ == x.address@
            },
    {
        let mut r: HashMap<usize, String> = HashMap::new();
        let mut i: usize = 0;
        while i < self.writers.len()
            invariant
                self.wf(),
                i <= self.writers@.len(),
                forall|w: usize| #[trigger]
                    r@.contains_key(w) <==> server_of(lookup(self.writers@.take(i as int), w)) is Some,
                forall|w: usize| #[trigger] r@.contains_key(w) ==> {
                    let v = r@[w];
                    let x = server_of(lookup(self.writers@.take(i as int), w))->0;
                    v@ == x.address@
                },
            decreases self.writers@.len() - i,
        {
            proof {
                self.lemma_take_step(i as int);
            }
            let wid = self.writers[i].0;
            match &self.writers[i].1 {
                WriterConfigEnum::Server(x) => {
                    r.insert(wid, x.address.clone());
                },
                _ => {},
            }
            i = i + 1;
        }
        assert(self.writers@.take(i as int) =~= self.writers@);
        r
    }

    /// The ports of the server writers, by id.
    pub fn get_server_ports(&self) -> (r: HashMap<usize, u16>)
        requires
            self.wf(),
        ensures
            forall|w: usize| #[trigger] r@.contains_key(w) <==> server_of(self.writer(w)) is Some,
            forall|w: usize| #[trigger] r@.contains_key(w) ==> {
                let v = r@[w];
                let x = server_of(self.writer(w))->0;
                v == x.port
            },
    {
        let mut r: HashMap<usize, u16> = HashMap::new();
        let mut i: usize = 0;
        while i < self.writers.len()
            invariant
                self.wf(),
                i <= self.writers@.len(),
                forall|w: usize| #[trigger]
                    r@.contains_key(w) <==> server_of(lookup(self.writers@.take(i as int), w)) is Some,
                forall|w: usize| #[trigger] r@.contains_key(w) ==> {
                    let v = r@[w];
                    let x = server_of(lookup(self.writers@.take(i as int), w))->0;
                    v == x.port
                },
            decreases self.writers@.len() - i,
        {
            proof {
                self.lemma_take_step(i as int);
            }
            let wid = self.writers[i].0;
            match &self.writers[i].1 {
                WriterConfigEnum::Server(x) => {
                    r.insert(wid, x.port);
                },
                _ => {},
            }
            i = i + 1;
        }
        assert(self.writers@.take(i as int) =~= self.writers@);
        r
    }

    /// The `address:port` texts of the server writers (the address alone while the port is unset), by id.
    pub fn get_server_addresses_ports(&self) -> (r: HashMap<usize, String>)
        requires
            self.wf(),
        ensures
            forall|w: usize| #[trigger] r@.contains_key(w) <==> server_of(self.writer(w)) is Some,
            forall|w: usize| #[trigger] r@.contains_key(w) ==> {
                let v = r@[w];
                let x = server_of(self.writer(w))->0;
                v@ == address_with_port(x.address@, x.port)
            },
    {
        let mut r: HashMap<usize, String> = HashMap::new();
        let mut i: usize = 0;
        while i < self.writers.len()
            invariant
                self.wf(),
                i <= self.writers@.len(),
                forall|w: usize| #[trigger]
                    r@.contains_key(w) <==> server_of(lookup(self.writers@.take(i as int), w)) is Some,
                forall|w: usize| #[trigger] r@.contains_key(w) ==> {
                    let v = r@[w];
                    let x = server_of(lookup(self.writers@.take(i as int), w))->0;
                    v@ == address_with_port(x.address@, x.port)
                },
            decreases self.writers@.len() - i,
        {
            proof {
                self.lemma_take_step(i as int);
            }
            let wid = self.writers[i].0;
            match &self.writers[i].1 {
                WriterConfigEnum::Server(x) => {
                    r.insert(wid, x.get_address_port());
                },
                _ => {},
            }
            i = i + 1;
        }
        assert(self.writers@.take(i as int) =~= self.writers@);
        r
    }

    /// The `address:port` text of the root writer, when it is a server.
    pub fn get_root_server_address_port(&self) -> (r: Option<String>)
        requires
            self.wf(),
        ensures
            server_of(self.writer(0)) is None ==> r is None,
            server_of(self.writer(0)) matches Some(x) ==> (r matches Some(a) && a@ == address_with_port(
                x.address@,
                x.port,
            )),
    {
        match self.get_entry(0) {
            Some(WriterConfigEnum::Server(x)) => Some(x.get_address_port()),
            _ => None,
        }
    }

    /// The configuration of server writer `wid`; another writer kind, or no
    /// writer, is an error.
    pub fn get_server_config(&self, wid: usize) -> (r: Result<ServerConfig, LoggingError>)
        requires
            self.wf(),
        ensures
            self.writer(wid) is None ==> (r matches Err(LoggingError::InvalidValue(m)) && m@
                == crate::instance::missing_writer_text(wid)),
            self.writer(wid) is Some && server_of(self.writer(wid)) is None ==> (r matches Err(
                LoggingError::InvalidValue(m),
            ) && m@ == no_server_text(wid)),
            server_of(self.writer(wid)) matches Some(x) ==> (r matches Ok(c) && c.same_as(x)),
    {
        match self.get_entry(wid) {
            None => {
                let mut m = "Writer ".to_string();
                push_decimal(&mut m, wid as u64);
                push_str(&mut m, " does not exist");
                Err(LoggingError::InvalidValue(m))
            },
            Some(WriterConfigEnum::Server(x)) => Ok(x),
            Some(_) => {
                let mut m = "Writer wid=".to_string();
                push_decimal(&mut m, wid as u64);
                push_str(&mut m, " has invalid type");
                Err(LoggingError::InvalidValue(m))
            },
        }
    }

    /// The ids of the file writers to rotate, each once: all of them, or
    /// those writing to `path`.
    pub fn rotation_wids(&self, path: Option<String>) -> (r: Vec<usize>)
        requires
            self.wf(),
        ensures
            forall|w: usize| #[trigger]
                r@.contains(w) <==> (self.writer(w) matches Some(WriterConfigEnum::File(x)) && (
                path matches Some(p) ==> x.path@ == p@)),
            forall|i: int, j: int| 0 <= i < j < r@.len() ==> r@[i] != r@[j],
    {
        let typ = match path {
            None => WriterTypeEnum::Files,
            Some(p) => WriterTypeEnum::File(p),
        };
        self.wids_selected(&Selector::Type(typ))
    }

    /// The settings of the instance and the configurations of its listed
    /// writers.
    pub fn get_logging_config(&self) -> (r: LoggingConfig)
        requires
            self.wf(),
        ensures
            r.level == self.level,
            r.domain == self.domain,
            r.hostname == self.hostname,
            r.pname == self.pname,
            r.pid == self.pid,
            r.tname == self.tname,
            r.tid == self.tid,
            r.structured == self.structured,
            r.level2sym == self.level2sym,
            r.debug == self.debug,
            forall|w: usize| #[trigger] r.configs@.contains_key(w) <==> listed(self.writer(w)),
            forall|w: usize| #[trigger]
                r.configs@.contains_key(w) ==> r.configs@[w].same_as(self.writer(w)->0),
    {
        LoggingConfig {
            level: self.level,
            domain: self.domain.clone(),
            hostname: crate::def::clone_opt_string(&self.hostname),
            pname: self.pname.clone(),
            pid: self.pid,
            tname: self.tname,
            tid: self.tid,
            structured: self.structured,
            level2sym: self.level2sym,
            configs: self.get_writer_configs(),
            debug: self.debug,
        }
    }
}


/// The machine's host name, from `gethostname::gethostname`, when it is
/// valid UTF-8.
#[verifier::external_body]
fn host_name() -> (r: Option<String>) {
    gethostname::gethostname().into_string().ok()
}

impl LoggingInstance {
    /// Takes the extended settings: the message structure and thread
    /// settings as given, and the host name, process name and process id
    /// given here where the settings ask for them (else none, empty, 0).
    pub fn set_ext_config_with(
        &mut self,
        ext_config: &crate::config::ExtConfig,
        hostname: Option<String>,
        pname: String,
        pid: u32,
    )
        ensures
            final(self).structured == ext_config.structured,
            final(self).hostname == if ext_config.hostname {
                hostname
            } else {
                None
            },
            final(self).pname@ == if ext_config.pname {
                pname@
            } else {
                Seq::empty()
            },
            final(self).pid == if ext_config.pid {
                pid
            } else {
                0
            },
            final(self).tname == ext_config.tname,
            final(self).tid == ext_config.tid,
            final(self).level == old(self).level,
            final(self).domain == old(self).domain,
            final(self).level2sym == old(self).level2sym,
            final(self).debug == old(self).debug,
            final(self).writers == old(self).writers,
            final(self).wid == old(self).wid,
            final(self).auth_key == old(self).auth_key,
    {
        self.structured = ext_config.structured;
        self.hostname = if ext_config.hostname {
            hostname
        } else {
            None
        };
        self.pname = if ext_config.pname {
            pname
        } else {
            String::new()
        };
        self.pid = if ext_config.pid {
            pid
        } else {
            0
        };
        self.tname = ext_config.tname;
        self.tid = ext_config.tid;
    }

    /// Takes the extended settings, with this machine's host name where
    /// they ask for it; the process name and id come from the caller.
    pub fn set_ext_config(&mut self, ext_config: &crate::config::ExtConfig, pname: String, pid: u32)
        ensures
            final(self).structured == ext_config.structured,
            !ext_config.hostname ==> final(self).hostname is None,
            final(self).pname@ == if ext_config.pname {
                pname@
            } else {
                Seq::empty()
            },
            final(self).pid == if ext_config.pid {
                pid
            } else {
                0
            },
            final(self).tname == ext_config.tname,
            final(self).tid == ext_config.tid,
            final(self).level == old(self).level,
            final(self).domain == old(self).domain,
            final(self).level2sym == old(self).level2sym,
            final(self).debug == old(self).debug,
            final(self).writers == old(self).writers,
            final(self).wid == old(self).wid,
            final(self).auth_key == old(self).auth_key,
    {
        let hostname = if ext_config.hostname {
            host_name()
        } else {
            None
        };
        self.set_ext_config_with(ext_config, hostname, pname, pid);
    }
}


impl LoggingInstance {
    /// Records the port and port file a server writer `wid` got when it
    /// started listening; other writers stay as they are.
    pub fn set_server_listening(&mut self, wid: usize, port: u16, port_file: Option<String>) -> (r: bool)
        requires
            old(self).wf(),
        ensures
            final(self).wf(),
            final(self).next_wid() == old(self).next_wid(),
            final(self).same_settings(*old(self)),
            r == (server_of(old(self).writer(wid)) is Some),
            !r ==> *final(self) == *old(self),
            r ==> (server_of(final(self).writer(wid)) matches Some(y) && y == (ServerConfig {
                port,
                port_file,
                ..server_of(old(self).writer(wid))->0
            })) && forall|w: usize| w != wid ==> #[trigger] final(self).writer(w) == old(self).writer(w),
    {
        let mut i: usize = 0;
        while i < self.writers.len()
            invariant
                self.wf(),
                self == old(self),
                i <= self.writers@.len(),
                forall|j: int| 0 <= j < i ==> self.writers@[j].0 != wid,
            decreases self.writers@.len() - i,
        {
            if self.writers[i].0 == wid {
                proof {
                    crate::instance::lemma_lookup_index(self.writers@, i as int);
                }
                let is_server = match &self.writers[i].1 {
                    WriterConfigEnum::Server(_) => true,
                    _ => false,
                };
                if !is_server {
                    return false;
                }
                let placeholder = WriterConfigEnum::Root(crate::def::RootConfig::default());
                let c = self.replace_at(i, placeholder);
                match c {
                    WriterConfigEnum::Server(mut x) => {
                        x.port = port;
                        x.port_file = port_file;
                        self.replace_at(i, WriterConfigEnum::Server(x));
                    },
                    other => {
                        self.replace_at(i, other);
                    },
                }
                return true;
            }
            i = i + 1;
        }
        proof {
            crate::instance::lemma_lookup_absent(self.writers@, wid);
        }
        false
    }
}
} // verus!
