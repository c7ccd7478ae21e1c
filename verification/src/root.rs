//! The interface of the root logging instance. The root instance itself is
//! kept by the caller; each function acts on it as [`Logging`]'s method of
//! the same name does.

use vstd::prelude::*;

use std::collections::HashMap;

use crate::config::ExtConfig;
use crate::def::{
    LevelSyms, WriterConfigEnum, WriterTypeEnum, CRITICAL, DEBUG, ERROR, EXCEPTION, FATAL, INFO,
    SUCCESS, TRACE, WARNING,
};
use crate::encryption::{EncryptionMethod, KeyModel};
use crate::error::LoggingError;
use crate::instance::{config_accepted, holds_stored, listed, removal_ids, removed_configs};
use crate::logging::{
    added, encryption_set, has_domain, logging_sent, removed, removed_all, root_writer_set,
    same_front, switched, type_switched, Logger, Logging,
};
use crate::net::{address_with_port, ServerConfig};
use crate::queries::server_of;

verus! {

/// Sets the level of writer `wid` of the root instance.
pub fn set_level(root: &mut Logging, wid: usize, level: u8) -> (r: Result<(), LoggingError>)
    requires
        old(root).wf(),
    ensures
        final(root).wf(),
        old(root).instance.writer(wid) is None ==> (r matches Err(LoggingError::InvalidValue(m))
            && m@ == crate::instance::missing_writer_text(wid)) && final(root).instance
            == old(root).instance && final(root).level == old(root).level,
        old(root).instance.writer(wid) matches Some(c) ==> r is Ok && if c is Root {
            final(root).level == level && final(root).instance.level == level
                && final(root).instance.same_writers(old(root).instance)
        } else {
            final(root).level == old(root).level && final(root).instance.same_settings(
                old(root).instance,
            ) && forall|w: usize| #[trigger]
                final(root).instance.writer(w) == if w == wid {
                    Some(crate::instance::with_level(c, level))
                } else {
                    old(root).instance.writer(w)
                }
        },
{
    root.set_level(wid, level)
}

/// Sets the level of the root instance.
pub fn set_root_level(root: &mut Logging, level: u8)
    requires
        old(root).wf(),
    ensures
        final(root).wf(),
        final(root).level == level,
        final(root).instance.level == level,
        final(root).instance.same_writers(old(root).instance),
        final(root).instance.domain == old(root).instance.domain,
{
    root.set_root_level(level)
}

/// The level of the root instance's own messages.
pub fn get_root_level(root: &Logging) -> (r: u8)
    ensures
        r == root.level,
{
    root.level
}

/// Sets the domain of the root instance's messages.
pub fn set_domain(root: &mut Logging, domain: &str)
    requires
        old(root).wf(),
    ensures
        final(root).wf(),
        final(root).instance.domain@ == domain@,
        final(root).instance.same_writers(old(root).instance),
        final(root).level == old(root).level,
{
    root.set_domain(domain)
}

/// Sets how the root instance names levels.
pub fn set_level2sym(root: &mut Logging, level2sym: &LevelSyms)
    requires
        old(root).wf(),
    ensures
        final(root).wf(),
        final(root).instance.level2sym == *level2sym,
        final(root).instance.same_writers(old(root).instance),
        final(root).level == old(root).level,
{
    root.set_level2sym(level2sym)
}

/// Gives the root instance extended settings.
pub fn set_ext_config(root: &mut Logging, ext_config: &ExtConfig, pname: String, pid: u32)
    requires
        old(root).wf(),
    ensures
        final(root).wf(),
        final(root).instance.structured == ext_config.structured,
        final(root).tname == ext_config.tname,
        final(root).tid == ext_config.tid,
        !ext_config.hostname ==> final(root).instance.hostname is None,
        final(root).instance.pid == if ext_config.pid {
            pid
        } else {
            0
        },
        final(root).instance.same_writers(old(root).instance),
{
    root.set_ext_config(ext_config, pname, pid)
}

/// Sets the root writer of the root instance.
pub fn set_root_writer_config(root: &mut Logging, config: &WriterConfigEnum) -> (r: Result<(), LoggingError>)
    requires
        old(root).wf(),
    ensures
        final(root).wf(),
        root_writer_set(old(root).instance, final(root).instance, *config, r),
        same_front(*old(root), *final(root)),
{
    root.set_root_writer_config(config)
}

/// Adds a writer to the root instance.
pub fn add_writer_config(root: &mut Logging, config: &WriterConfigEnum) -> (r: Result<usize, LoggingError>)
    requires
        old(root).wf(),
        old(root).instance.next_wid() < usize::MAX,
    ensures
        final(root).wf(),
        added(old(root).instance, final(root).instance, *config, r),
        same_front(*old(root), *final(root)),
{
    root.add_writer_config(config)
}

/// Adds writers to the root instance under consecutive ids.
pub fn add_writer_configs(root: &mut Logging, configs: &[WriterConfigEnum]) -> (r: Result<
    Vec<usize>,
    LoggingError,
>)
    requires
        old(root).wf(),
        old(root).instance.next_wid() + configs@.len() < usize::MAX,
    ensures
        final(root).wf(),
        same_front(*old(root), *final(root)),
        r matches Err(e) ==> e is InvalidEncryption,
        r is Ok <==> forall|i: int| 0 <= i < configs@.len() ==> config_accepted(
            #[trigger] configs@[i],
        ),
        r matches Ok(wids) ==> {
            &&& wids@.len() == configs@.len()
            &&& forall|i: int|
                0 <= i < wids@.len() ==> #[trigger] wids@[i] == old(root).instance.next_wid() + i
            &&& forall|i: int|
                0 <= i < wids@.len() ==> holds_stored(
                    #[trigger] final(root).instance.writer(wids@[i]),
                    configs@[i],
                    old(root).instance.auth_key(),
                )
            &&& final(root).instance.next_wid() == old(root).instance.next_wid() + configs@.len()
            &&& forall|w: usize|
                w < old(root).instance.next_wid() ==> #[trigger] final(root).instance.writer(w)
                    == old(root).instance.writer(w)
        },
{
    root.add_writer_configs(configs)
}

/// Removes writer `wid` from the root instance and returns its
/// configuration.
pub fn remove_writer(root: &mut Logging, wid: usize) -> (r: Option<WriterConfigEnum>)
    requires
        old(root).wf(),
    ensures
        final(root).wf(),
        removed(old(root).instance, final(root).instance, wid, r),
        same_front(*old(root), *final(root)),
{
    root.remove_writer(wid)
}

/// Removes the writers `wids`, or all writers, from the root instance and
/// returns what was removed.
pub fn remove_writers(root: &mut Logging, wids: Option<Vec<usize>>) -> (r: Vec<WriterConfigEnum>)
    requires
        old(root).wf(),
    ensures
        final(root).wf(),
        removed_all(old(root).instance, final(root).instance, wids),
        r@ == removed_configs(old(root).instance, removal_ids(old(root).instance, wids)),
        same_front(*old(root), *final(root)),
{
    root.remove_writers(wids)
}

/// Connects `logger` to the root instance.
pub fn add_logger(root: &mut Logging, logger: &mut Logger)
    requires
        old(root).wf(),
    ensures
        final(root).wf(),
        final(logger).registered(),
        final(logger).domain == old(logger).domain,
        final(logger).level == old(logger).level,
        has_domain(final(root).loggers@, old(logger).domain@),
        final(root).instance == old(root).instance,
{
    root.add_logger(logger)
}

/// Disconnects `logger` from the root instance.
pub fn remove_logger(root: &mut Logging, logger: &mut Logger)
    requires
        old(root).wf(),
    ensures
        final(root).wf(),
        !final(logger).registered(),
        final(logger).domain == old(logger).domain,
        !has_domain(final(root).loggers@, old(logger).domain@),
        final(root).instance == old(root).instance,
{
    root.remove_logger(logger)
}

/// Switches writer `wid` of the root instance on.
pub fn enable(root: &mut Logging, wid: usize) -> (r: Result<(), LoggingError>)
    requires
        old(root).wf(),
    ensures
        final(root).wf(),
        switched(old(root).instance, final(root).instance, wid, true, r),
        same_front(*old(root), *final(root)),
{
    root.enable(wid)
}

/// Switches writer `wid` of the root instance off.
pub fn disable(root: &mut Logging, wid: usize) -> (r: Result<(), LoggingError>)
    requires
        old(root).wf(),
    ensures
        final(root).wf(),
        switched(old(root).instance, final(root).instance, wid, false, r),
        same_front(*old(root), *final(root)),
{
    root.disable(wid)
}

/// Switches the root instance's writers of kind `typ` on.
pub fn enable_type(root: &mut Logging, typ: &WriterTypeEnum) -> (r: Result<(), LoggingError>)
    requires
        old(root).wf(),
    ensures
        final(root).wf(),
        type_switched(old(root).instance, final(root).instance, *typ, true, r),
        same_front(*old(root), *final(root)),
{
    root.enable_type(typ)
}

/// Switches the root instance's writers of kind `typ` off.
pub fn disable_type(root: &mut Logging, typ: &WriterTypeEnum) -> (r: Result<(), LoggingError>)
    requires
        old(root).wf(),
    ensures
        final(root).wf(),
        type_switched(old(root).instance, final(root).instance, *typ, false, r),
        same_front(*old(root), *final(root)),
{
    root.disable_type(typ)
}

/// Sets the key of network writer `wid` of the root instance.
pub fn set_encryption(root: &mut Logging, wid: usize, key: EncryptionMethod) -> (r: Result<(), LoggingError>)
    requires
        old(root).wf(),
    ensures
        final(root).wf(),
        encryption_set(old(root).instance, final(root).instance, wid, key, r),
        same_front(*old(root), *final(root)),
{
    root.set_encryption(wid, key)
}

/// Sets the debug level of the root instance.
pub fn set_debug(root: &mut Logging, debug: u8)
    requires
        old(root).wf(),
    ensures
        final(root).wf(),
        final(root).instance.debug == debug,
        final(root).instance.writers == old(root).instance.writers,
        same_front(*old(root), *final(root)),
{
    root.set_debug(debug)
}

/// The configuration of writer `wid` of the root instance.
pub fn get_writer_config(root: &Logging, wid: usize) -> (r: Option<WriterConfigEnum>)
    requires
        root.wf(),
    ensures
        r is Some <==> listed(root.instance.writer(wid)),
        r matches Some(c) ==> c.same_as(root.instance.writer(wid)->0),
{
    root.get_writer_config(wid)
}

/// The configurations of the root instance's listed writers, by id.
pub fn get_writer_configs(root: &Logging) -> (r: HashMap<usize, WriterConfigEnum>)
    requires
        root.wf(),
    ensures
        forall|w: usize| #[trigger] r@.contains_key(w) <==> listed(root.instance.writer(w)),
        forall|w: usize| #[trigger] r@.contains_key(w) ==> r@[w].same_as(root.instance.writer(w)->0),
{
    root.get_writer_configs()
}

/// The configuration of server writer `wid` of the root instance.
pub fn get_server_config(root: &Logging, wid: usize) -> (r: Result<ServerConfig, LoggingError>)
    requires
        root.wf(),
    ensures
        !listed(root.instance.writer(wid)) ==> (r matches Err(LoggingError::InvalidValue(m)) && m@
            == "Writer wid="@ + crate::text::dec(wid as nat) + " does not exist"@),
        listed(root.instance.writer(wid)) && server_of(root.instance.writer(wid)) is None
            ==> (r matches Err(LoggingError::InvalidValue(m)) && m@ == crate::queries::no_server_text(wid)),
        server_of(root.instance.writer(wid)) matches Some(x) ==> (r matches Ok(c) && c.same_as(x)),
{
    root.get_server_config(wid)
}

/// The configurations of the root instance's server writers, by id.
pub fn get_server_configs(root: &Logging) -> (r: HashMap<usize, ServerConfig>)
    requires
        root.wf(),
    ensures
        forall|w: usize| #[trigger] r@.contains_key(w) <==> server_of(root.instance.writer(w)) is Some,
        forall|w: usize| #[trigger] r@.contains_key(w) ==> r@[w].same_as(server_of(root.instance.writer(w))->0),
{
    root.get_server_configs()
}

/// The `address:port` text of the root instance's root writer, when it
/// is a server.
pub fn get_root_server_address_port(root: &Logging) -> (r: Option<String>)
    requires
        root.wf(),
    ensures
        server_of(root.instance.writer(0)) is None ==> r is None,
        server_of(root.instance.writer(0)) matches Some(x) ==> (r matches Some(a) && a@
            == address_with_port(x.address@, x.port)),
{
    root.get_root_server_address_port()
}

/// The `address:port` texts of the root instance's server writers, by id.
pub fn get_server_addresses_ports(root: &Logging) -> (r: HashMap<usize, String>)
    requires
        root.wf(),
    ensures
        forall|w: usize| #[trigger] r@.contains_key(w) <==> server_of(root.instance.writer(w)) is Some,
        forall|w: usize| #[trigger] r@.contains_key(w) ==> r@[w]@ == address_with_port(
            server_of(root.instance.writer(w))->0.address@,
            server_of(root.instance.writer(w))->0.port,
        ),
{
    root.get_server_addresses_ports()
}

/// The addresses of the root instance's server writers, by id.
pub fn get_server_addresses(root: &Logging) -> (r: HashMap<usize, String>)
    requires
        root.wf(),
    ensures
        forall|w: usize| #[trigger] r@.contains_key(w) <==> server_of(root.instance.writer(w)) is Some,
        forall|w: usize| #[trigger] r@.contains_key(w) ==> r@[w]@ == server_of(root.instance.writer(w))->0.address@,
{
    root.get_server_addresses()
}

/// The ports of the root instance's server writers, by id.
pub fn get_server_ports(root: &Logging) -> (r: HashMap<usize, u16>)
    requires
        root.wf(),
    ensures
        forall|w: usize| #[trigger] r@.contains_key(w) <==> server_of(root.instance.writer(w)) is Some,
        forall|w: usize| #[trigger] r@.contains_key(w) ==> r@[w] == server_of(root.instance.writer(w))->0.port,
{
    root.get_server_ports()
}

/// The key network writers of the root instance authenticate with.
pub fn get_server_auth_key(root: &Logging) -> (r: EncryptionMethod)
    ensures
        r@ == KeyModel::AuthKey(root.instance.auth_key()),
{
    root.get_server_auth_key()
}

/// Sends a message of level `TRACE` through the root instance, when its
/// level lets it pass.
pub fn trace(root: &mut Logging, message: &str, thread_name: &str) -> (r: Result<(), LoggingError>)
    ensures
        old(root).level > TRACE ==> r is Ok && *final(root) == *old(root),
        old(root).level <= TRACE ==> logging_sent(*old(root), *final(root), TRACE, message@, thread_name@, r),
{
    root.trace(message, thread_name)
}

/// Sends a message of level `DEBUG` through the root instance, when its
/// level lets it pass.
pub fn debug(root: &mut Logging, message: &str, thread_name: &str) -> (r: Result<(), LoggingError>)
    ensures
        old(root).level > DEBUG ==> r is Ok && *final(root) == *old(root),
        old(root).level <= DEBUG ==> logging_sent(*old(root), *final(root), DEBUG, message@, thread_name@, r),
{
    root.debug(message, thread_name)
}

/// Sends a message of level `INFO` through the root instance, when its
/// level lets it pass.
pub fn info(root: &mut Logging, message: &str, thread_name: &str) -> (r: Result<(), LoggingError>)
    ensures
        old(root).level > INFO ==> r is Ok && *final(root) == *old(root),
        old(root).level <= INFO ==> logging_sent(*old(root), *final(root), INFO, message@, thread_name@, r),
{
    root.info(message, thread_name)
}

/// Sends a message of level `SUCCESS` through the root instance, when its
/// level lets it pass.
pub fn success(root: &mut Logging, message: &str, thread_name: &str) -> (r: Result<(), LoggingError>)
    ensures
        old(root).level > SUCCESS ==> r is Ok && *final(root) == *old(root),
        old(root).level <= SUCCESS ==> logging_sent(*old(root), *final(root), SUCCESS, message@, thread_name@, r),
{
    root.success(message, thread_name)
}

/// Sends a message of level `WARNING` through the root instance, when its
/// level lets it pass.
pub fn warning(root: &mut Logging, message: &str, thread_name: &str) -> (r: Result<(), LoggingError>)
    ensures
        old(root).level > WARNING ==> r is Ok && *final(root) == *old(root),
        old(root).level <= WARNING ==> logging_sent(*old(root), *final(root), WARNING, message@, thread_name@, r),
{
    root.warning(message, thread_name)
}

/// Sends a message of level `ERROR` through the root instance, when its
/// level lets it pass.
pub fn error(root: &mut Logging, message: &str, thread_name: &str) -> (r: Result<(), LoggingError>)
    ensures
        old(root).level > ERROR ==> r is Ok && *final(root) == *old(root),
        old(root).level <= ERROR ==> logging_sent(*old(root), *final(root), ERROR, message@, thread_name@, r),
{
    root.error(message, thread_name)
}

/// Sends a message of level `CRITICAL` through the root instance, when its
/// level lets it pass.
pub fn critical(root: &mut Logging, message: &str, thread_name: &str) -> (r: Result<(), LoggingError>)
    ensures
        old(root).level > CRITICAL ==> r is Ok && *final(root) == *old(root),
        old(root).level <= CRITICAL ==> logging_sent(*old(root), *final(root), CRITICAL, message@, thread_name@, r),
{
    root.critical(message, thread_name)
}

/// Sends a message of level `FATAL` through the root instance, when its
/// level lets it pass.
pub fn fatal(root: &mut Logging, message: &str, thread_name: &str) -> (r: Result<(), LoggingError>)
    ensures
        old(root).level > FATAL ==> r is Ok && *final(root) == *old(root),
        old(root).level <= FATAL ==> logging_sent(*old(root), *final(root), FATAL, message@, thread_name@, r),
{
    root.fatal(message, thread_name)
}

/// Sends a message of level `EXCEPTION` through the root instance, when its
/// level lets it pass.
pub fn exception(root: &mut Logging, message: &str, thread_name: &str) -> (r: Result<(), LoggingError>)
    ensures
        old(root).level > EXCEPTION ==> r is Ok && *final(root) == *old(root),
        old(root).level <= EXCEPTION ==> logging_sent(*old(root), *final(root), EXCEPTION, message@, thread_name@, r),
{
    root.exception(message, thread_name)
}

} // verus!
