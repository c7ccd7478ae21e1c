use std::sync::atomic::{AtomicUsize, Ordering};
use std::sync::{Arc, Mutex};

use fastlogging::dispatch::WorkerAction;
use fastlogging::{
    level2string, CallbackFnT, CallbackWriterConfig, ConsoleWriterConfig, EncryptionMethod,
    ExtConfig, LevelSyms, Logger, Logging, LoggingTypeEnum, MessageStructEnum, RootConfig,
    WriterConfig, WriterConfigEnum, WriterTypeEnum, DEBUG, INFO, NOTSET, TRACE,
};

/// A logging interface whose messages queue up in the returned channel.
fn new_logging(
    level: u8,
    domain: &str,
    configs: Option<Vec<WriterConfigEnum>>,
) -> (Logging, flume::Receiver<LoggingTypeEnum>) {
    let (tx, rx) = flume::unbounded();
    let logging = Logging::new(level, domain.to_string(), configs, tx, b"test-auth-key").unwrap();
    (logging, rx)
}

/// Hands every queued message to the callbacks of the writers it is
/// dispatched to, as the callback writer threads do.
fn deliver(logging: &Logging, rx: &flume::Receiver<LoggingTypeEnum>) {
    while let Ok(event) = rx.try_recv() {
        if let WorkerAction::Deliver {
            level,
            domain,
            text,
            wids,
        } = logging.instance.dispatch(event)
        {
            for wid in wids {
                if let Some(WriterConfigEnum::Callback(c)) = logging.get_writer_config(wid) {
                    if let Some(cb) = c.callback {
                        cb.call(level, domain.clone(), text.clone()).unwrap();
                    }
                }
            }
        }
    }
}

/// A callback writer configuration that counts its invocations.
fn counting_callback(count: Arc<AtomicUsize>) -> CallbackWriterConfig {
    CallbackWriterConfig::new(
        DEBUG,
        Some(Box::new(
            move |_level: u8, _domain: String, _message: String| {
                count.fetch_add(1, Ordering::SeqCst);
                Ok(())
            },
        )),
    )
}

/// The first writer id of the given logging interface.
fn first_wid(logging: &Logging) -> usize {
    *logging.get_writer_configs().keys().next().unwrap()
}

fn console_config(level: u8, colors: bool) -> WriterConfigEnum {
    (*WriterConfig::new_console(level, colors)).0
}

#[test]
fn console_logging() {
    let (mut logging, _rx) = new_logging(NOTSET, "test", Some(vec![console_config(DEBUG, true)]));
    logging.trace("Trace message", "main").unwrap();
    logging.debug("Debug message", "main").unwrap();
    logging.info("Info message", "main").unwrap();
    logging.success("Success message", "main").unwrap();
    logging.warning("Warning message", "main").unwrap();
    logging.error("Error message", "main").unwrap();
}

#[test]
fn logger_registration() {
    let (mut logging, _rx) = new_logging(DEBUG, "test", Some(vec![console_config(DEBUG, false)]));
    let mut logger = Logger::new(DEBUG, "sub.domain".to_string());
    logging.add_logger(&mut logger);
    logger.info("Message from sub logger", "main").unwrap();
    logging.remove_logger(&mut logger);
}

#[test]
fn integration_default_logging() {
    let (mut logging, _rx) = new_logging(NOTSET, "root", None);
    logging.trace("trace", "main").unwrap();
    logging.debug("debug", "main").unwrap();
    logging.info("info", "main").unwrap();
    logging.warning("warning", "main").unwrap();
    logging.error("error", "main").unwrap();
    logging.critical("critical", "main").unwrap();
}

#[test]
fn init_logging() {
    let (mut logging, _rx) = new_logging(
        NOTSET,
        "root",
        Some(vec![ConsoleWriterConfig::new(NOTSET, false).into()]),
    );
    logging.info("hello", "main").unwrap();
}

#[test]
fn integration_logging_new_with_console_writer() {
    let (mut logging, _rx) = new_logging(
        DEBUG,
        "test",
        Some(vec![ConsoleWriterConfig::new(DEBUG, false).into()]),
    );
    logging.trace("trace msg", "main").unwrap();
    logging.debug("debug msg", "main").unwrap();
    logging.info("info msg", "main").unwrap();
    logging.success("success msg", "main").unwrap();
    logging.warning("warning msg", "main").unwrap();
    logging.error("error msg", "main").unwrap();
    logging.critical("critical msg", "main").unwrap();
    logging.fatal("fatal msg", "main").unwrap();
}

#[test]
fn callback_writer_receives_messages() {
    let received: Arc<Mutex<Vec<(u8, String, String)>>> = Arc::new(Mutex::new(Vec::new()));
    let received_clone = received.clone();
    let callback = move |level: u8, domain: String, message: String| {
        received_clone.lock().unwrap().push((level, domain, message));
        Ok(())
    };
    let (mut logging, rx) = new_logging(
        DEBUG,
        "cb-domain",
        Some(vec![CallbackWriterConfig::new(DEBUG, Some(Box::new(callback))).into()]),
    );
    logging.info("callback msg", "main").unwrap();
    deliver(&logging, &rx);
    let received = received.lock().unwrap();
    assert_eq!(received.len(), 1, "callback must have been invoked once");
    assert_eq!(received[0].0, INFO);
    assert_eq!(received[0].1, "cb-domain");
    assert!(
        received[0].2.contains("callback msg"),
        "formatted message must contain the raw message, got: {}",
        received[0].2
    );
}

#[test]
fn callback_writer_respects_level() {
    let count = Arc::new(AtomicUsize::new(0));
    let counter = count.clone();
    let (mut logging, rx) = new_logging(
        DEBUG,
        "root",
        Some(vec![CallbackWriterConfig::new(
            INFO,
            Some(Box::new(
                move |_level: u8, _domain: String, _message: String| {
                    counter.fetch_add(1, Ordering::SeqCst);
                    Ok(())
                },
            )),
        )
        .into()]),
    );
    logging.debug("filtered", "main").unwrap();
    logging.info("passes", "main").unwrap();
    logging.warning("passes too", "main").unwrap();
    deliver(&logging, &rx);
    assert_eq!(count.load(Ordering::SeqCst), 2);
}

#[test]
fn integration_add_remove_writer() {
    let (mut logging, _rx) = new_logging(DEBUG, "test", None);
    assert!(logging.get_writer_configs().is_empty());
    let wid = logging
        .add_writer_config(&ConsoleWriterConfig::new(DEBUG, false).into())
        .unwrap();
    assert!(wid > 0);
    let cfg = logging.get_writer_config(wid).expect("writer exists");
    assert!(matches!(cfg, WriterConfigEnum::Console { .. }));
    let wid2 = logging
        .add_writer_config(&ConsoleWriterConfig::new(DEBUG, false).into())
        .unwrap();
    assert_ne!(wid, wid2);
    let removed = logging.remove_writer(wid);
    assert!(removed.is_some());
    assert!(logging.get_writer_config(wid).is_none());
    assert!(logging.get_writer_config(wid2).is_some());
}

#[test]
fn integration_remove_writer_invalid_id() {
    let (mut logging, _rx) = new_logging(DEBUG, "test", None);
    assert!(logging.remove_writer(12345).is_none());
    assert!(logging.get_writer_config(12345).is_none());
}

#[test]
fn integration_add_writers_batch() {
    let (mut logging, _rx) = new_logging(DEBUG, "test", None);
    let wids = logging
        .add_writer_configs(&[
            ConsoleWriterConfig::new(DEBUG, false).into(),
            ConsoleWriterConfig::new(INFO, false).into(),
        ])
        .unwrap();
    assert_eq!(wids.len(), 2);
    assert_eq!(logging.get_writer_configs().len(), 2);
    let removed = logging.remove_writers(Some(wids));
    assert_eq!(removed.len(), 2);
    assert!(logging.get_writer_configs().is_empty());
}

#[test]
fn remove_all_writers() {
    let (mut logging, _rx) = new_logging(
        DEBUG,
        "test",
        Some(vec![
            ConsoleWriterConfig::new(DEBUG, false).into(),
            ConsoleWriterConfig::new(INFO, false).into(),
        ]),
    );
    assert_eq!(logging.get_writer_configs().len(), 2);
    let removed = logging.remove_writers(None);
    assert_eq!(removed.len(), 2);
    assert!(logging.get_writer_configs().is_empty());
}

#[test]
fn integration_disable_enable_invalid_writer() {
    let (mut logging, _rx) = new_logging(DEBUG, "test", None);
    assert!(logging.disable(9999).is_err());
    assert!(logging.enable(9999).is_err());
}

#[test]
fn integration_enable_disable_type() {
    let (mut logging, _rx) = new_logging(
        DEBUG,
        "test",
        Some(vec![
            CallbackWriterConfig::new(DEBUG, None).into(),
            CallbackWriterConfig::new(DEBUG, None).into(),
        ]),
    );
    assert_eq!(logging.get_writer_configs().len(), 2);
    logging.disable_type(&WriterTypeEnum::Callback).unwrap();
    logging.enable_type(&WriterTypeEnum::Callback).unwrap();
    assert!(logging.disable_type(&WriterTypeEnum::Syslog).is_err());
    assert!(logging.enable_type(&WriterTypeEnum::Syslog).is_err());
}

#[test]
fn set_level_global() {
    let count = Arc::new(AtomicUsize::new(0));
    let (mut logging, rx) = new_logging(
        INFO,
        "test",
        Some(vec![counting_callback(count.clone()).into()]),
    );
    logging.debug("filtered by global level", "main").unwrap();
    logging.info("passes", "main").unwrap();
    deliver(&logging, &rx);
    assert_eq!(count.load(Ordering::SeqCst), 1);
    let root_wid = logging
        .add_writer_config(&WriterConfigEnum::Root(RootConfig::default()))
        .unwrap();
    logging.set_level(root_wid, DEBUG).unwrap();
    assert_eq!(logging.level, DEBUG);
    logging.debug("now passes", "main").unwrap();
    deliver(&logging, &rx);
    assert_eq!(count.load(Ordering::SeqCst), 2);
}

#[test]
fn integration_set_level_writer() {
    let count = Arc::new(AtomicUsize::new(0));
    let counter = count.clone();
    let (mut logging, rx) = new_logging(
        DEBUG,
        "test",
        Some(vec![CallbackWriterConfig::new(
            INFO,
            Some(Box::new(
                move |_level: u8, _domain: String, _message: String| {
                    counter.fetch_add(1, Ordering::SeqCst);
                    Ok(())
                },
            )),
        )
        .into()]),
    );
    let wid = first_wid(&logging);
    logging.debug("filtered", "main").unwrap();
    deliver(&logging, &rx);
    assert_eq!(count.load(Ordering::SeqCst), 0);
    logging.set_level(wid, DEBUG).unwrap();
    logging.debug("passes now", "main").unwrap();
    deliver(&logging, &rx);
    assert_eq!(count.load(Ordering::SeqCst), 1);
    assert!(logging.set_level(9999, DEBUG).is_err());
}

#[test]
fn set_domain_updates_instance_config() {
    let (mut logging, _rx) = new_logging(DEBUG, "old", None);
    logging.set_domain("new-domain");
    assert!(logging.__repr__().contains("new-domain"));
}

#[test]
fn set_domain() {
    let (mut logging, _rx) = new_logging(DEBUG, "old", None);
    logging.set_domain("new-domain");
    assert!(logging.__str__().contains("new-domain"));
}

#[test]
fn integration_set_ext_config() {
    let (mut logging, _rx) = new_logging(DEBUG, "test", None);
    logging.set_ext_config(
        &ExtConfig::new(MessageStructEnum::String, false, false, false, false, false),
        String::new(),
        0,
    );
    logging.set_ext_config(
        &ExtConfig::new(MessageStructEnum::Json, false, false, false, true, true),
        String::new(),
        0,
    );
    assert!(logging.tname);
    assert!(logging.tid);
}

#[test]
fn integration_set_level2sym() {
    let (mut logging, _rx) = new_logging(DEBUG, "test", None);
    logging.set_level2sym(&LevelSyms::Str);
    let level = level2string(&logging.instance.level2sym, logging.instance.level);
    assert!(level.contains("DEBUG"));
}

#[test]
fn integration_add_remove_logger() {
    let count = Arc::new(AtomicUsize::new(0));
    let (mut logging, rx) = new_logging(
        DEBUG,
        "root",
        Some(vec![counting_callback(count.clone()).into()]),
    );
    let mut logger = Logger::new(DEBUG, "logger-domain".to_string());
    assert!(logger.info("not registered", "main").is_err());
    logging.add_logger(&mut logger);
    logger.info("logger message", "main").unwrap();
    logger.trace("trace", "main").unwrap();
    logger.debug("debug", "main").unwrap();
    logger.warning("warning", "main").unwrap();
    logger.error("error", "main").unwrap();
    logger.critical("critical", "main").unwrap();
    deliver(&logging, &rx);
    logging.remove_logger(&mut logger);
    assert!(logger.info("removed", "main").is_err());
    assert_eq!(count.load(Ordering::SeqCst), 5);
}

#[test]
fn integration_logger_level_filtering() {
    let count = Arc::new(AtomicUsize::new(0));
    let (mut logging, rx) = new_logging(
        DEBUG,
        "root",
        Some(vec![counting_callback(count.clone()).into()]),
    );
    let mut logger = Logger::new(INFO, "logger-domain".to_string());
    logging.add_logger(&mut logger);
    logger.debug("filtered by logger level", "main").unwrap();
    logger.info("passes", "main").unwrap();
    deliver(&logging, &rx);
    assert_eq!(count.load(Ordering::SeqCst), 1);
    logger.set_level(DEBUG);
    logger.debug("now passes", "main").unwrap();
    deliver(&logging, &rx);
    assert_eq!(count.load(Ordering::SeqCst), 2);
    logging.remove_logger(&mut logger);
}

#[test]
fn integration_logger_set_domain() {
    let mut logger = Logger::new(DEBUG, "d1".to_string());
    logger.set_domain("d2".to_string());
    let repr = logger.__repr__();
    assert!(repr.contains("d2"));
    assert_eq!(repr, "Logger(level=10 domain=d2)");
}

#[test]
fn integration_logger_level() {
    let mut logger = Logger::new(INFO, "d1".to_string());
    assert_eq!(logger.level(), INFO);
    logger.set_level(TRACE);
    assert_eq!(logger.level(), TRACE);
}

#[test]
fn logger_new_ext() {
    let mut logger = Logger::new_ext(DEBUG, "ext-domain".to_string(), true, true);
    logger.info("ext logger msg", "main").ok();
}

#[test]
fn integration_set_root_writer_rejects_non_network() {
    let (mut logging, _rx) = new_logging(DEBUG, "test", None);
    let err = logging.set_root_writer_config(&WriterConfigEnum::Console(ConsoleWriterConfig::new(
        DEBUG, false,
    )));
    assert!(err.is_err());
}

#[test]
fn get_server_config_invalid_writer() {
    let (logging, _rx) = new_logging(DEBUG, "test", None);
    assert!(logging.get_server_config(9999).is_err());
}

#[test]
fn logging_level_getter() {
    let (logging, _rx) = new_logging(DEBUG, "test", None);
    assert_eq!(logging.level, DEBUG);
}

#[test]
fn set_encryption() {
    let (mut logging, _rx) = new_logging(DEBUG, "test", Some(vec![console_config(DEBUG, false)]));
    let _ = logging.set_encryption(1, EncryptionMethod::NONE);
}

#[test]
fn get_server_configs_empty() {
    let (logging, _rx) = new_logging(DEBUG, "test", None);
    let configs = logging.get_server_configs();
    assert!(configs.is_empty());
}

#[test]
fn get_root_server_address_port_empty() {
    let (logging, _rx) = new_logging(DEBUG, "test", None);
    let addr = logging.get_root_server_address_port();
    assert!(addr.is_none());
}

#[test]
fn logging_repr_names_level_and_domain() {
    let (logging, _rx) = new_logging(INFO, "main", None);
    assert_eq!(logging.__repr__(), "Logging(level=20 domain=main)");
    assert_eq!(logging.__str__(), logging.__repr__());
}

#[test]
fn remove_writers_returns_what_was_registered_in_order() {
    let (mut logging, _rx) = new_logging(
        DEBUG,
        "test",
        Some(vec![
            ConsoleWriterConfig::new(DEBUG, false).into(),
            ConsoleWriterConfig::new(INFO, false).into(),
            CallbackWriterConfig::new(TRACE, None).into(),
        ]),
    );
    let removed = logging.remove_writers(Some(vec![3, 99, 1, 3]));
    assert_eq!(removed.len(), 2);
    match &removed[0] {
        WriterConfigEnum::Callback(c) => assert_eq!(c.level, TRACE),
        _ => panic!("callback writer expected first"),
    }
    match &removed[1] {
        WriterConfigEnum::Console(c) => assert_eq!(c.level, DEBUG),
        _ => panic!("console writer expected second"),
    }
    assert!(logging.get_writer_config(2).is_some());
    let rest = logging.remove_writers(None);
    assert_eq!(rest.len(), 1);
    match &rest[0] {
        WriterConfigEnum::Console(c) => assert_eq!(c.level, INFO),
        _ => panic!("console writer expected"),
    }
}

#[test]
fn root_interface_manages_writers_and_loggers() {
    let (mut logging, rx) = new_logging(DEBUG, "root", None);
    let wid = fastlogging::root::add_writer_config(
        &mut logging,
        &ConsoleWriterConfig::new(INFO, false).into(),
    )
    .unwrap();
    assert_eq!(wid, 1);
    let mut logger = Logger::new(DEBUG, "child".to_string());
    fastlogging::root::add_logger(&mut logging, &mut logger);
    logger.info("hello", "main").unwrap();
    assert!(rx.try_recv().is_ok());
    fastlogging::root::remove_logger(&mut logging, &mut logger);
    assert!(logger.info("hello", "main").is_err());
    assert!(fastlogging::root::remove_writer(&mut logging, wid).is_some());
    assert!(fastlogging::root::remove_writer(&mut logging, wid).is_none());
    assert!(fastlogging::root::remove_writers(&mut logging, None).is_empty());
}

#[test]
fn send_outcome_names_the_level() {
    assert!(Logging::send_outcome(INFO, true).is_ok());
    match Logging::send_outcome(INFO, false) {
        Err(fastlogging::LoggingError::SendError(m)) => {
            assert_eq!(m, "Failed to send INFO message: SendError(..)")
        }
        _ => panic!("send error expected"),
    }
}

#[test]
fn callback_call_returns_what_the_closure_returns() {
    let cb = |level: u8, domain: String, message: String| {
        if level >= INFO {
            Ok(())
        } else {
            Err(fastlogging::LoggingError::InvalidValue(format!("{domain}:{message}")))
        }
    };
    assert!(cb.call(INFO, "d".to_string(), "m".to_string()).is_ok());
    match cb.call(DEBUG, "d".to_string(), "m".to_string()) {
        Err(fastlogging::LoggingError::InvalidValue(t)) => assert_eq!(t, "d:m"),
        _ => panic!("closure error expected"),
    }
}

#[test]
fn disabled_client_writer_gets_no_messages() {
    let (mut logging, rx) = new_logging(
        DEBUG,
        "test",
        Some(vec![fastlogging::ClientWriterConfig::new(DEBUG, "127.0.0.1:5000", EncryptionMethod::NONE).into()]),
    );
    logging.disable(1).unwrap();
    logging.info("dropped", "main").unwrap();
    match logging.instance.dispatch(rx.try_recv().unwrap()) {
        WorkerAction::Deliver { wids, .. } => assert!(wids.is_empty()),
        _ => panic!("delivery expected"),
    }
    logging.enable(1).unwrap();
    logging.info("sent", "main").unwrap();
    match logging.instance.dispatch(rx.try_recv().unwrap()) {
        WorkerAction::Deliver { wids, .. } => assert_eq!(wids, vec![1]),
        _ => panic!("delivery expected"),
    }
}

#[test]
fn new_logging_keeps_level_domain_and_numbers_writers_from_one() {
    let (logging, _rx) = new_logging(
        INFO,
        "app",
        Some(vec![console_config(DEBUG, false), console_config(INFO, false)]),
    );
    assert_eq!(logging.instance.level, INFO);
    assert_eq!(logging.instance.domain, "app");
    let mut ids: Vec<usize> = logging.get_writer_configs().keys().copied().collect();
    ids.sort();
    assert_eq!(ids, vec![1, 2]);
}

#[test]
fn disabled_callback_writer_gets_no_messages() {
    let count = Arc::new(AtomicUsize::new(0));
    let (mut logging, rx) = new_logging(DEBUG, "root", Some(vec![counting_callback(count.clone()).into()]));
    logging.disable(1).unwrap();
    logging.info("dropped", "main").unwrap();
    deliver(&logging, &rx);
    assert_eq!(count.load(Ordering::SeqCst), 0);
    logging.enable(1).unwrap();
    logging.info("passes", "main").unwrap();
    deliver(&logging, &rx);
    assert_eq!(count.load(Ordering::SeqCst), 1);
}

#[test]
fn first_writer_of_an_empty_logging_gets_id_one() {
    let (mut logging, _rx) = new_logging(DEBUG, "test", None);
    let wid = logging.add_writer_config(&ConsoleWriterConfig::new(DEBUG, false).into()).unwrap();
    assert_eq!(wid, 1);
}
