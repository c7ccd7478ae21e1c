use fastlogging::config::{config_file_format, default_config_file, ConfigFormat};
use fastlogging::dispatch::WorkerAction;
use fastlogging::encryption::{method_from_bytes, NonceGenerator};
use fastlogging::instance::Selector;
use fastlogging::net::{parse_port_file, port_file_bytes};
use fastlogging::otel::{build_otlp_json, otel_step, otlp_url, OtelEvent};
use fastlogging::protocol::{auth_frame, message_frame, ClientSession, HeaderAction, ServerSession};
use fastlogging::writers::{backup_path, console_line, file_step, rotated_backup_path, ClientLedger, FileEvent};
use fastlogging::{
    level2severity_number, level2severity_text, level2short, level2str, level2sym, ClientWriterConfig,
    CompressionMethodEnum, ConfigFile, ConsoleWriterConfig, EncryptionMethod, FileConfig, FileMerge,
    FileWriterConfig, Logger, Logging, LoggingError, LoggingInstance, LoggingTypeEnum,
    MessageStructEnum, RootConfig, ServerConfig, SyslogFacility, SyslogWriterConfig, WriterConfigEnum,
    WriterTypeEnum, DEBUG, ERROR, INFO, NOTSET, TRACE, WARNING,
};

fn console(level: u8) -> WriterConfigEnum {
    WriterConfigEnum::Console(ConsoleWriterConfig::new(level, false))
}

fn file(level: u8, path: &str) -> WriterConfigEnum {
    WriterConfigEnum::File(
        FileWriterConfig::new(level, path.to_string(), 0, 0, None, None, None).unwrap(),
    )
}

fn instance() -> LoggingInstance {
    LoggingInstance::new(DEBUG, "root".to_string(), b"secret")
}

#[test]
fn level_names_cover_bands() {
    assert_eq!(level2str(7), "TRACE");
    assert_eq!(level2str(24), "INFO");
    assert_eq!(level2str(45), "ERROR");
    assert_eq!(level2str(99), "EXCEPTION");
    assert_eq!(level2str(100), "NOLOG");
    assert_eq!(level2short(INFO), "INF");
    assert_eq!(level2sym(WARNING), "W");
}

#[test]
fn error_codes_and_texts() {
    let e = LoggingError::InvalidEncryption(
        "ClientWriter".to_string(),
        EncryptionMethod::AES(vec![1, 2]),
        "bad".to_string(),
    );
    assert_eq!(e.as_int(), 22);
    assert_eq!(e.to_string(), "ClientWriter: Invalid encryption AES([1, 2]): bad");
    let e = LoggingError::Io { kind: "NotFound".to_string(), message: "gone".to_string() };
    assert_eq!(e.as_int(), 5);
    assert_eq!(e.to_string(), "I/O error (NotFound): gone");
    let e = LoggingError::SendCmdError("FileWriter".to_string(), "SYNC".to_string(), "x".to_string());
    assert_eq!(e.as_int(), 100);
    assert_eq!(e.to_string(), "FileWriter: Failed to send SYNC command: x");
}

#[test]
fn registry_add_get_remove() {
    let mut i = instance();
    let w1 = i.add_writer_config(&console(DEBUG)).unwrap();
    let w2 = i.add_writer_config(&file(INFO, "a.log")).unwrap();
    assert_eq!((w1, w2), (1, 2));
    assert!(matches!(i.get_writer_config(1), Some(WriterConfigEnum::Console(_))));
    assert_eq!(i.get_writer_configs().len(), 2);
    assert!(i.remove_writer(1).is_some());
    assert!(i.get_writer_config(1).is_none());
    let w3 = i.add_writer_config(&console(DEBUG)).unwrap();
    assert_eq!(w3, 3);
    let removed = i.remove_writers(None);
    assert_eq!(removed.len(), 2);
    assert!(i.get_writer_configs().is_empty());
}

#[test]
fn registry_missing_writer_errors() {
    let mut i = instance();
    match i.set_level(7, INFO) {
        Err(LoggingError::InvalidValue(m)) => assert_eq!(m, "Writer 7 does not exist"),
        _ => panic!("expected an error"),
    }
    assert!(i.enable(7).is_err());
    match i.get_server_config(7) {
        Err(LoggingError::InvalidValue(m)) => assert_eq!(m, "Writer 7 does not exist"),
        _ => panic!("expected an error"),
    }
}

#[test]
fn registry_level_and_switch() {
    let mut i = instance();
    let w = i.add_writer_config(&console(DEBUG)).unwrap();
    i.set_level(w, ERROR).unwrap();
    i.disable(w).unwrap();
    match i.get_writer_config(w) {
        Some(WriterConfigEnum::Console(c)) => {
            assert_eq!(c.level, ERROR);
            assert!(!c.enabled);
        }
        _ => panic!("console expected"),
    }
    i.enable_type(&WriterTypeEnum::Console).unwrap();
    match i.get_writer_config(w) {
        Some(WriterConfigEnum::Console(c)) => assert!(c.enabled),
        _ => panic!("console expected"),
    }
    assert!(i.disable_type(&WriterTypeEnum::Syslog).is_err());
}

#[test]
fn root_writer_must_be_network() {
    let mut i = instance();
    match i.set_root_writer_config(&console(DEBUG)) {
        Err(LoggingError::InvalidValue(m)) => {
            assert_eq!(m, "Only Server or Client type is allowed for Root logger")
        }
        _ => panic!("expected an error"),
    }
    let server = ServerConfig::new(DEBUG, "127.0.0.1:5000", EncryptionMethod::NONE);
    i.set_root_writer_config(&WriterConfigEnum::Server(server)).unwrap();
    assert_eq!(i.get_root_server_address_port(), Some("127.0.0.1:5000".to_string()));
    let ports = i.get_server_ports();
    assert_eq!(ports.get(&0), Some(&5000));
    match i.get_server_config(0) {
        Ok(c) => {
            assert!(matches!(c.key, EncryptionMethod::AuthKey(ref k) if k == b"secret"));
        }
        Err(_) => panic!("server expected"),
    }
}

#[test]
fn bad_aes_key_is_refused() {
    let mut i = instance();
    let client = ClientWriterConfig::new(DEBUG, "127.0.0.1:5000", EncryptionMethod::AES(vec![1, 2, 3]));
    let r = i.add_writer_config(&WriterConfigEnum::Client(client));
    assert!(matches!(r, Err(LoggingError::InvalidEncryption(_, _, _))));
    let client = ClientWriterConfig::new(DEBUG, "127.0.0.1:5000", EncryptionMethod::NONE);
    let w = i.add_writer_config(&WriterConfigEnum::Client(client)).unwrap();
    match i.set_encryption(w, EncryptionMethod::AES(vec![7])) {
        Err(LoggingError::InvalidEncryption(writer, _, reason)) => {
            assert_eq!(writer, "ClientWriter");
            assert_eq!(reason, "NetConfig: Invalid encryption AES([7]): ring::error::Unspecified");
        }
        _ => panic!("expected an error"),
    }
    assert!(i.set_encryption(w, EncryptionMethod::AES(vec![0; 32])).is_ok());
}

#[test]
fn filtered_writer_configs_by_path_and_address() {
    let mut i = instance();
    i.add_writer_config(&file(DEBUG, "a.log")).unwrap();
    i.add_writer_config(&file(DEBUG, "b.log")).unwrap();
    let client = ClientWriterConfig::new(DEBUG, "10.0.0.1:9000", EncryptionMethod::NONE);
    i.add_writer_config(&WriterConfigEnum::Client(client)).unwrap();
    assert_eq!(i.get_filtered_writer_configs(&WriterTypeEnum::File("a.log".to_string())).len(), 1);
    assert_eq!(i.get_filtered_writer_configs(&WriterTypeEnum::File(String::new())).len(), 2);
    assert_eq!(i.get_filtered_writer_configs(&WriterTypeEnum::Files).len(), 0);
    assert_eq!(i.wids_of_type(&WriterTypeEnum::Files).len(), 2);
    assert_eq!(i.wids_selected(&Selector::Receiver(TRACE)).len(), 0);
    assert_eq!(i.wids_selected(&Selector::Receiver(DEBUG)).len(), 3);
}

fn file_config(configs: Vec<WriterConfigEnum>) -> ConfigFile {
    let mut cf = ConfigFile::new();
    cf.path = "fastlogging.json".to_string();
    cf.config = FileConfig {
        level: WARNING,
        domain: "filedomain".to_string(),
        hostname: None,
        pname: String::new(),
        pid: 0,
        tname: false,
        tid: false,
        structured: MessageStructEnum::Json,
        level2sym: fastlogging::LevelSyms::Str,
        configs,
    };
    cf
}

#[test]
fn merge_modes() {
    let cf = file_config(vec![console(ERROR)]);
    let mut i = instance();
    i.add_writer_config(&console(DEBUG)).unwrap();
    cf.merge_found(&mut i, FileMerge::Merge, true).unwrap();
    assert_eq!(i.get_writer_configs().len(), 1);
    assert_eq!(i.level, WARNING);
    assert_eq!(i.domain, "filedomain");
    cf.merge_found(&mut i, FileMerge::MergeReplace, true).unwrap();
    let configs = i.get_writer_configs();
    assert_eq!(configs.len(), 1);
    match configs.get(&2) {
        Some(WriterConfigEnum::Console(c)) => assert_eq!(c.level, ERROR),
        _ => panic!("replaced console expected under id 2"),
    }
    let cf2 = file_config(vec![file(DEBUG, "x.log"), console(INFO)]);
    cf2.merge_found(&mut i, FileMerge::Replace, true).unwrap();
    assert_eq!(i.get_writer_configs().len(), 2);
    assert_eq!(i.structured, MessageStructEnum::Json);
}

#[test]
fn merge_root_entry_sets_settings() {
    let mut root = RootConfig::default();
    root.level = ERROR;
    root.domain = "fromroot".to_string();
    let cf = file_config(vec![WriterConfigEnum::Root(root)]);
    let mut i = instance();
    cf.merge_found(&mut i, FileMerge::MergeReplace, true).unwrap();
    assert_eq!(i.level, ERROR);
    assert_eq!(i.domain, "fromroot");
    assert!(i.get_writer_configs().is_empty());
}

#[test]
fn dispatch_builds_messages() {
    let mut i = instance();
    i.add_writer_config(&console(DEBUG)).unwrap();
    i.add_writer_config(&console(ERROR)).unwrap();
    let ev = LoggingTypeEnum::Message((INFO, "root".to_string(), "hello".to_string()));
    match i.dispatch_at(ev, "2024.01.02 03:04:05".to_string()) {
        WorkerAction::Deliver { level, text, wids, .. } => {
            assert_eq!(level, INFO);
            assert_eq!(text, "2024.01.02 03:04:05 root: I hello");
            assert_eq!(wids, vec![1]);
        }
        _ => panic!("delivery expected"),
    }
    i.structured = MessageStructEnum::Json;
    let ev = LoggingTypeEnum::MessageExt((ERROR, "d".to_string(), "m".to_string(), 7, "t".to_string()));
    match i.dispatch_at(ev, "D".to_string()) {
        WorkerAction::Deliver { text, wids, .. } => {
            assert_eq!(text, "{\"date\":\"D\",\"tname\":\"t\",\"tid\":7,\"domain\":\"d\",\"level\":\"E\",\"message\":\"m\"}");
            assert_eq!(wids.len(), 2);
        }
        _ => panic!("delivery expected"),
    }
    i.structured = MessageStructEnum::Xml;
    let ev = LoggingTypeEnum::Message((DEBUG, "d".to_string(), "m".to_string()));
    match i.dispatch_at(ev, "D".to_string()) {
        WorkerAction::Deliver { text, .. } => {
            assert_eq!(text, "<log><date>D</date><domain>d</domain><level>D</level><message>m</message></log>")
        }
        _ => panic!("delivery expected"),
    }
    let ev = LoggingTypeEnum::MessageRemote((ERROR, "d".to_string(), "peer: m".to_string()));
    match i.dispatch_at(ev, "D".to_string()) {
        WorkerAction::Deliver { text, .. } => assert_eq!(text, "peer: m"),
        _ => panic!("delivery expected"),
    }
    assert!(matches!(i.dispatch_at(LoggingTypeEnum::Stop, "D".to_string()), WorkerAction::Stop));
}

#[test]
fn sync_follows_the_messages_before_it() {
    let mut i = instance();
    i.add_writer_config(&console(INFO)).unwrap();
    i.add_writer_config(&file(DEBUG, "a.log")).unwrap();
    let events = vec![
        LoggingTypeEnum::Message((INFO, "d".to_string(), "one".to_string())),
        LoggingTypeEnum::Message((DEBUG, "d".to_string(), "two".to_string())),
        LoggingTypeEnum::Message((WARNING, "d".to_string(), "three".to_string())),
        LoggingTypeEnum::Sync((vec![WriterTypeEnum::Console], std::time::Duration::from_secs(1))),
    ];
    let mut handed: Vec<u8> = Vec::new();
    let mut synced: Option<Vec<usize>> = None;
    for ev in events {
        match i.dispatch_at(ev, "D".to_string()) {
            WorkerAction::Deliver { level, wids, .. } => {
                if wids.contains(&1) {
                    handed.push(level);
                }
            }
            WorkerAction::Sync { wids, .. } => synced = Some(wids),
            WorkerAction::Stop => panic!("no stop expected"),
        }
    }
    assert_eq!(handed, vec![INFO, WARNING]);
    assert_eq!(synced, Some(vec![1]));
}

#[test]
fn plain_frames_roundtrip() {
    assert_eq!(auth_frame(b"ab"), vec![2, 0, 0, 0, b'a', b'b']);
    let f = message_frame(INFO, "dom", "hi");
    assert_eq!(f, vec![2, 0, INFO, 3, b'd', b'o', b'm', b'h', b'i']);
    let mut server = ServerSession::new(EncryptionMethod::AuthKey(b"ab".to_vec()), DEBUG);
    assert_eq!(server.on_header(&[2, 0, 0, 0]).unwrap(), HeaderAction::ReadAuthKey(2));
    assert!(matches!(server.on_auth_key(b"xx"), Err(LoggingError::RecvError(ref m)) if m == "Invalid auth key"));
    server.on_auth_key(b"ab").unwrap();
    assert_eq!(
        server.on_header(&f[..4]).unwrap(),
        HeaderAction::ReadMessage { size: 2, level: INFO, domain_len: 3 }
    );
    match server.on_message(INFO, &f[4..7], &f[7..], "1.2.3.4:5") {
        Ok(Some(LoggingTypeEnum::MessageRemote((l, d, m)))) => {
            assert_eq!(l, INFO);
            assert_eq!(d, "dom");
            assert_eq!(m, "1.2.3.4:5: hi");
        }
        _ => panic!("message expected"),
    }
    assert!(matches!(server.on_message(TRACE, b"d", b"m", "p"), Ok(None)));
    assert!(matches!(server.on_message(INFO, &[0xff], b"m", "p"), Err(LoggingError::Utf8Error(_))));
}

#[test]
fn header_limits() {
    let server = ServerSession::new(EncryptionMethod::AuthKey(vec![1]), DEBUG);
    assert_eq!(server.on_header(&[0xff, 0xff, 0, 0]).unwrap(), HeaderAction::StopServer);
    assert_eq!(server.on_header(&[0xfe, 0xff, 0, 0]).unwrap(), HeaderAction::CloseClient);
    match server.on_header(&[0x01, 0x20, 0, 0]) {
        Err(LoggingError::RecvError(m)) => assert_eq!(m, "Receive size 8193 is too big"),
        _ => panic!("expected an error"),
    }
    let sealed = ServerSession::new(EncryptionMethod::AES(vec![0; 32]), DEBUG);
    assert!(sealed.on_header(&[0xfe, 0xff, 0, 0]).is_err());
}

#[test]
fn sealed_frames_roundtrip() {
    let key = EncryptionMethod::AES(vec![9; 32]);
    let mut client = ClientSession::new(key.duplicate());
    assert!(client.handshake().is_none());
    let mut server = ServerSession::new(key, DEBUG);
    for text in ["first", "second"] {
        let f = client.frame(WARNING, "dom", text).unwrap();
        let dl = f[3] as usize;
        assert_eq!(dl, 3 + 16);
        assert_ne!(&f[4..4 + dl], b"dom");
        match server.on_message(f[2], &f[4..4 + dl], &f[4 + dl..], "p") {
            Ok(Some(LoggingTypeEnum::MessageRemote((_, d, m)))) => {
                assert_eq!(d, "dom");
                assert_eq!(m, format!("p: {text}"));
            }
            _ => panic!("message expected"),
        }
    }
}

#[test]
fn nonce_counters() {
    let mut g = NonceGenerator::new();
    assert_eq!(g.last_nonce(), 0);
    let n = g.advance().unwrap();
    assert_eq!(n, vec![1, 0, 0, 0, 0, 0, 0, 0, 0, 0, 0, 0]);
    g.advance().unwrap();
    assert_eq!(g.last_nonce(), 3);
}

#[test]
fn port_file_roundtrip() {
    let key = EncryptionMethod::AuthKey(vec![5, 6, 7]);
    let b = port_file_bytes(4321, &key);
    match parse_port_file(&b).unwrap() {
        Some((addr, EncryptionMethod::AuthKey(k))) => {
            assert_eq!(addr, "127.0.0.1:4321");
            assert_eq!(k, vec![5, 6, 7]);
        }
        _ => panic!("address expected"),
    }
    assert!(parse_port_file(&[1, 2]).unwrap().is_none());
    match parse_port_file(&[1, 2, 9, 0]) {
        Err(LoggingError::InvalidValue(m)) => assert_eq!(m, "Invalid encryption type 9"),
        _ => panic!("expected an error"),
    }
}

#[test]
fn console_lines() {
    let mut c = ConsoleWriterConfig::new(DEBUG, true);
    c.target = fastlogging::ConsoleTargetEnum::Both;
    let l = console_line(&c, ERROR, "d", "boom").unwrap();
    assert!(l.to_stderr);
    assert_eq!(l.text, "boom");
    assert!(l.color.is_some());
    let l = console_line(&c, INFO, "d", "fine").unwrap();
    assert!(!l.to_stderr);
    c.enabled = false;
    assert!(console_line(&c, INFO, "d", "x").is_none());
    let mut c = ConsoleWriterConfig::new(DEBUG, false);
    c.set_domain_filter(Some("^net".to_string())).unwrap();
    assert!(console_line(&c, INFO, "db", "x").is_none());
    assert!(console_line(&c, INFO, "network", "x").is_some());
    assert!(c.set_domain_filter(Some("(".to_string())).is_err());
}

#[test]
fn file_steps_and_rotation() {
    let config = FileWriterConfig::new(DEBUG, "logs/app.log".to_string(), 10, 3, None, None, None).unwrap();
    let ev = FileEvent::Message { domain: "d".to_string(), text: "12345".to_string() };
    let s = file_step(&config, 0, &ev);
    assert_eq!(s.write, Some("12345\n".to_string()));
    assert_eq!(s.size, 5);
    assert!(!s.rotate);
    let s = file_step(&config, 6, &ev);
    assert!(s.rotate);
    assert_eq!(s.size, 0);
    assert!(file_step(&config, 0, &FileEvent::Stop).stop);
    assert!(file_step(&config, 0, &FileEvent::Sync).ack_sync);
    assert!(!file_step(&config, 0, &FileEvent::TimedOut).rotate);
    assert_eq!(backup_path("logs/app.log", 2, false), "logs/app.log.2");
    assert_eq!(backup_path("noext", 1, true), "noext.log.1.gz");
    assert_eq!(rotated_backup_path("app.log", CompressionMethodEnum::Deflate), "app.log.1.gz");
}

#[test]
fn server_ledger_ignores_buggy_clients() {
    let mut ledger = ClientLedger::new();
    let err: Result<bool, LoggingError> = Err(LoggingError::RecvError("x".to_string()));
    for _ in 0..3 {
        assert!(!ledger.record("1.2.3.4", &err));
        assert!(ledger.admits("1.2.3.4"));
    }
    assert!(!ledger.record("1.2.3.4", &err));
    assert!(!ledger.admits("1.2.3.4"));
    assert!(ledger.admits("5.6.7.8"));
    assert!(ledger.record("5.6.7.8", &Ok(true)));
}

#[test]
fn otel_payload_and_batching() {
    assert_eq!(level2severity_number(WARNING), 13);
    assert_eq!(level2severity_text(fastlogging::SUCCESS), "INFO2");
    assert_eq!(otlp_url("http://collector:4318//"), "http://collector:4318/v1/logs");
    let body = build_otlp_json("svc", &[(ERROR, "d\"q".to_string(), "m".to_string())]);
    assert!(body.starts_with("{\"resourceLogs\":[{\"resource\":{\"attributes\":[{\"key\":\"service.name\",\"value\":{\"stringValue\":\"svc\"}}]}"));
    assert!(body.contains("{\"stringValue\":\"d\\\"q\"}"));
    assert!(body.contains("\"severityNumber\":17,\"severityText\":\"ERROR\""));
    let mut config = fastlogging::OpenTelemetryWriterConfig::default();
    config.batch_size = 2;
    let ev = OtelEvent::Message { level: INFO, domain: "d".to_string(), message: "m".to_string() };
    assert!(!otel_step(&config, 0, &ev).export);
    assert!(otel_step(&config, 1, &ev).export);
    assert!(!otel_step(&config, 0, &OtelEvent::TimedOut).export);
}

#[test]
fn config_file_formats() {
    assert_eq!(config_file_format("dir/a.JSON").unwrap(), ConfigFormat::Json);
    match config_file_format("dir/a") {
        Err(LoggingError::InvalidValue(m)) => assert_eq!(m, "Config file has no extension"),
        _ => panic!("expected an error"),
    }
    match config_file_format("a.TXT") {
        Err(LoggingError::InvalidValue(m)) => assert_eq!(m, "Unsupported config file type txt"),
        _ => panic!("expected an error"),
    }
    let existing = vec!["fastlogging.yaml".to_string(), "my.xml".to_string()];
    assert_eq!(default_config_file(Some("my.xml"), &existing), ("my.xml".to_string(), b"xml".to_vec()));
    assert_eq!(default_config_file(Some("other.xml"), &existing), ("fastlogging.yaml".to_string(), b"yaml".to_vec()));
    assert_eq!(default_config_file(None, &[]), (String::new(), Vec::new()));
}

#[test]
fn logger_events_and_registration() {
    let mut logger = Logger::new(INFO, "net".to_string());
    match logger.info("up", "main") {
        Err(LoggingError::ConfigError(m)) => {
            assert_eq!(m, "Logger not registered at Logging instance. Call add_logger first.")
        }
        _ => panic!("expected an error"),
    }
    assert!(logger.debug("skipped", "main").is_ok());
    match logger.event(INFO, "up", "main", 3) {
        LoggingTypeEnum::Message((l, d, m)) => {
            assert_eq!((l, d.as_str(), m.as_str()), (INFO, "net", "net: up"))
        }
        _ => panic!("plain message expected"),
    }
    let ext = Logger::new_ext(INFO, "net".to_string(), true, false);
    match ext.event(INFO, "up", "main", 3) {
        LoggingTypeEnum::MessageExt((_, _, _, tid, tname)) => {
            assert_eq!((tid, tname.as_str()), (0, "main"))
        }
        _ => panic!("extended message expected"),
    }
}

#[test]
fn logging_sends_through_channel() {
    let (tx, rx) = flume::bounded(10);
    let mut logging = Logging::new(INFO, "root".to_string(), Some(vec![console(DEBUG)]), tx, b"k").unwrap();
    logging.info("hello", "main").unwrap();
    logging.debug("dropped", "main").unwrap();
    match rx.try_recv().unwrap() {
        LoggingTypeEnum::Message((l, d, m)) => assert_eq!((l, d.as_str(), m.as_str()), (INFO, "root", "hello")),
        _ => panic!("message expected"),
    }
    assert!(rx.try_recv().is_err());
    let mut logger = Logger::new(DEBUG, "sub".to_string());
    logging.add_logger(&mut logger);
    logging.add_logger(&mut logger);
    assert_eq!(logging.loggers.len(), 1);
    logger.error("x", "main").unwrap();
    assert!(rx.try_recv().is_ok());
    logging.remove_logger(&mut logger);
    assert!(logging.loggers.is_empty());
    assert!(logger.error("x", "main").is_err());
    fastlogging::root::set_root_level(&mut logging, ERROR);
    assert_eq!(fastlogging::root::get_root_level(&logging), ERROR);
    assert!(fastlogging::root::info(&mut logging, "quiet", "main").is_ok());
    assert!(rx.try_recv().is_err());
    drop(rx);
    match logging.error("lost", "main") {
        Err(LoggingError::SendError(m)) => assert_eq!(m, "Failed to send ERROR message: SendError(..)"),
        _ => panic!("expected an error"),
    }
}

#[test]
fn logging_get_server_config_texts() {
    let (tx, _rx) = flume::bounded(1);
    let logging = Logging::new(NOTSET, "root".to_string(), Some(vec![console(DEBUG)]), tx, b"k").unwrap();
    match logging.get_server_config(9999) {
        Err(LoggingError::InvalidValue(m)) => assert_eq!(m, "Writer wid=9999 does not exist"),
        _ => panic!("expected an error"),
    }
    match logging.get_server_config(1) {
        Err(LoggingError::InvalidValue(m)) => assert_eq!(m, "Writer wid=1 has invalid type"),
        _ => panic!("expected an error"),
    }
    let saved = logging.config_to_save("out.json".to_string());
    assert_eq!(saved.config.configs.len(), 1);
}

#[test]
fn message_calls_send_exactly_their_event() {
    let (tx, rx) = flume::unbounded();
    let mut logging = Logging::new(INFO, "root".to_string(), None, tx, b"k").unwrap();
    assert!(fastlogging::root::info(&mut logging, "started", "main").is_ok());
    match rx.try_recv().unwrap() {
        LoggingTypeEnum::Message((l, d, m)) => assert_eq!((l, d.as_str(), m.as_str()), (INFO, "root", "started")),
        _ => panic!("message expected"),
    }
    assert!(fastlogging::root::debug(&mut logging, "below", "main").is_ok());
    assert!(rx.try_recv().is_err());
    logging.warning("careful", "main").unwrap();
    match rx.try_recv().unwrap() {
        LoggingTypeEnum::Message((l, d, m)) => assert_eq!((l, d.as_str(), m.as_str()), (WARNING, "root", "careful")),
        _ => panic!("message expected"),
    }
    let mut logger = Logger::new(INFO, "net".to_string());
    logging.add_logger(&mut logger);
    logger.info("up", "main").unwrap();
    match rx.try_recv().unwrap() {
        LoggingTypeEnum::Message((l, d, m)) => assert_eq!((l, d.as_str(), m.as_str()), (INFO, "net", "net: up")),
        _ => panic!("message expected"),
    }
    logger.trace("below", "main").unwrap();
    assert!(rx.try_recv().is_err());
}

#[test]
fn syslog_config_files_under_user_facility() {
    let c = SyslogWriterConfig::new(DEBUG, Some("host".to_string()), "proc", 42);
    assert_eq!(c.facility, SyslogFacility::User);
    assert_eq!(c.hostname.as_deref(), Some("host"));
    assert_eq!((c.process.as_str(), c.pid), ("proc", 42));
    assert_eq!(c.duplicate().facility, SyslogFacility::User);
}

#[test]
fn syslog_entries() {
    let c = SyslogWriterConfig::new(DEBUG, None, "p", 1);
    assert!(fastlogging::writers::syslog_entry(&c, INFO, "d", "m").is_some());
    assert!(fastlogging::writers::syslog_entry(&c, 7, "d", "m").is_none());
}

#[test]
fn method_bytes_read_back() {
    for m in [
        EncryptionMethod::NONE,
        EncryptionMethod::AuthKey(b"secret".to_vec()),
        EncryptionMethod::AES(vec![7u8; 32]),
    ] {
        let bytes = m.to_bytes();
        match (method_from_bytes(&bytes), &m) {
            (Ok(EncryptionMethod::NONE), EncryptionMethod::NONE) => assert_eq!(bytes, vec![0u8]),
            (Ok(EncryptionMethod::AuthKey(k)), EncryptionMethod::AuthKey(x)) => assert_eq!(&k, x),
            (Ok(EncryptionMethod::AES(k)), EncryptionMethod::AES(x)) => assert_eq!(&k, x),
            _ => panic!("method did not read back"),
        }
    }
    match method_from_bytes(&[9u8, 1, 2]) {
        Err(code) => assert_eq!(code, 9),
        Ok(_) => panic!("unknown code must be refused"),
    }
}

#[test]
fn successive_nonces_differ() {
    let mut g = NonceGenerator::new();
    let mut seen: Vec<Vec<u8>> = Vec::new();
    for _ in 0..20 {
        let n = g.advance().unwrap();
        assert_eq!(n.len(), 12);
        assert!(!seen.contains(&n));
        seen.push(n);
    }
}

#[test]
fn saved_config_restores_settings_and_writers() {
    let (tx, _rx) = flume::unbounded();
    let a = Logging::new(
        DEBUG,
        "app".to_string(),
        Some(vec![
            ConsoleWriterConfig::new(INFO, false).into(),
            fastlogging::CallbackWriterConfig::new(WARNING, None).into(),
        ]),
        tx,
        b"k",
    )
    .unwrap();
    let file = a.config_to_save("saved.json".to_string());
    assert_eq!(file.path, "saved.json");
    let (tx2, _rx2) = flume::unbounded();
    let mut b = Logging::new(
        NOTSET,
        "other".to_string(),
        Some(vec![ConsoleWriterConfig::new(DEBUG, false).into()]),
        tx2,
        b"k",
    )
    .unwrap();
    file.merge_found(&mut b.instance, FileMerge::Replace, true).unwrap();
    assert_eq!(b.instance.level, DEBUG);
    assert_eq!(b.instance.domain, "app");
    assert!(b.instance.get_writer_config(1).is_none());
    match b.instance.get_writer_config(2) {
        Some(WriterConfigEnum::Console(c)) => assert_eq!(c.level, INFO),
        _ => panic!("console writer expected"),
    }
    match b.instance.get_writer_config(3) {
        Some(WriterConfigEnum::Callback(c)) => assert_eq!(c.level, WARNING),
        _ => panic!("callback writer expected"),
    }
    assert_eq!(b.instance.get_writer_configs().len(), 2);
}

#[test]
fn server_refuses_bytes_that_are_not_utf8() {
    let mut s = ServerSession::new(EncryptionMethod::NONE, DEBUG);
    match s.on_message(INFO, b"dom", &[0xffu8, 0xfe], "127.0.0.1:9") {
        Err(LoggingError::Utf8Error(t)) => assert_eq!(t, "invalid utf-8 data"),
        _ => panic!("utf-8 error expected"),
    }
}

#[test]
fn merging_a_file_not_on_disk_changes_nothing() {
    let cf = file_config(vec![console(ERROR)]);
    let mut i = instance();
    i.add_writer_config(&console(DEBUG)).unwrap();
    cf.merge_found(&mut i, FileMerge::Replace, false).unwrap();
    assert_eq!((i.level, i.domain.as_str()), (DEBUG, "root"));
    let mut gone = file_config(vec![console(ERROR)]);
    gone.path = "no-such-directory/fastlogging.json".to_string();
    gone.merge(&mut i, FileMerge::Replace).unwrap();
    assert_eq!((i.level, i.domain.as_str()), (DEBUG, "root"));
    assert_eq!(i.get_writer_configs().len(), 1);
}

#[test]
fn merging_a_file_never_loaded_changes_nothing() {
    let cf = ConfigFile::new();
    let mut i = LoggingInstance::new(DEBUG, "test".to_string(), b"k");
    i.add_writer_config(&ConsoleWriterConfig::new(DEBUG, false).into()).unwrap();
    cf.merge(&mut i, FileMerge::Replace).unwrap();
    assert_eq!(i.level, DEBUG);
    assert_eq!(i.domain, "test");
    assert_eq!(i.get_writer_configs().len(), 1);
    assert!(i.get_writer_config(1).is_some());
}

#[test]
fn message_filter_tests_the_message() {
    let mut c = ConsoleWriterConfig::new(DEBUG, false);
    c.message_filter = Some("hello".to_string());
    assert!(console_line(&c, INFO, "dom", "hello world").is_some());
    assert!(console_line(&c, INFO, "hello", "bye").is_none());
    let mut f = FileWriterConfig::new(DEBUG, "a.log".to_string(), 0, 0, None, None, None).unwrap();
    f.message_filter = Some("hello".to_string());
    let ev = FileEvent::Message { domain: "dom".to_string(), text: "hello world".to_string() };
    assert_eq!(file_step(&f, 0, &ev).write, Some("hello world\n".to_string()));
    let ev = FileEvent::Message { domain: "hello".to_string(), text: "bye".to_string() };
    assert_eq!(file_step(&f, 0, &ev).write, None);
}

#[test]
fn otlp_strings_are_json_escaped() {
    let body = build_otlp_json("s\\v", &[(INFO, "d\"x".to_string(), "line\n\u{1}\t".to_string())]);
    assert!(body.contains("\"s\\\\v\""));
    assert!(body.contains("\"d\\\"x\""));
    assert!(body.contains("\"line\\n\\u0001\\t\""));
}

#[test]
fn writer_gets_admitted_messages_in_order() {
    let (tx, rx) = flume::unbounded();
    let mut logging = Logging::new(DEBUG, "app".to_string(), Some(vec![console(INFO)]), tx, b"k").unwrap();
    logging.debug("one", "main").unwrap();
    logging.info("two", "main").unwrap();
    logging.warning("three", "main").unwrap();
    let mut handed = Vec::new();
    while let Ok(ev) = rx.try_recv() {
        if let WorkerAction::Deliver { level, wids, text, .. } = logging.instance.dispatch(ev) {
            assert!(wids.iter().filter(|w| **w == 1).count() <= 1);
            if wids.contains(&1) {
                handed.push((level, text));
            }
        }
    }
    assert_eq!(handed.len(), 2);
    assert_eq!(handed[0].0, INFO);
    assert!(handed[0].1.contains("two"));
    assert_eq!(handed[1].0, WARNING);
    assert!(handed[1].1.contains("three"));
}

#[test]
fn address_with_port_reads_back() {
    let c = ClientWriterConfig::new(INFO, "example.org:4321", EncryptionMethod::NONE);
    assert_eq!(c.port, 4321);
    assert_eq!(c.get_address(), "example.org:4321");
}

#[test]
fn disabled_syslog_writer_sends_nothing() {
    let mut c = SyslogWriterConfig::new(DEBUG, None, "p", 1);
    c.enabled = false;
    assert!(fastlogging::writers::syslog_entry(&c, INFO, "d", "m").is_none());
    c.enabled = true;
    assert!(fastlogging::writers::syslog_entry(&c, INFO, "d", "m").is_some());
}

#[test]
fn auth_keys_are_32_alphanumeric_bytes() {
    let k = fastlogging::encryption::random_auth_key();
    assert_eq!(k.len(), 32);
    assert!(k.iter().all(|b| b.is_ascii_alphanumeric()));
}

#[test]
fn rotation_picks_file_writers_by_path() {
    let mut i = LoggingInstance::new(DEBUG, "d".to_string(), b"k");
    i.add_writer_config(&file(DEBUG, "a.log")).unwrap();
    i.add_writer_config(&console(DEBUG)).unwrap();
    i.add_writer_config(&file(DEBUG, "b.log")).unwrap();
    let mut all = i.rotation_wids(None);
    all.sort();
    assert_eq!(all, vec![1, 3]);
    assert_eq!(i.rotation_wids(Some("b.log".to_string())), vec![3]);
    assert!(i.rotation_wids(Some("c.log".to_string())).is_empty());
}
