use fastlogging::{
    CallbackWriterConfig, ClientWriterConfig, ConsoleWriterConfig, EncryptionMethod,
    EncryptionMethodEnum, ExtConfig, FileWriterConfig, LevelSyms, LoggingError,
    MessageStructEnum, ServerConfig, WriterConfig, WriterConfigEnum,
};

#[test]
fn integration_level_conversion() {
    assert_eq!(fastlogging::NOTSET, 0);
    assert_eq!(fastlogging::TRACE, 5);
    assert_eq!(fastlogging::DEBUG, 10);
    assert_eq!(fastlogging::INFO, 20);
    assert_eq!(fastlogging::SUCCESS, 25);
    assert_eq!(fastlogging::WARNING, 30);
    assert_eq!(fastlogging::ERROR, 40);
    assert_eq!(fastlogging::FATAL, fastlogging::CRITICAL);
    assert_eq!(fastlogging::CRITICAL, 50);
    assert_eq!(fastlogging::EXCEPTION, 60);
    assert_eq!(fastlogging::WARN, fastlogging::WARNING);
}

#[test]
fn integration_server_client_config_construction() {
    let _server = WriterConfig::new_server(
        fastlogging::DEBUG,
        "127.0.0.1:0",
        EncryptionMethodEnum::NONE,
        &[],
    );
    let _client = WriterConfig::new_client(
        fastlogging::DEBUG,
        "127.0.0.1:0",
        EncryptionMethodEnum::NONE,
        &[],
    );
}

#[test]
fn integration_ext_config_default() {
    let ext = ExtConfig::new(MessageStructEnum::String, false, false, false, false, false);
    assert_eq!(ext.hostname, false);
    assert_eq!(ext.pname, false);
    assert_eq!(ext.pid, false);
    assert_eq!(ext.tname, false);
    assert_eq!(ext.tid, false);
}

#[test]
fn level_conversion() {
    assert_eq!(fastlogging::level2str(fastlogging::NOTSET), "NOTSET");
    assert_eq!(fastlogging::level2str(fastlogging::TRACE), "TRACE");
    assert_eq!(fastlogging::level2str(fastlogging::DEBUG), "DEBUG");
    assert_eq!(fastlogging::level2str(fastlogging::INFO), "INFO");
    assert_eq!(fastlogging::level2str(fastlogging::SUCCESS), "SUCCESS");
    assert_eq!(fastlogging::level2str(fastlogging::WARNING), "WARNING");
    assert_eq!(fastlogging::level2str(fastlogging::ERROR), "ERROR");
    assert_eq!(fastlogging::level2str(fastlogging::FATAL), "FATAL");
    assert_eq!(fastlogging::level2str(fastlogging::CRITICAL), "FATAL");
    assert_eq!(fastlogging::level2str(fastlogging::EXCEPTION), "EXCEPTION");
    assert_eq!(fastlogging::level2str(200), "NOLOG");
    assert_eq!(fastlogging::WARN, fastlogging::WARNING);
    assert_eq!(fastlogging::CRITICAL, fastlogging::FATAL);
    assert_eq!(fastlogging::level2short(fastlogging::DEBUG), "DBG");
    assert_eq!(fastlogging::level2short(fastlogging::ERROR), "ERR");
    assert_eq!(fastlogging::level2sym(fastlogging::DEBUG), "D");
    assert_eq!(fastlogging::level2sym(fastlogging::ERROR), "E");
    assert_eq!(
        fastlogging::level2string(&LevelSyms::Str, fastlogging::INFO),
        "INFO"
    );
    assert_eq!(
        fastlogging::level2string(&LevelSyms::Short, fastlogging::INFO),
        "INF"
    );
    assert_eq!(
        fastlogging::level2string(&LevelSyms::Sym, fastlogging::INFO),
        "I"
    );
}

#[test]
fn console_writer_config_defaults() {
    let config = ConsoleWriterConfig::new(fastlogging::DEBUG, false);
    assert!(matches!(
        config.target,
        fastlogging::console::ConsoleTargetEnum::StdOut
    ));
    assert!(config.enabled);
    assert_eq!(config.level, fastlogging::DEBUG);
}

#[test]
fn file_writer_config_validation() {
    let err = FileWriterConfig::new(
        fastlogging::DEBUG,
        "x.log".to_string(),
        1000,
        0,
        None,
        None,
        None,
    )
    .unwrap_err();
    assert!(matches!(err, LoggingError::InvalidValue(_)));
    let err = FileWriterConfig::new(
        fastlogging::DEBUG,
        "x.log".to_string(),
        1000,
        1001,
        None,
        None,
        None,
    )
    .unwrap_err();
    assert!(matches!(err, LoggingError::InvalidValue(_)));
}

#[test]
fn server_client_config_construction() {
    let server = ServerConfig::new(fastlogging::DEBUG, "127.0.0.1", EncryptionMethod::NONE);
    let cfg = WriterConfigEnum::Server(server.duplicate());
    assert!(matches!(cfg, WriterConfigEnum::Server(_)));
    let client = ClientWriterConfig::new(
        fastlogging::DEBUG,
        "127.0.0.1",
        EncryptionMethod::AuthKey(vec![1, 2, 3]),
    );
    assert_eq!(client.port, 0);
    let cfg = WriterConfigEnum::Client(client);
    assert!(matches!(cfg, WriterConfigEnum::Client(_)));
    match EncryptionMethod::AuthKey(vec![1, 2, 3]) {
        EncryptionMethod::AuthKey(key) => assert_eq!(key, vec![1, 2, 3]),
        _ => panic!("wrong encryption variant"),
    }
    let _ = server;
}

#[test]
fn ext_config_default() {
    let ext = ExtConfig::default();
    assert!(!ext.hostname);
    assert!(!ext.pname);
    assert!(!ext.pid);
    assert!(!ext.tname);
    assert!(!ext.tid);
    assert!(matches!(ext.structured, MessageStructEnum::String));
}

#[test]
fn writer_config_from_conversions() {
    let console = ConsoleWriterConfig::new(fastlogging::DEBUG, false);
    let _: WriterConfigEnum = console.into();
    let file = FileWriterConfig::new(
        fastlogging::DEBUG,
        "x.log".to_string(),
        0,
        0,
        None,
        None,
        None,
    )
    .unwrap();
    let _: WriterConfigEnum = file.into();
    let callback = CallbackWriterConfig::new(fastlogging::DEBUG, None);
    let _: WriterConfigEnum = callback.into();
}
