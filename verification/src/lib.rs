//! A structured logging library: levels, writer configurations, message
//! formatting, the registry of writers of a logging instance, and the wire
//! format of network writers.

pub mod bindings;
pub mod callback;
pub mod config;
pub mod console;
pub mod def;
pub mod dispatch;
pub mod encryption;
pub mod error;
pub mod file;
pub mod filter;
pub mod formats;
pub mod instance;
pub mod laws;
pub mod logging;
pub mod merge;
pub mod message;
pub mod net;
pub mod otel;
pub mod protocol;
pub mod queries;
pub mod root;
pub mod syslog;
pub mod text;
pub mod writers;

pub use callback::{CallbackFn, CallbackFnT, CallbackTypeEnum, CallbackWriterConfig};
pub use console::{ConsoleTargetEnum, ConsoleTypeEnum, ConsoleWriterConfig};
pub use def::{
    level2short, level2str, level2string, level2sym, LevelSyms, MessageStructEnum, RootConfig,
    WriterConfigEnum, WriterTypeEnum, LoggingTypeEnum, CRITICAL, DEBUG, ERROR, EXCEPTION, FATAL, INFO, NOLOG,
    NOTSET, SUCCESS, TRACE, WARN, WARNING,
};
pub use encryption::{EncryptionMethod, NonceGenerator};
pub use config::{ExtConfig, FileMerge};
pub use error::LoggingError;
pub use instance::LoggingInstance;
pub use file::{CompressionMethodEnum, FileTypeEnum, FileWriterConfig};
pub use net::{ClientTypeEnum, ClientWriterConfig, ServerConfig};
pub use syslog::{SyslogFacility, SyslogWriterConfig};
pub use bindings::{EncryptionMethodEnum, WriterConfig};
pub use config::{ConfigFile, FileConfig};
pub use logging::{Logger, Logging};
pub use otel::{
    level2severity_number, level2severity_text, OpenTelemetryTypeEnum, OpenTelemetryWriterConfig,
};
pub use queries::LoggingConfig;
