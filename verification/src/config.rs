//! Extended settings of a logging instance, and the contents of
//! configuration files.

use vstd::prelude::*;

use crate::def::{clone_opt_string, LevelSyms, MessageStructEnum, WriterConfigEnum, NOTSET};
use crate::error::LoggingError;
use crate::text::str_eq;

verus! {

/// Extended logging configuration.
#[derive(Debug)]
pub struct ExtConfig {
    /// Set log message structuring.
    pub structured: MessageStructEnum,
    /// Include hostname in log messages.
    pub hostname: bool,
    /// Include process name in log messages.
    pub pname: bool,
    /// Include process id in log messages.
    pub pid: bool,
    /// Include thread name in log messages.
    pub tname: bool,
    /// Include thread id in log messages.
    pub tid: bool,
}

impl ExtConfig {
    pub fn new(
        structured: MessageStructEnum,
        hostname: bool,
        pname: bool,
        pid: bool,
        tname: bool,
        tid: bool,
    ) -> (r: Self)
        ensures
            r == (ExtConfig { structured, hostname, pname, pid, tname, tid }),
    {
        Self { structured, hostname, pname, pid, tname, tid }
    }

    pub fn duplicate(&self) -> (r: Self)
        ensures
            r == *self,
    {
        Self {
            structured: self.structured,
            hostname: self.hostname,
            pname: self.pname,
            pid: self.pid,
            tname: self.tname,
            tid: self.tid,
        }
    }
}

impl Default for ExtConfig {
    fn default() -> (r: Self)
        ensures
            r == (ExtConfig {
                structured: MessageStructEnum::String,
                hostname: false,
                pname: false,
                pid: false,
                tname: false,
                tid: false,
            }),
    {
        Self {
            hostname: false,
            pname: false,
            pid: false,
            tname: false,
            tid: false,
            structured: MessageStructEnum::String,
        }
    }
}

/// How a configuration file is merged into a logging instance.
#[derive(Debug, Clone, Copy, PartialEq, Eq, Structural)]
pub enum FileMerge {
    /// Replace the complete configuration by the file's contents.
    Replace,
    /// Add only writers of kinds that the instance does not have yet.
    Merge,
    /// Add new writers and replace existing writers of the same kind.
    MergeReplace,
}

/// The contents of a configuration file.
pub struct FileConfig {
    pub level: u8,
    pub domain: String,
    pub hostname: Option<String>,
    pub pname: String,
    pub pid: u32,
    pub tname: bool,
    pub tid: bool,
    pub structured: MessageStructEnum,
    pub level2sym: LevelSyms,
    pub configs: Vec<WriterConfigEnum>,
}

impl Default for FileConfig {
    fn default() -> (r: Self)
        ensures
            r.level == NOTSET,
            r.domain@.len() == 0,
            r.hostname is None,
            r.pname@.len() == 0,
            r.pid == 0,
            !r.tname,
            !r.tid,
            r.structured == MessageStructEnum::String,
            r.level2sym == LevelSyms::Sym,
            r.configs@.len() == 0,
    {
        Self {
            level: NOTSET,
            domain: String::new(),
            hostname: None,
            pname: String::new(),
            pid: 0,
            tname: false,
            tid: false,
            structured: MessageStructEnum::String,
            level2sym: LevelSyms::Sym,
            configs: Vec::new(),
        }
    }
}

/// A configuration file: where it is, and what it holds.
pub struct ConfigFile {
    pub path: String,
    pub config: FileConfig,
}

impl ConfigFile {
    /// No file yet: an empty path and the default contents.
    pub fn new() -> (r: Self)
        ensures
            r.path@.len() == 0,
            r.config.level == NOTSET,
            r.config.domain@.len() == 0,
            r.config.hostname is None,
            r.config.pname@.len() == 0,
            r.config.pid == 0,
            !r.config.tname,
            !r.config.tid,
            r.config.structured == MessageStructEnum::String,
            r.config.level2sym == LevelSyms::Sym,
            r.config.configs@.len() == 0,
    {
        Self { path: String::new(), config: FileConfig::default() }
    }
}

/// The formats of configuration files.
#[derive(Debug, Clone, Copy, PartialEq, Eq, Structural)]
pub enum ConfigFormat {
    Json,
    Xml,
    Yaml,
}

/// The ASCII lower case of a character.
pub open spec fn ascii_lower(c: char) -> char {
    if 'A' <= c && c <= 'Z' {
        ((c as u32) + 32) as char
    } else {
        c
    }
}

pub open spec fn ascii_lower_seq(s: Seq<char>) -> Seq<char> {
    Seq::new(s.len(), |i: int| ascii_lower(s[i]))
}

/// The format a file extension names, compared without regard to ASCII case.
pub open spec fn config_format_spec(extension: Seq<char>) -> Option<ConfigFormat> {
    if ascii_lower_seq(extension) == "json"@ {
        Some(ConfigFormat::Json)
    } else if ascii_lower_seq(extension) == "xml"@ {
        Some(ConfigFormat::Xml)
    } else if ascii_lower_seq(extension) == "yaml"@ {
        Some(ConfigFormat::Yaml)
    } else {
        None
    }
}

fn lower_ascii(s: &str) -> (r: String)
    ensures
        r@ == ascii_lower_seq(s@),
{
    let cs = crate::text::chars_of(s);
    let mut r = String::new();
    let mut i: usize = 0;
    while i < cs.len()
        invariant
            cs@ == s@,
            i <= cs@.len(),
            r@ == ascii_lower_seq(s@.subrange(0, i as int)),
        decreases cs@.len() - i,
    {
        let c = cs[i];
        let l = if 'A' <= c && c <= 'Z' {
            let code: u32 = (c as u32) + 32;
            proof {
                assert(code <= 0x7f);
            }
            char_from_ascii(code)
        } else {
            c
        };
        crate::text::push_char(&mut r, l);
        i = i + 1;
        assert(r@ =~= ascii_lower_seq(s@.subrange(0, i as int)));
    }
    assert(s@.subrange(0, i as int) =~= s@);
    r
}

fn char_from_ascii(code: u32) -> (c: char)
    requires
        code <= 0x7f,
    ensures
        c == code as char,
{
    let b: u8 = code as u8;
    b as char
}

/// The format of a configuration file with this extension; an unknown
/// extension is refused.
pub fn config_format(extension: &str) -> (r: Result<ConfigFormat, LoggingError>)
    ensures
        config_format_spec(extension@) matches Some(f) ==> r == Ok::<ConfigFormat, LoggingError>(f),
        config_format_spec(extension@) is None ==> (r matches Err(LoggingError::InvalidValue(m))
            && m@ == "Unsupported config file type "@ + ascii_lower_seq(extension@)),
{
    let l = lower_ascii(extension);
    if str_eq(l.as_str(), "json") {
        Ok(ConfigFormat::Json)
    } else if str_eq(l.as_str(), "xml") {
        Ok(ConfigFormat::Xml)
    } else if str_eq(l.as_str(), "yaml") {
        Ok(ConfigFormat::Yaml)
    } else {
        let mut m = "Unsupported config file type ".to_string();
        crate::text::push_str(&mut m, l.as_str());
        Err(LoggingError::InvalidValue(m))
    }
}

/// Largest size of a configuration file, in bytes.
pub const CONFIG_FILE_SIZE_MAX: u64 = 4096;

/// Checks the size of a configuration file before it is read.
pub fn check_config_size(size: u64) -> (r: Result<(), LoggingError>)
    ensures
        size <= CONFIG_FILE_SIZE_MAX ==> r is Ok,
        size > CONFIG_FILE_SIZE_MAX ==> (r matches Err(LoggingError::InvalidValue(m)) && m@
            == "Config file is too big"@),
{
    if size > CONFIG_FILE_SIZE_MAX {
        Err(LoggingError::InvalidValue("Config file is too big".to_string()))
    } else {
        Ok(())
    }
}


/// The extension of a path: the text after the last `.` of its last
/// component, when that component has an extension.
pub open spec fn extension_spec(path: Seq<char>) -> Option<Seq<char>> {
    if crate::writers::has_extension(path) {
        Some(crate::text::after_last(crate::text::after_last(path, '/'), '.'))
    } else {
        None
    }
}

/// The extension of `path`.
pub fn extension_of(path: &str) -> (r: Option<String>)
    ensures
        match extension_spec(path@) {
            Some(e) => r matches Some(x) && x@ == e,
            None => r is None,
        },
{
    let name = crate::text::text_after_last(path, '/');
    let cs = crate::text::chars_of(name.as_str());
    let mut found = false;
    let mut i: usize = 1;
    while i < cs.len()
        invariant
            cs@ == name@,
            1 <= i,
            cs@.len() > 0 ==> i <= cs@.len(),
            found <==> exists|j: int| 1 <= j < i && j < cs@.len() && cs@[j] == '.',
        decreases cs@.len() - i,
    {
        if cs[i] == '.' {
            found = true;
        }
        i = i + 1;
    }
    proof {
        let nm = name@;
        if nm.len() > 0 {
            if found {
                let j = choose|j: int| 1 <= j < i && j < cs@.len() && cs@[j] == '.';
                assert(nm.drop_first()[j - 1] == '.');
            }
            if nm.drop_first().contains('.') {
                let j = choose|j: int| 0 <= j < nm.drop_first().len() && nm.drop_first()[j] == '.';
                assert(cs@[j + 1] == '.');
            }
        }
    }
    if found {
        Some(crate::text::text_after_last(name.as_str(), '.'))
    } else {
        None
    }
}

/// The format of the configuration file at `path`, by its extension; a
/// path without extension or with an unknown one is refused.
pub fn config_file_format(path: &str) -> (r: Result<ConfigFormat, LoggingError>)
    ensures
        extension_spec(path@) is None ==> (r matches Err(LoggingError::InvalidValue(m)) && m@
            == "Config file has no extension"@),
        extension_spec(path@) matches Some(e) ==> match config_format_spec(e) {
            Some(f) => r == Ok::<ConfigFormat, LoggingError>(f),
            None => r matches Err(LoggingError::InvalidValue(m)) && m@ == "Unsupported config file type "@
                + ascii_lower_seq(e),
        },
{
    match extension_of(path) {
        None => Err(LoggingError::InvalidValue("Config file has no extension".to_string())),
        Some(e) => config_format(e.as_str()),
    }
}

/// Whether `name` is among `existing`.
pub open spec fn exists_in(existing: Seq<String>, name: Seq<char>) -> bool {
    exists|i: int| 0 <= i < existing.len() && #[trigger] existing[i]@ == name
}

/// The file extension as lower-case bytes.
pub open spec fn format_bytes(f: ConfigFormat) -> Seq<u8> {
    match f {
        ConfigFormat::Json => seq![106u8, 115u8, 111u8, 110u8],
        ConfigFormat::Xml => seq![120u8, 109u8, 108u8],
        ConfigFormat::Yaml => seq![121u8, 97u8, 109u8, 108u8],
    }
}

fn format_bytes_exec(f: ConfigFormat) -> (r: Vec<u8>)
    ensures
        r@ == format_bytes(f),
{
    let r = match f {
        ConfigFormat::Json => vec![106u8, 115u8, 111u8, 110u8],
        ConfigFormat::Xml => vec![120u8, 109u8, 108u8],
        ConfigFormat::Yaml => vec![121u8, 97u8, 109u8, 108u8],
    };
    assert(r@ =~= format_bytes(f));
    r
}

fn existing_has(existing: &[String], name: &str) -> (r: bool)
    ensures
        r == exists_in(existing@, name@),
{
    let mut i: usize = 0;
    while i < existing.len()
        invariant
            i <= existing@.len(),
            forall|j: int| 0 <= j < i ==> existing@[j]@ != name@,
        decreases existing@.len() - i,
    {
        if str_eq(existing[i].as_str(), name) {
            return true;
        }
        i = i + 1;
    }
    false
}

/// The configuration file used when none is given, and the lower-case
/// bytes of its extension: the file that `env_path` (the
/// `FASTLOGGING_CONFIG_FILE` setting) names when it exists and is JSON,
/// YAML or XML, else the first default name that exists, else nothing (an
/// empty path and no bytes). `existing` lists the candidates that exist.
pub fn default_config_file(env_path: Option<&str>, existing: &[String]) -> (r: (String, Vec<u8>))
    ensures
        ({
            let env_ok = env_path matches Some(p) && exists_in(existing@, p@) && (
            extension_spec(p@) matches Some(e) && config_format_spec(e) is Some);
            if env_ok {
                r.0@ == env_path->0@ && r.1@ == format_bytes(
                    config_format_spec(extension_spec(env_path->0@)->0)->0,
                )
            } else if exists_in(existing@, "fastlogging.json"@) {
                r.0@ == "fastlogging.json"@ && r.1@ == format_bytes(ConfigFormat::Json)
            } else if exists_in(existing@, "fastlogging.yaml"@) {
                r.0@ == "fastlogging.yaml"@ && r.1@ == format_bytes(ConfigFormat::Yaml)
            } else if exists_in(existing@, "fastlogging.xml"@) {
                r.0@ == "fastlogging.xml"@ && r.1@ == format_bytes(ConfigFormat::Xml)
            } else {
                r.0@.len() == 0 && r.1@.len() == 0
            }
        }),
{
    match env_path {
        Some(p) => {
            if existing_has(existing, p) {
                match extension_of(p) {
                    Some(e) => {
                        match config_format(e.as_str()) {
                            Ok(f) => {
                                return (p.to_string(), format_bytes_exec(f));
                            },
                            Err(_) => {},
                        }
                    },
                    None => {},
                }
            }
        },
        None => {},
    }
    if existing_has(existing, "fastlogging.json") {
        (("fastlogging.json").to_string(), format_bytes_exec(ConfigFormat::Json))
    } else if existing_has(existing, "fastlogging.yaml") {
        (("fastlogging.yaml").to_string(), format_bytes_exec(ConfigFormat::Yaml))
    } else if existing_has(existing, "fastlogging.xml") {
        (("fastlogging.xml").to_string(), format_bytes_exec(ConfigFormat::Xml))
    } else {
        (String::new(), Vec::new())
    }
}
} // verus!
