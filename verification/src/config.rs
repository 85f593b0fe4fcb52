//! The server's configuration: its fields and defaults, the log level it
//! names, and where the configuration text is taken from.

use vstd::prelude::*;
use vstd::string::StringExecFns;

verus! {

/// How much is logged, from nothing to everything.
#[derive(Clone, Copy, Debug, PartialEq, Eq, Structural)]
pub enum LevelFilter {
    Off,
    Error,
    Warn,
    Info,
    Debug,
    Trace,
}

/// Whether two characters are the same but for the case of an ASCII letter.
pub open spec fn same_letter(a: char, b: char) -> bool {
    a == b || ('a' <= a <= 'z' && a as int == b as int + 32) || ('a' <= b <= 'z' && b as int
        == a as int + 32)
}

/// Whether two texts are the same but for the case of their ASCII letters.
pub open spec fn same_ignoring_ascii_case(a: Seq<char>, b: Seq<char>) -> bool {
    a.len() == b.len() && forall|i: int| 0 <= i < a.len() ==> same_letter(a[i], b[i])
}

/// The level that a text names: one of the six names, in any mix of upper
/// and lower case.
pub open spec fn level_named(text: Seq<char>) -> Option<LevelFilter> {
    if same_ignoring_ascii_case(text, "OFF"@) {
        Some(LevelFilter::Off)
    } else if same_ignoring_ascii_case(text, "ERROR"@) {
        Some(LevelFilter::Error)
    } else if same_ignoring_ascii_case(text, "WARN"@) {
        Some(LevelFilter::Warn)
    } else if same_ignoring_ascii_case(text, "INFO"@) {
        Some(LevelFilter::Info)
    } else if same_ignoring_ascii_case(text, "DEBUG"@) {
        Some(LevelFilter::Debug)
    } else if same_ignoring_ascii_case(text, "TRACE"@) {
        Some(LevelFilter::Trace)
    } else {
        None
    }
}

/// Calls `log::LevelFilter::from_str`, which takes the first of the names
/// OFF, ERROR, WARN, INFO, DEBUG and TRACE that equals the text when the case
/// of ASCII letters is ignored, and fails where none does.
#[verifier::external_body]
fn parse_level_filter(text: &str) -> (level: Option<LevelFilter>)
    ensures
        level == level_named(text@),
{
    match <log::LevelFilter as std::str::FromStr>::from_str(text) {
        Ok(log::LevelFilter::Off) => Some(LevelFilter::Off),
        Ok(log::LevelFilter::Error) => Some(LevelFilter::Error),
        Ok(log::LevelFilter::Warn) => Some(LevelFilter::Warn),
        Ok(log::LevelFilter::Info) => Some(LevelFilter::Info),
        Ok(log::LevelFilter::Debug) => Some(LevelFilter::Debug),
        Ok(log::LevelFilter::Trace) => Some(LevelFilter::Trace),
        Err(_) => None,
    }
}

/// Whether TLS is switched on, and whether clients must show a certificate.
#[derive(Clone, Debug, PartialEq, Eq, Hash)]
pub struct Tls {
    pub enable: bool,
    pub client_auth: bool,
}

impl Default for Tls {
    fn default() -> (tls: Self)
        ensures
            !tls.enable,
            !tls.client_auth,
    {
        Tls { enable: false, client_auth: false }
    }
}

/// The server's configuration.
#[derive(Clone, Debug, PartialEq, Eq, Hash)]
pub struct Config {
    pub postgres_url: String,
    pub host: String,
    pub port: u16,
    pub tls: Tls,
    pub log_level: String,
}

impl Default for Config {
    fn default() -> (config: Self)
        ensures
            config.postgres_url@ == Seq::<char>::empty(),
            config.host@ == "localhost"@,
            config.port == 8080,
            !config.tls.enable,
            !config.tls.client_auth,
            config.log_level@ == "DEBUG"@,
    {
        Config {
            postgres_url: String::new(),
            host: String::from_str("localhost"),
            port: 8080,
            tls: Tls { enable: false, client_auth: false },
            log_level: String::from_str("DEBUG"),
        }
    }
}

impl Config {
    /// The level the configuration names, where it names one.
    pub fn named_log_level(&self) -> (level: Option<LevelFilter>)
        ensures
            level == level_named(self.log_level@),
    {
        parse_level_filter(self.log_level.as_str())
    }

    /// The level to log at: the one the configuration names, and debug where
    /// it names none.
    pub fn log_level(&self) -> (level: LevelFilter)
        ensures
            level == match level_named(self.log_level@) {
                Some(named) => named,
                None => LevelFilter::Debug,
            },
    {
        match self.named_log_level() {
            Some(named) => named,
            None => LevelFilter::Debug,
        }
    }
}

/// The value of the environment variable that may hold the configuration.
#[derive(Debug, PartialEq, Eq)]
pub enum EnvValue {
    /// The variable is not set.
    Unset,
    /// The variable holds this text.
    Text(String),
    /// The variable holds something that is no Unicode text.
    NotUnicode,
}

/// Where the configuration text comes from.
#[derive(Debug, PartialEq, Eq)]
pub enum ContentSource<'c> {
    /// From the environment variable: this is the text.
    Environment(String),
    /// From nowhere: the environment variable is set, and not to text.
    NotValidUnicode,
    /// From the defaults, which are first written to the file at this path.
    WriteDefault(&'c str),
    /// From the file at this path.
    ReadFile(&'c str),
}

/// The text a source holds already, if it holds one.
pub open spec fn source_text(source: ContentSource) -> Option<Seq<char>> {
    match source {
        ContentSource::Environment(text) => Some(text@),
        _ => None,
    }
}

/// The path a source names, if it names one.
pub open spec fn source_path(source: ContentSource) -> Option<Seq<char>> {
    match source {
        ContentSource::WriteDefault(path) => Some(path@),
        ContentSource::ReadFile(path) => Some(path@),
        _ => None,
    }
}

/// A configuration file, and the environment variable that overrides it.
#[derive(Clone, Copy, Debug)]
pub struct ConfigFile<'c> {
    path: &'c str,
    env_var: &'c str,
}

impl<'c> ConfigFile<'c> {
    /// The path of the file.
    pub closed spec fn path(&self) -> &'c str {
        self.path
    }

    /// The name of the environment variable.
    pub closed spec fn env_var(&self) -> &'c str {
        self.env_var
    }

    pub fn new(path: &'c str, env_var: &'c str) -> (file: Self)
        ensures
            file.path() == path,
            file.env_var() == env_var,
    {
        Self { path, env_var }
    }

    /// The name of the environment variable to look up.
    pub fn variable(&self) -> (name: &'c str)
        ensures
            name == self.env_var(),
    {
        self.env_var
    }

    /// Where the content comes from, given the value of the environment
    /// variable. A set variable always wins over the file; without one the
    /// file is read, or, where defaults are in use, written with them.
    pub fn read_content_impl(&self, use_default: bool, env: EnvValue) -> (source: ContentSource<'c>)
        ensures
            match env {
                EnvValue::Text(text) => source is Environment && source_text(source) == Some(text@),
                EnvValue::NotUnicode => source is NotValidUnicode,
                EnvValue::Unset => source_path(source) == Some(self.path()@) && (use_default
                    <==> source is WriteDefault) && (!use_default <==> source is ReadFile),
            },
    {
        match env {
            EnvValue::Text(text) => ContentSource::Environment(text),
            EnvValue::NotUnicode => ContentSource::NotValidUnicode,
            EnvValue::Unset => {
                if use_default {
                    ContentSource::WriteDefault(self.path)
                } else {
                    ContentSource::ReadFile(self.path)
                }
            },
        }
    }

    /// Where the content comes from when the file must exist.
    pub fn read_content(&self, env: EnvValue) -> (source: ContentSource<'c>)
        ensures
            match env {
                EnvValue::Text(text) => source is Environment && source_text(source) == Some(text@),
                EnvValue::NotUnicode => source is NotValidUnicode,
                EnvValue::Unset => source is ReadFile && source_path(source) == Some(self.path()@),
            },
    {
        self.read_content_impl(false, env)
    }

    /// Where the content comes from when defaults stand in for a missing
    /// file.
    pub fn read_content_with_default(&self, env: EnvValue) -> (source: ContentSource<'c>)
        ensures
            match env {
                EnvValue::Text(text) => source is Environment && source_text(source) == Some(text@),
                EnvValue::NotUnicode => source is NotValidUnicode,
                EnvValue::Unset => source is WriteDefault && source_path(source) == Some(
                    self.path()@,
                ),
            },
    {
        self.read_content_impl(true, env)
    }
}

} // verus!
