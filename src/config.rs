//! Start-up configuration of the server.

use vstd::prelude::*;
use vstd::string::StringExecFns;

use crate::text::decimal_text;

verus! {

broadcast use vstd::string::group_string_axioms;

/// Port the server listens on by default.
pub const DEFAULT_PORT: u16 = 9223;

/// Host the server binds by default.
pub const DEFAULT_HOST: &'static str = "localhost";

/// Console entries kept by default (protects against runaway scripts).
pub const DEFAULT_CONSOLE_LOG_LIMIT: u32 = 100;

/// Log level by default.
pub const DEFAULT_LOG_LEVEL: &'static str = "info";

/// The settings a [`Builder`] holds.
pub struct BuilderView {
    pub port: u16,
    /// Empty until set; an empty host means the default one.
    pub host: Seq<char>,
    pub console_log_limit: u32,
    pub log_level: Option<Seq<char>>,
}

/// Builder of the server's configuration.
#[derive(Debug, Clone)]
pub struct Builder {
    port: u16,
    host: String,
    console_log_limit: u32,
    log_level: Option<String>,
}

impl Builder {
    /// The settings held.
    pub closed spec fn view(&self) -> BuilderView {
        BuilderView {
            port: self.port,
            host: self.host@,
            console_log_limit: self.console_log_limit,
            log_level: match self.log_level {
                Some(l) => Some(l@),
                None => None,
            },
        }
    }

    /// A builder with the default settings.
    pub fn new() -> (r: Self)
        ensures
            r@.port == DEFAULT_PORT,
            r@.host == Seq::<char>::empty(),
            r@.console_log_limit == DEFAULT_CONSOLE_LOG_LIMIT,
            r@.log_level is None,
    {
        Builder {
            port: DEFAULT_PORT,
            host: String::new(),
            console_log_limit: DEFAULT_CONSOLE_LOG_LIMIT,
            log_level: None,
        }
    }

    /// Sets the port.
    pub fn port(self, port: u16) -> (r: Self)
        ensures
            r@ == (BuilderView { port, ..self@ }),
    {
        Builder { port, ..self }
    }

    /// Sets the bind address.
    pub fn host(self, host: impl Into<String>) -> (r: Self)
        ensures
            r@.port == self@.port,
            r@.console_log_limit == self@.console_log_limit,
            r@.log_level == self@.log_level,
            exists|s: String| call_ensures(<_ as Into<String>>::into, (host,), s) && r@.host == s@,
    {
        let h: String = host.into();
        Builder { host: h, ..self }
    }

    /// Sets how many console entries are kept.
    pub fn console_log_limit(self, limit: u32) -> (r: Self)
        ensures
            r@ == (BuilderView { console_log_limit: limit, ..self@ }),
    {
        Builder { console_log_limit: limit, ..self }
    }

    /// Sets the log level (`error`, `warn`, `info`, `debug` or `trace`); it
    /// takes precedence over the environment.
    pub fn log_level(self, level: impl Into<String>) -> (r: Self)
        ensures
            r@.port == self@.port,
            r@.host == self@.host,
            r@.console_log_limit == self@.console_log_limit,
            r@.log_level matches Some(l) && exists|s: String|
                call_ensures(<_ as Into<String>>::into, (level,), s) && l == s@,
    {
        let l: String = level.into();
        Builder { log_level: Some(l), ..self }
    }

    /// The port to listen on.
    pub fn listen_port(&self) -> (r: u16)
        ensures
            r == self@.port,
    {
        self.port
    }

    /// The host to bind: the one set, or the default when none was.
    pub fn listen_host(&self) -> (r: String)
        ensures
            r@ == if self@.host.len() == 0 {
                DEFAULT_HOST@
            } else {
                self@.host
            },
    {
        if self.host.as_str().is_empty() {
            String::from_str(DEFAULT_HOST)
        } else {
            self.host.clone()
        }
    }

    /// How many console entries are kept.
    pub fn log_limit(&self) -> (r: u32)
        ensures
            r == self@.console_log_limit,
    {
        self.console_log_limit
    }

    /// The log level in force: the one set on the builder, else the one from
    /// the environment (`from_env`), else the default.
    pub fn effective_log_level(&self, from_env: Option<String>) -> (r: String)
        ensures
            r@ == match self@.log_level {
                Some(l) => l,
                None => match from_env {
                    Some(e) => e@,
                    None => DEFAULT_LOG_LEVEL@,
                },
            },
    {
        match &self.log_level {
            Some(l) => l.clone(),
            None => match from_env {
                Some(e) => e,
                None => String::from_str(DEFAULT_LOG_LEVEL),
            },
        }
    }

    /// The line that hands the console-capture script its configuration.
    pub fn console_config_script(&self) -> (r: String)
        ensures
            r@ == "window.__TAURI_MCP_CONFIG__ = { maxConsoleEntries: "@ + crate::text::decimal(
                self@.console_log_limit as nat,
            ) + " };\n"@,
    {
        String::from_str("window.__TAURI_MCP_CONFIG__ = { maxConsoleEntries: ").concat(
            decimal_text(self.console_log_limit as u64).as_str(),
        ).concat(" };\n")
    }
}

impl Default for Builder {
    fn default() -> (r: Self)
        ensures
            r@.port == DEFAULT_PORT,
            r@.host == Seq::<char>::empty(),
            r@.console_log_limit == DEFAULT_CONSOLE_LOG_LIMIT,
            r@.log_level is None,
    {
        Builder::new()
    }
}

} // verus!
