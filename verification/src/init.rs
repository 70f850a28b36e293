//! Engine bring-up configuration.
//!
//! A builder collects the process-wide settings (worker threads, logging,
//! bundled configuration text, TLS material) and assembles them into the
//! record the engine is brought up with.

use vstd::prelude::*;

verus! {

/// The assembled bring-up settings.
pub struct EnvConfig {
    pub thread_num: i32,
    pub log_level: i32,
    pub log_mask: i32,
    pub log_file_path: Option<String>,
    pub log_file_days: i32,
    pub ini: Option<String>,
    pub ini_is_path: bool,
    pub ssl: Option<String>,
    pub ssl_is_path: bool,
    pub ssl_pwd: Option<String>,
}

/// Builder of the bring-up settings; every field has a neutral default.
pub struct EnvInitBuilder {
    pub thread_num: i32,
    pub log_level: i32,
    pub log_mask: i32,
    pub log_file_path: Option<String>,
    pub log_file_days: i32,
    pub ini: Option<String>,
    pub ini_is_path: bool,
    pub ssl: Option<String>,
    pub ssl_is_path: bool,
    pub ssl_pwd: Option<String>,
}

impl EnvInitBuilder {
    /// Defaults: no extra threads, console logging, no files, no TLS.
    pub fn new() -> (r: Self)
        ensures
            r.thread_num == 0,
            r.log_level == 0,
            r.log_mask == 0,
            r.log_file_path is None,
            r.log_file_days == 0,
            r.ini is None,
            !r.ini_is_path,
            r.ssl is None,
            !r.ssl_is_path,
            r.ssl_pwd is None,
    {
        EnvInitBuilder {
            thread_num: 0,
            log_level: 0,
            log_mask: 0,
            log_file_path: None,
            log_file_days: 0,
            ini: None,
            ini_is_path: false,
            ssl: None,
            ssl_is_path: false,
            ssl_pwd: None,
        }
    }

    /// Number of worker threads the engine may use.
    pub fn thread_num(self, thread_num: i32) -> (r: Self)
        ensures
            r == (EnvInitBuilder { thread_num, ..self }),
    {
        EnvInitBuilder { thread_num, ..self }
    }

    /// Log threshold, from trace (0) to error (4).
    pub fn log_level(self, log_level: i32) -> (r: Self)
        ensures
            r == (EnvInitBuilder { log_level, ..self }),
    {
        EnvInitBuilder { log_level, ..self }
    }

    /// Log destinations, as a bit mask of console, file and callback.
    pub fn log_mask(self, log_mask: i32) -> (r: Self)
        ensures
            r == (EnvInitBuilder { log_mask, ..self }),
    {
        EnvInitBuilder { log_mask, ..self }
    }

    /// Where the file log goes; the directory may be created.
    pub fn log_file_path(self, log_file_path: &str) -> (r: Self)
        ensures
            r.log_file_path matches Some(p) && p@ == log_file_path@,
            r == (EnvInitBuilder { log_file_path: r.log_file_path, ..self }),
    {
        EnvInitBuilder { log_file_path: Some(log_file_path.to_owned()), ..self }
    }

    /// How many days of file logs to keep.
    pub fn log_file_days(self, log_file_days: i32) -> (r: Self)
        ensures
            r == (EnvInitBuilder { log_file_days, ..self }),
    {
        EnvInitBuilder { log_file_days, ..self }
    }

    /// Whether the configuration below names a file rather than holding
    /// the text itself.
    pub fn ini_is_path(self, ini_is_path: bool) -> (r: Self)
        ensures
            r == (EnvInitBuilder { ini_is_path, ..self }),
    {
        EnvInitBuilder { ini_is_path, ..self }
    }

    /// Bundled configuration text.
    pub fn ini(self, ini_txt: &str) -> (r: Self)
        ensures
            r.ini matches Some(t) && t@ == ini_txt@,
            r == (EnvInitBuilder { ini: r.ini, ..self }),
    {
        EnvInitBuilder { ini: Some(ini_txt.to_owned()), ..self }
    }

    /// Configuration from a file at `path`.
    pub fn ini_by_file(self, path: &str) -> (r: Self)
        ensures
            r.ini matches Some(t) && t@ == path@,
            r.ini_is_path,
            r == (EnvInitBuilder { ini: r.ini, ini_is_path: true, ..self }),
    {
        EnvInitBuilder { ini: Some(path.to_owned()), ini_is_path: true, ..self }
    }

    /// Whether the TLS material below names a file.
    pub fn ssl_is_path(self, ssl_is_path: bool) -> (r: Self)
        ensures
            r == (EnvInitBuilder { ssl_is_path, ..self }),
    {
        EnvInitBuilder { ssl_is_path, ..self }
    }

    /// TLS certificate material.
    pub fn ssl(self, ssl: &str) -> (r: Self)
        ensures
            r.ssl matches Some(t) && t@ == ssl@,
            r == (EnvInitBuilder { ssl: r.ssl, ..self }),
    {
        EnvInitBuilder { ssl: Some(ssl.to_owned()), ..self }
    }

    /// Passphrase of the TLS material.
    pub fn ssl_pwd(self, ssl_pwd: &str) -> (r: Self)
        ensures
            r.ssl_pwd matches Some(t) && t@ == ssl_pwd@,
            r == (EnvInitBuilder { ssl_pwd: r.ssl_pwd, ..self }),
    {
        EnvInitBuilder { ssl_pwd: Some(ssl_pwd.to_owned()), ..self }
    }

    /// Assemble the settings exactly as collected.
    pub fn build(self) -> (r: EnvConfig)
        ensures
            r.thread_num == self.thread_num,
            r.log_level == self.log_level,
            r.log_mask == self.log_mask,
            r.log_file_path == self.log_file_path,
            r.log_file_days == self.log_file_days,
            r.ini == self.ini,
            r.ini_is_path == self.ini_is_path,
            r.ssl == self.ssl,
            r.ssl_is_path == self.ssl_is_path,
            r.ssl_pwd == self.ssl_pwd,
    {
        EnvConfig {
            thread_num: self.thread_num,
            log_level: self.log_level,
            log_mask: self.log_mask,
            log_file_path: self.log_file_path,
            log_file_days: self.log_file_days,
            ini: self.ini,
            ini_is_path: self.ini_is_path,
            ssl: self.ssl,
            ssl_is_path: self.ssl_is_path,
            ssl_pwd: self.ssl_pwd,
        }
    }
}

impl Default for EnvInitBuilder {
    /// The same neutral defaults as `new`.
    fn default() -> (r: Self)
        ensures
            r.thread_num == 0,
            r.log_level == 0,
            r.log_mask == 0,
            r.log_file_path is None,
            r.log_file_days == 0,
            r.ini is None,
            !r.ini_is_path,
            r.ssl is None,
            !r.ssl_is_path,
            r.ssl_pwd is None,
    {
        EnvInitBuilder::new()
    }
}

} // verus!
