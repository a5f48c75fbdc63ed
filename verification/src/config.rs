//! The persisted configuration: where the document file lives.  The
//! engine only carries these values; reading and writing the
//! configuration store happens outside the library.

use vstd::prelude::*;

verus! {

/// The user's configuration values.
#[derive(Debug)]
pub struct Config {
    pub file_path: String,
}

impl Config {
    pub fn set_file_path(&mut self, path: String)
        ensures
            final(self).file_path == path,
    {
        self.file_path = path;
    }
}

impl Clone for Config {
    fn clone(&self) -> (r: Self)
        ensures
            r.file_path == self.file_path,
    {
        Self { file_path: self.file_path.clone() }
    }
}

/// Why loading or saving the configuration failed.
#[derive(Debug)]
pub enum ConfigError {
    ConfigNotFound,
    ConfigDirNotFound,
    ReadError(String),
    WriteError(String),
    ParseError(String),
    SerializeError(String),
}

} // verus!
