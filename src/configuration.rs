use crate::error::{Error, ErrorKind};
use crate::text::{parse_usize, usize_of_text};
use vstd::prelude::*;

verus! {

/// The server's settings: the address it listens on, the directory that
/// holds one directory per host, and the largest body it accepts.
#[derive(Clone, Debug)]
pub struct Configuration {
    pub host: String,
    pub root_path: String,
    pub max_upload_size: usize,
}

/// The upload limit that applies when the settings name none.
pub const DEFAULT_MAX_UPLOAD_SIZE: usize = 4096;

pub const BAD_UPLOAD_SIZE: &'static str = "invalid max_upload_size";

impl Default for Configuration {
    fn default() -> (r: Configuration)
        ensures
            r.host@ == "0.0.0.0:300"@,
            r.root_path@ == "./"@,
            r.max_upload_size == 8388608,
    {
        Configuration {
            host: String::from_str("0.0.0.0:300"),
            root_path: String::from_str("./"),
            max_upload_size: 8388608,
        }
    }
}

impl Configuration {
    pub fn new(host: String, root_path: String, max_upload_size: usize) -> (r: Configuration)
        ensures
            r.host == host,
            r.root_path == root_path,
            r.max_upload_size == max_upload_size,
    {
        Configuration { host, root_path, max_upload_size }
    }

    /// Builds the settings from the loaded values, each possibly absent:
    /// absent ones take their defaults, and an upload limit that is not a
    /// decimal `usize` is an error.
    pub fn from_values(host: Option<String>, server_root: Option<String>, max_upload_size: Option<
        String,
    >) -> (r: Result<Configuration, Error>)
        ensures
            r is Err <==> (max_upload_size matches Some(m) && usize_of_text(m@) is None),
            r matches Err(e) ==> e.kind == ErrorKind::Io && e.msg@ == BAD_UPLOAD_SIZE@,
            r matches Ok(c) ==> c.host@ == (match host {
                Some(h) => h@,
                None => "0.0.0.0:300"@,
            }),
            r matches Ok(c) ==> c.root_path@ == (match server_root {
                Some(p) => p@,
                None => "./"@,
            }),
            r matches Ok(c) ==> c.max_upload_size == (match max_upload_size {
                Some(m) => usize_of_text(m@)->Some_0,
                None => DEFAULT_MAX_UPLOAD_SIZE,
            }),
    {
        let size = match max_upload_size {
            Some(m) => match parse_usize(m.as_str()) {
                Some(n) => n,
                None => {
                    return Err(Error::new_io(BAD_UPLOAD_SIZE));
                },
            },
            None => DEFAULT_MAX_UPLOAD_SIZE,
        };
        let host = match host {
            Some(h) => h,
            None => String::from_str("0.0.0.0:300"),
        };
        let root_path = match server_root {
            Some(p) => p,
            None => String::from_str("./"),
        };
        Ok(Configuration { host, root_path, max_upload_size: size })
    }
}

} // verus!
