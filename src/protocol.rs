//! The wire protocol: requests, responses and the messages they carry.

pub mod locator;
pub mod request;
pub mod response;

use vstd::prelude::*;

verus! {

pub const PARSE_ERR: &'static str = "Can't parse request string";

pub const EMPTY_REQ: &'static str = "Empty request";

pub const WRONG_DATA_SIZE: &'static str = "Wrong data size";

pub const NOT_ALLOWED: &'static str = "Not allowed";

pub const NOT_SERVED: &'static str = "Host not served";

pub const UPLOAD_TOO_BIG: &'static str = "Upload too big";

} // verus!
