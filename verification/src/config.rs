//! What the service is configured with.

use vstd::prelude::*;
use vstd::utf8::encode_utf8;

verus! {

/// The bucket that the service stands before, and the one pair of name and
/// password that the authorizer knows. It is read once per request and
/// never changed.
pub struct Config {
    pub bucket: String,
    pub username: String,
    pub password: String,
}

impl Config {
    /// The configured user name, as the bytes of its UTF-8 text.
    pub open spec fn user_bytes(&self) -> Seq<u8> {
        encode_utf8(self.username@)
    }

    /// The configured password, as the bytes of its UTF-8 text.
    pub open spec fn pass_bytes(&self) -> Seq<u8> {
        encode_utf8(self.password@)
    }
}

impl Default for Config {
    /// The configuration with three empty texts.
    fn default() -> (c: Config)
        ensures
            c.bucket@.len() == 0,
            c.username@.len() == 0,
            c.password@.len() == 0,
    {
        Config { bucket: String::new(), username: String::new(), password: String::new() }
    }
}

} // verus!
