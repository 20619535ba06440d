//! The client's settings: where the server is and how to sign in.

use vstd::prelude::*;

verus! {

/// Server address and sign-in details.
#[derive(Debug)]
pub struct Config {
    /// Accept a self-signed certificate from the server.
    pub accept_self_signed: bool,
    pub server_url: String,
    pub username: String,
    pub password: String,
    /// Set when the settings were just entered rather than read back.
    pub is_new: bool,
}

impl Default for Config {
    fn default() -> (r: Self)
        ensures
            !r.accept_self_signed,
            r.server_url@ == Seq::<char>::empty(),
            r.username@ == Seq::<char>::empty(),
            r.password@ == Seq::<char>::empty(),
            !r.is_new,
    {
        Config {
            accept_self_signed: false,
            server_url: String::new(),
            username: String::new(),
            password: String::new(),
            is_new: false,
        }
    }
}

} // verus!
