//! The server's configuration: defaults for the flags, and the assembly of
//! flags and environment into one configuration.

use vstd::prelude::*;
use crate::model::{Cfg, Config, Flags};

verus! {

impl Flags {
    /// The flags' values when none is given: port 8080, tokens valid for an
    /// hour, the origin of a local development server, and a development
    /// secret.
    pub fn defaults() -> (f: Flags)
        ensures
            f.port@ == "8080"@,
            f.expiry == 3600,
            f.origin@ == "http://localhost:3000"@,
            f.secret@ == "secret"@,
    {
        Flags {
            port: String::from_str("8080"),
            expiry: 3600,
            origin: String::from_str("http://localhost:3000"),
            secret: String::from_str("secret"),
        }
    }
}

impl Config {
    /// The configuration made of the flags and of the environment's save path.
    pub fn from_parts(flags: Flags, cfg: Cfg) -> (c: Config)
        ensures
            c.port@ == flags.port@,
            c.origin@ == flags.origin@,
            c.secret@ == flags.secret@,
            c.expiry == flags.expiry,
            c.save_path@ == cfg.save_path@,
    {
        Config {
            port: flags.port,
            origin: flags.origin,
            secret: flags.secret,
            save_path: cfg.save_path,
            expiry: flags.expiry,
        }
    }
}

} // verus!
