//! The command line: whether the server runs as the release build, and on which port.

use vstd::prelude::*;
use crate::text::{push_char, push_decimal, decimal};

verus! {

/// The port of the development server.
pub const DEV_PORT: u16 = 3000;

/// The port of the release server, the one after the development port.
pub const REL_PORT: u16 = DEV_PORT + 1;

/// The command line arguments.
#[derive(Debug, Clone, Copy)]
pub struct Cli {
    /// Serve as the release build.
    pub release: bool,
}

/// The chosen port is already reachable, so the server cannot listen on it.
#[derive(Debug, Clone, Copy, PartialEq, Eq)]
pub struct PortError {
    pub port: u16,
}

/// The message of a port error: the port in backquotes, then ` is invalid port.`
pub open spec fn port_error_message(port: u16) -> Seq<char> {
    seq!['`'] + decimal(port as nat) + seq!['`', ' ', 'i', 's', ' ', 'i', 'n', 'v', 'a', 'l', 'i', 'd',
        ' ', 'p', 'o', 'r', 't', '.']
}

impl Cli {
    /// The port that the server is meant to listen on.
    pub fn candidate_port(&self) -> (port: u16)
        ensures
            port == (if self.release { REL_PORT } else { DEV_PORT }),
    {
        if self.release { REL_PORT } else { DEV_PORT }
    }

    /// The port to listen on, refused when something already answers on it
    /// (`reachable` tells whether the candidate port answers).
    pub fn port(&self, reachable: bool) -> (res: Result<u16, PortError>)
        ensures
            reachable ==> res == Err::<u16, PortError>(
                PortError { port: if self.release { REL_PORT } else { DEV_PORT } },
            ),
            !reachable ==> res == Ok::<u16, PortError>(if self.release { REL_PORT } else { DEV_PORT }),
    {
        let port = self.candidate_port();
        if reachable {
            Err(PortError { port })
        } else {
            Ok(port)
        }
    }
}

impl PortError {
    /// The message shown for the error.
    pub fn message(&self) -> (res: String)
        ensures
            res@ == port_error_message(self.port),
    {
        let mut s = String::new();
        push_char(&mut s, '`');
        push_decimal(&mut s, self.port as u64);
        s.append("` is invalid port.");
        proof {
            reveal_strlit("` is invalid port.");
        }
        assert(s@ =~= port_error_message(self.port));
        s
    }
}

} // verus!
