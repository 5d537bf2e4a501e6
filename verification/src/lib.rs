//! Verified core of `deport`: stable `.localhost` names for local dev servers.
use vstd::prelude::*;

pub mod certs;
pub mod cli_utils;
pub mod commands;
pub mod daemon;
pub mod ipc;
pub mod launcher;
pub mod process_man;
pub mod proxy;
pub mod routes;
pub mod styled;
pub mod text;
pub mod trust_ca;

verus! {

/// The bare argument handler: it reads the command word, the second
/// argument (the first is the program name).
pub fn handle_command(args: &[String])
    requires
        args@.len() >= 2,
{
    let _cmd = &args[1];
}

} // verus!
