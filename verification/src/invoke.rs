//! The argument vector handed to the external SSH client: port flag first,
//! then the identity file if one was given, then the destination, then the
//! command itself as the final positional argument.

use vstd::prelude::*;
use vstd::string::StringExecFns;

use crate::config::Host;
use crate::config::host_key;
use crate::config::key_of;
use crate::dec::dec_spec;
use crate::dec::u64_to_string;

verus! {

/// The port a target is reached on: the configured one, or 22 when none was
/// given.
pub open spec fn port_spec(h: Host) -> u16 {
    match h.port {
        Some(p) => p,
        None => 22,
    }
}

/// Resolves the port of one target.
pub fn effective_port(h: &Host) -> (p: u16)
    ensures
        p == port_spec(*h),
{
    match h.port {
        Some(p) => p,
        None => 22,
    }
}

/// The full argument vector for one target: `-p <port>`, then `-i <identity>`
/// if an identity file was given, then the destination (`user@host` or the
/// bare hostname — the same string that keys duplicate detection), then the
/// command.
pub open spec fn ssh_args_spec(h: Host, command: Seq<char>) -> Seq<Seq<char>> {
    let base = seq!["-p"@, dec_spec(port_spec(h) as nat)];
    let with_identity = match h.identity_file {
        Some(id) => base + seq!["-i"@, id@],
        None => base,
    };
    with_identity + seq![key_of(h), command]
}

/// Builds the argument vector for one target, in the fixed order the SSH
/// client expects.
pub fn build_ssh_args(h: &Host, command: &String) -> (args: Vec<String>)
    ensures
        args.deep_view() == ssh_args_spec(*h, command@),
{
    let mut args: Vec<String> = Vec::new();
    args.push(String::from_str("-p"));
    args.push(u64_to_string(effective_port(h) as u64));
    if let Some(id) = &h.identity_file {
        args.push(String::from_str("-i"));
        args.push(id.clone());
    }
    args.push(host_key(h));
    args.push(command.clone());
    proof {
        assert(args.deep_view() =~= ssh_args_spec(*h, command@));
    }
    args
}

} // verus!
