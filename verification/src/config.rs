//! The run's data model and its validation: every host entry must name a
//! non-blank hostname, and two entries must not share one `user@host` key
//! unless the caller forces the run.

use vstd::prelude::*;
use vstd::string::StringExecFns;

use crate::dec::dec_spec;
use crate::dec::u64_to_string;

verus! {

/// One remote machine the command will run against.
#[derive(Clone, Debug)]
pub struct Host {
    pub host: String,
    pub user: Option<String>,
    pub port: Option<u16>,
    pub identity_file: Option<String>,
}

/// The whole run: one command, one ordered list of targets.
#[derive(Debug)]
pub struct Config {
    pub command: String,
    pub hosts: Vec<Host>,
}

/// What `str::trim` leaves of a string: the string without its leading and
/// trailing whitespace.
pub uninterp spec fn trim_of(s: Seq<char>) -> Seq<char>;

/// A hostname counts as blank when trimming leaves nothing of it.
pub open spec fn blank(s: Seq<char>) -> bool {
    trim_of(s).len() == 0
}

/// Relies on `str::trim`: it removes leading and trailing whitespace and
/// nothing else; trimming an empty string yields an empty string.
#[verifier::external_body]
fn trim_str(s: &String) -> (r: String)
    ensures
        r@ == trim_of(s@),
        s@.len() == 0 ==> r@.len() == 0,
{
    s.trim().to_owned()
}

/// Tests whether a hostname is blank: nothing is left of it once trimmed.
fn is_blank(s: &String) -> (r: bool)
    ensures
        r == blank(s@),
{
    trim_str(s).as_str().is_empty()
}

/// The key under which a target is known: `user@host` when a user is given,
/// the bare hostname otherwise. The same string is the destination handed to
/// the SSH client.
pub open spec fn key_of(h: Host) -> Seq<char> {
    match h.user {
        Some(u) => u@ + "@"@ + h.host@,
        None => h.host@,
    }
}

/// Builds the `user@host` key of one target.
pub fn host_key(h: &Host) -> (r: String)
    ensures
        r@ == key_of(*h),
{
    match &h.user {
        Some(u) => {
            let mut s = u.clone();
            s.append("@");
            s.append(h.host.as_str());
            proof {
                assert(s@ =~= key_of(*h));
            }
            s
        },
        None => h.host.clone(),
    }
}

/// The entry at `i` repeats the key of an earlier entry.
pub open spec fn dup_at(hosts: Seq<Host>, i: int) -> bool {
    exists|j: int| 0 <= j < i && key_of(hosts[j]) == key_of(hosts[i])
}

/// The entry at `i` is rejected: its hostname is blank, or it repeats an
/// earlier key while duplicates are not forced through.
pub open spec fn entry_bad(hosts: Seq<Host>, force: bool, i: int) -> bool {
    blank(hosts[i].host@) || (!force && dup_at(hosts, i))
}

/// Every entry of the configuration passes validation.
pub open spec fn config_ok(hosts: Seq<Host>, force: bool) -> bool {
    forall|i: int| 0 <= i < hosts.len() ==> !entry_bad(hosts, force, i)
}

/// `i` is the first rejected entry.
pub open spec fn first_bad(hosts: Seq<Host>, force: bool, i: int) -> bool {
    &&& 0 <= i < hosts.len()
    &&& entry_bad(hosts, force, i)
    &&& forall|j: int| 0 <= j < i ==> !entry_bad(hosts, force, j)
}

/// Why a configuration was rejected before any remote work began.
pub enum ValidationError {
    MissingHostname { index: usize },
    DuplicateHost { key: String },
}

/// `e` names the entry at `i`: a missing hostname when that entry is blank,
/// else the duplicate of that entry's key.
pub open spec fn error_matches_at(e: ValidationError, hosts: Seq<Host>, i: int) -> bool {
    if blank(hosts[i].host@) {
        e matches ValidationError::MissingHostname { index } && index as int == i
    } else {
        e matches ValidationError::DuplicateHost { key } && key@ == key_of(hosts[i])
    }
}

/// `e` is exactly the error validation reports: it names the first rejected
/// entry, as a missing hostname when that entry is blank, else as the
/// duplicate of that entry's key.
pub open spec fn error_for(e: ValidationError, hosts: Seq<Host>, force: bool) -> bool {
    exists|i: int| #[trigger] first_bad(hosts, force, i) && error_matches_at(e, hosts, i)
}

/// A reported error rules validation success out: the entry it names is
/// rejected.
pub proof fn lemma_error_for_not_ok(e: ValidationError, hosts: Seq<Host>, force: bool)
    requires
        error_for(e, hosts, force),
    ensures
        !config_ok(hosts, force),
{
    let i = choose|i: int| #[trigger] first_bad(hosts, force, i) && error_matches_at(e, hosts, i);
    assert(entry_bad(hosts, force, i));
}

impl ValidationError {
    /// The message this error prints before the process exits non-zero.
    pub open spec fn message_spec(self) -> Seq<char> {
        match self {
            ValidationError::MissingHostname { index } => "Host entry at index "@ + dec_spec(
                index as nat,
            ) + " is missing a hostname."@,
            ValidationError::DuplicateHost { key } => "Duplicate host entry found: '"@ + key@
                + "'. Use --force to override."@,
        }
    }

    /// Renders the error's message.
    pub fn message(&self) -> (r: String)
        ensures
            r@ == self.message_spec(),
    {
        match self {
            ValidationError::MissingHostname { index } => {
                let mut s = String::from_str("Host entry at index ");
                let n = u64_to_string(*index as u64);
                s.append(n.as_str());
                s.append(" is missing a hostname.");
                proof {
                    assert(s@ =~= self.message_spec());
                }
                s
            },
            ValidationError::DuplicateHost { key } => {
                let mut s = String::from_str("Duplicate host entry found: '");
                s.append(key.as_str());
                s.append("'. Use --force to override.");
                proof {
                    assert(s@ =~= self.message_spec());
                }
                s
            },
        }
    }
}

/// Checks every target in order. Returns `Ok` exactly when no entry is
/// rejected; otherwise reports the first rejected entry, a blank hostname
/// taking precedence over a duplicate key at the same position. With `force`
/// set, duplicate keys are accepted and only blank hostnames reject.
pub fn validate_config(config: &Config, force: bool) -> (r: Result<(), ValidationError>)
    ensures
        r is Ok <==> config_ok(config.hosts@, force),
        match r {
            Ok(_) => config_ok(config.hosts@, force),
            Err(e) => error_for(e, config.hosts@, force),
        },
{
    let ghost hosts = config.hosts@;
    let mut seen: Vec<String> = Vec::new();
    let n = config.hosts.len();
    let mut i: usize = 0;
    while i < n
        invariant
            n == hosts.len(),
            hosts == config.hosts@,
            0 <= i <= n,
            seen@.len() == i,
            forall|j: int| 0 <= j < i ==> #[trigger] seen@[j]@ == key_of(hosts[j]),
            forall|j: int| 0 <= j < i ==> !entry_bad(hosts, force, j),
        decreases n - i,
    {
        let h = &config.hosts[i];
        if is_blank(&h.host) {
            let e = ValidationError::MissingHostname { index: i };
            proof {
                assert(first_bad(hosts, force, i as int));
                assert(error_for(e, hosts, force));
            }
            return Err(e);
        }
        let key = host_key(h);
        let mut dup = false;
        let mut j: usize = 0;
        while j < seen.len()
            invariant
                0 <= j <= seen@.len(),
                seen@.len() == i,
                i <= hosts.len(),
                hosts == config.hosts@,
                key@ == key_of(hosts[i as int]),
                forall|k: int| 0 <= k < i ==> #[trigger] seen@[k]@ == key_of(hosts[k]),
                dup == exists|k: int| 0 <= k < j && #[trigger] seen@[k]@ == key@,
            decreases seen@.len() - j,
        {
            if seen[j] == key {
                dup = true;
            }
            j += 1;
        }
        proof {
            if dup {
                let k = choose|k: int| 0 <= k < i && #[trigger] seen@[k]@ == key@;
                assert(key_of(hosts[k]) == key_of(hosts[i as int]));
                assert(dup_at(hosts, i as int));
            } else {
                assert forall|k: int| 0 <= k < i implies key_of(hosts[k]) != key_of(
                    hosts[i as int],
                ) by {
                    assert(seen@[k]@ == key_of(hosts[k]));
                }
                assert(!dup_at(hosts, i as int));
            }
            assert(dup == dup_at(hosts, i as int));
        }
        if dup && !force {
            let e = ValidationError::DuplicateHost { key };
            proof {
                assert(first_bad(hosts, force, i as int));
                assert(error_for(e, hosts, force));
            }
            return Err(e);
        }
        seen.push(key);
        i += 1;
    }
    Ok(())
}

} // verus!
