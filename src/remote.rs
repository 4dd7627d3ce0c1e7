//! The remote shell invocation for one step.

use vstd::prelude::*;
use crate::deploy::HostIdentity;

verus! {

/// A path with a leading `~` resolved against the home directory.
pub open spec fn expanded(path: Seq<char>, home: Seq<char>) -> Seq<char> {
    if path.len() > 0 && path[0] == '~' {
        home + path.subrange(1, path.len() as int)
    } else {
        path
    }
}

/// Replaces a leading `~` of `path` by `home`.
pub fn expand_tilde(path: &str, home: &str) -> (r: String)
    ensures
        r@ == expanded(path@, home@),
{
    let n = path.unicode_len();
    if n > 0 && path.get_char(0) == '~' {
        let mut r = String::from_str(home);
        r.append(path.substring_char(1, n));
        r
    } else {
        String::from_str(path)
    }
}

/// `user@address`, the remote shell's target.
pub open spec fn target_of(host: (Seq<char>, Seq<char>, Seq<char>)) -> Seq<char> {
    host.0 + "@"@ + host.1
}

/// Arguments of the remote shell: the key, no host-key check, the target,
/// then the command as one argument.
pub open spec fn ssh_args_spec(host: (Seq<char>, Seq<char>, Seq<char>), key_path: Seq<char>, command: Seq<char>) -> Seq<Seq<char>> {
    seq!["-i"@, key_path, "-o"@, "StrictHostKeyChecking=no"@, target_of(host), command]
}

/// The arguments of the remote shell that runs `command` on `host`, with
/// the key already resolved to `key_path`.
pub fn ssh_arguments(host: &HostIdentity, key_path: &str, command: &str) -> (r: Vec<String>)
    ensures
        r.deep_view() == ssh_args_spec(host@, key_path@, command@),
{
    let mut target = host.user.clone();
    target.append("@");
    target.append(host.address.as_str());
    let r = vec![
        String::from_str("-i"),
        String::from_str(key_path),
        String::from_str("-o"),
        String::from_str("StrictHostKeyChecking=no"),
        target,
        String::from_str(command),
    ];
    assert(r.deep_view() =~= ssh_args_spec(host@, key_path@, command@));
    r
}

} // verus!
