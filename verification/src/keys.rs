//! Discovery of conventional ssh key files. The library fixes the candidate
//! list and its priority order and selects the candidates that exist; the
//! caller answers, per candidate, whether the path (relative to the user's
//! home directory) is a regular file.

use vstd::prelude::*;
use vstd::string::StringExecFns;

verus! {

/// The conventional key file paths tried, in priority order, relative to the
/// user's home directory: a security-key-backed key, the modern default key,
/// the legacy key.
pub open spec fn ssh_key_candidates_spec() -> Seq<Seq<char>> {
    seq![".ssh/id_ed25519_sk"@, ".ssh/id_ed25519"@, ".ssh/id_rsa"@]
}

/// The subsequence of candidates whose path exists, priority order kept.
pub open spec fn selected_keys(cands: Seq<Seq<char>>, present: Seq<bool>) -> Seq<Seq<char>>
    recommends
        cands.len() == present.len(),
    decreases cands.len(),
{
    if cands.len() == 0 {
        Seq::empty()
    } else {
        let rest = selected_keys(cands.drop_last(), present.drop_last());
        if present.last() {
            rest.push(cands.last())
        } else {
            rest
        }
    }
}

/// The candidate key paths, in priority order.
pub fn ssh_key_candidates() -> (r: Vec<String>)
    ensures
        r.deep_view() == ssh_key_candidates_spec(),
{
    let mut v: Vec<String> = Vec::new();
    v.push(".ssh/id_ed25519_sk".to_owned());
    v.push(".ssh/id_ed25519".to_owned());
    v.push(".ssh/id_rsa".to_owned());
    proof {
        assert(v.deep_view() =~= ssh_key_candidates_spec());
    }
    v
}

/// The key paths that exist, in the fixed priority order. `present[i]` is
/// the caller's answer to whether candidate `i` is a regular file; the
/// username plays no part in the lookup and is kept for interface symmetry.
pub fn get_ssh_keys(_username: &str, present: &Vec<bool>) -> (keys: Vec<String>)
    requires
        present@.len() == 3,
    ensures
        keys.deep_view() == selected_keys(ssh_key_candidates_spec(), present@),
{
    let mut keys: Vec<String> = Vec::new();
    if present[0] {
        keys.push(".ssh/id_ed25519_sk".to_owned());
    }
    if present[1] {
        keys.push(".ssh/id_ed25519".to_owned());
    }
    if present[2] {
        keys.push(".ssh/id_rsa".to_owned());
    }
    proof {
        reveal_with_fuel(selected_keys, 4);
        let c = ssh_key_candidates_spec();
        let p = present@;
        assert(c.drop_last() =~= seq![".ssh/id_ed25519_sk"@, ".ssh/id_ed25519"@]);
        assert(c.drop_last().drop_last() =~= seq![".ssh/id_ed25519_sk"@]);
        assert(c.drop_last().drop_last().drop_last() =~= Seq::<Seq<char>>::empty());
        assert(p.drop_last().drop_last().drop_last() =~= Seq::<bool>::empty());
        assert(keys.deep_view() =~= selected_keys(c, p));
    }
    keys
}

} // verus!
