//! Environment forwarding: only variables on an allow-list reach a started
//! session. Entries are `KEY=VALUE` strings.
use crate::machine::SessionStartSpec;
use vstd::prelude::*;

verus! {

/// Index of the first `=` at or after `i`, or the length if there is none.
pub open spec fn key_end_from(e: Seq<char>, i: int) -> int
    decreases e.len() - i,
{
    if i >= e.len() {
        e.len() as int
    } else if e[i] == '=' {
        i
    } else {
        key_end_from(e, i + 1)
    }
}

proof fn lemma_key_end_bounds(e: Seq<char>, i: int)
    requires
        0 <= i <= e.len(),
    ensures
        i <= key_end_from(e, i) <= e.len(),
    decreases e.len() - i,
{
    if i < e.len() && e[i] != '=' {
        lemma_key_end_bounds(e, i + 1);
    }
}

/// The variable name of an entry: everything before the first `=`.
pub open spec fn spec_env_key(e: Seq<char>) -> Seq<char> {
    e.subrange(0, key_end_from(e, 0))
}

/// Whether `key` is one of the names in `allow`.
pub open spec fn spec_allowed(allow: Seq<String>, key: Seq<char>) -> bool {
    exists|j: int| 0 <= j < allow.len() && #[trigger] allow[j]@ == key
}

/// The entries of `env` whose name is allowed, in their order.
pub open spec fn spec_forwarded(allow: Seq<String>, env: Seq<String>) -> Seq<String>
    decreases env.len(),
{
    if env.len() == 0 {
        Seq::empty()
    } else {
        let rest = spec_forwarded(allow, env.drop_last());
        if spec_allowed(allow, spec_env_key(env.last()@)) {
            rest.push(env.last())
        } else {
            rest
        }
    }
}

/// The variable name of a `KEY=VALUE` entry.
pub fn env_key(entry: &String) -> (r: String)
    ensures
        r@ == spec_env_key(entry@),
{
    let s = entry.as_str();
    let n = s.unicode_len();
    let mut i: usize = 0;
    proof {
        lemma_key_end_bounds(entry@, 0);
    }
    while i < n && s.get_char(i) != '='
        invariant
            i <= n,
            n == entry@.len(),
            s@ == entry@,
            key_end_from(entry@, 0) == key_end_from(entry@, i as int),
        decreases n - i,
    {
        i = i + 1;
    }
    String::from_str(s.substring_char(0, i))
}

/// Whether `key` is on the allow-list.
pub fn is_allowed(allow: &Vec<String>, key: &String) -> (r: bool)
    ensures
        r == spec_allowed(allow@, key@),
{
    let mut j: usize = 0;
    while j < allow.len()
        invariant
            j <= allow@.len(),
            forall|k: int| 0 <= k < j ==> #[trigger] allow@[k]@ != key@,
        decreases allow@.len() - j,
    {
        if allow[j] == *key {
            return true;
        }
        j = j + 1;
    }
    false
}

/// Keeps the entries of `env` whose variable name is on `allow`, in order.
pub fn forward_environment(allow: &Vec<String>, env: &Vec<String>) -> (r: Vec<String>)
    ensures
        r@ == spec_forwarded(allow@, env@),
{
    let mut out: Vec<String> = Vec::new();
    let mut i: usize = 0;
    while i < env.len()
        invariant
            i <= env@.len(),
            out@ == spec_forwarded(allow@, env@.subrange(0, i as int)),
        decreases env@.len() - i,
    {
        let key = env_key(&env[i]);
        let keep = is_allowed(allow, &key);
        proof {
            let next = env@.subrange(0, i + 1);
            assert(next.drop_last() =~= env@.subrange(0, i as int));
            assert(next.last() == env@[i as int]);
        }
        if keep {
            out.push(env[i].clone());
        }
        i = i + 1;
    }
    assert(env@.subrange(0, env@.len() as int) =~= env@);
    out
}

/// The command a session runs: the configured one when it has at least one
/// word, else the user's shell alone.
pub fn resolve_command(configured: Option<Vec<String>>, shell: String) -> (r: Vec<String>)
    ensures
        r@ == (if configured is Some && configured->0@.len() > 0 {
            configured->0@
        } else {
            seq![shell]
        }),
{
    match configured {
        Some(c) if c.len() > 0 => c,
        _ => vec![shell],
    }
}

/// The start spec of a session: the command, and the host environment cut
/// down to the allow-list.
pub fn session_start_spec(command: Vec<String>, allow: &Vec<String>, host_env: &Vec<String>) -> (r: SessionStartSpec)
    ensures
        r.command == command,
        r.environment@ == spec_forwarded(allow@, host_env@),
{
    SessionStartSpec { command, environment: forward_environment(allow, host_env) }
}

} // verus!
