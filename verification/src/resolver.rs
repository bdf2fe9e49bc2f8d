//! The profile-resolution decisions.
//!
//! Resolving a handle is a two-step call chain with graceful degradation:
//! a user-lookup request whose body may carry an internal page identifier,
//! then a user-details request by the numeric id taken from it. The
//! requests and the response parsing live at the edge; this module holds
//! the decisions between them. A transport error, a non-success status or
//! a missing page identifier all end in *absent*, never in a fatal error.

use vstd::prelude::*;

verus! {

/// `s` with every copy of the prefix `p` removed from its front.
pub open spec fn strip_prefix_all_spec(s: Seq<char>, p: Seq<char>) -> Seq<char>
    decreases s.len(),
{
    if p.len() > 0 && s.len() >= p.len() && s.take(p.len() as int) == p {
        strip_prefix_all_spec(s.skip(p.len() as int), p)
    } else {
        s
    }
}

/// Whether `s` starts with `p` at character `i`.
fn has_prefix_at(s: &str, p: &str, i: usize) -> (r: bool)
    requires
        i <= s@.len(),
    ensures
        r == (s@.len() - i >= p@.len() && s@.subrange(i as int, i + p@.len()) == p@),
{
    let slen = s.unicode_len();
    let plen = p.unicode_len();
    if slen - i < plen {
        return false;
    }
    let mut j: usize = 0;
    while j < plen
        invariant
            slen == s@.len(),
            plen == p@.len(),
            i + plen <= slen,
            j <= plen,
            forall|k: int| 0 <= k < j ==> s@[i + k] == p@[k],
        decreases plen - j,
    {
        if s.get_char(i + j) != p.get_char(j) {
            proof {
                assert(s@.subrange(i as int, i + p@.len())[j as int] != p@[j as int]);
            }
            return false;
        }
        j += 1;
    }
    proof {
        assert(s@.subrange(i as int, i + p@.len()) =~= p@);
    }
    true
}

/// Strip every leading copy of `prefix` from `s`, as stripping a known
/// literal prefix from an identifier does.
pub fn strip_prefix_all(s: &str, prefix: &str) -> (r: String)
    ensures
        r@ == strip_prefix_all_spec(s@, prefix@),
{
    let slen = s.unicode_len();
    let plen = prefix.unicode_len();
    let mut i: usize = 0;
    if plen == 0 {
        return s.to_owned();
    }
    proof {
        assert(s@.skip(0) == s@);
    }
    while has_prefix_at(s, prefix, i)
        invariant
            slen == s@.len(),
            plen == prefix@.len(),
            plen > 0,
            i <= slen,
            strip_prefix_all_spec(s@, prefix@) == strip_prefix_all_spec(
                s@.skip(i as int),
                prefix@,
            ),
        decreases slen - i,
    {
        proof {
            assert(s@.skip(i as int).take(plen as int) =~= s@.subrange(i as int, i + plen));
            assert(s@.skip(i as int).skip(plen as int) =~= s@.skip(i + plen));
        }
        i += plen;
    }
    proof {
        let rest = s@.skip(i as int);
        if rest.len() >= plen {
            assert(rest.take(plen as int) =~= s@.subrange(i as int, i + plen));
        }
        assert(strip_prefix_all_spec(rest, prefix@) == rest);
    }
    let rest = s.substring_char(i, slen);
    rest.to_owned()
}

/// The literal prefix carried by the page identifier of a real account.
pub open spec fn page_prefix() -> Seq<char> {
    "profilePage_"@
}

/// What the resolver does after the first, user-lookup response.
#[derive(Debug, Clone)]
pub enum ResolveStep {
    /// The handle resolves to a real account: fetch its details by this id.
    FetchDetails { user_id: String },
    /// The handle does not resolve to a real account.
    Absent,
}

/// Decide the resolver's second step from the first response: only a
/// successful response whose body carried the internal page identifier
/// leads on to the details call, by the id left when the known literal
/// prefix is stripped; anything else — a failed request, a non-success
/// status, or a body without the identifier — ends in *absent*.
pub fn lookup_user_step(status_success: bool, logging_page_id: Option<&str>) -> (step: ResolveStep)
    ensures
        (match logging_page_id {
            Some(pid) => status_success ==> (step matches ResolveStep::FetchDetails { user_id }
                && user_id@ == strip_prefix_all_spec(pid@, page_prefix())),
            None => step is Absent,
        }),
        !(status_success && logging_page_id is Some) ==> step is Absent,
{
    if !status_success {
        return ResolveStep::Absent;
    }
    match logging_page_id {
        Some(pid) => {
            let user_id = strip_prefix_all(pid, "profilePage_");
            ResolveStep::FetchDetails { user_id }
        },
        None => ResolveStep::Absent,
    }
}

} // verus!
