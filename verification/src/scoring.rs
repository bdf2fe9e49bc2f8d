//! Partial-match scoring: the rules that decide how strongly a resolved
//! profile corroborates the target identity.
//!
//! Contact fields coming back from the lookup services are partially
//! redacted (`f***t@domain.com`-style), so exact equality is neither
//! possible nor desired; the rules here compare the stable, unredacted
//! parts of each field.

use vstd::prelude::*;

use crate::models::FinalResult;
use crate::models::LookupDetails;

verus! {

// ---------------------------------------------------------------------------
// Email partial match
// ---------------------------------------------------------------------------

/// How many `@` signs `s` holds.
pub open spec fn at_count(s: Seq<char>) -> nat
    decreases s.len(),
{
    if s.len() == 0 {
        0
    } else {
        at_count(s.drop_last()) + (if s.last() == '@' { 1nat } else { 0nat })
    }
}

/// The position of the `@` sign; meaningful when `at_count(s) == 1`.
pub open spec fn at_pos(s: Seq<char>) -> int {
    choose|i: int| 0 <= i < s.len() && s[i] == '@'
}

/// What stands before the `@` sign.
pub open spec fn local_part(s: Seq<char>) -> Seq<char> {
    s.take(at_pos(s))
}

/// What stands after the `@` sign.
pub open spec fn domain_part(s: Seq<char>) -> Seq<char> {
    s.skip(at_pos(s) + 1)
}

pub open spec fn first_char(s: Seq<char>) -> Option<char> {
    if s.len() > 0 {
        Some(s[0])
    } else {
        None
    }
}

pub open spec fn last_char(s: Seq<char>) -> Option<char> {
    if s.len() > 0 {
        Some(s.last())
    } else {
        None
    }
}

/// The partial-match rule for emails: both strings hold exactly one `@`,
/// their domains are identical, and the local parts agree on their first
/// and on their last character. A string without exactly one `@` (the
/// empty string among them) never matches.
pub open spec fn email_partial_match(a: Seq<char>, b: Seq<char>) -> bool {
    &&& at_count(a) == 1
    &&& at_count(b) == 1
    &&& domain_part(a) == domain_part(b)
    &&& first_char(local_part(a)) == first_char(local_part(b))
    &&& last_char(local_part(a)) == last_char(local_part(b))
}

proof fn lemma_at_count_take_step(s: Seq<char>, i: int)
    requires
        0 <= i < s.len(),
    ensures
        at_count(s.take(i + 1)) == at_count(s.take(i)) + (if s[i] == '@' {
            1nat
        } else {
            0nat
        }),
{
    assert(s.take(i + 1).drop_last() =~= s.take(i));
    assert(s.take(i + 1).last() == s[i]);
}

proof fn lemma_at_count_at_least_one(s: Seq<char>, i: int)
    requires
        0 <= i < s.len(),
        s[i] == '@',
    ensures
        at_count(s) >= 1,
    decreases s.len(),
{
    if i < s.len() - 1 {
        lemma_at_count_at_least_one(s.drop_last(), i);
    }
}

proof fn lemma_at_unique(s: Seq<char>, i: int, j: int)
    requires
        at_count(s) == 1,
        0 <= i < s.len(),
        0 <= j < s.len(),
        s[i] == '@',
        s[j] == '@',
    ensures
        i == j,
    decreases s.len(),
{
    if s.last() == '@' {
        if i < s.len() - 1 {
            lemma_at_count_at_least_one(s.drop_last(), i);
        }
        if j < s.len() - 1 {
            lemma_at_count_at_least_one(s.drop_last(), j);
        }
    } else {
        lemma_at_unique(s.drop_last(), i, j);
    }
}

/// Find the unique `@` sign of `s`, if `s` holds exactly one.
fn find_single_at(s: &str) -> (r: Option<usize>)
    ensures
        match r {
            Some(k) => at_count(s@) == 1 && k < s@.len() && s@[k as int] == '@' && k == at_pos(s@),
            None => at_count(s@) != 1,
        },
{
    let len = s.unicode_len();
    let mut count: usize = 0;
    let mut pos: usize = 0;
    let mut i: usize = 0;
    while i < len
        invariant
            len == s@.len(),
            i <= len,
            count == at_count(s@.take(i as int)),
            count > 0 ==> pos < i && s@[pos as int] == '@',
            count <= i,
        decreases len - i,
    {
        let c = s.get_char(i);
        proof {
            lemma_at_count_take_step(s@, i as int);
        }
        if c == '@' {
            if count == 0 {
                pos = i;
            }
            count += 1;
        }
        i += 1;
    }
    proof {
        assert(s@.take(len as int) =~= s@);
    }
    if count == 1 {
        proof {
            assert((pos as int) < s@.len() && s@[pos as int] == '@');
            assert(0 <= at_pos(s@) < s@.len() && s@[at_pos(s@)] == '@') by {
                assert(exists|k: int| 0 <= k < s@.len() && s@[k] == '@');
            }
            lemma_at_unique(s@, at_pos(s@), pos as int);
        }
        Some(pos)
    } else {
        None
    }
}

/// Character-for-character string equality.
fn str_eq(a: &str, b: &str) -> (r: bool)
    ensures
        r == (a@ == b@),
{
    let alen = a.unicode_len();
    let blen = b.unicode_len();
    if alen != blen {
        return false;
    }
    let mut i: usize = 0;
    while i < alen
        invariant
            alen == a@.len(),
            alen == b@.len(),
            i <= alen,
            forall|j: int| 0 <= j < i ==> a@[j] == b@[j],
        decreases alen - i,
    {
        if a.get_char(i) != b.get_char(i) {
            return false;
        }
        i += 1;
    }
    proof {
        assert(a@ =~= b@);
    }
    true
}

/// Whether `public` and `target` agree under the email partial-match rule:
/// exactly one `@` in each, identical domains, identical first and last
/// characters of the local parts. Redaction in the middle of the local
/// part does not hinder the match.
pub fn check_email(public: &str, target: &str) -> (r: bool)
    ensures
        r == email_partial_match(public@, target@),
{
    let pa = find_single_at(public);
    let pi = match pa {
        Some(k) => k,
        None => {
            return false;
        },
    };
    let ta = find_single_at(target);
    let ti = match ta {
        Some(k) => k,
        None => {
            return false;
        },
    };
    let plen = public.unicode_len();
    let tlen = target.unicode_len();
    let pdom = public.substring_char(pi + 1, plen);
    let tdom = target.substring_char(ti + 1, tlen);
    if !str_eq(pdom, tdom) {
        return false;
    }
    proof {
        assert(pdom@ =~= domain_part(public@));
        assert(tdom@ =~= domain_part(target@));
        assert(local_part(public@) =~= public@.take(pi as int));
        assert(local_part(target@) =~= target@.take(ti as int));
    }
    // First characters of the local parts.
    if pi == 0 || ti == 0 {
        if !(pi == 0 && ti == 0) {
            return false;
        }
        return true;
    }
    if public.get_char(0) != target.get_char(0) {
        return false;
    }
    // Last characters of the local parts.
    if public.get_char(pi - 1) != target.get_char(ti - 1) {
        return false;
    }
    proof {
        assert(local_part(public@).last() == public@[pi - 1]);
        assert(local_part(target@).last() == target@[ti - 1]);
    }
    true
}

// ---------------------------------------------------------------------------
// Laws of the email rule
// ---------------------------------------------------------------------------

/// Two emails (strings with exactly one `@` each) with equal domains whose
/// local parts agree on their first and last characters always match.
pub proof fn lemma_email_match_on_agreement(a: Seq<char>, b: Seq<char>)
    requires
        at_count(a) == 1,
        at_count(b) == 1,
        domain_part(a) == domain_part(b),
        first_char(local_part(a)) == first_char(local_part(b)),
        last_char(local_part(a)) == last_char(local_part(b)),
    ensures
        email_partial_match(a, b),
{
}

/// Two emails with differing domains never match.
pub proof fn lemma_email_mismatch_on_domains(a: Seq<char>, b: Seq<char>)
    requires
        domain_part(a) != domain_part(b),
    ensures
        !email_partial_match(a, b),
{
}

/// The email partial match is symmetric.
pub proof fn lemma_email_match_symmetric(a: Seq<char>, b: Seq<char>)
    ensures
        email_partial_match(a, b) == email_partial_match(b, a),
{
}

// ---------------------------------------------------------------------------
// Phone partial match
// ---------------------------------------------------------------------------

/// A Unicode white-space character: the set that splitting on whitespace
/// splits on.
pub open spec fn is_space(c: char) -> bool {
    let u = c as u32;
    ||| (9 <= u && u <= 13)
    ||| u == 32
    ||| u == 0x85
    ||| u == 0xA0
    ||| u == 0x1680
    ||| (0x2000 <= u && u <= 0x200A)
    ||| u == 0x2028
    ||| u == 0x2029
    ||| u == 0x202F
    ||| u == 0x205F
    ||| u == 0x3000
}

fn char_is_space(c: char) -> (r: bool)
    ensures
        r == is_space(c),
{
    let u = c as u32;
    (9 <= u && u <= 13) || u == 32 || u == 0x85 || u == 0xA0 || u == 0x1680 || (0x2000 <= u && u
        <= 0x200A) || u == 0x2028 || u == 0x2029 || u == 0x202F || u == 0x205F || u == 0x3000
}

/// The maximal run of non-space characters at the front of `s`.
pub open spec fn leading_run(s: Seq<char>) -> Seq<char>
    decreases s.len(),
{
    if s.len() > 0 && !is_space(s[0]) {
        seq![s[0]] + leading_run(s.skip(1))
    } else {
        Seq::empty()
    }
}

/// The first whitespace-delimited token of `s`; empty when `s` holds no
/// non-space character.
pub open spec fn first_token(s: Seq<char>) -> Seq<char>
    decreases s.len(),
{
    if s.len() == 0 {
        Seq::empty()
    } else if is_space(s[0]) {
        first_token(s.skip(1))
    } else {
        leading_run(s)
    }
}

/// Whether `s` holds any non-space character, that is, any token at all.
pub open spec fn has_token(s: Seq<char>) -> bool {
    exists|i: int| 0 <= i < s.len() && !is_space(s[i])
}

/// The last two characters of `s`, or all of `s` when it is shorter.
pub open spec fn last_two(s: Seq<char>) -> Seq<char> {
    if s.len() >= 2 {
        s.skip(s.len() - 2)
    } else {
        s
    }
}

/// The partial-match rule for phones: the first whitespace-delimited token
/// and the last two characters of the candidate must equal the target's
/// first token (the whole target when it holds no token) and the target's
/// last two characters. Either input empty, or an all-whitespace candidate,
/// never matches.
pub open spec fn phone_partial_match(public: Seq<char>, target: Seq<char>) -> bool {
    if public.len() == 0 || target.len() == 0 {
        false
    } else if !has_token(public) {
        false
    } else {
        let target_first = if has_token(target) {
            first_token(target)
        } else {
            target
        };
        first_token(public) == target_first && last_two(public) == last_two(target)
    }
}

proof fn lemma_first_token_skip_spaces(s: Seq<char>, i: int)
    requires
        0 <= i <= s.len(),
        forall|j: int| 0 <= j < i ==> is_space(s[j]),
    ensures
        first_token(s) == first_token(s.skip(i)),
    decreases i,
{
    if i > 0 {
        lemma_first_token_skip_spaces(s.skip(1), i - 1);
        assert(s.skip(1).skip(i - 1) == s.skip(i));
    } else {
        assert(s.skip(0) == s);
    }
}

proof fn lemma_leading_run_is_range(t: Seq<char>, m: int)
    requires
        0 <= m <= t.len(),
        forall|j: int| 0 <= j < m ==> !is_space(t[j]),
        m < t.len() ==> is_space(t[m]),
    ensures
        leading_run(t) == t.take(m),
    decreases m,
{
    if m == 0 {
        assert(t.take(0) =~= Seq::<char>::empty());
    } else {
        lemma_leading_run_is_range(t.skip(1), m - 1);
        assert(seq![t[0]] + t.skip(1).take(m - 1) =~= t.take(m));
    }
}

/// Find the first whitespace-delimited token of `s`, if it has one.
fn first_token_str<'a>(s: &'a str) -> (r: Option<&'a str>)
    ensures
        match r {
            Some(t) => has_token(s@) && t@ == first_token(s@),
            None => !has_token(s@),
        },
{
    let len = s.unicode_len();
    let mut a: usize = 0;
    while a < len && char_is_space(s.get_char(a))
        invariant
            len == s@.len(),
            a <= len,
            forall|j: int| 0 <= j < a ==> is_space(s@[j]),
        decreases len - a,
    {
        a += 1;
    }
    if a == len {
        return None;
    }
    let mut b: usize = a;
    while b < len && !char_is_space(s.get_char(b))
        invariant
            len == s@.len(),
            a <= b <= len,
            forall|j: int| a <= j < b ==> !is_space(s@[j]),
        decreases len - b,
    {
        b += 1;
    }
    let t = s.substring_char(a, b);
    proof {
        lemma_first_token_skip_spaces(s@, a as int);
        lemma_leading_run_is_range(s@.skip(a as int), b - a);
        assert(s@.skip(a as int).take(b - a) =~= s@.subrange(a as int, b as int));
        assert(!is_space(s@[a as int]));
    }
    Some(t)
}

/// The last two characters of `s`, or all of `s` when it is shorter.
fn last_two_str<'a>(s: &'a str) -> (r: &'a str)
    ensures
        r@ == last_two(s@),
{
    let len = s.unicode_len();
    if len >= 2 {
        let t = s.substring_char(len - 2, len);
        proof {
            assert(t@ =~= last_two(s@));
        }
        t
    } else {
        s
    }
}

/// Whether `public` and `target` agree under the phone partial-match rule:
/// equal first whitespace-delimited tokens and equal last two characters.
pub fn check_phone(public: &str, target: &str) -> (r: bool)
    ensures
        r == phone_partial_match(public@, target@),
{
    if public.unicode_len() == 0 || target.unicode_len() == 0 {
        return false;
    }
    let public_first = match first_token_str(public) {
        Some(t) => t,
        None => {
            return false;
        },
    };
    let target_first = match first_token_str(target) {
        Some(t) => t,
        None => target,
    };
    let public_last = last_two_str(public);
    let target_last = last_two_str(target);
    str_eq(public_first, target_first) && str_eq(public_last, target_last)
}

/// The phone partial match fails whenever either input is empty.
pub proof fn lemma_phone_mismatch_on_empty(a: Seq<char>, b: Seq<char>)
    requires
        a.len() == 0 || b.len() == 0,
    ensures
        !phone_partial_match(a, b),
{
}

// ---------------------------------------------------------------------------
// Name match and the merged evidence
// ---------------------------------------------------------------------------

/// The lowercase form of a string.
pub uninterp spec fn lower_of(s: Seq<char>) -> Seq<char>;

/// Relies on str::to_lowercase: the lowercase mapping depends on the
/// characters alone.
#[verifier::external_body]
fn lowercase(s: &str) -> (r: String)
    ensures
        r@ == lower_of(s@),
{
    s.to_lowercase()
}

/// Whether two display names agree, without regard to case.
pub fn check_name(a: &str, b: &str) -> (r: bool)
    ensures
        r == (lower_of(a@) == lower_of(b@)),
{
    let la = lowercase(a);
    let lb = lowercase(b);
    la == lb
}

/// Which of the three identity signals the candidate's data corroborated.
#[derive(Debug, Clone, Copy, PartialEq, Eq, Structural)]
pub struct MatchEvidence {
    pub name_matched: bool,
    pub email_matched: bool,
    pub phone_matched: bool,
}

/// How many signals matched: the candidate's score, 0 to 3.
pub open spec fn flag_count(ev: MatchEvidence) -> int {
    (if ev.name_matched {
        1int
    } else {
        0int
    }) + (if ev.email_matched {
        1int
    } else {
        0int
    }) + (if ev.phone_matched {
        1int
    } else {
        0int
    })
}

/// A present, non-empty contact field that matches the target email.
pub open spec fn opt_email_matches(f: Option<String>, target: Seq<char>) -> bool {
    match f {
        Some(s) => s@.len() > 0 && email_partial_match(s@, target),
        None => false,
    }
}

/// A present, non-empty contact field that matches the target phone.
pub open spec fn opt_phone_matches(f: Option<String>, target: Seq<char>) -> bool {
    match f {
        Some(s) => s@.len() > 0 && phone_partial_match(s@, target),
        None => false,
    }
}

/// The email signal matches when either the public or the obfuscated
/// email form agrees with the target.
pub open spec fn details_email_matched(d: Option<LookupDetails>, target: Seq<char>) -> bool {
    match d {
        Some(d) => opt_email_matches(d.public_email, target) || opt_email_matches(
            d.obfuscated_email,
            target,
        ),
        None => false,
    }
}

/// The phone signal matches when either the public or the obfuscated
/// phone form agrees with the target.
pub open spec fn details_phone_matched(d: Option<LookupDetails>, target: Seq<char>) -> bool {
    match d {
        Some(d) => opt_phone_matches(d.public_phone, target) || opt_phone_matches(
            d.obfuscated_phone,
            target,
        ),
        None => false,
    }
}

/// The evidence a candidate's outcome gives for the target identity.
pub open spec fn spec_evidence(
    r: FinalResult,
    target_name: Seq<char>,
    target_email: Seq<char>,
    target_phone: Seq<char>,
) -> MatchEvidence {
    MatchEvidence {
        name_matched: lower_of(r.full_name@) == lower_of(target_name),
        email_matched: details_email_matched(r.details, target_email),
        phone_matched: details_phone_matched(r.details, target_phone),
    }
}

/// Weigh a candidate's outcome against the target identity. A signal is
/// matched when either its public or its obfuscated form agrees with the
/// target under the partial-match rules; an absent or empty field never
/// matches.
pub fn evaluate_result(
    result: &FinalResult,
    target_name: &str,
    target_email: &str,
    target_phone: &str,
) -> (ev: MatchEvidence)
    ensures
        ev == spec_evidence(*result, target_name@, target_email@, target_phone@),
{
    let name_matched = check_name(result.full_name.as_str(), target_name);
    let mut email_matched = false;
    let mut phone_matched = false;
    match &result.details {
        Some(details) => {
            match &details.public_email {
                Some(e) => {
                    if !e.as_str().is_empty() && check_email(e.as_str(), target_email) {
                        email_matched = true;
                    }
                },
                None => {},
            }
            match &details.obfuscated_email {
                Some(e) => {
                    if !e.as_str().is_empty() && check_email(e.as_str(), target_email) {
                        email_matched = true;
                    }
                },
                None => {},
            }
            match &details.public_phone {
                Some(p) => {
                    if !p.as_str().is_empty() && check_phone(p.as_str(), target_phone) {
                        phone_matched = true;
                    }
                },
                None => {},
            }
            match &details.obfuscated_phone {
                Some(p) => {
                    if !p.as_str().is_empty() && check_phone(p.as_str(), target_phone) {
                        phone_matched = true;
                    }
                },
                None => {},
            }
        },
        None => {},
    }
    MatchEvidence { name_matched, email_matched, phone_matched }
}

// ---------------------------------------------------------------------------
// The confidence tier
// ---------------------------------------------------------------------------

/// The discrete confidence classification of one candidate.
#[derive(Debug, Clone, Copy, PartialEq, Eq, Structural)]
pub enum MatchTier {
    High,
    Medium,
    Low,
    Unranked,
}

/// The tier a flag count earns: three matched signals rank HIGH, two
/// MEDIUM, one LOW, none go unranked.
pub open spec fn spec_tier_of(flags: int) -> MatchTier {
    if flags == 3 {
        MatchTier::High
    } else if flags == 2 {
        MatchTier::Medium
    } else if flags == 1 {
        MatchTier::Low
    } else {
        MatchTier::Unranked
    }
}

/// The candidate's score: how many of the three signals matched.
pub fn match_score(ev: &MatchEvidence) -> (s: u8)
    ensures
        s as int == flag_count(*ev),
        s <= 3,
{
    let mut s: u8 = 0;
    if ev.name_matched {
        s += 1;
    }
    if ev.email_matched {
        s += 1;
    }
    if ev.phone_matched {
        s += 1;
    }
    s
}

/// The confidence tier of a score.
pub fn tier_of(score: u8) -> (t: MatchTier)
    ensures
        t == spec_tier_of(score as int),
{
    if score == 3 {
        MatchTier::High
    } else if score == 2 {
        MatchTier::Medium
    } else if score == 1 {
        MatchTier::Low
    } else {
        MatchTier::Unranked
    }
}

/// Whether a score ends the search: exactly on a full three-signal match.
pub fn stop_search(score: u8) -> (r: bool)
    ensures
        r == (score == 3),
{
    score == 3
}

/// The tier follows the flag count alone: three matched signals give
/// HIGH, two MEDIUM, one LOW, and none leave the candidate unranked; a
/// candidate's flag count never leaves 0 to 3.
pub proof fn lemma_tier_of_flags(ev: MatchEvidence)
    ensures
        0 <= flag_count(ev) <= 3,
        flag_count(ev) == 3 ==> spec_tier_of(flag_count(ev)) == MatchTier::High,
        flag_count(ev) == 2 ==> spec_tier_of(flag_count(ev)) == MatchTier::Medium,
        flag_count(ev) == 1 ==> spec_tier_of(flag_count(ev)) == MatchTier::Low,
        flag_count(ev) == 0 ==> spec_tier_of(flag_count(ev)) == MatchTier::Unranked,
{
}

/// How strongly a tier corroborates, 0 to 3.
pub open spec fn tier_rank(t: MatchTier) -> int {
    match t {
        MatchTier::High => 3,
        MatchTier::Medium => 2,
        MatchTier::Low => 1,
        MatchTier::Unranked => 0,
    }
}

/// The tier is monotonic in the flag count: on the counts a candidate can
/// earn, the tier's rank is the count itself, so more matched signals
/// never rank lower.
pub proof fn lemma_tier_monotonic(f1: int, f2: int)
    requires
        0 <= f1 <= f2 <= 3,
    ensures
        tier_rank(spec_tier_of(f1)) == f1,
        tier_rank(spec_tier_of(f1)) <= tier_rank(spec_tier_of(f2)),
{
}

} // verus!
