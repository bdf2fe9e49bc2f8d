//! The per-candidate steps of the resolution pipeline.
//!
//! For each candidate in order: strip the leading marker, run the profile
//! resolution and the contact lookup, skip the candidate when the profile
//! is absent, otherwise merge both signals into the final record, score
//! it, and decide from the emission whether the search goes on. The
//! network calls themselves and the output live at the edge; this module
//! decides what flows between them.

use vstd::prelude::*;

use crate::models::FinalResult;
use crate::models::LookupDetails;
use crate::models::LookupResponse;
use crate::models::UserProfile;

verus! {

/// `s` with every copy of `c` removed from its front.
pub open spec fn strip_leading(s: Seq<char>, c: char) -> Seq<char>
    decreases s.len(),
{
    if s.len() > 0 && s[0] == c {
        strip_leading(s.skip(1), c)
    } else {
        s
    }
}

proof fn lemma_strip_leading_skip(s: Seq<char>, c: char, i: int)
    requires
        0 <= i <= s.len(),
        forall|j: int| 0 <= j < i ==> s[j] == c,
        i < s.len() ==> s[i] != c,
    ensures
        strip_leading(s, c) == s.skip(i),
    decreases i,
{
    if i == 0 {
        assert(s.skip(0) == s);
    } else {
        lemma_strip_leading_skip(s.skip(1), c, i - 1);
        assert(s.skip(1).skip(i - 1) == s.skip(i));
    }
}

/// Strip every leading marker character (`@`) from a candidate handle;
/// handles scraped from a search page may carry one.
pub fn strip_marker(handle: &str) -> (r: String)
    ensures
        r@ == strip_leading(handle@, '@'),
{
    let len = handle.unicode_len();
    let mut i: usize = 0;
    while i < len && handle.get_char(i) == '@'
        invariant
            len == handle@.len(),
            0 <= i <= len,
            forall|j: int| 0 <= j < i ==> handle@[j] == '@',
        decreases len - i,
    {
        i += 1;
    }
    proof {
        lemma_strip_leading_skip(handle@, '@', i as int);
    }
    let rest = handle.substring_char(i, len);
    rest.to_owned()
}

/// The contact-detail block merged from a profile's public fields and the
/// lookup's obfuscated hints. A public field that is empty at the source
/// stands for "missing" and becomes absent here.
pub open spec fn spec_merge_details(p: UserProfile, h: LookupResponse) -> LookupDetails {
    LookupDetails {
        public_email: if p.public_email@.len() == 0 {
            None
        } else {
            Some(p.public_email)
        },
        public_phone: if p.public_phone_number@.len() == 0 {
            None
        } else {
            Some(p.public_phone_number)
        },
        obfuscated_email: h.obfuscated_email,
        obfuscated_phone: h.obfuscated_phone,
    }
}

/// Merge a resolved profile's public contact fields with the lookup's
/// obfuscated hints.
pub fn merge_details(profile: &UserProfile, hint: &LookupResponse) -> (d: LookupDetails)
    ensures
        d == spec_merge_details(*profile, *hint),
{
    let public_email = if profile.public_email.as_str().is_empty() {
        None
    } else {
        Some(profile.public_email.clone())
    };
    let public_phone = if profile.public_phone_number.as_str().is_empty() {
        None
    } else {
        Some(profile.public_phone_number.clone())
    };
    let obfuscated_email = match &hint.obfuscated_email {
        Some(e) => Some(e.clone()),
        None => None,
    };
    let obfuscated_phone = match &hint.obfuscated_phone {
        Some(p) => Some(p.clone()),
        None => None,
    };
    LookupDetails { public_email, public_phone, obfuscated_email, obfuscated_phone }
}

/// The final record of one candidate, before scoring.
pub open spec fn spec_final_result(p: UserProfile, d: LookupDetails) -> FinalResult {
    FinalResult {
        username: p.username,
        user_id: p.user_id,
        full_name: p.full_name,
        is_verified: p.is_verified,
        is_private: p.is_private,
        followers: p.follower_count,
        following: p.following_count,
        posts: p.media_count,
        bio: p.biography,
        external_url: p.external_url,
        profile_pic: p.hd_profile_pic_url_info.url,
        match_score: 0,
        details: Some(d),
    }
}

/// Assemble the final record of one candidate from its resolved profile
/// and its merged contact details.
pub fn build_final_result(profile: &UserProfile, details: LookupDetails) -> (r: FinalResult)
    ensures
        r == spec_final_result(*profile, details),
{
    FinalResult {
        username: profile.username.clone(),
        user_id: profile.user_id,
        full_name: profile.full_name.clone(),
        is_verified: profile.is_verified,
        is_private: profile.is_private,
        followers: profile.follower_count,
        following: profile.following_count,
        posts: profile.media_count,
        bio: profile.biography.clone(),
        external_url: profile.external_url.clone(),
        profile_pic: profile.hd_profile_pic_url_info.url.clone(),
        match_score: 0,
        details: Some(details),
    }
}

/// One candidate's outcome: nothing when the profile resolution came back
/// absent (the contact hint, even a successful one, is then discarded),
/// else the final record holding the merged contact details.
pub fn process_candidate(profile: Option<UserProfile>, hint: &LookupResponse) -> (r: Option<
    FinalResult,
>)
    ensures
        match profile {
            None => r is None,
            Some(p) => r == Some(spec_final_result(p, spec_merge_details(p, *hint))),
        },
{
    match profile {
        Some(p) => {
            let details = merge_details(&p, hint);
            Some(build_final_result(&p, details))
        },
        None => None,
    }
}

} // verus!
