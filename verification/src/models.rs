//! Plain data carried through the resolution pipeline.

use vstd::prelude::*;

verus! {

/// The identity being resolved, immutable for the run.
#[derive(Debug, Clone)]
pub struct UserTarget {
    pub name: String,
    pub email: String,
    pub phone: String,
}

/// The profile-picture block of a resolved profile.
#[derive(Debug, Clone)]
pub struct ProfilePic {
    pub url: String,
}

/// A fully resolved profile record. Optional fields absent at the source
/// arrive here as their zero value: empty string, 0, or false.
#[derive(Debug, Clone)]
pub struct UserProfile {
    pub username: String,
    pub full_name: String,
    pub user_id: u64,
    pub is_private: bool,
    pub is_verified: bool,
    pub follower_count: u64,
    pub following_count: u64,
    pub external_url: String,
    pub biography: String,
    pub public_email: String,
    pub public_phone_number: String,
    pub media_count: u64,
    pub hd_profile_pic_url_info: ProfilePic,
}

/// The secondary lookup's answer: obfuscated contact hints, each
/// independently present or absent.
#[derive(Debug)]
pub struct LookupResponse {
    pub message: Option<String>,
    pub obfuscated_email: Option<String>,
    pub obfuscated_phone: Option<String>,
}

impl Default for LookupResponse {
    /// The empty hint: what an unparseable lookup response degrades to.
    fn default() -> (r: Self)
        ensures
            r.message is None,
            r.obfuscated_email is None,
            r.obfuscated_phone is None,
    {
        LookupResponse { message: None, obfuscated_email: None, obfuscated_phone: None }
    }
}

/// The merged contact-detail block of one candidate's outcome: the public
/// fields of the profile (absent when empty at the source) beside the
/// obfuscated hints of the secondary lookup.
#[derive(Debug, Clone)]
pub struct LookupDetails {
    pub public_email: Option<String>,
    pub public_phone: Option<String>,
    pub obfuscated_email: Option<String>,
    pub obfuscated_phone: Option<String>,
}

/// The per-candidate outcome handed to the output sink.
#[derive(Debug, Clone)]
pub struct FinalResult {
    pub username: String,
    pub user_id: u64,
    pub full_name: String,
    pub is_verified: bool,
    pub is_private: bool,
    pub followers: u64,
    pub following: u64,
    pub posts: u64,
    pub bio: String,
    pub external_url: String,
    pub profile_pic: String,
    pub match_score: u8,
    pub details: Option<LookupDetails>,
}

} // verus!
