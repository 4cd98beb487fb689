//! Default session names for delegated sessions.
//!
//! When a hop or a web-identity-token role carries no explicit session name,
//! one is derived from a purpose tag alone, so that identical inputs always
//! name the session identically and the two defaulting sites stay apart.

use vstd::prelude::*;
use vstd::string::StringExecFns;

verus! {

/// The purpose tag of a session name defaulted for a delegation hop.
pub open spec fn spec_hop_session_purpose() -> Seq<char> {
    "assume-role-from-profile"@
}

/// The purpose tag of a session name defaulted for a web-identity-token role.
pub open spec fn spec_web_identity_session_purpose() -> Seq<char> {
    "web-identity-token-profile"@
}

/// The default session name for a purpose: the purpose tag with a fixed
/// suffix, a pure function of the tag.
pub open spec fn spec_default_session_name(purpose: Seq<char>) -> Seq<char> {
    purpose + "-default-session"@
}

/// Derives the default session name for a purpose tag.
pub fn default_session_name(purpose: &str) -> (r: String)
    ensures
        r@ == spec_default_session_name(purpose@),
{
    purpose.to_owned().concat("-default-session")
}

/// The two defaulting sites never collide: a hop defaulted without an
/// explicit session name gets a non-empty name, and it differs from the name
/// a web-identity-token role would get.
pub proof fn lemma_default_session_names_distinct()
    ensures
        spec_default_session_name(spec_hop_session_purpose()).len() > 0,
        spec_default_session_name(spec_hop_session_purpose())
            != spec_default_session_name(spec_web_identity_session_purpose()),
{
    reveal_strlit("assume-role-from-profile");
    reveal_strlit("web-identity-token-profile");
    reveal_strlit("-default-session");
    assert(spec_hop_session_purpose().len() == 24);
    assert(spec_web_identity_session_purpose().len() == 26);
    assert(spec_default_session_name(spec_hop_session_purpose()).len() == 40);
    assert(spec_default_session_name(spec_web_identity_session_purpose()).len() == 42);
}

} // verus!
