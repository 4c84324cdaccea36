//! Request identity resolver: extract the bearer token from a raw
//! Authorization header value — exact `"Bearer "` prefix, surrounding
//! whitespace trimmed — and resolve it to an identity. A missing or
//! malformed header and an unresolvable token are kept apart only for
//! diagnostics; both must be rejected identically at the boundary.

use vstd::prelude::*;
use crate::errors::AuthError;
use crate::model::User;
use crate::session::resolve;
use crate::store::{active_token_owner, has_active_token, IdentityStore};
use crate::text::is_space;

verus! {

/// The exact prefix a credentialed header starts with: case-sensitive,
/// one space.
pub open spec fn bearer_prefix() -> Seq<char> {
    seq!['B', 'e', 'a', 'r', 'e', 'r', ' ']
}

/// `s` without leading whitespace.
pub open spec fn trim_front(s: Seq<char>) -> Seq<char>
    decreases s.len(),
{
    if s.len() > 0 && is_space(s[0]) {
        trim_front(s.drop_first())
    } else {
        s
    }
}

/// `s` without trailing whitespace.
pub open spec fn trim_back(s: Seq<char>) -> Seq<char>
    decreases s.len(),
{
    if s.len() > 0 && is_space(s.last()) {
        trim_back(s.drop_last())
    } else {
        s
    }
}

/// `s` without surrounding whitespace.
pub open spec fn trimmed(s: Seq<char>) -> Seq<char> {
    trim_back(trim_front(s))
}

/// The token carried by a header value: present exactly when the value
/// starts with `"Bearer "`, and then the remainder with surrounding
/// whitespace trimmed.
pub open spec fn bearer_token(header: Seq<char>) -> Option<Seq<char>> {
    if header.len() >= 7 && header.take(7) == bearer_prefix() {
        Some(trimmed(header.skip(7)))
    } else {
        None
    }
}

proof fn lemma_trim_front_skip(s: Seq<char>, k: int)
    requires
        0 <= k <= s.len(),
        forall|j: int| 0 <= j < k ==> is_space(#[trigger] s[j]),
        k == s.len() || !is_space(s[k]),
    ensures
        trim_front(s) == s.skip(k),
    decreases k,
{
    if k == 0 {
        assert(s.skip(0) =~= s);
    } else {
        let d = s.drop_first();
        assert(is_space(s[0]));
        lemma_trim_front_skip(d, k - 1);
        assert(d.skip(k - 1) =~= s.skip(k));
    }
}

proof fn lemma_trim_back_take(s: Seq<char>, k: int)
    requires
        0 <= k <= s.len(),
        forall|j: int| k <= j < s.len() ==> is_space(#[trigger] s[j]),
        k == 0 || !is_space(s[k - 1]),
    ensures
        trim_back(s) == s.take(k),
    decreases s.len(),
{
    if k == s.len() {
        assert(s.take(k) =~= s);
    } else {
        assert(is_space(s.last()));
        let d = s.drop_last();
        lemma_trim_back_take(d, k);
        assert(d.take(k) =~= s.take(k));
    }
}

fn is_space_char(c: char) -> (r: bool)
    ensures
        r == is_space(c),
{
    c == '\t' || c == '\n' || c == '\u{000B}' || c == '\u{000C}' || c == '\r' || c == ' '
        || c == '\u{0085}' || c == '\u{00A0}' || c == '\u{1680}' || (c as u32 >= '\u{2000}' as u32
        && c as u32 <= '\u{200A}' as u32) || c == '\u{2028}' || c == '\u{2029}' || c == '\u{202F}'
        || c == '\u{205F}' || c == '\u{3000}'
}

/// Extract the bearer token from an Authorization header value: the value
/// must start with the exact, case-sensitive `"Bearer "` prefix, and the
/// remainder is returned with surrounding whitespace trimmed.
pub fn extract_token_from_header(auth_header: &str) -> (r: Option<String>)
    ensures
        match r {
            Some(t) => bearer_token(auth_header@) == Some(t@),
            None => bearer_token(auth_header@) is None,
        },
{
    let n = auth_header.unicode_len();
    if n < 7 {
        return None;
    }
    let prefix_ok = auth_header.get_char(0) == 'B' && auth_header.get_char(1) == 'e'
        && auth_header.get_char(2) == 'a' && auth_header.get_char(3) == 'r'
        && auth_header.get_char(4) == 'e' && auth_header.get_char(5) == 'r'
        && auth_header.get_char(6) == ' ';
    if !prefix_ok {
        proof {
            let s = auth_header@;
            if s.take(7) == bearer_prefix() {
                assert(s.take(7)[0] == 'B' && s.take(7)[1] == 'e' && s.take(7)[2] == 'a'
                    && s.take(7)[3] == 'r' && s.take(7)[4] == 'e' && s.take(7)[5] == 'r'
                    && s.take(7)[6] == ' ');
            }
        }
        return None;
    }
    proof {
        assert(auth_header@.take(7) =~= bearer_prefix());
    }
    let mut lo: usize = 7;
    while lo < n && is_space_char(auth_header.get_char(lo))
        invariant
            7 <= lo <= n,
            n == auth_header@.len(),
            forall|j: int| 7 <= j < lo ==> is_space(#[trigger] auth_header@[j]),
        decreases n - lo,
    {
        lo += 1;
    }
    let mut hi: usize = n;
    while hi > lo && is_space_char(auth_header.get_char(hi - 1))
        invariant
            lo <= hi <= n,
            n == auth_header@.len(),
            forall|j: int| hi <= j < n ==> is_space(#[trigger] auth_header@[j]),
        decreases hi,
    {
        hi -= 1;
    }
    let body = auth_header.substring_char(lo, hi);
    let t = String::from_str(body);
    proof {
        let s = auth_header@;
        let rest = s.skip(7);
        assert forall|j: int| 0 <= j < lo - 7 implies is_space(#[trigger] rest[j]) by {
            assert(rest[j] == s[j + 7]);
        }
        assert(lo - 7 == rest.len() || !is_space(rest[lo - 7]));
        lemma_trim_front_skip(rest, lo - 7);
        let mid = rest.skip(lo - 7);
        assert forall|j: int| hi - lo <= j < mid.len() implies is_space(#[trigger] mid[j]) by {
            assert(mid[j] == s[j + lo]);
        }
        assert(hi - lo == 0 || !is_space(mid[hi - lo - 1]));
        lemma_trim_back_take(mid, hi - lo);
        assert(mid.take(hi - lo) =~= s.subrange(lo as int, hi as int));
        assert(bearer_token(s) == Some(t@));
    }
    Some(t)
}

/// What a raw inbound header resolves to: no credential at all, a
/// credential that resolves to nothing, or an identity.
pub enum RequestIdentity {
    /// Header absent or not of the `"Bearer "` shape.
    NoCredential,
    /// Header well-formed but its token matches no active record.
    InvalidCredential,
    /// A resolved, authenticated user.
    Identity(User),
}

/// Resolve a raw header value (or its absence) to a request identity,
/// recording the token's use on success.
pub fn resolve_request(store: &mut IdentityStore, header: Option<&str>) -> (r: RequestIdentity)
    requires
        old(store).wf(),
    ensures
        final(store).wf(),
        header is None ==> r is NoCredential && *final(store) == *old(store),
        header matches Some(h) ==> match bearer_token(h@) {
            None => r is NoCredential && *final(store) == *old(store),
            Some(t) => {
                &&& (r is Identity <==> has_active_token(old(store).tokens@, t))
                &&& (r matches RequestIdentity::Identity(u) ==> active_token_owner(
                    old(store).tokens@,
                    t,
                    u.id,
                ) && old(store).users@.contains(u))
                &&& (r is InvalidCredential <==> !has_active_token(old(store).tokens@, t))
                &&& final(store).users@ == old(store).users@
                &&& forall|s: Seq<char>|
                    #[trigger] has_active_token(final(store).tokens@, s) == has_active_token(
                        old(store).tokens@,
                        s,
                    )
            },
        },
{
    let h = match header {
        Some(h) => h,
        None => {
            return RequestIdentity::NoCredential;
        },
    };
    let token = match extract_token_from_header(h) {
        Some(t) => t,
        None => {
            return RequestIdentity::NoCredential;
        },
    };
    match resolve(store, token.as_str()) {
        Some(u) => RequestIdentity::Identity(u),
        None => RequestIdentity::InvalidCredential,
    }
}

/// Demand an authenticated identity. The two unauthenticated shapes map
/// to one and the same error value, so the boundary cannot leak which
/// check failed.
pub fn require_identity(r: &RequestIdentity) -> (res: Result<&User, AuthError>)
    ensures
        match *r {
            RequestIdentity::Identity(u) => res matches Ok(v) && *v == u,
            _ => res matches Err(e) && e == AuthError::AuthenticationRequired,
        },
{
    match r {
        RequestIdentity::Identity(u) => Ok(u),
        _ => Err(AuthError::AuthenticationRequired),
    }
}

} // verus!
