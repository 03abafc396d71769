//! The request authenticator: what a request is trusted with.
//!
//! There are two tiers. The user name cookie identifies: it can be read and
//! forged, so it only says who the request claims to be. The claims cookie
//! authorizes: it is checked under the signing key. A privileged read needs
//! both, and needs them to name the same user.

use crate::claims::{decode, decoded, Claims, ClaimsView, DecodeError};
use crate::directory::lowercase;
use crate::provider::texts;
use crate::session::SiteConfig;
use vstd::prelude::*;

verus! {

/// Who a request claims to be.
#[derive(Debug, Clone, PartialEq, Eq)]
pub struct Identity {
    pub username: String,
}

/// What the low-trust guard makes of a request.
#[derive(Debug, Clone, PartialEq, Eq)]
pub enum LowTrust {
    /// The request names a user.
    Success(Identity),
    /// The request names nobody; the route decides whether that will do.
    Forward,
}

/// Why a request is not authenticated.
#[derive(Debug, Clone, Copy, PartialEq, Eq, Structural)]
pub enum AuthError {
    /// The request carries no claims.
    Missing,
    /// The claims are malformed or not signed with the site's key.
    Invalid,
    /// The claims have expired.
    Expired,
    /// The claims are another user's than the request names.
    Mismatch,
}

/// The address that a request came from, as a proxy reports it.
#[derive(Debug, Clone, PartialEq, Eq)]
pub struct Cip(pub Option<String>);

/// The view of a text that may be absent.
pub open spec fn borrowed_view(text: Option<&str>) -> Option<Seq<char>> {
    match text {
        Some(t) => Some(t@),
        None => None,
    }
}

/// What the claims cookie of a request is worth under a key at a time.
pub open spec fn trusted(cookie: Option<Seq<char>>, key: Seq<u8>, now: u64) -> Result<
    ClaimsView,
    AuthError,
> {
    match cookie {
        None => Err(AuthError::Missing),
        Some(token) => match decoded(token, key, now) {
            Ok(claims) => Ok(claims),
            Err(DecodeError::Invalid) => Err(AuthError::Invalid),
            Err(DecodeError::Expired) => Err(AuthError::Expired),
        },
    }
}

/// Whether two user names are one, whatever their case.
pub open spec fn same_name(a: Seq<char>, b: Seq<char>) -> bool {
    lowercase(a) == lowercase(b)
}

/// What the two cookies of a request are worth together: the claims, where
/// they are genuine and name the user that the request names.
pub open spec fn authorized(
    username: Option<Seq<char>>,
    cookie: Option<Seq<char>>,
    key: Seq<u8>,
    now: u64,
) -> Result<ClaimsView, AuthError> {
    match trusted(cookie, key, now) {
        Err(e) => Err(e),
        Ok(claims) => match username {
            None => Err(AuthError::Mismatch),
            Some(name) => if same_name(name, claims.username) {
                Ok(claims)
            } else {
                Err(AuthError::Mismatch)
            },
        },
    }
}

/// The view of the answer of a guard.
pub open spec fn guard_view(r: Result<Claims, AuthError>) -> Result<ClaimsView, AuthError> {
    match r {
        Ok(c) => Ok(c@),
        Err(e) => Err(e),
    }
}

/// The texts of a list, one behind the other.
pub open spec fn joined(values: Seq<Seq<char>>) -> Seq<char>
    decreases values.len(),
{
    if values.len() == 0 {
        Seq::empty()
    } else {
        joined(values.drop_last()) + values.last()
    }
}

/// The address that the values of the proxy's header give: none where the
/// header is absent, else its values one behind the other.
pub open spec fn address_of(values: Seq<Seq<char>>) -> Option<Seq<char>> {
    if values.len() == 0 {
        None
    } else {
        Some(joined(values))
    }
}

/// The low-trust guard: a request with a user name cookie is that user's, a
/// request without one is forwarded.
pub fn low_trust(username_cookie: Option<String>) -> (r: LowTrust)
    ensures
        username_cookie matches Some(name) ==> r == LowTrust::Success(Identity { username: name }),
        username_cookie is None ==> r == LowTrust::Forward,
{
    match username_cookie {
        Some(username) => LowTrust::Success(Identity { username }),
        None => LowTrust::Forward,
    }
}

/// The high-trust guard: the claims of a request, where its claims cookie is
/// there, genuine and not expired.
pub fn high_trust(claims_cookie: Option<&str>, site: &SiteConfig, now: u64) -> (r: Result<
    Claims,
    AuthError,
>)
    ensures
        guard_view(r) == trusted(borrowed_view(claims_cookie), site.signing_key@, now),
{
    match claims_cookie {
        None => Err(AuthError::Missing),
        Some(token) => match decode(token, site.signing_key.as_slice(), now) {
            Ok(claims) => Ok(claims),
            Err(DecodeError::Invalid) => Err(AuthError::Invalid),
            Err(DecodeError::Expired) => Err(AuthError::Expired),
        },
    }
}

/// Whether two user names are one, whatever their case.
pub fn names_match(a: &str, b: &str) -> (same: bool)
    ensures
        same == same_name(a@, b@),
{
    a.to_lowercase() == b.to_lowercase()
}

/// Whether the claims are those of the user that the request names.
pub fn same_user(identity: &Identity, claims: &Claims) -> (same: bool)
    ensures
        same == same_name(identity.username@, claims.username@),
{
    names_match(identity.username.as_str(), claims.username.as_str())
}

/// The guard of a privileged read: the claims of a request whose claims
/// cookie is genuine and whose user name cookie names the same user.
pub fn privileged(
    username_cookie: Option<&str>,
    claims_cookie: Option<&str>,
    site: &SiteConfig,
    now: u64,
) -> (r: Result<Claims, AuthError>)
    ensures
        guard_view(r) == authorized(
            borrowed_view(username_cookie),
            borrowed_view(claims_cookie),
            site.signing_key@,
            now,
        ),
{
    match high_trust(claims_cookie, site, now) {
        Err(e) => Err(e),
        Ok(claims) => match username_cookie {
            None => Err(AuthError::Mismatch),
            Some(name) => {
                if names_match(name, claims.username.as_str()) {
                    Ok(claims)
                } else {
                    Err(AuthError::Mismatch)
                }
            },
        },
    }
}

impl Cip {
    /// The address that the values of the `CF-Connecting-IP` header give. A
    /// request without the header has no known address, which is no error.
    pub fn from_header(values: &Vec<String>) -> (cip: Cip)
        ensures
            crate::claims::optional_view(cip.0) == address_of(texts(values@)),
    {
        let n = values.len();
        if n == 0 {
            return Cip(None);
        }
        let mut address = String::new();
        let mut i: usize = 0;
        assert(texts(values@).take(0) =~= Seq::<Seq<char>>::empty());
        while i < n
            invariant
                n == values@.len(),
                i <= n,
                address@ == joined(texts(values@).take(i as int)),
            decreases n - i,
        {
            vstd::string::StringExecFns::append(&mut address, values[i].as_str());
            proof {
                let all = texts(values@);
                assert(all.take(i + 1).drop_last() =~= all.take(i as int));
                assert(all.take(i + 1).last() == values@[i as int]@);
            }
            i = i + 1;
        }
        assert(texts(values@).take(n as int) =~= texts(values@));
        Cip(Some(address))
    }
}

} // verus!
