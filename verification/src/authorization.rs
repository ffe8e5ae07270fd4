//! Bearer tokens: reading the header and deciding on the decoded claims.
use vstd::prelude::*;
use crate::error::CustomError;
use crate::modelsext::Claims;
use crate::text::{has_prefix, i32_text, parse_i32, replace_all, replace_all_str, trimmed, trim_str};

verus! {

/// A bearer token's claims.
pub struct JWT(pub Claims);

/// How decoding a token failed, as far as the checks here tell failures
/// apart.
#[derive(Debug, Clone, Copy, PartialEq, Eq, Structural)]
pub enum TokenFailure {
    /// The token's expiry time has passed.
    ExpiredSignature,
    /// Any other failure: a bad signature, a malformed token, an unmet
    /// claim.
    Other,
}

/// The scheme word that opens a bearer `Authorization` header.
pub open spec fn bearer_prefix() -> Seq<char> {
    "Bearer "@
}

/// The token of an `Authorization` header: where the header starts with
/// `Bearer `, the header with every `Bearer ` in it removed.
pub open spec fn bearer_token(header: Option<Seq<char>>) -> Option<Seq<char>> {
    match header {
        Some(v) => if has_prefix(v, bearer_prefix()) {
            Some(replace_all(v, bearer_prefix(), Seq::empty()))
        } else {
            None
        },
        None => None,
    }
}

/// Reads the token of an `Authorization` header (its text, where it has
/// one): the header must start with `Bearer `; every `Bearer ` in it is then
/// removed, as `str::replace` does.
pub fn extract_bearer_token(header_value: Option<&str>) -> (res: Option<String>)
    ensures
        res is Some <==> bearer_token(
            match header_value {
                Some(v) => Some(v@),
                None => None,
            },
        ) is Some,
        res matches Some(t) ==> Some(t@) == bearer_token(
            match header_value {
                Some(v) => Some(v@),
                None => None,
            },
        ),
{
    match header_value {
        Some(val) => {
            let prefix = "Bearer ";
            proof {
                reveal_strlit("Bearer ");
                reveal_strlit("");
                assert(""@ == Seq::<char>::empty());
            }
            let n = val.unicode_len();
            if n >= 7 && crate::text::str_equals(val.substring_char(0, 7), prefix) {
                proof {
                    assert(val@.subrange(0, 7) == bearer_prefix());
                }
                Some(replace_all_str(val, prefix, ""))
            } else {
                proof {
                    if has_prefix(val@, bearer_prefix()) {
                        assert(val@.subrange(0, 7) == bearer_prefix());
                    }
                }
                None
            }
        },
        None => None,
    }
}

fn not_authorized() -> (res: CustomError)
    ensures
        res.error_status_code == 401,
        res.error_message@ == "Not authorizated"@,
{
    CustomError::new(401, String::from_str("Not authorizated"))
}

/// What `validate_token` answers for the outcome of decoding a token at the
/// clock reading `now`: the claims where their expiry lies after `now`.
pub open spec fn token_outcome(decoded: Result<Claims, TokenFailure>, now: int) -> Result<
    Claims,
    (int, Seq<char>),
> {
    match decoded {
        Ok(claims) => if claims.exp <= now {
            Err((401, "Not authorizated"@))
        } else {
            Ok(claims)
        },
        Err(TokenFailure::ExpiredSignature) => Err((401, "Not authorizated"@)),
        Err(TokenFailure::Other) => Err((500, "Internal Server Error"@)),
    }
}

/// The decisions of `validate_token` on a decoded token: claims whose expiry
/// is not after `now` are refused (401), as is an expired signature; any
/// other decoding failure is a 500 error.
pub fn validate_token(decoded: Result<Claims, TokenFailure>, now: usize) -> (res: Result<
    Claims,
    CustomError,
>)
    ensures
        match token_outcome(decoded, now as int) {
            Ok(c) => (res matches Ok(r) && r == c),
            Err((code, msg)) => (res matches Err(e) && e.error_status_code == code
                && e.error_message@ == msg),
        },
{
    match decoded {
        Ok(claims) => {
            if claims.exp <= now {
                Err(not_authorized())
            } else {
                Ok(claims)
            }
        },
        Err(TokenFailure::ExpiredSignature) => Err(not_authorized()),
        Err(TokenFailure::Other) => Err(CustomError::new(500, String::from_str("Internal Server Error"))),
    }
}

/// The business a token names: its subject, trimmed, as an `i32`; `None`
/// where the subject is no such number.
pub fn business_id(sub: &str) -> (res: Option<i32>)
    ensures
        res is Some <==> i32_text(trimmed(sub@)) is Some,
        res matches Some(v) ==> v as int == i32_text(trimmed(sub@))->0,
{
    parse_i32(trim_str(sub))
}

/// The last decision of `verificate_token` on validated claims at the clock
/// reading `now`: claims whose expiry is not after `now` are refused (401);
/// otherwise the business the subject names (`None` where the subject is no
/// number, where the service stops with "error business id!").
pub fn claims_business_id(claims: &Claims, now: usize) -> (res: Result<Option<i32>, CustomError>)
    ensures
        claims.exp <= now ==> (res matches Err(e) && e.error_status_code == 401
            && e.error_message@ == "Not authorizated"@),
        claims.exp > now ==> (res matches Ok(b) && (b is Some <==> i32_text(
            trimmed(claims.sub@),
        ) is Some) && (b matches Some(v) ==> v as int == i32_text(trimmed(claims.sub@))->0)),
{
    if claims.exp <= now {
        Err(not_authorized())
    } else {
        Ok(business_id(claims.sub.as_str()))
    }
}

/// A header that starts with `Bearer ` followed by a token in which `Bearer `
/// does not occur yields exactly that token.
pub proof fn lemma_bearer_token_of_header(token: Seq<char>)
    requires
        !crate::text::occurs_in(bearer_prefix(), token),
    ensures
        bearer_token(Some(bearer_prefix() + token)) == Some(token),
{
    let h = bearer_prefix() + token;
    reveal_strlit("Bearer ");
    assert(h.subrange(0, 7) == bearer_prefix());
    assert(has_prefix(h, bearer_prefix()));
    assert(h.skip(7) == token);
    crate::text::lemma_replace_absent(token, bearer_prefix(), Seq::empty());
    assert(replace_all(h, bearer_prefix(), Seq::empty()) == Seq::<char>::empty() + token);
}

/// Every token that `validate_token` accepts expires after the clock reading
/// at which it was checked.
pub proof fn lemma_accepted_token_not_expired(decoded: Result<Claims, TokenFailure>, now: int)
    requires
        token_outcome(decoded, now) is Ok,
    ensures
        token_outcome(decoded, now)->Ok_0.exp > now,
{
}

} // verus!
