use vstd::prelude::*;

use crate::jwt::{expiry_decided, signed_token, verified_claims, verify_jwt};
use vstd::string::StrSliceExecFns;

verus! {

/// Why a request is refused before any handler sees it. The three
/// variants matter for logging alone; every refusal gets the same
/// unauthenticated response, so a client learns nothing more.
#[derive(Clone, Copy, Debug, PartialEq, Eq, Structural)]
pub enum RejectReason {
    MissingCredential,
    MalformedScheme,
    InvalidToken,
}

/// The scheme prefix a bearer credential must carry in the
/// `Authorization` header.
pub open spec fn bearer_prefix() -> Seq<char> {
    seq!['B', 'e', 'a', 'r', 'e', 'r', ' ']
}

/// Holds when the header value names the bearer scheme.
pub open spec fn has_bearer_scheme(h: Seq<char>) -> bool {
    h.len() >= 7 && h.subrange(0, 7) == bearer_prefix()
}

/// Finds the credential: the `Authorization` value must carry the
/// bearer scheme, and what follows the prefix is the token.
///
/// A missing value and a wrong scheme are distinguished for logging;
/// callers collapse both into one unauthenticated response.
pub fn extract_bearer_token(header: Option<&str>) -> (r: Result<String, RejectReason>)
    ensures
        header is None ==> r == Err::<String, RejectReason>(RejectReason::MissingCredential),
        header is Some && !has_bearer_scheme(header->Some_0@) ==> r == Err::<String, RejectReason>(
            RejectReason::MalformedScheme,
        ),
        header is Some && has_bearer_scheme(header->Some_0@) ==> r is Ok,
        header is Some && has_bearer_scheme(header->Some_0@) ==> r->Ok_0@ == header->Some_0@.skip(
            7,
        ),
{
    match header {
        None => Err(RejectReason::MissingCredential),
        Some(h) => {
            let n = h.unicode_len();
            if n < 7 {
                return Err(RejectReason::MalformedScheme);
            }
            let prefix: [char; 7] = ['B', 'e', 'a', 'r', 'e', 'r', ' '];
            let mut i: usize = 0;
            while i < 7
                invariant
                    header == Some(h),
                    0 <= i <= 7,
                    n >= 7,
                    n == h@.len(),
                    prefix@ == bearer_prefix(),
                    forall|j: int| 0 <= j < i ==> h@[j] == bearer_prefix()[j],
                decreases 7 - i,
            {
                if h.get_char(i) != prefix[i] {
                    proof {
                        assert(h@.subrange(0, 7)[i as int] != bearer_prefix()[i as int]);
                    }
                    return Err(RejectReason::MalformedScheme);
                }
                i += 1;
            }
            proof {
                assert(h@.subrange(0, 7) =~= bearer_prefix());
            }
            let token = h.substring_char(7, n);
            proof {
                assert(token@ =~= h@.skip(7));
            }
            Ok(token.to_owned())
        },
    }
}

/// Ties the decision on a bearer credential to one instant of the
/// clock: a token the verifier accepts apart from timing admits the
/// request as its subject while that instant lies before the token's
/// expiry, and is refused from the expiry onward.
pub open spec fn gate_decided(
    token: Seq<char>,
    secret: Seq<char>,
    r: Result<String, RejectReason>,
    now: int,
) -> bool {
    let vc = verified_claims(token, secret);
    &&& -377705116800 <= now <= 253402300799
    &&& ((vc is Some && now >= (vc->Some_0).2) ==> r == Err::<String, RejectReason>(
        RejectReason::InvalidToken,
    ))
    &&& ((vc is Some && now < (vc->Some_0).2) ==> (r matches Ok(p) && p@ == (vc->Some_0).0))
}

/// The whole gate decision for one request: find the bearer credential,
/// verify it under the shared secret, and either hand back the
/// authenticated principal (the token's subject) or turn the request
/// away. Admission is sound — a request is only ever admitted as the
/// subject its token verifies to under this secret, so a forged or
/// altered credential cannot plant a principal; a token the verifier
/// does not accept is turned away; and one instant of the clock
/// accounts for the rest: an accepted token admits the request exactly
/// while that instant lies before its expiry.
pub fn authorize_request(header: Option<&str>, secret: &str) -> (r: Result<String, RejectReason>)
    ensures
        header is None ==> r == Err::<String, RejectReason>(RejectReason::MissingCredential),
        header is Some && !has_bearer_scheme(header->Some_0@) ==> r == Err::<String, RejectReason>(
            RejectReason::MalformedScheme,
        ),
        r is Ok ==> header is Some && has_bearer_scheme(header->Some_0@),
        r is Ok ==> (verified_claims(header->Some_0@.skip(7), secret@) matches Some(t) && t.0
            == r->Ok_0@),
        header is Some && has_bearer_scheme(header->Some_0@) && verified_claims(
            header->Some_0@.skip(7),
            secret@,
        ) is None ==> r == Err::<String, RejectReason>(RejectReason::InvalidToken),
        header is Some && has_bearer_scheme(header->Some_0@) ==> (exists|now: int|
            #[trigger] gate_decided(header->Some_0@.skip(7), secret@, r, now)),
        forall|sub: Seq<char>, iat: int, exp: int|
            (header is Some && has_bearer_scheme(header->Some_0@) && #[trigger] signed_token(
                sub,
                iat,
                exp,
                secret@,
            ) == header->Some_0@.skip(7)) ==> ((r matches Ok(p) && p@ == sub) || r == Err::<
                String,
                RejectReason,
            >(RejectReason::InvalidToken)),
{
    let token = match extract_bearer_token(header) {
        Err(reason) => {
            return Err(reason);
        },
        Ok(t) => t,
    };
    let verdict = verify_jwt(token.as_str(), secret);
    let ghost gv = verdict;
    let r: Result<String, RejectReason> = match verdict {
        Ok(claims) => Ok(claims.sub),
        Err(_) => Err(RejectReason::InvalidToken),
    };
    proof {
        let now = choose|n: int| expiry_decided(token@, secret@, gv, n);
        assert(gate_decided(token@, secret@, r, now));
    }
    r
}

} // verus!
