//! The coupling between queue capacity and credential expiry: a job must not
//! be admitted if its delegated credential could expire while the job waits
//! behind a full queue of maximum-duration jobs.

use vstd::prelude::*;
use crate::auth::{OauthRefreshResponseError, OauthRefreshResponseResult, OauthRefreshResponseSuccess, TokenClaim};
use crate::auth::claim_expiry_ms;

verus! {

/// The latest admission moment that still guarantees the credential outlives
/// a full queue: its expiry, pulled back by one maximum processing time per
/// queue slot. Stated over unbounded integers; a negative deadline means no
/// admission moment is safe without a refresh.
pub open spec fn spec_refresh_deadline_ms(
    expires_at_ms: u64,
    max_processing_ms: u64,
    capacity: usize,
) -> int {
    expires_at_ms - max_processing_ms * capacity
}

/// Whether the credential must be refreshed before commit: true exactly when
/// `now` lies past the deadline of [`spec_refresh_deadline_ms`].
pub open spec fn spec_needs_refresh(
    now_ms: u64,
    expires_at_ms: u64,
    max_processing_ms: u64,
    capacity: usize,
) -> bool {
    now_ms > spec_refresh_deadline_ms(expires_at_ms, max_processing_ms, capacity)
}

/// Decides [`spec_needs_refresh`]. The worst-case wait is taken from the
/// gate's total capacity, not the momentary queue depth: deliberately
/// conservative, so the decision cannot be invalidated by jobs admitted
/// between this check and the commit.
pub fn needs_refresh(
    now_ms: u64,
    expires_at_ms: u64,
    max_processing_ms: u64,
    capacity: usize,
) -> (r: bool)
    ensures
        r == spec_needs_refresh(now_ms, expires_at_ms, max_processing_ms, capacity),
{
    proof {
        assert((max_processing_ms as u128) * (capacity as u128) + (now_ms as u128)
            <= u128::MAX) by (nonlinear_arith)
            requires
                max_processing_ms <= u64::MAX,
                capacity <= u64::MAX,
                now_ms <= u64::MAX,
        ;
    }
    let wait: u128 = (max_processing_ms as u128) * (capacity as u128);
    let r = (now_ms as u128) + wait > expires_at_ms as u128;
    proof {
        assert((now_ms as u128) + wait > expires_at_ms as u128 <==> now_ms
            > expires_at_ms - max_processing_ms * capacity) by (nonlinear_arith)
            requires
                wait == (max_processing_ms as u128) * (capacity as u128),
                max_processing_ms <= u64::MAX,
                capacity <= usize::MAX,
        ;
    }
    r
}

/// A credential as it stands after a successful refresh: the new access
/// token, a new expiry one minute short of the advertised lifetime, and
/// everything else untouched.
pub open spec fn spec_refreshed_claim(
    claim: TokenClaim,
    data: OauthRefreshResponseSuccess,
    now_ms: u64,
) -> TokenClaim {
    TokenClaim {
        access_token: data.access_token,
        expires_at_ms: claim_expiry_ms(now_ms, data.expires_in_s),
        ..claim
    }
}

/// Applies the token endpoint's answer to the job's credential snapshot: a
/// success replaces token and expiry as [`spec_refreshed_claim`] says; a
/// refusal aborts with the structured grant error unchanged, so the caller
/// can abandon the admission rather than commit a stale token.
pub fn apply_refresh(
    claim: TokenClaim,
    parsed: OauthRefreshResponseResult,
    now_ms: u64,
) -> (r: Result<TokenClaim, OauthRefreshResponseError>)
    ensures
        parsed matches OauthRefreshResponseResult::Success(data) ==> r == Ok::<
            TokenClaim,
            OauthRefreshResponseError,
        >(spec_refreshed_claim(claim, data, now_ms)),
        parsed matches OauthRefreshResponseResult::Failure(e) ==> r == Err::<
            TokenClaim,
            OauthRefreshResponseError,
        >(e),
{
    match parsed {
        OauthRefreshResponseResult::Success(data) => {
            let expires_at_ms = crate::auth::compute_claim_expiry_ms(now_ms, data.expires_in_s);
            Ok(
                TokenClaim {
                    access_token: data.access_token,
                    expires_at_ms,
                    scope: claim.scope,
                    refresh_token: claim.refresh_token,
                    user_id: claim.user_id,
                },
            )
        },
        OauthRefreshResponseResult::Failure(e) => Err(e),
    }
}

} // verus!
