//! The credential freshness coupling and the authorization callback
//! decisions, on concrete numbers.

use musngr::auth::{
    build_claim, callback_code, compute_claim_expiry_ms, has_required_scopes, split_at,
    OauthCallbackError, OauthQuery, OauthRefreshResponseError, OauthRefreshResponseResult,
    OauthRefreshResponseSuccess, OauthTokenResponseError, OauthTokenResponseResult,
    OauthTokenResponseSuccess, TokenClaim,
};
use musngr::credential::{apply_refresh, needs_refresh};

#[test]
fn freshness_formula_on_the_documented_numbers() {
    // capacity 3, 60 s per job: the deadline sits 180 s before expiry
    let now: u64 = 1_000_000;
    // expiry 200 s away: deadline is now + 20 s, so no refresh yet
    assert!(!needs_refresh(now, now + 200_000, 60_000, 3));
    // expiry 100 s away: deadline was 80 s ago, so a refresh is forced
    assert!(needs_refresh(now, now + 100_000, 60_000, 3));
    // the boundary itself: now == deadline is still acceptable
    assert!(!needs_refresh(now, now + 180_000, 60_000, 3));
    assert!(needs_refresh(now, now + 179_999, 60_000, 3));
}

#[test]
fn freshness_is_conservative_in_capacity_not_depth() {
    let now: u64 = 5_000;
    // the same expiry is fine behind a short queue and stale behind a long one
    assert!(!needs_refresh(now, now + 130_000, 60_000, 2));
    assert!(needs_refresh(now, now + 130_000, 60_000, 3));
}

#[test]
fn claim_expiry_sits_one_minute_short() {
    assert_eq!(compute_claim_expiry_ms(0, 120), 60_000);
    assert_eq!(compute_claim_expiry_ms(1_000, 3600), 1_000 + 3_540_000);
    // an advertised lifetime under a minute leaves the expiry at `now`
    assert_eq!(compute_claim_expiry_ms(777, 45), 777);
}

fn claim() -> TokenClaim {
    TokenClaim {
        scope: vec![String::from("openid")],
        access_token: String::from("old-access"),
        expires_at_ms: 10_000,
        refresh_token: String::from("keep-this"),
        user_id: String::from("user-1"),
    }
}

#[test]
fn successful_refresh_replaces_token_and_expiry_only() {
    let parsed = OauthRefreshResponseResult::Success(OauthRefreshResponseSuccess {
        access_token: String::from("new-access"),
        expires_in_s: 120,
    });
    let refreshed = apply_refresh(claim(), parsed, 50_000).expect("refresh accepted");
    assert_eq!(refreshed.access_token, "new-access");
    assert_eq!(refreshed.expires_at_ms, 110_000);
    assert_eq!(refreshed.refresh_token, "keep-this");
    assert_eq!(refreshed.user_id, "user-1");
    assert_eq!(refreshed.scope, vec![String::from("openid")]);
}

#[test]
fn refused_refresh_aborts_with_the_grant_error() {
    let parsed = OauthRefreshResponseResult::Failure(OauthRefreshResponseError {
        error: String::from("invalid_grant"),
        error_subtype: None,
        error_message: Some(String::from("Token has been revoked.")),
    });
    let err = apply_refresh(claim(), parsed, 50_000).unwrap_err();
    assert_eq!(err.error, "invalid_grant");
    assert_eq!(err.error_message.as_deref(), Some("Token has been revoked."));
}

#[test]
fn scope_splitting_and_check() {
    let granted = split_at("openid https://www.googleapis.com/auth/youtube.upload", ' ');
    assert_eq!(
        granted,
        vec![
            String::from("openid"),
            String::from("https://www.googleapis.com/auth/youtube.upload"),
        ]
    );
    assert!(has_required_scopes(&granted));
    let partial = split_at("openid", ' ');
    assert!(!has_required_scopes(&partial));
    // empty pieces survive splitting, as the remote's format requires
    assert_eq!(split_at("a  b", ' '), vec![
        String::from("a"),
        String::from(""),
        String::from("b"),
    ]);
    assert_eq!(split_at("", ' '), vec![String::from("")]);
}

fn exchange_ok() -> OauthTokenResponseSuccess {
    OauthTokenResponseSuccess {
        access_token: String::from("acc"),
        expires_in_s: 3600,
        refresh_token: String::from("ref"),
        scope: String::from("openid https://www.googleapis.com/auth/youtube.upload"),
        id_token: String::from("header.payload.sig"),
    }
}

#[test]
fn callback_mints_claim_from_good_exchange() {
    let claim = build_claim(
        OauthTokenResponseResult::Success(exchange_ok()),
        Some(String::from("sub-1")),
        1_000,
    )
    .expect("claim minted");
    assert_eq!(claim.access_token, "acc");
    assert_eq!(claim.refresh_token, "ref");
    assert_eq!(claim.user_id, "sub-1");
    assert_eq!(claim.expires_at_ms, 1_000 + 3_540_000);
    assert_eq!(claim.scope.len(), 2);
}

#[test]
fn callback_refuses_missing_scope_and_identity() {
    let mut narrow = exchange_ok();
    narrow.scope = String::from("openid");
    let err = build_claim(
        OauthTokenResponseResult::Success(narrow),
        Some(String::from("sub-1")),
        1_000,
    )
    .unwrap_err();
    assert_eq!(err, OauthCallbackError::InvalidScope);

    let err = build_claim(OauthTokenResponseResult::Success(exchange_ok()), None, 1_000)
        .unwrap_err();
    assert_eq!(err, OauthCallbackError::TokenResponseParseError);

    let refused = OauthTokenResponseError {
        error: String::from("access_denied"),
        error_subtype: None,
        error_message: None,
    };
    let err = build_claim(
        OauthTokenResponseResult::Failure(refused.clone()),
        Some(String::from("sub-1")),
        1_000,
    )
    .unwrap_err();
    assert_eq!(err, OauthCallbackError::GrantError(refused));
}

#[test]
fn callback_failures_redirect_to_tagged_paths() {
    assert_eq!(OauthCallbackError::BadRequest.redirect_path(), "/?error=bad_request");
    assert_eq!(OauthCallbackError::InvalidScope.redirect_path(), "/?error=invalid_scope");
    assert_eq!(
        OauthCallbackError::TokenResponseParseError.redirect_path(),
        "/?error=token_response_parse"
    );
    assert_eq!(
        OauthCallbackError::ReqwestError(String::from("timed out")).redirect_path(),
        "/?error=internal"
    );
    assert_eq!(
        OauthCallbackError::OauthFlowError(String::from("access_denied")).redirect_path(),
        "/?error=oauth_flow&kind=access_denied"
    );
    let grant = OauthCallbackError::GrantError(OauthTokenResponseError {
        error: String::from("invalid_grant"),
        error_subtype: Some(String::from("expired")),
        error_message: None,
    });
    assert_eq!(
        grant.redirect_path(),
        "/?error=grant&kind=failed to exchange token: invalid_grant&error_subtype=expired"
    );
}

#[test]
fn callback_query_decides_code_or_failure() {
    let ok = callback_code(OauthQuery { code: Some(String::from("c0de")), error: None });
    assert_eq!(ok.unwrap(), "c0de");
    let flow = callback_code(OauthQuery {
        code: None,
        error: Some(String::from("access_denied")),
    });
    assert_eq!(
        flow.unwrap_err(),
        OauthCallbackError::OauthFlowError(String::from("access_denied"))
    );
    let bad = callback_code(OauthQuery { code: None, error: None });
    assert_eq!(bad.unwrap_err(), OauthCallbackError::BadRequest);
}
