//! The delegated credential carried by each job, the shapes of the token
//! endpoint's answers, and the decisions of the authorization callback:
//! which grants are acceptable, what claim is minted from a successful
//! exchange, and where each failure redirects.

use vstd::prelude::*;

verus! {

/// The delegated credential snapshot a job carries: tokens, expiry and the
/// scopes the user granted. Timestamps are milliseconds since the epoch.
#[derive(Debug, Clone, PartialEq, Eq)]
pub struct TokenClaim {
    pub scope: Vec<String>,
    pub access_token: String,
    pub expires_at_ms: u64,
    pub refresh_token: String,
    pub user_id: String,
}

/// A successful answer from the token endpoint for the initial exchange.
/// `expires_in_s` is the advertised lifetime in seconds.
#[derive(Debug, Clone, PartialEq, Eq)]
pub struct OauthTokenResponseSuccess {
    pub access_token: String,
    pub expires_in_s: u64,
    pub refresh_token: String,
    pub scope: String,
    pub id_token: String,
}

/// A structured error from the token endpoint for the initial exchange.
#[derive(Debug, Clone, PartialEq, Eq)]
pub struct OauthTokenResponseError {
    pub error: String,
    pub error_subtype: Option<String>,
    pub error_message: Option<String>,
}

/// The token endpoint's answer to the initial exchange, either way.
#[derive(Debug, Clone, PartialEq, Eq)]
pub enum OauthTokenResponseResult {
    Success(OauthTokenResponseSuccess),
    Failure(OauthTokenResponseError),
}

impl OauthTokenResponseResult {
    /// The same answer as a `Result`.
    pub fn into_result(self) -> (r: Result<OauthTokenResponseSuccess, OauthTokenResponseError>)
        ensures
            r is Ok <==> self is Success,
            self matches OauthTokenResponseResult::Success(v) ==> r == Ok::<
                OauthTokenResponseSuccess,
                OauthTokenResponseError,
            >(v),
            self matches OauthTokenResponseResult::Failure(e) ==> r == Err::<
                OauthTokenResponseSuccess,
                OauthTokenResponseError,
            >(e),
    {
        match self {
            OauthTokenResponseResult::Success(v) => Ok(v),
            OauthTokenResponseResult::Failure(e) => Err(e),
        }
    }
}

/// A successful answer from the token endpoint for a refresh.
#[derive(Debug, Clone, PartialEq, Eq)]
pub struct OauthRefreshResponseSuccess {
    pub access_token: String,
    pub expires_in_s: u64,
}

/// A structured error from the token endpoint for a refresh.
#[derive(Debug, Clone, PartialEq, Eq)]
pub struct OauthRefreshResponseError {
    pub error: String,
    pub error_subtype: Option<String>,
    pub error_message: Option<String>,
}

/// The token endpoint's answer to a refresh, either way.
#[derive(Debug, Clone, PartialEq, Eq)]
pub enum OauthRefreshResponseResult {
    Success(OauthRefreshResponseSuccess),
    Failure(OauthRefreshResponseError),
}

impl OauthRefreshResponseResult {
    /// The same answer as a `Result`.
    pub fn into_result(self) -> (r: Result<OauthRefreshResponseSuccess, OauthRefreshResponseError>)
        ensures
            r is Ok <==> self is Success,
            self matches OauthRefreshResponseResult::Success(v) ==> r == Ok::<
                OauthRefreshResponseSuccess,
                OauthRefreshResponseError,
            >(v),
            self matches OauthRefreshResponseResult::Failure(e) ==> r == Err::<
                OauthRefreshResponseSuccess,
                OauthRefreshResponseError,
            >(e),
    {
        match self {
            OauthRefreshResponseResult::Success(v) => Ok(v),
            OauthRefreshResponseResult::Failure(e) => Err(e),
        }
    }
}

/// The query parameters of the authorization callback.
#[derive(Debug, Clone, PartialEq, Eq)]
pub struct OauthQuery {
    pub code: Option<String>,
    pub error: Option<String>,
}

/// Why the authorization callback failed. Transport and parsing failures
/// carry only the recorded message; the grant error keeps its structure.
#[derive(Debug, Clone, PartialEq, Eq)]
pub enum OauthCallbackError {
    /// Neither a code nor an error came back.
    BadRequest,
    /// The authorization server reported this flow error.
    OauthFlowError(String),
    /// The token endpoint could not be reached.
    ReqwestError(String),
    /// The token endpoint's answer could not be decoded.
    TokenResponseParseError,
    /// The exchange itself was refused.
    GrantError(OauthTokenResponseError),
    /// The grant does not cover every required scope.
    InvalidScope,
    /// Signing the session token failed.
    Internal(String),
}

impl OauthCallbackError {
    /// Where each callback failure redirects the browser: a query-tagged
    /// path on the site's front page. A refused grant carries its error
    /// text and, when present, the subtype and message the endpoint gave.
    pub open spec fn spec_redirect_path(&self) -> Seq<char> {
        match self {
            OauthCallbackError::BadRequest => "/?error=bad_request"@,
            OauthCallbackError::OauthFlowError(e) => "/?error=oauth_flow&kind="@ + e@,
            OauthCallbackError::GrantError(e) => "/?error=grant&kind=failed to exchange token: "@
                + e.error@ + (match e.error_subtype {
                Some(st) => "&error_subtype="@ + st@,
                None => Seq::<char>::empty(),
            }) + (match e.error_message {
                Some(m) => "&error_message="@ + m@,
                None => Seq::<char>::empty(),
            }),
            OauthCallbackError::ReqwestError(_) => "/?error=internal"@,
            OauthCallbackError::Internal(_) => "/?error=internal"@,
            OauthCallbackError::TokenResponseParseError => "/?error=token_response_parse"@,
            OauthCallbackError::InvalidScope => "/?error=invalid_scope"@,
        }
    }

    /// Builds [`Self::spec_redirect_path`].
    pub fn redirect_path(&self) -> (r: String)
        ensures
            r@ == self.spec_redirect_path(),
    {
        match self {
            OauthCallbackError::BadRequest => String::from_str("/?error=bad_request"),
            OauthCallbackError::OauthFlowError(e) => {
                let mut out = String::from_str("/?error=oauth_flow&kind=");
                out.append(e.as_str());
                out
            },
            OauthCallbackError::GrantError(e) => {
                let mut out = String::from_str("/?error=grant&kind=failed to exchange token: ");
                out.append(e.error.as_str());
                match &e.error_subtype {
                    Some(st) => {
                        out.append("&error_subtype=");
                        out.append(st.as_str());
                    },
                    None => {},
                }
                match &e.error_message {
                    Some(m) => {
                        out.append("&error_message=");
                        out.append(m.as_str());
                    },
                    None => {},
                }
                proof {
                    assert(out@ =~= self.spec_redirect_path());
                }
                out
            },
            OauthCallbackError::ReqwestError(_) => String::from_str("/?error=internal"),
            OauthCallbackError::Internal(_) => String::from_str("/?error=internal"),
            OauthCallbackError::TokenResponseParseError => String::from_str(
                "/?error=token_response_parse",
            ),
            OauthCallbackError::InvalidScope => String::from_str("/?error=invalid_scope"),
        }
    }
}

/// Splitting a character sequence at a separator, keeping empty pieces, as
/// `str::split` does: defined from the back, so that each trailing separator
/// opens a fresh (possibly empty) piece.
pub open spec fn spec_split(s: Seq<char>, sep: char) -> Seq<Seq<char>>
    decreases s.len(),
{
    if s.len() == 0 {
        seq![Seq::<char>::empty()]
    } else {
        let rest = spec_split(s.drop_last(), sep);
        if s.last() == sep {
            rest.push(Seq::<char>::empty())
        } else {
            rest.update(rest.len() - 1, rest.last().push(s.last()))
        }
    }
}

/// Splits `s` at `sep`, keeping empty pieces, exactly as [`spec_split`]
/// describes.
pub fn split_at(s: &str, sep: char) -> (r: Vec<String>)
    ensures
        r.deep_view() == spec_split(s@, sep),
{
    let n: usize = s.unicode_len();
    let mut done: Vec<String> = Vec::new();
    let mut cur: String = String::new();
    let mut i: usize = 0;
    proof {
        assert(s@.subrange(0, 0) =~= Seq::<char>::empty());
        assert(done.deep_view().push(cur@) =~= spec_split(s@.subrange(0, 0), sep));
    }
    while i < n
        invariant
            n == s@.len(),
            i <= n,
            done.deep_view().push(cur@) =~= spec_split(s@.subrange(0, i as int), sep),
        decreases n - i,
    {
        let c = s.get_char(i);
        proof {
            assert(s@.subrange(0, i + 1).drop_last() =~= s@.subrange(0, i as int));
            assert(s@.subrange(0, i + 1).last() == c);
        }
        if c == sep {
            done.push(cur);
            cur = String::new();
        } else {
            let ghost old_cur = cur@;
            let one = s.substring_char(i, i + 1);
            proof {
                assert(one@ =~= seq![c]);
            }
            cur.append(one);
            proof {
                assert(cur@ =~= old_cur.push(c));
                let prev = spec_split(s@.subrange(0, i as int), sep);
                let now = spec_split(s@.subrange(0, i + 1), sep);
                assert(now =~= prev.update(prev.len() - 1, prev.last().push(c)));
                assert(done.deep_view().push(cur@) =~= now);
            }
        }
        i += 1;
    }
    proof {
        assert(s@.subrange(0, n as int) =~= s@);
    }
    done.push(cur);
    proof {
        assert(done.deep_view() =~= spec_split(s@, sep));
    }
    done
}

/// Some piece equals `w`.
pub open spec fn spec_contains_str(pieces: Seq<Seq<char>>, w: Seq<char>) -> bool {
    exists|i: int| 0 <= i < pieces.len() && pieces[i] == w
}

/// Whether some element of `scopes` reads exactly `w`.
pub fn scopes_contain(scopes: &Vec<String>, w: &String) -> (r: bool)
    ensures
        r == spec_contains_str(scopes.deep_view(), w@),
{
    let mut i: usize = 0;
    while i < scopes.len()
        invariant
            i <= scopes.len(),
            forall|j: int| 0 <= j < i ==> scopes.deep_view()[j] != w@,
        decreases scopes.len() - i,
    {
        let x: &String = &scopes[i];
        if x.eq(w) {
            assert(scopes.deep_view()[i as int] == w@);
            return true;
        }
        i += 1;
    }
    false
}

/// The two grants every delegated credential must carry: identity, and
/// permission to publish on the user's channel.
pub open spec fn spec_required_scopes() -> Seq<Seq<char>> {
    seq!["openid"@, "https://www.googleapis.com/auth/youtube.upload"@]
}

/// Whether the granted scopes cover every required one.
pub fn has_required_scopes(scopes: &Vec<String>) -> (r: bool)
    ensures
        r == forall|k: int|
            0 <= k < spec_required_scopes().len() ==> spec_contains_str(
                scopes.deep_view(),
                spec_required_scopes()[k],
            ),
{
    let a = scopes_contain(scopes, &String::from_str("openid"));
    let b = scopes_contain(scopes, &String::from_str("https://www.googleapis.com/auth/youtube.upload"));
    proof {
        assert(spec_required_scopes()[0] == "openid"@);
        assert(spec_required_scopes()[1] == "https://www.googleapis.com/auth/youtube.upload"@);
        if a && b {
            assert forall|k: int| 0 <= k < spec_required_scopes().len() implies spec_contains_str(
                scopes.deep_view(),
                spec_required_scopes()[k],
            ) by {
                if k == 0 {
                } else {
                    assert(k == 1);
                }
            }
        }
    }
    a && b
}

/// The expiry written into a claim: `now + (lifetime - 60 s)`, in
/// milliseconds, saturating at the ends.
pub open spec fn claim_expiry_ms(now_ms: u64, expires_in_s: u64) -> u64 {
    let margin = if expires_in_s >= 60 {
        (expires_in_s - 60) as u64
    } else {
        0u64
    };
    let ms = if margin * 1000 <= u64::MAX {
        (margin * 1000) as u64
    } else {
        u64::MAX
    };
    if now_ms + ms <= u64::MAX {
        (now_ms + ms) as u64
    } else {
        u64::MAX
    }
}

/// Computes [`claim_expiry_ms`].
pub fn compute_claim_expiry_ms(now_ms: u64, expires_in_s: u64) -> (r: u64)
    ensures
        r == claim_expiry_ms(now_ms, expires_in_s),
{
    let margin = expires_in_s.saturating_sub(60);
    let ms = match margin.checked_mul(1000) {
        Some(v) => v,
        None => u64::MAX,
    };
    now_ms.saturating_add(ms)
}

/// A required scope the exchange did not grant.
pub open spec fn spec_scope_missing(data: OauthTokenResponseSuccess) -> bool {
    exists|k: int|
        0 <= k < spec_required_scopes().len() && !spec_contains_str(
            spec_split(data.scope@, ' '),
            spec_required_scopes()[k],
        )
}

/// The decision at the heart of the authorization callback, once the
/// transport and decoding work is done: refuse a refused exchange, refuse a
/// grant that misses a required scope or an undecodable identity, and
/// otherwise mint the claim to be signed.
pub fn build_claim(
    parsed: OauthTokenResponseResult,
    user_id: Option<String>,
    now_ms: u64,
) -> (r: Result<TokenClaim, OauthCallbackError>)
    ensures
        parsed matches OauthTokenResponseResult::Failure(e) ==> r == Err::<
            TokenClaim,
            OauthCallbackError,
        >(OauthCallbackError::GrantError(e)),
        parsed matches OauthTokenResponseResult::Success(data) && spec_scope_missing(data) ==> r
            == Err::<TokenClaim, OauthCallbackError>(OauthCallbackError::InvalidScope),
        parsed matches OauthTokenResponseResult::Success(data) && !spec_scope_missing(data) && user_id
            is None ==> r == Err::<TokenClaim, OauthCallbackError>(
            OauthCallbackError::TokenResponseParseError,
        ),
        parsed matches OauthTokenResponseResult::Success(data) ==> (!spec_scope_missing(data)
            ==> (user_id matches Some(u) ==> r matches Ok(claim) && claim.scope.deep_view()
            == spec_split(data.scope@, ' ') && claim.access_token == data.access_token
            && claim.refresh_token == data.refresh_token && claim.expires_at_ms
            == claim_expiry_ms(now_ms, data.expires_in_s) && claim.user_id == u)),
{
    let data = match parsed {
        OauthTokenResponseResult::Success(v) => v,
        OauthTokenResponseResult::Failure(e) => {
            return Err(OauthCallbackError::GrantError(e));
        },
    };
    let granted = split_at(data.scope.as_str(), ' ');
    if !has_required_scopes(&granted) {
        return Err(OauthCallbackError::InvalidScope);
    }
    let uid = match user_id {
        Some(v) => v,
        None => {
            return Err(OauthCallbackError::TokenResponseParseError);
        },
    };
    let expires_at_ms = compute_claim_expiry_ms(now_ms, data.expires_in_s);
    Ok(
        TokenClaim {
            scope: granted,
            access_token: data.access_token,
            expires_at_ms,
            refresh_token: data.refresh_token,
            user_id: uid,
        },
    )
}

/// The code handed back by the authorization server, or the failure the
/// query reports: a missing code with an error names the flow error, a
/// missing code without one is a bad request.
pub fn callback_code(query: OauthQuery) -> (r: Result<String, OauthCallbackError>)
    ensures
        query.code matches Some(c) ==> r == Ok::<String, OauthCallbackError>(c),
        query.error matches Some(e) ==> (query.code is None ==> r == Err::<
            String,
            OauthCallbackError,
        >(OauthCallbackError::OauthFlowError(e))),
        query.code is None && query.error is None ==> r == Err::<String, OauthCallbackError>(
            OauthCallbackError::BadRequest,
        ),
{
    match query.code {
        Some(c) => Ok(c),
        None => match query.error {
            Some(e) => Err(OauthCallbackError::OauthFlowError(e)),
            None => Err(OauthCallbackError::BadRequest),
        },
    }
}

} // verus!
