//! Credentials: offline and federated identities, token freshness, and the
//! decisions between the hops of the federated sign-in chain.

use vstd::prelude::*;
use crate::text::{decimal, decimal_string, str_eq};

verus! {

/// An identity without a federated sign-in.
#[derive(Debug, Clone)]
pub struct OfflineAccount {
    pub username: String,
    pub uuid: String,
}

/// A federated identity with its game-service bearer token.
#[derive(Debug, Clone)]
pub struct MicrosoftAccount {
    pub username: String,
    pub uuid: String,
    pub access_token: String,
    pub refresh_token: Option<String>,
    pub expires_at: i64,
}

/// The credential a launch uses.
#[derive(Debug, Clone)]
pub enum Account {
    Offline(OfflineAccount),
    Microsoft(MicrosoftAccount),
}

impl Account {
    /// The player name of the account.
    pub open spec fn spec_username(&self) -> Seq<char> {
        match self {
            Account::Offline(a) => a.username@,
            Account::Microsoft(a) => a.username@,
        }
    }

    /// The identity of the account.
    pub open spec fn spec_uuid(&self) -> Seq<char> {
        match self {
            Account::Offline(a) => a.uuid@,
            Account::Microsoft(a) => a.uuid@,
        }
    }

    /// Offline identities pass the literal token `null`.
    pub open spec fn spec_access_token(&self) -> Seq<char> {
        match self {
            Account::Offline(_) => "null"@,
            Account::Microsoft(a) => a.access_token@,
        }
    }

    pub fn username(&self) -> (r: String)
        ensures
            r@ == self.spec_username(),
    {
        match self {
            Account::Offline(a) => a.username.clone(),
            Account::Microsoft(a) => a.username.clone(),
        }
    }

    pub fn uuid(&self) -> (r: String)
        ensures
            r@ == self.spec_uuid(),
    {
        match self {
            Account::Offline(a) => a.uuid.clone(),
            Account::Microsoft(a) => a.uuid.clone(),
        }
    }

    pub fn access_token(&self) -> (r: String)
        ensures
            r@ == self.spec_access_token(),
    {
        match self {
            Account::Offline(_) => String::from_str("null"),
            Account::Microsoft(a) => a.access_token.clone(),
        }
    }
}

/// Session state: the account currently signed in, if any.
pub struct AccountState {
    pub active_account: Option<Account>,
}

impl AccountState {
    pub fn new() -> (r: Self)
        ensures
            r.active_account.is_none(),
    {
        AccountState { active_account: None }
    }
}

/// The deterministic identity that the `uuid` crate derives (name-based,
/// version 3, OID namespace) from a user name.
pub uninterp spec fn offline_uuid_of(username: Seq<char>) -> Seq<char>;

/// Relies on `uuid::Uuid::new_v3` with the OID namespace over the name's
/// UTF-8 bytes, printed in its hyphenated form: a function of the name alone.
#[verifier::external_body]
fn uuid_v3_oid(username: &str) -> (r: String)
    ensures
        r@ == offline_uuid_of(username@),
{
    uuid::Uuid::new_v3(&uuid::Uuid::NAMESPACE_OID, username.as_bytes()).to_string()
}

/// Deterministic pseudo-identity of an offline user.
pub fn generate_offline_uuid(username: &str) -> (r: String)
    ensures
        r@ == offline_uuid_of(username@),
{
    uuid_v3_oid(username)
}

/// An offline account for `username`, with its derived identity.
pub fn offline_account(username: &str) -> (r: Account)
    ensures
        r is Offline,
        r.spec_username() == username@,
        r.spec_uuid() == offline_uuid_of(username@),
{
    Account::Offline(
        OfflineAccount { username: String::from_str(username), uuid: generate_offline_uuid(username) },
    )
}

/// Seconds before expiry below which a token counts as expired.
pub const EXPIRY_MARGIN_SECONDS: i64 = 300;

/// A token is expired once fewer than 300 seconds remain before its expiry.
pub open spec fn token_expired(expires_at: int, now: int) -> bool {
    expires_at - now < 300
}

/// Whether a token expiring at `expires_at` must be refreshed at `now`
/// (both in seconds since the Unix epoch).
pub fn is_token_expired(expires_at: i64, now: i64) -> (r: bool)
    ensures
        r == token_expired(expires_at as int, now as int),
{
    (expires_at as i128) - (now as i128) < EXPIRY_MARGIN_SECONDS as i128
}

/// Absolute expiry of a token issued at `now` for `expires_in` seconds,
/// capped at the largest `i64`.
pub fn expiry_instant(now: u64, expires_in: u64) -> (r: i64)
    ensures
        now + expires_in <= i64::MAX ==> r == now + expires_in,
        now + expires_in > i64::MAX ==> r == i64::MAX,
{
    let total: u128 = now as u128 + expires_in as u128;
    if total > i64::MAX as u128 {
        i64::MAX
    } else {
        total as i64
    }
}

/// Reply of the device-code issuance endpoint.
#[derive(Debug)]
pub struct DeviceCodeResponse {
    pub user_code: String,
    pub device_code: String,
    pub verification_uri: String,
    pub expires_in: u64,
    pub interval: u64,
    pub message: Option<String>,
}

/// Reply of the first-party token endpoint.
#[derive(Debug)]
pub struct TokenResponse {
    pub access_token: String,
    pub refresh_token: Option<String>,
    pub expires_in: u64,
}

/// Error reply of the first-party token endpoint.
#[derive(Debug)]
pub struct TokenError {
    pub error: String,
}

/// One entry of the nested claims of a platform session token.
#[derive(Debug, Clone)]
pub struct XuiClaim {
    pub uhs: Option<String>,
}

/// Claims of a platform session token.
#[derive(Debug)]
pub struct DisplayClaims {
    pub xui: Vec<XuiClaim>,
}

/// Reply of the platform session and relying-party token endpoints.
#[derive(Debug)]
pub struct XboxLiveResponse {
    pub token: String,
    pub display_claims: DisplayClaims,
}

/// Reply of the game-service login endpoint.
#[derive(Debug)]
pub struct MinecraftAuthResponse {
    pub access_token: String,
    pub expires_in: u64,
}

/// Profile of the signed-in player.
#[derive(Debug)]
pub struct MinecraftProfile {
    pub id: String,
    pub name: String,
}

/// One entitlement of the signed-in player.
#[derive(Debug)]
pub struct Entitlement {
    pub name: String,
}

/// Reply of the entitlement lookup.
#[derive(Debug)]
pub struct EntitlementsResponse {
    pub items: Vec<Entitlement>,
    pub signature: Option<String>,
    pub key_id: Option<String>,
}

/// Service refresh token kept beside the session state.
pub struct MsRefreshTokenState {
    pub token: Option<String>,
}

impl MsRefreshTokenState {
    pub fn new() -> (r: Self)
        ensures
            r.token.is_none(),
    {
        MsRefreshTokenState { token: None }
    }
}

/// Failures of the sign-in chain.
#[derive(Debug, Clone)]
pub enum AuthError {
    /// A hop answered with a non-success status; the status and body are kept.
    Http { hop: String, status: u16, body: String },
    /// The platform session token carries no user hash.
    MissingUserHash,
    /// A reply arrived that the current hop does not expect.
    UnexpectedReply,
}

/// Whether an HTTP status is a success (2xx).
pub open spec fn is_success(status: u16) -> bool {
    200 <= status <= 299
}

/// Accepts a success status; any other status is an error carrying the hop's
/// name, the status and the body. Nothing is retried.
pub fn check_status(hop: &str, status: u16, body: String) -> (r: Result<(), AuthError>)
    ensures
        r is Ok <==> is_success(status),
        r is Err ==> r->Err_0 == (AuthError::Http { hop: r->Err_0->hop, status, body }) && r->Err_0->hop@
            == hop@,
{
    if 200 <= status && status <= 299 {
        Ok(())
    } else {
        Err(AuthError::Http { hop: String::from_str(hop), status, body })
    }
}

impl AuthError {
    /// Human-readable description.
    pub fn message(&self) -> (r: String)
        ensures
            self is MissingUserHash ==> r@ == "Failed to find UHS code"@,
            self is UnexpectedReply ==> r@ == "Unexpected reply in sign-in chain"@,
            self is Http ==> r@ == self->hop@ + " failed: "@ + decimal(self->status as nat) + " - "@
                + self->body@,
    {
        match self {
            AuthError::MissingUserHash => String::from_str("Failed to find UHS code"),
            AuthError::UnexpectedReply => String::from_str("Unexpected reply in sign-in chain"),
            AuthError::Http { hop, status, body } => {
                let mut s = hop.clone();
                s.append(" failed: ");
                let code = decimal_string(*status as u64);
                s.append(code.as_str());
                s.append(" - ");
                s.append(body.as_str());
                s
            },
        }
    }
}

/// The user hash of the first claim entry, which the chain needs.
pub fn extract_user_hash(resp: &XboxLiveResponse) -> (r: Result<String, AuthError>)
    ensures
        resp.display_claims.xui@.len() > 0 && resp.display_claims.xui@[0].uhs.is_some() ==> r is Ok
            && r->Ok_0 == resp.display_claims.xui@[0].uhs.unwrap(),
        !(resp.display_claims.xui@.len() > 0 && resp.display_claims.xui@[0].uhs.is_some()) ==> r
            is Err && r->Err_0 is MissingUserHash,
{
    if resp.display_claims.xui.len() == 0 {
        return Err(AuthError::MissingUserHash);
    }
    match &resp.display_claims.xui[0].uhs {
        Some(h) => Ok(h.clone()),
        None => Err(AuthError::MissingUserHash),
    }
}

/// Ticket that presents a first-party token to the platform session hop.
pub fn rps_ticket(ms_access_token: &str) -> (r: String)
    ensures
        r@ == "d="@ + ms_access_token@,
{
    let mut s = String::from_str("d=");
    s.append(ms_access_token);
    s
}

/// Identity token that the game-service login hop expects.
pub fn identity_token(user_hash: &str, xsts_token: &str) -> (r: String)
    ensures
        r@ == "XBL3.0 x="@ + user_hash@ + ";"@ + xsts_token@,
{
    let mut s = String::from_str("XBL3.0 x=");
    s.append(user_hash);
    s.append(";");
    s.append(xsts_token);
    s
}

/// Whether an entitlement name proves ownership of the game.
pub open spec fn is_game_entitlement(name: Seq<char>) -> bool {
    name == "product_minecraft"@ || name == "game_minecraft"@
}

/// Whether the entitlements include the game.
pub fn owns_game(body: &EntitlementsResponse) -> (r: bool)
    ensures
        r == exists|k: int|
            0 <= k < body.items@.len() && is_game_entitlement(#[trigger] body.items@[k].name@),
{
    let mut i: usize = 0;
    while i < body.items.len()
        invariant
            i <= body.items@.len(),
            forall|k: int| 0 <= k < i ==> !is_game_entitlement(#[trigger] body.items@[k].name@),
        decreases body.items@.len() - i,
    {
        let n = body.items[i].name.as_str();
        if str_eq(n, "product_minecraft") || str_eq(n, "game_minecraft") {
            return true;
        }
        i = i + 1;
    }
    false
}

/// Outcome of one poll of the device-code token endpoint.
#[derive(Debug)]
pub enum PollOutcome {
    /// The user authorised the device: the first-party token.
    Authorized(TokenResponse),
    /// Not yet authorised: poll again after the advertised interval.
    Pending,
    /// The device code expired: the flow must start again.
    Expired,
    /// The user refused.
    Denied,
    /// Any other error the endpoint reported.
    Failed(String),
}

/// Classifies the error reply of a poll.
pub fn classify_poll_error(err: TokenError) -> (r: PollOutcome)
    ensures
        err.error@ == "authorization_pending"@ ==> r is Pending,
        err.error@ == "expired_token"@ ==> r is Expired,
        err.error@ == "access_denied"@ ==> r is Denied,
        !(err.error@ == "authorization_pending"@ || err.error@ == "expired_token"@ || err.error@
            == "access_denied"@) ==> r == PollOutcome::Failed(err.error),
{
    proof {
        reveal_strlit("authorization_pending");
        reveal_strlit("expired_token");
        reveal_strlit("access_denied");
        assert("expired_token"@.len() != "authorization_pending"@.len());
        assert("access_denied"@.len() != "authorization_pending"@.len());
        assert("access_denied"@[0] != "expired_token"@[0]);
    }
    if str_eq(err.error.as_str(), "authorization_pending") {
        PollOutcome::Pending
    } else if str_eq(err.error.as_str(), "expired_token") {
        PollOutcome::Expired
    } else if str_eq(err.error.as_str(), "access_denied") {
        PollOutcome::Denied
    } else {
        PollOutcome::Failed(err.error)
    }
}

/// The service refresh token to keep after a refresh: the new one when the
/// endpoint returned one, else the previous one.
pub fn next_refresh_token(returned: &Option<String>, previous: &str) -> (r: String)
    ensures
        returned.is_some() ==> r@ == returned.unwrap()@,
        returned.is_none() ==> r@ == previous@,
{
    match returned {
        Some(t) => t.clone(),
        None => String::from_str(previous),
    }
}

/// The federated account that the chain yields, from the first-party token
/// reply, the game-service token and the profile, issued at `now`.
pub fn microsoft_account(token: &TokenResponse, mc_token: String, profile: MinecraftProfile, now: u64) -> (r:
    MicrosoftAccount)
    ensures
        r.username == profile.name,
        r.uuid == profile.id,
        r.access_token == mc_token,
        r.refresh_token == token.refresh_token,
        now + token.expires_in <= i64::MAX ==> r.expires_at == now + token.expires_in,
        now + token.expires_in > i64::MAX ==> r.expires_at == i64::MAX,
{
    let refresh_token = match &token.refresh_token {
        Some(t) => Some(t.clone()),
        None => None,
    };
    MicrosoftAccount {
        username: profile.name,
        uuid: profile.id,
        access_token: mc_token,
        refresh_token,
        expires_at: expiry_instant(now, token.expires_in),
    }
}

/// Where the downstream half of the sign-in chain stands. Each state keeps
/// the first-party token reply, whose refresh token and lifetime the final
/// account needs.
#[derive(Debug)]
pub enum ChainState {
    /// Waiting for the platform session token.
    AwaitXbox { ms: TokenResponse },
    /// Waiting for the relying-party token; `uhs` is the user hash.
    AwaitXsts { ms: TokenResponse, uhs: String },
    /// Waiting for the game-service token.
    AwaitGameToken { ms: TokenResponse },
    /// Waiting for the profile; `mc_token` is the game-service token.
    AwaitProfile { ms: TokenResponse, mc_token: String },
    /// The chain completed.
    Done(MicrosoftAccount),
    /// A hop failed; nothing is retried.
    Failed(AuthError),
}

/// The request the caller performs next.
#[derive(Debug)]
pub enum ChainRequest {
    /// Platform session hop, presenting this ticket.
    XboxLive { rps_ticket: String },
    /// Relying-party hop, presenting the platform session token.
    Xsts { xbl_token: String },
    /// Game-service login, presenting this identity token.
    GameLogin { identity_token: String },
    /// Profile lookup with this bearer token.
    Profile { bearer: String },
    /// Nothing more: the chain has ended.
    Stop,
}

/// What the caller got back from the last request.
#[derive(Debug)]
pub enum ChainReply {
    Xbox(XboxLiveResponse),
    Xsts(XboxLiveResponse),
    GameLogin(MinecraftAuthResponse),
    Profile(MinecraftProfile),
    /// A non-success status with its body.
    HttpError { hop: String, status: u16, body: String },
}

/// Starts the downstream half of the chain from a first-party token.
pub fn begin_chain(ms: TokenResponse) -> (r: (ChainState, ChainRequest))
    ensures
        r.0 == (ChainState::AwaitXbox { ms }),
        r.1 is XboxLive && r.1->rps_ticket@ == "d="@ + ms.access_token@,
{
    let ticket = rps_ticket(ms.access_token.as_str());
    (ChainState::AwaitXbox { ms }, ChainRequest::XboxLive { rps_ticket: ticket })
}

/// Whether `r` is the step that `reply` causes in state `state` at `now`.
pub open spec fn is_chain_step(
    r: (ChainState, ChainRequest),
    state: ChainState,
    reply: ChainReply,
    now: u64,
) -> bool {
    match reply {
        ChainReply::HttpError { hop, status, body } => r.0 == ChainState::Failed(
            AuthError::Http { hop, status, body },
        ) && r.1 is Stop,
        _ => match (state, reply) {
            (ChainState::AwaitXbox { ms }, ChainReply::Xbox(x)) => if x.display_claims.xui@.len() > 0
                && x.display_claims.xui@[0].uhs.is_some() {
                r.0 == (ChainState::AwaitXsts { ms, uhs: x.display_claims.xui@[0].uhs.unwrap() })
                    && r.1 == (ChainRequest::Xsts { xbl_token: x.token })
            } else {
                r.0 == ChainState::Failed(AuthError::MissingUserHash) && r.1 is Stop
            },
            (ChainState::AwaitXsts { ms, uhs }, ChainReply::Xsts(x)) => r.0 == (ChainState::AwaitGameToken {
                ms,
            }) && r.1 is GameLogin && r.1->identity_token@ == "XBL3.0 x="@ + uhs@ + ";"@ + x.token@,
            (ChainState::AwaitGameToken { ms }, ChainReply::GameLogin(g)) => r.0 == (
            ChainState::AwaitProfile { ms, mc_token: g.access_token }) && r.1 is Profile
                && r.1->bearer == g.access_token,
            (ChainState::AwaitProfile { ms, mc_token }, ChainReply::Profile(p)) => r.1 is Stop && match r.0 {
                ChainState::Done(a) => a.username == p.name && a.uuid == p.id && a.access_token
                    == mc_token && a.refresh_token == ms.refresh_token && (now + ms.expires_in
                    <= i64::MAX ==> a.expires_at == now + ms.expires_in) && (now + ms.expires_in
                    > i64::MAX ==> a.expires_at == i64::MAX),
                _ => false,
            },
            _ => r.0 == ChainState::Failed(AuthError::UnexpectedReply) && r.1 is Stop,
        },
    }
}

/// Advances the chain by one reply: each hop's output becomes the next
/// hop's input; a non-success reply or a reply out of turn ends it.
pub fn advance_chain(state: ChainState, reply: ChainReply, now: u64) -> (r: (ChainState, ChainRequest))
    ensures
        is_chain_step(r, state, reply, now),
{
    match (state, reply) {
        (_, ChainReply::HttpError { hop, status, body }) => (
            ChainState::Failed(AuthError::Http { hop, status, body }),
            ChainRequest::Stop,
        ),
        (ChainState::AwaitXbox { ms }, ChainReply::Xbox(x)) => match extract_user_hash(&x) {
            Ok(uhs) => (ChainState::AwaitXsts { ms, uhs }, ChainRequest::Xsts { xbl_token: x.token }),
            Err(e) => (ChainState::Failed(e), ChainRequest::Stop),
        },
        (ChainState::AwaitXsts { ms, uhs }, ChainReply::Xsts(x)) => {
            let token = identity_token(uhs.as_str(), x.token.as_str());
            (ChainState::AwaitGameToken { ms }, ChainRequest::GameLogin { identity_token: token })
        },
        (ChainState::AwaitGameToken { ms }, ChainReply::GameLogin(g)) => {
            let bearer = g.access_token.clone();
            (ChainState::AwaitProfile { ms, mc_token: g.access_token }, ChainRequest::Profile { bearer })
        },
        (ChainState::AwaitProfile { ms, mc_token }, ChainReply::Profile(p)) => {
            let account = microsoft_account(&ms, mc_token, p, now);
            (ChainState::Done(account), ChainRequest::Stop)
        },
        _ => (ChainState::Failed(AuthError::UnexpectedReply), ChainRequest::Stop),
    }
}

} // verus!
