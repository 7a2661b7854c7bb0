use launchcore::auth::{
    advance_chain, begin_chain, ChainReply, ChainRequest, ChainState, MinecraftAuthResponse,
    check_status, classify_poll_error, expiry_instant, extract_user_hash, generate_offline_uuid,
    identity_token, is_token_expired, microsoft_account, next_refresh_token, offline_account,
    owns_game, rps_ticket, Account, AccountState, AuthError, DisplayClaims, Entitlement,
    EntitlementsResponse, MicrosoftAccount, MinecraftProfile, PollOutcome, TokenError,
    TokenResponse, XboxLiveResponse, XuiClaim,
};

#[test]
fn offline_uuid_is_deterministic_and_hyphenated() {
    let a = generate_offline_uuid("Steve");
    let b = generate_offline_uuid("Steve");
    let c = generate_offline_uuid("Alex");
    assert_eq!(a, b);
    assert_ne!(a, c);
    assert_eq!(a.len(), 36);
    assert_ne!(a, "Steve");
    assert_eq!(a.chars().nth(14), Some('3'));
}

#[test]
fn offline_account_uses_null_token() {
    let acc = offline_account("Steve");
    assert_eq!(acc.username(), "Steve");
    assert_eq!(acc.uuid(), generate_offline_uuid("Steve"));
    assert_eq!(acc.access_token(), "null");
    assert!(AccountState::new().active_account.is_none());
}

#[test]
fn token_freshness_margin() {
    assert!(is_token_expired(1000, 1000));
    assert!(is_token_expired(1299, 1000));
    assert!(!is_token_expired(1300, 1000));
    assert!(is_token_expired(i64::MIN, i64::MAX));
    assert!(!is_token_expired(i64::MAX, i64::MIN));
}

#[test]
fn expiry_is_capped() {
    assert_eq!(expiry_instant(100, 3600), 3700);
    assert_eq!(expiry_instant(u64::MAX, 1), i64::MAX);
}

#[test]
fn non_success_status_is_an_error() {
    assert!(check_status("XSTS auth", 200, String::new()).is_ok());
    assert!(check_status("XSTS auth", 204, String::new()).is_ok());
    let err = check_status("XSTS auth", 401, "denied".to_string()).unwrap_err();
    assert_eq!(err.message(), "XSTS auth failed: 401 - denied");
    assert!(check_status("x", 302, String::new()).is_err());
}

#[test]
fn user_hash_comes_from_first_claim() {
    let ok = XboxLiveResponse {
        token: "t".to_string(),
        display_claims: DisplayClaims { xui: vec![XuiClaim { uhs: Some("h1".to_string()) }] },
    };
    assert_eq!(extract_user_hash(&ok).unwrap(), "h1");
    let missing = XboxLiveResponse { token: "t".to_string(), display_claims: DisplayClaims { xui: vec![] } };
    let err = extract_user_hash(&missing).unwrap_err();
    assert!(matches!(err, AuthError::MissingUserHash));
    assert_eq!(err.message(), "Failed to find UHS code");
}

#[test]
fn chain_tokens_are_formatted() {
    assert_eq!(rps_ticket("abc"), "d=abc");
    assert_eq!(identity_token("uh", "xs"), "XBL3.0 x=uh;xs");
}

#[test]
fn ownership_from_entitlements() {
    let body = EntitlementsResponse {
        items: vec![Entitlement { name: "other".to_string() }, Entitlement { name: "game_minecraft".to_string() }],
        signature: None,
        key_id: None,
    };
    assert!(owns_game(&body));
    let none = EntitlementsResponse { items: vec![], signature: None, key_id: None };
    assert!(!owns_game(&none));
}

#[test]
fn poll_errors_are_classified() {
    let e = |s: &str| TokenError { error: s.to_string() };
    assert!(matches!(classify_poll_error(e("authorization_pending")), PollOutcome::Pending));
    assert!(matches!(classify_poll_error(e("expired_token")), PollOutcome::Expired));
    assert!(matches!(classify_poll_error(e("access_denied")), PollOutcome::Denied));
    match classify_poll_error(e("bad_verification_code")) {
        PollOutcome::Failed(s) => assert_eq!(s, "bad_verification_code"),
        _ => panic!("unexpected outcome"),
    }
}

#[test]
fn refresh_builds_account_and_keeps_token() {
    let token = TokenResponse { access_token: "ms".to_string(), refresh_token: None, expires_in: 3600 };
    assert_eq!(next_refresh_token(&token.refresh_token, "old"), "old");
    assert_eq!(next_refresh_token(&Some("new".to_string()), "old"), "new");
    let acc: MicrosoftAccount = microsoft_account(
        &token,
        "mc".to_string(),
        MinecraftProfile { id: "id1".to_string(), name: "Alex".to_string() },
        1000,
    );
    assert_eq!(acc.username, "Alex");
    assert_eq!(acc.uuid, "id1");
    assert_eq!(acc.access_token, "mc");
    assert_eq!(acc.expires_at, 4600);
    let account = Account::Microsoft(acc);
    assert_eq!(account.access_token(), "mc");
}

#[test]
fn sign_in_chain_runs_hops_in_order() {
    let ms = TokenResponse { access_token: "ms".to_string(), refresh_token: Some("r".to_string()), expires_in: 60 };
    let (state, req) = begin_chain(ms);
    match &req {
        ChainRequest::XboxLive { rps_ticket } => assert_eq!(rps_ticket, "d=ms"),
        _ => panic!("expected the platform session hop"),
    }
    let xbox = XboxLiveResponse {
        token: "xbl".to_string(),
        display_claims: DisplayClaims { xui: vec![XuiClaim { uhs: Some("h".to_string()) }] },
    };
    let (state, req) = advance_chain(state, ChainReply::Xbox(xbox), 0);
    match &req {
        ChainRequest::Xsts { xbl_token } => assert_eq!(xbl_token, "xbl"),
        _ => panic!("expected the relying-party hop"),
    }
    let xsts = XboxLiveResponse { token: "xs".to_string(), display_claims: DisplayClaims { xui: vec![] } };
    let (state, req) = advance_chain(state, ChainReply::Xsts(xsts), 0);
    match &req {
        ChainRequest::GameLogin { identity_token } => assert_eq!(identity_token, "XBL3.0 x=h;xs"),
        _ => panic!("expected the game login"),
    }
    let (state, req) = advance_chain(
        state,
        ChainReply::GameLogin(MinecraftAuthResponse { access_token: "mc".to_string(), expires_in: 86400 }),
        0,
    );
    match &req {
        ChainRequest::Profile { bearer } => assert_eq!(bearer, "mc"),
        _ => panic!("expected the profile lookup"),
    }
    let (state, req) = advance_chain(
        state,
        ChainReply::Profile(MinecraftProfile { id: "id".to_string(), name: "Alex".to_string() }),
        100,
    );
    assert!(matches!(req, ChainRequest::Stop));
    match state {
        ChainState::Done(a) => {
            assert_eq!(a.username, "Alex");
            assert_eq!(a.access_token, "mc");
            assert_eq!(a.refresh_token.as_deref(), Some("r"));
            assert_eq!(a.expires_at, 160);
        }
        other => panic!("unexpected state {:?}", other),
    }
}

#[test]
fn sign_in_chain_stops_on_errors() {
    let ms = TokenResponse { access_token: "ms".to_string(), refresh_token: None, expires_in: 60 };
    let (state, _) = begin_chain(ms);
    let (state, req) = advance_chain(
        state,
        ChainReply::HttpError { hop: "Xbox Live auth".to_string(), status: 400, body: "bad".to_string() },
        0,
    );
    assert!(matches!(req, ChainRequest::Stop));
    match state {
        ChainState::Failed(e) => assert_eq!(e.message(), "Xbox Live auth failed: 400 - bad"),
        _ => panic!("expected failure"),
    }
    let ms = TokenResponse { access_token: "ms".to_string(), refresh_token: None, expires_in: 60 };
    let (state, _) = begin_chain(ms);
    let (state, _) = advance_chain(
        state,
        ChainReply::Profile(MinecraftProfile { id: "i".to_string(), name: "n".to_string() }),
        0,
    );
    assert!(matches!(state, ChainState::Failed(AuthError::UnexpectedReply)));
    let ms = TokenResponse { access_token: "ms".to_string(), refresh_token: None, expires_in: 60 };
    let (state, _) = begin_chain(ms);
    let no_hash = XboxLiveResponse { token: "t".to_string(), display_claims: DisplayClaims { xui: vec![] } };
    let (state, _) = advance_chain(state, ChainReply::Xbox(no_hash), 0);
    assert!(matches!(state, ChainState::Failed(AuthError::MissingUserHash)));
}
