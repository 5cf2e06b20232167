use theme_vote::auth::{
    authorize_url, handle_callback, poll_step, AuthError, CallbackOutcome, CallbackPage, PollAction,
    TokenCell, DEADLINE_MS, POLL_INTERVAL_MS,
};

#[test]
fn empty_cell_times_out_only_after_deadline() {
    let mut elapsed = 0u64;
    let cell = TokenCell::new();
    loop {
        elapsed += POLL_INTERVAL_MS;
        match poll_step(elapsed, &cell.get()) {
            PollAction::Wait => continue,
            PollAction::Finish(Err(AuthError::Timeout)) => break,
            other => panic!("unexpected {:?}", other),
        }
    }
    assert!(elapsed > DEADLINE_MS);
    assert!(elapsed <= DEADLINE_MS + POLL_INTERVAL_MS);
    assert!(matches!(poll_step(120_000, &None), PollAction::Wait));
    assert!(matches!(poll_step(120_001, &None), PollAction::Finish(Err(AuthError::Timeout))));
}

#[test]
fn provider_error_ends_at_once() {
    let mut cell = TokenCell::new();
    let page = handle_callback(&mut cell, None, Some("access_denied".to_string()));
    assert_eq!(page, CallbackPage::Failed("access_denied".to_string()));
    match poll_step(500, &cell.get()) {
        PollAction::Finish(Err(AuthError::ProviderError(d))) => assert_eq!(d, "access_denied"),
        other => panic!("unexpected {:?}", other),
    }
}

#[test]
fn token_is_returned() {
    let mut cell = TokenCell::new();
    assert_eq!(handle_callback(&mut cell, None, None), CallbackPage::Relay);
    assert!(cell.get().is_none());
    assert_eq!(handle_callback(&mut cell, Some("tok".to_string()), None), CallbackPage::Relay);
    assert!(cell.get().is_some());
    match poll_step(1_000_000, &cell.get()) {
        PollAction::Finish(Ok(t)) => assert_eq!(t, "tok"),
        other => panic!("unexpected {:?}", other),
    }
}

#[test]
fn error_parameter_wins_over_token() {
    let mut cell = TokenCell::new();
    let page = handle_callback(&mut cell, Some("tok".to_string()), Some("bad".to_string()));
    assert_eq!(page, CallbackPage::Failed("bad".to_string()));
    assert!(matches!(cell.get(), Some(CallbackOutcome::Failure(d)) if d == "bad"));
}

#[test]
fn cell_keeps_last_write_and_is_not_consumed() {
    let mut cell = TokenCell::new();
    cell.set(CallbackOutcome::Token("a".to_string()));
    cell.set(CallbackOutcome::Token("b".to_string()));
    assert!(matches!(cell.get(), Some(CallbackOutcome::Token(t)) if t == "b"));
    assert!(matches!(cell.get(), Some(CallbackOutcome::Token(t)) if t == "b"));
}

#[test]
fn authorize_url_embeds_callback() {
    assert_eq!(
        authorize_url("https://example.supabase.co"),
        "https://example.supabase.co/auth/v1/authorize?provider=discord&redirect_to=http://localhost:8080/callback"
    );
}
