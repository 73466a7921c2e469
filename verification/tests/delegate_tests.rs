use tao::delegate::{
    collect_open_urls, delegate_response, push_failure_message, push_token_bytes,
    url_accept_flags, url_accept_indices, ActivationPolicy, AppEvent, AuxDelegateState,
    DelegateCallback, PushError, TokenData,
};

#[test]
fn fresh_delegate_state_defaults() {
    let state = AuxDelegateState::default();
    assert_eq!(state.activation_policy, ActivationPolicy::Regular);
    assert!(state.activate_ignoring_other_apps);
}

#[test]
fn open_urls_keeps_exactly_the_parseable() {
    let urls = vec![
        String::from("https://example.com/a"),
        String::from("not a url"),
        String::from("file:///tmp/x"),
        String::from("not a url either"),
    ];
    let flags = url_accept_flags(&urls);
    assert_eq!(flags, vec![true, false, true, false]);
    let parsed = collect_open_urls(&urls);
    assert_eq!(parsed.len(), 2);
    assert_eq!(parsed[0].as_str(), "https://example.com/a");
    assert_eq!(parsed[1].as_str(), "file:///tmp/x");
}

#[test]
fn accepted_positions_match_the_kept_urls() {
    let urls = vec![
        String::from("bad"),
        String::from("https://example.com/one"),
        String::from("also bad"),
        String::from("https://example.com/two"),
    ];
    let indices = url_accept_indices(&urls);
    assert_eq!(indices, vec![1, 3]);
    let parsed = collect_open_urls(&urls);
    assert_eq!(parsed.len(), indices.len());
    for (url, &position) in parsed.iter().zip(indices.iter()) {
        assert_eq!(url.as_str(), urls[position]);
    }
}

#[test]
fn relative_urls_are_rejected() {
    let urls = vec![String::from("/just/a/path")];
    assert_eq!(url_accept_flags(&urls), vec![false]);
    assert!(collect_open_urls(&urls).is_empty());
}

#[test]
fn push_token_extraction() {
    assert_eq!(push_token_bytes(TokenData::Null), None);
    assert_eq!(push_token_bytes(TokenData::WrongClass), None);
    assert_eq!(
        push_token_bytes(TokenData::Bytes(vec![1, 2, 3])),
        Some(vec![1, 2, 3])
    );
}

#[test]
fn push_failure_messages() {
    assert_eq!(
        push_failure_message(PushError::NullError),
        Some(String::from("Unknown error (null error object)"))
    );
    // A valid error whose description is null still surfaces the
    // placeholder; only an object of the wrong class is dropped.
    assert_eq!(
        push_failure_message(PushError::NullDescription),
        Some(String::from("Unknown error (null error object)"))
    );
    assert_eq!(push_failure_message(PushError::WrongClass), None);
    assert_eq!(
        push_failure_message(PushError::Description(String::from("no APS entitlement"))),
        Some(String::from("no APS entitlement"))
    );
}

#[test]
fn launching_and_terminating_fan_out() {
    let r = delegate_response(DelegateCallback::DidFinishLaunching);
    assert!(matches!(r.event, Some(AppEvent::Launched)));
    let r = delegate_response(DelegateCallback::WillTerminate);
    assert!(matches!(r.event, Some(AppEvent::Exit)));
}

#[test]
fn reopen_echoes_visible_windows_flag() {
    let r = delegate_response(DelegateCallback::ShouldHandleReopen(true));
    assert!(matches!(r.event, Some(AppEvent::Reopen(true))));
    assert!(r.returned);
    let r = delegate_response(DelegateCallback::ShouldHandleReopen(false));
    assert!(matches!(r.event, Some(AppEvent::Reopen(false))));
    assert!(!r.returned);
}

#[test]
fn secure_restorable_state_is_affirmed_quietly() {
    let r = delegate_response(DelegateCallback::SupportsSecureRestorableState);
    assert!(r.event.is_none());
    assert!(r.returned);
}

#[test]
fn push_callbacks_dispatch() {
    let r = delegate_response(DelegateCallback::DidRegisterForPush(TokenData::Bytes(vec![9])));
    match r.event {
        Some(AppEvent::PushToken(b)) => assert_eq!(b, vec![9]),
        other => panic!("expected a push token event, got {:?}", other),
    }
    let r = delegate_response(DelegateCallback::DidRegisterForPush(TokenData::Null));
    assert!(r.event.is_none());

    let r = delegate_response(DelegateCallback::DidFailToRegisterForPush(PushError::NullError));
    match r.event {
        Some(AppEvent::PushRegistrationFailed(s)) => {
            assert_eq!(s, "Unknown error (null error object)")
        }
        other => panic!("expected a failure event, got {:?}", other),
    }
    let r = delegate_response(DelegateCallback::DidFailToRegisterForPush(
        PushError::NullDescription,
    ));
    match r.event {
        Some(AppEvent::PushRegistrationFailed(s)) => {
            assert_eq!(s, "Unknown error (null error object)")
        }
        other => panic!("expected a failure event, got {:?}", other),
    }
    let r = delegate_response(DelegateCallback::DidFailToRegisterForPush(PushError::WrongClass));
    assert!(r.event.is_none());
}

#[test]
fn open_urls_through_the_dispatcher() {
    let r = delegate_response(DelegateCallback::OpenUrls(vec![
        String::from("https://example.com"),
        String::from("%%%"),
    ]));
    match r.event {
        Some(AppEvent::OpenUrls(v)) => assert_eq!(v.len(), 1),
        other => panic!("expected an open-urls event, got {:?}", other),
    }
}
