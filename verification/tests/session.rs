use holomess::messages::HoloMessage;
use holomess::profiles::Profile;
use holomess::session::Session;
use holomess::session::SessionAction;
use holomess::session::SessionEvent;

#[test]
fn started_node_fetches_the_profile_first() {
    let mut session = Session::new();
    assert!(!session.should_poll());
    let action = session.update(SessionEvent::HappStarted(Ok(())));
    assert!(matches!(action, SessionAction::FetchProfile));
    match &session {
        Session::Running(s) => {
            assert!(s.loading_profile);
            assert!(s.profile.is_none());
        }
        _ => panic!("session must be running"),
    }
}

#[test]
fn failed_start_is_terminal() {
    let mut session = Session::new();
    let action = session.update(SessionEvent::HappStarted(Err("boom".to_string())));
    assert!(matches!(action, SessionAction::Idle));
    assert!(matches!(&session, Session::Failed(m) if m == "boom"));
    let action = session.update(SessionEvent::CreateProfile);
    assert!(matches!(action, SessionAction::Idle));
    assert!(matches!(&session, Session::Failed(_)));
}

#[test]
fn found_profile_triggers_a_message_fetch() {
    let mut session = Session::new();
    session.update(SessionEvent::HappStarted(Ok(())));
    let action = session.update(SessionEvent::ProfileFetched(Ok(Some(Profile {
        nickname: b"peer".to_vec(),
    }))));
    assert!(matches!(action, SessionAction::FetchMessages));
    assert!(session.should_poll());
}

#[test]
fn missing_profile_waits_for_the_user() {
    let mut session = Session::new();
    session.update(SessionEvent::HappStarted(Ok(())));
    let action = session.update(SessionEvent::ProfileFetched(Ok(None)));
    assert!(matches!(action, SessionAction::Idle));
    assert!(!session.should_poll());

    // the user types a nickname and submits it
    session.update(SessionEvent::NicknameChanged(b"peer".to_vec()));
    let action = session.update(SessionEvent::CreateProfile);
    assert!(matches!(action, SessionAction::CreateProfile(n) if n == b"peer".to_vec()));
    let action = session.update(SessionEvent::ProfileCreated(Ok(Profile {
        nickname: b"peer".to_vec(),
    })));
    assert!(matches!(action, SessionAction::Idle));
    assert!(session.should_poll());
}

#[test]
fn submitting_a_message_saves_then_refetches() {
    let mut session = Session::new();
    session.update(SessionEvent::HappStarted(Ok(())));
    session.update(SessionEvent::ProfileFetched(Ok(Some(Profile { nickname: b"p".to_vec() }))));
    session.update(SessionEvent::HoloMessageChanged(b"hello".to_vec()));

    let action = session.update(SessionEvent::CreateHoloMessage);
    assert!(matches!(action, SessionAction::CreateMessage(t) if t == b"hello".to_vec()));
    match &session {
        Session::Running(s) => assert!(s.saving_message),
        _ => panic!("session must be running"),
    }

    let action = session.update(SessionEvent::HoloMessageCreated(Ok(0)));
    assert!(matches!(action, SessionAction::FetchMessages));
    match &session {
        Session::Running(s) => {
            assert!(!s.saving_message);
            assert!(s.current_message.is_empty());
            assert!(s.loading_messages);
        }
        _ => panic!("session must be running"),
    }

    let fetched = vec![HoloMessage { text: b"hello".to_vec() }];
    let action = session.update(SessionEvent::HoloMessagesFetched(Ok(fetched.clone())));
    assert!(matches!(action, SessionAction::Idle));
    match &session {
        Session::Running(s) => {
            assert!(!s.loading_messages);
            assert_eq!(s.holo_messages, fetched);
        }
        _ => panic!("session must be running"),
    }
}

#[test]
fn call_failures_surface_as_error_messages() {
    let mut session = Session::new();
    session.update(SessionEvent::HappStarted(Ok(())));
    session.update(SessionEvent::ProfileFetched(Err("down".to_string())));
    match &session {
        Session::Running(s) => {
            assert!(!s.loading_profile);
            assert_eq!(s.error_message.as_deref(), Some("down"));
        }
        _ => panic!("session must be running"),
    }
}
