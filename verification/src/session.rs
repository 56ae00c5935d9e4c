//! The interactive session over a running node: the state a user interface
//! observes, and every decision of its event loop.  The surrounding process
//! performs the asynchronous work — starting the node, the profile and
//! message calls — and reports each outcome back as an event; this module
//! decides what each event means and which operation to perform next.

use vstd::prelude::*;
use crate::messages::HoloMessage;
use crate::profiles::Profile;

verus! {

/// The state of a running session.
#[derive(Debug)]
pub struct State {
    pub error_message: Option<String>,
    pub nickname: Vec<u8>,
    pub profile: Option<Profile>,
    pub loading_profile: bool,
    pub loading_messages: bool,
    pub saving_message: bool,
    pub current_message: Vec<u8>,
    pub holo_messages: Vec<HoloMessage>,
}

impl State {
    /// Nothing loaded, nothing pending, nothing typed.
    pub open spec fn is_fresh(self) -> bool {
        &&& self.error_message is None
        &&& self.nickname.len() == 0
        &&& self.profile is None
        &&& !self.loading_profile
        &&& !self.loading_messages
        &&& !self.saving_message
        &&& self.current_message.len() == 0
        &&& self.holo_messages.len() == 0
    }

    /// A fresh running-session state.
    pub fn new() -> (r: State)
        ensures
            r.is_fresh(),
    {
        State {
            error_message: None,
            nickname: Vec::new(),
            profile: None,
            loading_profile: false,
            loading_messages: false,
            saving_message: false,
            current_message: Vec::new(),
            holo_messages: Vec::new(),
        }
    }
}

/// What the surrounding process reports into the session: the outcome of
/// the startup or of one asynchronous call, or the user's input.
#[derive(Debug)]
pub enum SessionEvent {
    /// The node finished starting, or failed with a reason.
    HappStarted(Result<(), String>),
    /// The user edited the nickname field.
    NicknameChanged(Vec<u8>),
    /// A fetch-profile call returned.
    ProfileFetched(Result<Option<Profile>, String>),
    /// The user submitted the nickname.
    CreateProfile,
    /// A create-profile call returned.
    ProfileCreated(Result<Profile, String>),
    /// The user edited the message field.
    HoloMessageChanged(Vec<u8>),
    /// The user submitted the message.
    CreateHoloMessage,
    /// A create-message call returned the new record's identity.
    HoloMessageCreated(Result<u64, String>),
    /// A fetch-messages call returned.
    HoloMessagesFetched(Result<Vec<HoloMessage>, String>),
}

/// The asynchronous operation the session asks for next.
#[derive(Debug)]
pub enum SessionAction {
    /// Fetch the acting agent's profile.
    FetchProfile,
    /// Fetch all messages.
    FetchMessages,
    /// Create a profile with this nickname.
    CreateProfile(Vec<u8>),
    /// Create a message with this text.
    CreateMessage(Vec<u8>),
    /// Nothing.
    Idle,
}

/// Advance a running session's state on one event.
pub fn step_running(state: &mut State, event: SessionEvent) -> (a: SessionAction)
    ensures
        event matches SessionEvent::ProfileFetched(Ok(Some(p))) ==> *final(state) == (State {
            loading_profile: false,
            profile: Some(p),
            loading_messages: true,
            ..*old(state)
        }) && a is FetchMessages,
        event matches SessionEvent::ProfileFetched(Ok(o)) && o is None ==> *final(state) == (State {
            loading_profile: false,
            profile: None,
            ..*old(state)
        }) && a is Idle,
        event matches SessionEvent::ProfileFetched(Err(m)) ==> *final(state) == (State {
            loading_profile: false,
            error_message: Some(m),
            ..*old(state)
        }) && a is Idle,
        event matches SessionEvent::NicknameChanged(n) ==> *final(state) == (State {
            nickname: n,
            ..*old(state)
        }) && a is Idle,
        event matches SessionEvent::HoloMessageChanged(t) ==> *final(state) == (State {
            current_message: t,
            ..*old(state)
        }) && a is Idle,
        event matches SessionEvent::CreateHoloMessage ==> *final(state) == (State {
            saving_message: true,
            ..*old(state)
        }) && (a matches SessionAction::CreateMessage(t) && t@ == old(state).current_message@),
        event matches SessionEvent::HoloMessageCreated(Ok(_)) ==> *final(state) == (State {
            saving_message: false,
            current_message: final(state).current_message,
            loading_messages: true,
            ..*old(state)
        }) && final(state).current_message@.len() == 0 && a is FetchMessages,
        event matches SessionEvent::HoloMessageCreated(Err(m)) ==> *final(state) == (State {
            saving_message: false,
            error_message: Some(m),
            ..*old(state)
        }) && a is Idle,
        event matches SessionEvent::CreateProfile ==> *final(state) == *old(state) && (a matches
            SessionAction::CreateProfile(n) && n@ == old(state).nickname@),
        event matches SessionEvent::ProfileCreated(Ok(p)) ==> *final(state) == (State {
            profile: Some(p),
            ..*old(state)
        }) && a is Idle,
        event matches SessionEvent::ProfileCreated(Err(m)) ==> *final(state) == (State {
            error_message: Some(m),
            ..*old(state)
        }) && a is Idle,
        event matches SessionEvent::HoloMessagesFetched(Ok(msgs)) ==> *final(state) == (State {
            loading_messages: false,
            holo_messages: msgs,
            ..*old(state)
        }) && a is Idle,
        event matches SessionEvent::HoloMessagesFetched(Err(m)) ==> *final(state) == (State {
            loading_messages: false,
            error_message: Some(m),
            ..*old(state)
        }) && a is Idle,
        event matches SessionEvent::HappStarted(_) ==> *final(state) == *old(state) && a is Idle,
{
    match event {
        SessionEvent::ProfileFetched(Ok(Some(p))) => {
            state.loading_profile = false;
            state.profile = Some(p);
            state.loading_messages = true;
            SessionAction::FetchMessages
        },
        SessionEvent::ProfileFetched(Ok(None)) => {
            state.loading_profile = false;
            state.profile = None;
            SessionAction::Idle
        },
        SessionEvent::ProfileFetched(Err(m)) => {
            state.loading_profile = false;
            state.error_message = Some(m);
            SessionAction::Idle
        },
        SessionEvent::NicknameChanged(n) => {
            state.nickname = n;
            SessionAction::Idle
        },
        SessionEvent::HoloMessageChanged(t) => {
            state.current_message = t;
            SessionAction::Idle
        },
        SessionEvent::CreateHoloMessage => {
            state.saving_message = true;
            SessionAction::CreateMessage(
                vstd::slice::slice_to_vec(state.current_message.as_slice()),
            )
        },
        SessionEvent::HoloMessageCreated(Ok(_)) => {
            state.saving_message = false;
            state.current_message = Vec::new();
            state.loading_messages = true;
            SessionAction::FetchMessages
        },
        SessionEvent::HoloMessageCreated(Err(m)) => {
            state.saving_message = false;
            state.error_message = Some(m);
            SessionAction::Idle
        },
        SessionEvent::CreateProfile => {
            SessionAction::CreateProfile(vstd::slice::slice_to_vec(state.nickname.as_slice()))
        },
        SessionEvent::ProfileCreated(Ok(p)) => {
            state.profile = Some(p);
            SessionAction::Idle
        },
        SessionEvent::ProfileCreated(Err(m)) => {
            state.error_message = Some(m);
            SessionAction::Idle
        },
        SessionEvent::HoloMessagesFetched(Ok(msgs)) => {
            state.loading_messages = false;
            state.holo_messages = msgs;
            SessionAction::Idle
        },
        SessionEvent::HoloMessagesFetched(Err(m)) => {
            state.loading_messages = false;
            state.error_message = Some(m);
            SessionAction::Idle
        },
        SessionEvent::HappStarted(_) => SessionAction::Idle,
    }
}

/// A session over one node: starting up, running, or failed for good.
#[derive(Debug)]
pub enum Session {
    /// The node is starting.
    Starting,
    /// The node serves; the interface state lives here.
    Running(State),
    /// Startup failed with this reason; terminal.
    Failed(String),
}

impl Session {
    /// A session whose node is starting.
    pub fn new() -> (r: Session)
        ensures
            r is Starting,
    {
        Session::Starting
    }

    /// Whether the session should poll for new messages: only a running
    /// session with a known profile keeps fetching.
    pub open spec fn spec_should_poll(self) -> bool {
        self matches Session::Running(s) && s.profile is Some
    }

    /// Whether the session should poll for new messages.
    pub fn should_poll(&self) -> (r: bool)
        ensures
            r == self.spec_should_poll(),
    {
        match self {
            Session::Running(s) => s.profile.is_some(),
            _ => false,
        }
    }

    /// Advance the session on one event.
    ///
    /// While starting, a started node opens a running session that first
    /// fetches the profile, and a failed start is terminal with its
    /// reason.  A running session advances by `step_running`.  A failed
    /// session ignores everything.
    pub fn update(&mut self, event: SessionEvent) -> (a: SessionAction)
        ensures
            *old(self) is Starting ==> match event {
                SessionEvent::HappStarted(Ok(_)) => (*final(self) matches Session::Running(s)
                    && s.loading_profile && s.error_message is None && s.profile is None
                    && s.nickname.len() == 0 && s.current_message.len() == 0
                    && s.holo_messages.len() == 0 && !s.loading_messages && !s.saving_message)
                    && a is FetchProfile,
                SessionEvent::HappStarted(Err(m)) => (*final(self) matches Session::Failed(r2) && r2@
                    == m@) && a is Idle,
                _ => *final(self) is Starting && a is Idle,
            },
            *old(self) matches Session::Failed(m) ==> (*final(self) matches Session::Failed(m2)
                && m2@ == m@) && a is Idle,
            *old(self) matches Session::Running(s1) ==> (*final(self) matches Session::Running(s2)
                && match event {
                    SessionEvent::ProfileFetched(Ok(Some(p))) => s2 == (State {
                        loading_profile: false,
                        profile: Some(p),
                        loading_messages: true,
                        ..s1
                    }) && a is FetchMessages,
                    SessionEvent::ProfileFetched(Ok(None)) => s2 == (State {
                        loading_profile: false,
                        profile: None,
                        ..s1
                    }) && a is Idle,
                    SessionEvent::ProfileFetched(Err(m)) => s2 == (State {
                        loading_profile: false,
                        error_message: Some(m),
                        ..s1
                    }) && a is Idle,
                    SessionEvent::NicknameChanged(n) => s2 == (State { nickname: n, ..s1 }) && a
                        is Idle,
                    SessionEvent::HoloMessageChanged(t) => s2 == (State {
                        current_message: t,
                        ..s1
                    }) && a is Idle,
                    SessionEvent::CreateHoloMessage => s2 == (State {
                        saving_message: true,
                        ..s1
                    }) && (a matches SessionAction::CreateMessage(t) && t@
                        == s1.current_message@),
                    SessionEvent::HoloMessageCreated(Ok(_)) => s2 == (State {
                        saving_message: false,
                        current_message: s2.current_message,
                        loading_messages: true,
                        ..s1
                    }) && s2.current_message@.len() == 0 && a is FetchMessages,
                    SessionEvent::HoloMessageCreated(Err(m)) => s2 == (State {
                        saving_message: false,
                        error_message: Some(m),
                        ..s1
                    }) && a is Idle,
                    SessionEvent::CreateProfile => s2 == s1 && (a matches
                        SessionAction::CreateProfile(n) && n@ == s1.nickname@),
                    SessionEvent::ProfileCreated(Ok(p)) => s2 == (State {
                        profile: Some(p),
                        ..s1
                    }) && a is Idle,
                    SessionEvent::ProfileCreated(Err(m)) => s2 == (State {
                        error_message: Some(m),
                        ..s1
                    }) && a is Idle,
                    SessionEvent::HoloMessagesFetched(Ok(msgs)) => s2 == (State {
                        loading_messages: false,
                        holo_messages: msgs,
                        ..s1
                    }) && a is Idle,
                    SessionEvent::HoloMessagesFetched(Err(m)) => s2 == (State {
                        loading_messages: false,
                        error_message: Some(m),
                        ..s1
                    }) && a is Idle,
                    SessionEvent::HappStarted(_) => s2 == s1 && a is Idle,
                }),
    {
        match self {
            Session::Starting => match event {
                SessionEvent::HappStarted(Ok(_)) => {
                    let mut s = State::new();
                    s.loading_profile = true;
                    *self = Session::Running(s);
                    SessionAction::FetchProfile
                },
                SessionEvent::HappStarted(Err(m)) => {
                    *self = Session::Failed(m);
                    SessionAction::Idle
                },
                _ => SessionAction::Idle,
            },
            Session::Running(state) => step_running(state, event),
            Session::Failed(_) => SessionAction::Idle,
        }
    }
}

} // verus!
