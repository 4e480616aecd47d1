//! What holds of a client over its whole life: through any run of logins,
//! refreshes and logouts.

use crate::auth::{
    is_fresh, notification_for, AuthError, ClientState, Notification, RefreshPlan, Session,
    SessionChangeListener,
};
use crate::header::{
    all_names_valid, api_key_header, authorization_header, bearer,
    lemma_default_header_names, valid_header_value,
};
use crate::SupabaseError;
use vstd::prelude::*;

verus! {

/// Something that changes a client: an answer of the identity provider that
/// the client has taken.
pub enum Event {
    /// The answer to a login.
    Login(Result<Session, AuthError>),
    /// The answer to a refresh.
    Refresh(Result<Session, AuthError>),
    /// The answer to a logout.
    Logout(Result<(), AuthError>),
}

impl Event {
    /// The session that the event brings, if it brings one.
    pub open spec fn session(self) -> Option<Session> {
        match self {
            Event::Login(Ok(session)) => Some(session),
            Event::Refresh(Ok(session)) => Some(session),
            _ => None,
        }
    }

    /// Whether the client can take the event: a session that it brings has
    /// an access token that can be sent as a header.
    pub open spec fn acceptable(self) -> bool {
        self.session() matches Some(session) ==> valid_header_value(session.access_token@)
    }
}

impl ClientState {
    /// The client after an event.
    pub open spec fn after(self, event: Event) -> ClientState {
        match event {
            Event::Login(reply) => self.after_login(reply),
            Event::Refresh(reply) => self.after_refresh(reply),
            Event::Logout(_) => self.cleared(),
        }
    }

    /// What the listener is to be told of an event.
    pub open spec fn notice_of(self, event: Event) -> Notification {
        match event.session() {
            Some(session) => notification_for(self.listener, session),
            None => Notification::Skip,
        }
    }

    /// The client after a run of events, the first of them first.
    pub open spec fn after_all(self, events: Seq<Event>) -> ClientState
        decreases events.len(),
    {
        if events.len() == 0 {
            self
        } else {
            self.after_all(events.drop_last()).after(events.last())
        }
    }

    /// What the listener is to be told over a run of events: one entry for
    /// each event, in their order.
    pub open spec fn notices(self, events: Seq<Event>) -> Seq<Notification>
        decreases events.len(),
    {
        if events.len() == 0 {
            Seq::empty()
        } else {
            self.notices(events.drop_last()).push(
                self.after_all(events.drop_last()).notice_of(events.last()),
            )
        }
    }
}

/// How many events of a run bring a session.
pub open spec fn sessions_brought(events: Seq<Event>) -> nat
    decreases events.len(),
{
    if events.len() == 0 {
        0
    } else {
        sessions_brought(events.drop_last()) + if events.last().session() is Some {
            1nat
        } else {
            0nat
        }
    }
}

/// How many of the notifications ask for a delivery.
pub open spec fn deliveries(notices: Seq<Notification>) -> nat
    decreases notices.len(),
{
    if notices.len() == 0 {
        0
    } else {
        deliveries(notices.drop_last()) + if notices.last() == Notification::Skip {
            0nat
        } else {
            1nat
        }
    }
}

/// A client is well formed when it is made.
pub proof fn lemma_initial_is_well_formed(
    url: Seq<char>,
    api_key: Seq<char>,
    session: Option<Session>,
    listener: SessionChangeListener,
)
    requires
        valid_header_value(api_key),
        session matches Some(s) ==> valid_header_value(s.access_token@),
    ensures
        ClientState::initial(url, api_key, session, listener).well_formed(),
{
    lemma_default_header_names();
}

/// The headers that requests start from follow the store: the API key
/// always, and the bearer token of the session while there is one and only
/// then.
pub proof fn lemma_headers_follow_session(state: ClientState)
    requires
        state.well_formed(),
    ensures
        state.headers == ClientState::initial_headers(state.api_key, state.session),
        all_names_valid(state.headers),
        state.headers.contains_key(api_key_header()),
        state.headers[api_key_header()] == state.api_key,
        state.headers.contains_key(authorization_header()) <==> state.session is Some,
        state.session matches Some(session) ==> state.headers[authorization_header()] == bearer(
            session.access_token@,
        ),
{
    lemma_default_header_names();
}

/// While its session has the grace period before it, a client asks nothing
/// of the identity provider, and its session is the one it had.
pub proof fn lemma_fresh_session_is_kept(state: ClientState, session: Session, now: int)
    requires
        state.session == Some(session),
        is_fresh(session.expires_at as int, now),
    ensures
        state.refresh_plan(now) == Ok::<RefreshPlan, SupabaseError>(RefreshPlan::Keep),
{
}

/// Once its session has less than the grace period before it, a client asks
/// for one refresh, with the refresh token of that session; and when the
/// provider answers with a session, the store holds that session and no
/// other, and later requests carry its token.
pub proof fn lemma_stale_session_is_replaced(
    state: ClientState,
    session: Session,
    now: int,
    renewed: Session,
)
    requires
        state.well_formed(),
        state.session == Some(session),
        !is_fresh(session.expires_at as int, now),
        valid_header_value(renewed.access_token@),
    ensures
        state.refresh_plan(now) == Ok::<RefreshPlan, SupabaseError>(
            RefreshPlan::Renew { refresh_token: session.refresh_token },
        ),
        state.after_refresh(Ok(renewed)).session == Some(renewed),
        state.after_refresh(Ok(renewed)).headers[authorization_header()] == bearer(
            renewed.access_token@,
        ),
        state.after_refresh(Ok(renewed)).well_formed(),
{
    lemma_default_header_names();
}

/// A refresh that the provider turns down as a bad request empties the
/// store and takes the bearer token from the headers, and from then on
/// every operation that needs a session fails for want of one, at whatever
/// time it is tried.
pub proof fn lemma_rejected_refresh_logs_out(state: ClientState, cause: AuthError, now: int)
    requires
        cause.is_bad_request(),
    ensures
        state.after_refresh(Err(cause)).session is None,
        !state.after_refresh(Err(cause)).headers.contains_key(authorization_header()),
        state.refresh_result(Err(cause)) == Err::<Notification, SupabaseError>(
            SupabaseError::SessionRefresh(cause),
        ),
        state.after_refresh(Err(cause)).refresh_plan(now) == Err::<RefreshPlan, SupabaseError>(
            SupabaseError::MissingAuthenticationInformation,
        ),
{
}

/// A refresh that fails in any other way leaves the client as it was, with
/// the session it had.
pub proof fn lemma_failed_refresh_changes_nothing(state: ClientState, cause: AuthError)
    requires
        !cause.is_bad_request(),
    ensures
        state.after_refresh(Err(cause)) == state,
        state.refresh_result(Err(cause)) == Err::<Notification, SupabaseError>(
            SupabaseError::SessionRefresh(cause),
        ),
{
}

/// A login that fails leaves the client as it was.
pub proof fn lemma_failed_login_changes_nothing(state: ClientState, cause: AuthError)
    ensures
        state.after_login(Err(cause)) == state,
{
}

/// A logout empties the store, and takes the bearer token from the
/// headers, whatever the provider answered.
pub proof fn lemma_logout_always_clears(state: ClientState, reply: Result<(), AuthError>)
    ensures
        state.after(Event::Logout(reply)).session is None,
        !state.after(Event::Logout(reply)).headers.contains_key(authorization_header()),
{
}

/// No event changes the listener mode, the API key or the address of a
/// client, and a well-formed client stays well formed.
pub proof fn lemma_event_keeps_client(state: ClientState, event: Event)
    requires
        state.well_formed(),
        event.acceptable(),
    ensures
        state.after(event).well_formed(),
        state.after(event).listener == state.listener,
        state.after(event).api_key == state.api_key,
        state.after(event).url_base == state.url_base,
{
    lemma_default_header_names();
}

/// Through any run of events a client keeps its listener mode, its API key
/// and its address, and stays well formed: the API key is among its headers,
/// and while it has a session the bearer token is that of the session.
pub proof fn lemma_run_keeps_client(state: ClientState, events: Seq<Event>)
    requires
        state.well_formed(),
        forall|i: int| 0 <= i < events.len() ==> (#[trigger] events[i]).acceptable(),
    ensures
        state.after_all(events).well_formed(),
        state.after_all(events).listener == state.listener,
        state.after_all(events).api_key == state.api_key,
        state.after_all(events).url_base == state.url_base,
    decreases events.len(),
{
    if events.len() > 0 {
        let before = events.drop_last();
        assert forall|i: int| 0 <= i < before.len() implies (#[trigger] before[i]).acceptable() by {
            assert(before[i] == events[i]);
        }
        lemma_run_keeps_client(state, before);
        assert(events.last() == events[events.len() - 1]);
        lemma_event_keeps_client(state.after_all(before), events.last());
    }
}

/// Each event is answered by one notification: for an event that brings a
/// session, the one that the listener mode calls for, with that session;
/// for any other, none.
pub proof fn lemma_one_notice_for_each_event(state: ClientState, events: Seq<Event>, i: int)
    requires
        0 <= i < events.len(),
    ensures
        state.notices(events).len() == events.len(),
        state.notices(events)[i] == match events[i].session() {
            Some(session) => notification_for(state.listener, session),
            None => Notification::Skip,
        },
    decreases events.len(),
{
    let before = events.drop_last();
    lemma_notices_len(state, before);
    lemma_listener_stays(state, before);
    if i < events.len() - 1 {
        lemma_one_notice_for_each_event(state, before, i);
        assert(before[i] == events[i]);
    }
}

/// A run of events is answered by as many notifications.
pub proof fn lemma_notices_len(state: ClientState, events: Seq<Event>)
    ensures
        state.notices(events).len() == events.len(),
    decreases events.len(),
{
    if events.len() > 0 {
        lemma_notices_len(state, events.drop_last());
    }
}

/// The listener mode is fixed when the client is made: no run of events
/// changes it.
pub proof fn lemma_listener_stays(state: ClientState, events: Seq<Event>)
    ensures
        state.after_all(events).listener == state.listener,
    decreases events.len(),
{
    if events.len() > 0 {
        lemma_listener_stays(state, events.drop_last());
    }
}

/// Under the mode that ignores sessions nothing is ever delivered, however
/// many logins and refreshes succeed. Under the other two modes there is
/// one delivery for each login or refresh that succeeds, and no other.
pub proof fn lemma_deliveries_match_sessions(state: ClientState, events: Seq<Event>)
    ensures
        deliveries(state.notices(events)) == if state.listener == SessionChangeListener::Ignore {
            0
        } else {
            sessions_brought(events)
        },
    decreases events.len(),
{
    if events.len() > 0 {
        let before = events.drop_last();
        lemma_deliveries_match_sessions(state, before);
        lemma_listener_stays(state, before);
        let notices = state.notices(events);
        assert(notices.drop_last() =~= state.notices(before));
        assert(notices.last() == state.after_all(before).notice_of(events.last()));
    }
}

} // verus!
