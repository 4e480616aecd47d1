//! Sessions, and the rules by which a client keeps one fresh.

use crate::header::{
    api_key_header, authorization_header, bearer, lemma_bearer_is_valid,
    lemma_default_header_names, valid_header_value, HeaderFields,
};
use crate::external::postgrest_rs::Postgrest;
use crate::{Supabase, SupabaseError};
use vstd::prelude::*;
use vstd::string::StringExecFns;

pub use supabase_auth::models::{LogoutScope, User};

verus! {

/// `supabase_auth::models::User`: the identity that owns a session. The
/// library reads nothing of it and hands it on as it came.
#[verifier::external_type_specification]
#[verifier::external_body]
pub struct ExUser(User);

/// A session is renewed once it has less than this many seconds to live.
pub const SESSION_REFRESH_GRACE_PERIOD_SECONDS: i64 = 60;

/// One authenticated login, as the identity provider issued it.
///
/// A session is never edited: a login or a refresh puts a whole new one in
/// its place.
#[derive(Debug, PartialEq)]
pub struct Session {
    pub provider_token: Option<String>,
    pub provider_refresh_token: Option<String>,
    /// The bearer token that requests carry.
    pub access_token: String,
    pub token_type: String,
    pub expires_in: i64,
    /// When the access token runs out, in seconds since the Unix epoch.
    pub expires_at: u64,
    /// The token that buys the next session.
    pub refresh_token: String,
    /// Whose session this is.
    pub user: User,
}

/// `User::clone`: a second value equal to the first.
#[verifier::external_body]
fn copy_user(user: &User) -> (copy: User)
    ensures
        copy == *user,
{
    user.clone()
}

fn copy_text(text: &Option<String>) -> (copy: Option<String>)
    ensures
        copy == *text,
{
    match text {
        Some(s) => Some(s.clone()),
        None => None,
    }
}

impl Clone for Session {
    fn clone(&self) -> (copy: Self)
        ensures
            copy == *self,
    {
        Session {
            provider_token: copy_text(&self.provider_token),
            provider_refresh_token: copy_text(&self.provider_refresh_token),
            access_token: self.access_token.clone(),
            token_type: self.token_type.clone(),
            expires_in: self.expires_in,
            expires_at: self.expires_at,
            refresh_token: self.refresh_token.clone(),
            user: copy_user(&self.user),
        }
    }
}

/// What the identity provider said when it turned a request down.
#[derive(Debug, PartialEq, Eq)]
pub struct AuthError {
    /// The HTTP status of the provider's answer, where it gave one.
    pub status: Option<u16>,
    pub message: String,
}

/// The HTTP status with which the provider turns a refresh token down.
pub const BAD_REQUEST: u16 = 400;

impl AuthError {
    /// Whether the provider answered that the request itself was bad. For a
    /// refresh this means that the refresh token is used up or has run out:
    /// no later attempt with it can succeed.
    pub open spec fn is_bad_request(self) -> bool {
        self.status == Some(BAD_REQUEST)
    }

    /// Whether the provider answered that the request itself was bad.
    pub fn bad_request(&self) -> (bad: bool)
        ensures
            bad == self.is_bad_request(),
    {
        match self.status {
            Some(status) => status == BAD_REQUEST,
            None => false,
        }
    }
}

/// How a client tells its owner of a new session. The mode is chosen when the
/// client is made and stays.
#[derive(Clone, Copy, Debug, PartialEq, Eq, Structural)]
pub enum SessionChangeListener {
    /// Nobody is told.
    Ignore,
    /// The session is offered to a channel at once; if the channel has no
    /// room or no reader, it is dropped.
    Sync,
    /// The session is handed to a channel, waiting for room; if the channel
    /// has no reader, it is dropped.
    Async,
}

/// What the caller has to do with a new session, by the client's listener
/// mode. A delivery that fails is logged and forgotten: it never fails the
/// operation that brought the session.
#[derive(Debug, PartialEq)]
pub enum Notification {
    /// Nothing.
    Skip,
    /// Offer the session to the channel without waiting.
    Offer(Session),
    /// Hand the session to the channel, waiting for room.
    Deliver(Session),
}

/// The notification that a new session calls for under a listener mode.
pub open spec fn notification_for(listener: SessionChangeListener, session: Session)
    -> Notification {
    match listener {
        SessionChangeListener::Ignore => Notification::Skip,
        SessionChangeListener::Sync => Notification::Offer(session),
        SessionChangeListener::Async => Notification::Deliver(session),
    }
}

/// What to do before an operation that needs a session.
#[derive(Debug, PartialEq, Eq)]
pub enum RefreshPlan {
    /// The session lasts long enough: go ahead.
    Keep,
    /// The session is about to run out: ask the identity provider for a new
    /// one with this refresh token, and hand its answer back.
    Renew { refresh_token: String },
}

/// A client as the contracts see it.
pub struct ClientState {
    /// The session store: the one session of the client, or none.
    pub session: Option<Session>,
    pub listener: SessionChangeListener,
    /// The headers that requests to the data API start from.
    pub headers: HeaderFields,
    pub api_key: Seq<char>,
    pub url_base: Seq<char>,
}

/// Whether a session that runs out at `expires_at` still has the grace
/// period before it at the time `now`.
pub open spec fn is_fresh(expires_at: int, now: int) -> bool {
    expires_at >= now + SESSION_REFRESH_GRACE_PERIOD_SECONDS
}

impl ClientState {
    /// The headers are the API key and, while the client has a session and
    /// only then, the bearer token of that session. Both can be sent as
    /// header values.
    pub open spec fn well_formed(self) -> bool {
        &&& valid_header_value(self.api_key)
        &&& self.session matches Some(s) ==> valid_header_value(s.access_token@)
        &&& self.headers =~= Self::initial_headers(self.api_key, self.session)
    }

    /// The headers that a client starts with.
    pub open spec fn initial_headers(api_key: Seq<char>, session: Option<Session>)
        -> HeaderFields {
        let with_key = HeaderFields::empty().insert(api_key_header(), api_key);
        match session {
            Some(s) => with_key.insert(authorization_header(), bearer(s.access_token@)),
            None => with_key,
        }
    }

    /// A client as it is made.
    pub open spec fn initial(
        url: Seq<char>,
        api_key: Seq<char>,
        session: Option<Session>,
        listener: SessionChangeListener,
    ) -> ClientState {
        ClientState {
            session,
            listener,
            headers: Self::initial_headers(api_key, session),
            api_key,
            url_base: url,
        }
    }

    /// The client after it has taken a new session: the session is in the
    /// store, whole, and its token is the bearer token of later requests.
    pub open spec fn with_session(self, session: Session) -> ClientState {
        ClientState {
            session: Some(session),
            headers: self.headers.insert(authorization_header(), bearer(session.access_token@)),
            ..self
        }
    }

    /// The client after it has dropped its session: the store is empty, and
    /// no bearer token is among the headers.
    pub open spec fn cleared(self) -> ClientState {
        ClientState {
            session: None,
            headers: self.headers.remove(authorization_header()),
            ..self
        }
    }

    /// What to do at the time `now` before an operation that needs a
    /// session.
    pub open spec fn refresh_plan(self, now: int) -> Result<RefreshPlan, SupabaseError> {
        match self.session {
            None => Err(SupabaseError::MissingAuthenticationInformation),
            Some(session) => if is_fresh(session.expires_at as int, now) {
                Ok(RefreshPlan::Keep)
            } else {
                Ok(RefreshPlan::Renew { refresh_token: session.refresh_token })
            },
        }
    }

    /// The client after the identity provider has answered a refresh.
    pub open spec fn after_refresh(self, reply: Result<Session, AuthError>) -> ClientState {
        match reply {
            Ok(session) => self.with_session(session),
            Err(cause) => if cause.is_bad_request() {
                self.cleared()
            } else {
                self
            },
        }
    }

    /// What a refresh comes to, by the identity provider's answer.
    pub open spec fn refresh_result(self, reply: Result<Session, AuthError>) -> Result<
        Notification,
        SupabaseError,
    > {
        match reply {
            Ok(session) => Ok(notification_for(self.listener, session)),
            Err(cause) => Err(SupabaseError::SessionRefresh(cause)),
        }
    }

    /// The client after the identity provider has answered a login: with the
    /// new session if it gave one, else as before.
    pub open spec fn after_login(self, reply: Result<Session, AuthError>) -> ClientState {
        match reply {
            Ok(session) => self.with_session(session),
            Err(_) => self,
        }
    }

    /// What a login comes to, by the identity provider's answer.
    pub open spec fn login_result(self, reply: Result<Session, AuthError>) -> Result<
        (Session, Notification),
        SupabaseError,
    > {
        match reply {
            Ok(session) => Ok((session, notification_for(self.listener, session))),
            Err(cause) => Err(SupabaseError::Auth(cause)),
        }
    }

    /// The request that updates the user with `user_info`: it carries the
    /// access token that the store holds when it is made.
    pub open spec fn update_request(self, user_info: UpdateUserPayload) -> Result<
        UpdateUserRequest,
        SupabaseError,
    > {
        match self.session {
            Some(session) => Ok(
                UpdateUserRequest { access_token: session.access_token, user_info },
            ),
            None => Err(SupabaseError::MissingAuthenticationInformation),
        }
    }
}

/// What a logout comes to, by the identity provider's answer.
pub open spec fn logout_result(reply: Result<(), AuthError>) -> Result<(), SupabaseError> {
    match reply {
        Ok(_) => Ok(()),
        Err(cause) => Err(SupabaseError::Auth(cause)),
    }
}

/// The changes that an update of the user asks for. A field that is `None`
/// stays as it is.
#[derive(Debug, PartialEq, Eq)]
pub struct UpdateUserPayload {
    pub email: Option<String>,
    pub password: Option<String>,
}

/// A request to the identity provider to update the user.
#[derive(Debug, PartialEq, Eq)]
pub struct UpdateUserRequest {
    /// The bearer token to send the request with.
    pub access_token: String,
    pub user_info: UpdateUserPayload,
}

/// Collects the changes for an update of the user. Nothing is asked of the
/// identity provider until the request is made with
/// [`UpdateUserBuilder::send`].
pub struct UpdateUserBuilder {
    user_info: UpdateUserPayload,
}

impl UpdateUserBuilder {
    /// The changes collected so far.
    pub closed spec fn payload(self) -> UpdateUserPayload {
        self.user_info
    }

    /// Makes the request. The access token is read from `client` now, not
    /// when the builder was made: a session renewed in between is used.
    pub fn send(self, client: &Supabase) -> (request: Result<UpdateUserRequest, SupabaseError>)
        ensures
            request == client@.update_request(self.payload()),
    {
        match client.access_token() {
            Ok(access_token) => Ok(UpdateUserRequest { access_token, user_info: self.user_info }),
            Err(error) => Err(error),
        }
    }

    /// Asks for `email` to become the user's e-mail address.
    pub fn email(self, email: &str) -> (builder: Self)
        ensures
            builder.payload().email matches Some(text) && text@ == email@,
            builder.payload().password == self.payload().password,
    {
        let UpdateUserBuilder { user_info } = self;
        UpdateUserBuilder {
            user_info: UpdateUserPayload {
                email: Some(String::from_str(email)),
                password: user_info.password,
            },
        }
    }

    /// Asks for `password` to become the user's password.
    pub fn password(self, password: &str) -> (builder: Self)
        ensures
            builder.payload().password matches Some(text) && text@ == password@,
            builder.payload().email == self.payload().email,
    {
        let UpdateUserBuilder { user_info } = self;
        UpdateUserBuilder {
            user_info: UpdateUserPayload {
                email: user_info.email,
                password: Some(String::from_str(password)),
            },
        }
    }
}

/// A well-formed client starts its requests from at most two headers.
pub proof fn lemma_few_headers(state: ClientState)
    requires
        state.well_formed(),
    ensures
        state.headers.dom().finite(),
        state.headers.dom().len() <= 2,
{
    let both = Set::<Seq<char>>::empty().insert(api_key_header()).insert(authorization_header());
    assert(state.headers.dom().subset_of(both));
    vstd::set_lib::lemma_len_subset(state.headers.dom(), both);
}

/// A well-formed client that takes a session whose token can be sent, or
/// drops its session, is well formed.
pub proof fn lemma_store_changes_keep_well_formed(state: ClientState, session: Session)
    requires
        state.well_formed(),
        valid_header_value(session.access_token@),
    ensures
        state.with_session(session).well_formed(),
        state.cleared().well_formed(),
{
    lemma_default_header_names();
}

/// `chrono::Utc::now().timestamp()`: the time by the machine's clock, in
/// seconds since the Unix epoch. Nothing is known of it beforehand.
#[verifier::external_body]
fn now_as_epoch() -> i64 {
    chrono::Utc::now().timestamp()
}

impl Supabase {
    /// Whether the client has a session, which is to say whether it counts
    /// as logged in.
    pub fn has_valid_auth_state(&self) -> (logged_in: bool)
        ensures
            logged_in == self@.session.is_some(),
    {
        self.session.is_some()
    }

    /// The session in the store, if there is one.
    pub fn session(&self) -> (session: Option<Session>)
        ensures
            session == self@.session,
    {
        match &self.session {
            Some(session) => Some(session.clone()),
            None => None,
        }
    }

    /// The user whose session the client holds, if it holds one.
    pub fn user(&self) -> (user: Option<User>)
        ensures
            user == match self@.session {
                Some(session) => Some(session.user),
                None => None,
            },
    {
        match &self.session {
            Some(session) => Some(copy_user(&session.user)),
            None => None,
        }
    }

    /// The access token of the session in the store, for a request that has
    /// to carry it.
    pub fn access_token(&self) -> (token: Result<String, SupabaseError>)
        ensures
            token == match self@.session {
                Some(session) => Ok::<String, SupabaseError>(session.access_token),
                None => Err(SupabaseError::MissingAuthenticationInformation),
            },
    {
        match &self.session {
            Some(session) => Ok(session.access_token.clone()),
            None => Err(SupabaseError::MissingAuthenticationInformation),
        }
    }

    /// Says what to do, at the time `now`, before an operation that needs a
    /// session: nothing while the session has the grace period before it,
    /// else a refresh with the session's refresh token. Without a session
    /// the operation fails.
    ///
    /// `now` is in seconds since the Unix epoch. The client is not changed.
    pub fn refresh_login_at(&self, now: i64) -> (plan: Result<RefreshPlan, SupabaseError>)
        ensures
            plan == self@.refresh_plan(now as int),
    {
        match &self.session {
            None => Err(SupabaseError::MissingAuthenticationInformation),
            Some(session) => {
                let deadline: i128 = now as i128 + SESSION_REFRESH_GRACE_PERIOD_SECONDS as i128;
                if session.expires_at as i128 >= deadline {
                    Ok(RefreshPlan::Keep)
                } else {
                    Ok(RefreshPlan::Renew { refresh_token: session.refresh_token.clone() })
                }
            },
        }
    }

    /// [`Supabase::refresh_login_at`] at the time the machine's clock shows.
    pub fn refresh_login(&self) -> (plan: Result<RefreshPlan, SupabaseError>)
        ensures
            exists|now: i64| plan == #[trigger] self@.refresh_plan(now as int),
    {
        let now = now_as_epoch();
        self.refresh_login_at(now)
    }

    /// Puts `session` in the store, in place of any session there, makes its
    /// access token the bearer token of later requests, and says how to
    /// tell the listener.
    pub fn set_auth_state(&mut self, session: Session) -> (notice: Notification)
        requires
            valid_header_value(session.access_token@),
        ensures
            final(self)@ == old(self)@.with_session(session),
            final(self)@.well_formed(),
            notice == notification_for(old(self)@.listener, session),
    {
        proof {
            use_type_invariant(&*self);
            lemma_default_header_names();
            lemma_bearer_is_valid(session.access_token@);
            lemma_few_headers(self@);
            lemma_store_changes_keep_well_formed(self@, session);
        }
        let mut value = String::from_str("Bearer ");
        value.append(session.access_token.as_str());
        let postgrest = self.postgrest.clone().insert_header("Authorization", value.as_str());
        let notice = match self.session_listener {
            SessionChangeListener::Ignore => Notification::Skip,
            SessionChangeListener::Sync => Notification::Offer(session.clone()),
            SessionChangeListener::Async => Notification::Deliver(session.clone()),
        };
        *self = Supabase {
            session: Some(session),
            session_listener: self.session_listener,
            postgrest,
            api_key: self.api_key.clone(),
            url_base: self.url_base.clone(),
        };
        notice
    }

    /// Drops the session, if there is one, and with it the bearer token
    /// that requests started from: the headers are the API key alone.
    pub fn clear(&mut self)
        ensures
            final(self)@ == old(self)@.cleared(),
            final(self)@.well_formed(),
    {
        proof {
            use_type_invariant(&*self);
            lemma_default_header_names();
        }
        let postgrest = Postgrest::new(self.postgrest.url()).insert_header(
            "apikey",
            self.api_key.as_str(),
        );
        assert(postgrest.fields() =~= self@.cleared().headers);
        *self = Supabase {
            session: None,
            session_listener: self.session_listener,
            postgrest,
            api_key: self.api_key.clone(),
            url_base: self.url_base.clone(),
        };
    }

    /// Takes the identity provider's answer to the refresh that
    /// [`Supabase::refresh_login_at`] asked for.
    ///
    /// A new session goes into the store and the listener is to be told. If
    /// the provider found the request bad, the refresh token is spent: the
    /// store is emptied, and only a login helps. After any other failure the
    /// store is as it was, and the operation may be tried again.
    pub fn complete_refresh(&mut self, reply: Result<Session, AuthError>) -> (outcome: Result<
        Notification,
        SupabaseError,
    >)
        requires
            reply matches Ok(session) ==> valid_header_value(session.access_token@),
        ensures
            final(self)@ == old(self)@.after_refresh(reply),
            final(self)@.well_formed(),
            outcome == old(self)@.refresh_result(reply),
    {
        proof {
            use_type_invariant(&*self);
        }
        match reply {
            Ok(session) => Ok(self.set_auth_state(session)),
            Err(cause) => {
                if cause.bad_request() {
                    self.clear();
                }
                Err(SupabaseError::SessionRefresh(cause))
            },
        }
    }

    /// Takes the identity provider's answer to a login with e-mail and
    /// password.
    ///
    /// A session goes into the store, is handed back for the caller to keep,
    /// and the listener is to be told. After a failure the client is as it
    /// was.
    pub fn login_with_email(&mut self, reply: Result<Session, AuthError>) -> (outcome: Result<
        (Session, Notification),
        SupabaseError,
    >)
        requires
            reply matches Ok(session) ==> valid_header_value(session.access_token@),
        ensures
            final(self)@ == old(self)@.after_login(reply),
            final(self)@.well_formed(),
            outcome == old(self)@.login_result(reply),
    {
        proof {
            use_type_invariant(&*self);
        }
        match reply {
            Ok(session) => {
                let notice = self.set_auth_state(session.clone());
                Ok((session, notice))
            },
            Err(cause) => Err(SupabaseError::Auth(cause)),
        }
    }

    /// Takes the identity provider's answer to a logout that was sent with
    /// [`Supabase::access_token`].
    ///
    /// The session is dropped whatever the answer: the client is logged out
    /// here even where the provider could not be told.
    pub fn logout(&mut self, reply: Result<(), AuthError>) -> (outcome: Result<(), SupabaseError>)
        ensures
            final(self)@ == old(self)@.cleared(),
            final(self)@.well_formed(),
            outcome == logout_result(reply),
    {
        self.clear();
        match reply {
            Ok(_) => Ok(()),
            Err(cause) => Err(SupabaseError::Auth(cause)),
        }
    }

    /// Starts an update of the user: a builder without changes. It fails
    /// where there is no session to update the user of.
    pub fn update_user(&self) -> (builder: Result<UpdateUserBuilder, SupabaseError>)
        ensures
            match builder {
                Ok(b) => self@.session is Some && b.payload() == (UpdateUserPayload {
                    email: None,
                    password: None,
                }),
                Err(error) => self@.session is None && error
                    == SupabaseError::MissingAuthenticationInformation,
            },
    {
        match &self.session {
            Some(_) => Ok(
                UpdateUserBuilder { user_info: UpdateUserPayload { email: None, password: None } },
            ),
            None => Err(SupabaseError::MissingAuthenticationInformation),
        }
    }
}

} // verus!
