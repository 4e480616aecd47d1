//! Session lifecycle for a Supabase client: who is logged in, when the login
//! must be renewed, and which headers a request starts from.
//!
//! The client in this crate does no input or output. Each operation that
//! needs the network is split in two: a function that says what to ask the
//! outside world, and a function that takes the answer. Between the two the
//! caller talks to the identity provider, and delivers the notifications it
//! is handed.

pub mod auth;
pub mod external;
pub mod header;
pub mod lifecycle;
pub mod postgrest;
pub mod storage;

use crate::auth::{AuthError, ClientState, Session, SessionChangeListener};
use crate::external::postgrest_rs::Postgrest;
use crate::header::{lemma_bearer_is_valid, lemma_default_header_names, valid_header_value};
use vstd::prelude::*;
use vstd::string::StringExecFns;

verus! {

/// The address of the data API of the project at `base`.
pub open spec fn rest_url(base: Seq<char>) -> Seq<char> {
    base + "/rest/v1"@
}

/// Why an operation of the client failed.
#[derive(Debug, PartialEq)]
pub enum SupabaseError {
    /// The session could not be renewed. If the provider turned the refresh
    /// token down, the client has dropped the session.
    SessionRefresh(AuthError),
    /// The operation needs a session and the client has none.
    MissingAuthenticationInformation,
    /// The storage API reported an error.
    Storage(storage::Error),
    /// No content type was given for an object, and none could be guessed
    /// from its path.
    UnknownMimeType,
    /// The identity provider turned a login, a logout or an update down.
    Auth(AuthError),
}

impl From<AuthError> for SupabaseError {
    fn from(cause: AuthError) -> (error: Self) {
        SupabaseError::Auth(cause)
    }
}

impl vstd::std_specs::convert::FromSpecImpl<AuthError> for SupabaseError {
    open spec fn obeys_from_spec() -> bool {
        true
    }

    open spec fn from_spec(cause: AuthError) -> Self {
        SupabaseError::Auth(cause)
    }
}

impl From<storage::Error> for SupabaseError {
    fn from(cause: storage::Error) -> (error: Self) {
        SupabaseError::Storage(cause)
    }
}

impl vstd::std_specs::convert::FromSpecImpl<storage::Error> for SupabaseError {
    open spec fn obeys_from_spec() -> bool {
        true
    }

    open spec fn from_spec(cause: storage::Error) -> Self {
        SupabaseError::Storage(cause)
    }
}

/// The state of one Supabase client: its session, if it has one, and the
/// headers that its requests start from.
pub struct Supabase {
    session: Option<Session>,
    session_listener: SessionChangeListener,
    postgrest: Postgrest,
    api_key: String,
    url_base: String,
}

impl View for Supabase {
    type V = ClientState;

    closed spec fn view(&self) -> ClientState {
        ClientState {
            session: self.session,
            listener: self.session_listener,
            headers: self.postgrest.fields(),
            api_key: self.api_key@,
            url_base: self.url_base@,
        }
    }
}

impl Supabase {
    #[verifier::type_invariant]
    pub(crate) closed spec fn consistent(self) -> bool {
        &&& self@.well_formed()
        &&& self.postgrest.base_url() == rest_url(self.url_base@)
        &&& self.postgrest.schema_name() is None
    }

    /// A client for the project at `url`, which sends `api_key` with every
    /// request. With a `session` from an earlier run the client starts out
    /// logged in, without asking the identity provider.
    ///
    /// The API key, and the access token of the session, become header
    /// values: they must be free of control characters.
    pub fn new(
        url: &str,
        api_key: &str,
        session: Option<Session>,
        session_listener: SessionChangeListener,
    ) -> (client: Self)
        requires
            valid_header_value(api_key@),
            session matches Some(s) ==> valid_header_value(s.access_token@),
        ensures
            client@ == ClientState::initial(url@, api_key@, session, session_listener),
            client@.well_formed(),
    {
        proof {
            lemma_default_header_names();
        }
        let mut rest = String::from_str(url);
        rest.append("/rest/v1");
        let mut postgrest = Postgrest::new(rest.as_str()).insert_header("apikey", api_key);
        match &session {
            Some(s) => {
                proof {
                    lemma_bearer_is_valid(s.access_token@);
                }
                let mut value = String::from_str("Bearer ");
                value.append(s.access_token.as_str());
                postgrest = postgrest.insert_header("Authorization", value.as_str());
            },
            None => {},
        }
        let client = Supabase {
            session,
            session_listener,
            postgrest,
            api_key: String::from_str(api_key),
            url_base: String::from_str(url),
        };
        assert(client@.headers =~= ClientState::initial(
            url@,
            api_key@,
            session,
            session_listener,
        ).headers);
        client
    }

    /// The API key, and the address of the storage API.
    pub(crate) fn storage_endpoint(&self) -> (endpoint: (String, String))
        ensures
            endpoint.0@ == self@.api_key,
            endpoint.1@ == storage::storage_url(self@.url_base),
    {
        let mut url = self.url_base.clone();
        url.append("/storage/v1");
        (self.api_key.clone(), url)
    }
}

} // verus!
