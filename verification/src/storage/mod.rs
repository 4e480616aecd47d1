//! The storage API: who may ask, where, and how an answer is to be read.

pub mod object;

use crate::header::{bearer, text_of};
use crate::{Supabase, SupabaseError};
use vstd::prelude::*;
use vstd::string::StringExecFns;

verus! {

/// The address of the storage API of the project at `base`.
pub open spec fn storage_url(base: Seq<char>) -> Seq<char> {
    base + "/storage/v1"@
}

/// The address under which the storage API at `base` keeps objects.
pub open spec fn object_base_url(base: Seq<char>) -> Seq<char> {
    base + "/object"@
}

/// The headers by which a request shows who sends it, in the order they are
/// added: the bearer token, if there is one, then the API key.
pub open spec fn credentials(access_token: Option<Seq<char>>, api_key: Seq<char>) -> Seq<
    (Seq<char>, Seq<char>),
> {
    match access_token {
        Some(token) => seq![("Authorization"@, bearer(token)), ("apikey"@, api_key)],
        None => seq![("apikey"@, api_key)],
    }
}

/// What a request to the storage API shows of its sender.
#[derive(Debug)]
pub struct AuthenticatedClient {
    pub access_token: Option<String>,
    pub apikey: String,
}

impl AuthenticatedClient {
    /// The headers that a request of this sender has to carry.
    pub fn authenticate(&self) -> (headers: Vec<(String, String)>)
        ensures
            headers.deep_view() == credentials(text_of(self.access_token), self.apikey@),
    {
        let mut headers: Vec<(String, String)> = Vec::new();
        match &self.access_token {
            Some(access_token) => {
                let mut value = String::from_str("Bearer ");
                value.append(access_token.as_str());
                headers.push((String::from_str("Authorization"), value));
            },
            None => {},
        }
        headers.push((String::from_str("apikey"), self.apikey.clone()));
        assert(headers.deep_view() =~= credentials(text_of(self.access_token), self.apikey@));
        headers
    }
}

/// A handle on the storage API, good for one request.
#[derive(Debug)]
pub struct Storage {
    pub client: AuthenticatedClient,
    pub url_base: String,
}

impl Storage {
    /// The part of the storage API that deals with objects.
    pub fn object(self) -> (object: object::Object)
        ensures
            object.client == self.client,
            object.url_base@ == object_base_url(self.url_base@),
    {
        let Storage { client, url_base } = self;
        let mut url_base = url_base;
        url_base.append("/object");
        object::Object { client, url_base }
    }
}

/// An error as the storage API reports it.
#[derive(Debug, Clone, PartialEq, Eq, PartialOrd, Ord, Hash)]
pub struct Error {
    pub status_code: String,
    pub error: String,
    pub message: String,
}

impl Default for Error {
    fn default() -> (error: Self)
        ensures
            error.status_code@.len() == 0,
            error.error@.len() == 0,
            error.message@.len() == 0,
    {
        Error { status_code: String::new(), error: String::new(), message: String::new() }
    }
}

/// How the body of an answer from the storage API is to be read.
#[derive(Clone, Copy, Debug, PartialEq, Eq, Structural)]
pub enum ResponseBody {
    /// As an [`Error`]: the request failed.
    Failure,
    /// As what was asked for.
    Payload,
}

/// Whether an HTTP status reports an error of the client (400 to 499) or of
/// the server (500 to 599).
pub open spec fn is_error_status(status: u16) -> bool {
    400 <= status < 600
}

/// Says how to read the body of an answer with the HTTP status `status`.
pub fn decode_storage_error_response(status: u16) -> (body: ResponseBody)
    ensures
        body == if is_error_status(status) {
            ResponseBody::Failure
        } else {
            ResponseBody::Payload
        },
{
    if 400 <= status && status < 600 {
        ResponseBody::Failure
    } else {
        ResponseBody::Payload
    }
}

impl Supabase {
    /// A handle on the storage API with the credentials of the client: the
    /// API key, and the access token of the session. Without a session there
    /// is no handle.
    ///
    /// The handle carries the token that is current now. Ask
    /// [`Supabase::refresh_login`] first, and take a new handle for each
    /// request.
    pub fn storage(&self) -> (storage: Result<Storage, SupabaseError>)
        ensures
            self@.well_formed(),
            match storage {
                Ok(handle) => {
                    &&& self@.session matches Some(session)
                    &&& handle.client.access_token == Some(session.access_token)
                    &&& handle.client.apikey@ == self@.api_key
                    &&& handle.url_base@ == storage_url(self@.url_base)
                },
                Err(error) => self@.session is None && error
                    == SupabaseError::MissingAuthenticationInformation,
            },
    {
        proof {
            use_type_invariant(self);
        }
        match self.access_token() {
            Ok(access_token) => {
                let (apikey, url_base) = self.storage_endpoint();
                Ok(
                    Storage {
                        client: AuthenticatedClient { access_token: Some(access_token), apikey },
                        url_base,
                    },
                )
            },
            Err(error) => Err(error),
        }
    }
}

} // verus!
