//! Requests to the data API that carry the client's credentials.

use crate::external::postgrest_rs::{rpc_url, table_url};
use crate::header::{has_header, header_key, HeaderFields};
use crate::{rest_url, Supabase, SupabaseError};
use vstd::prelude::*;

pub use crate::external::postgrest_rs::Builder;

verus! {

/// Whether `builder` is the request to `url` with the body `body` and the
/// headers `headers`, naming no schema.
pub open spec fn is_request(
    builder: Builder,
    url: Seq<char>,
    headers: HeaderFields,
    body: Option<String>,
) -> bool {
    &&& builder.url@ == url
    &&& builder.schema is None
    &&& builder.fields() == headers
    &&& builder.body == body
}

impl Supabase {
    /// The value of the header `name` among those that requests to the data
    /// API start from, if there is one: the API key under `apikey` always,
    /// the bearer token under `Authorization` while there is a session.
    pub fn default_header(&self, name: &str) -> (found: Option<String>)
        ensures
            self@.well_formed(),
            found is Some <==> has_header(self@.headers, name@),
            found matches Some(text) ==> text@ == self@.headers[header_key(name@)],
    {
        proof {
            use_type_invariant(self);
        }
        self.postgrest.header(name)
    }

    /// A request on the table `table` with the headers of the client: the
    /// API key, and the bearer token of the session. Without a session there
    /// is no request.
    ///
    /// The request carries the token that is current now. Ask
    /// [`Supabase::refresh_login`] first, and do not keep the request for
    /// long.
    pub fn from(&self, table: &str) -> (request: Result<Builder, SupabaseError>)
        ensures
            self@.well_formed(),
            match request {
                Ok(builder) => self@.session is Some && is_request(
                    builder,
                    table_url(rest_url(self@.url_base), table@),
                    self@.headers,
                    None,
                ),
                Err(error) => self@.session is None && error
                    == SupabaseError::MissingAuthenticationInformation,
            },
    {
        proof {
            use_type_invariant(self);
        }
        match &self.session {
            Some(_) => Ok(self.postgrest.from(table)),
            None => Err(SupabaseError::MissingAuthenticationInformation),
        }
    }

    /// A call of the stored procedure `function` with the arguments
    /// `params`, with the headers of the client. Without a session there is
    /// no request.
    pub fn rpc(&self, function: &str, params: String) -> (request: Result<Builder, SupabaseError>)
        ensures
            self@.well_formed(),
            match request {
                Ok(builder) => self@.session is Some && is_request(
                    builder,
                    rpc_url(rest_url(self@.url_base), function@),
                    self@.headers,
                    Some(params),
                ),
                Err(error) => self@.session is None && error
                    == SupabaseError::MissingAuthenticationInformation,
            },
    {
        proof {
            use_type_invariant(self);
        }
        match &self.session {
            Some(_) => Ok(self.postgrest.rpc(function, params)),
            None => Err(SupabaseError::MissingAuthenticationInformation),
        }
    }
}

} // verus!
