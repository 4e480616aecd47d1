//! A PostgREST client: the address of the data API and the headers that its
//! requests start from.

use crate::header::{
    all_names_valid, copy_headers, count_headers, empty_headers, get_header, has_header,
    header_entries, header_key, is_lookup, lemma_header_key_is_valid, set_header, text_of,
    valid_header_name, valid_header_value, HeaderFields, HEADER_NAMES_MAX,
};
use reqwest::header::{HeaderMap, HeaderValue};
use vstd::prelude::*;
use vstd::string::StringExecFns;

verus! {

/// The address of a table: the base address, a slash, and the table's name.
pub open spec fn table_url(base: Seq<char>, table: Seq<char>) -> Seq<char> {
    base + "/"@ + table
}

/// The address of a stored procedure: the base address, `/rpc/`, and the
/// procedure's name.
pub open spec fn rpc_url(base: Seq<char>, function: Seq<char>) -> Seq<char> {
    base + "/rpc/"@ + function
}

/// A request to the data API, ready for filters and for sending.
pub struct Builder {
    pub url: String,
    pub schema: Option<String>,
    pub headers: HeaderMap<HeaderValue>,
    /// The arguments of a stored procedure call, as JSON text; `None` for a
    /// table operation.
    pub body: Option<String>,
}

impl Builder {
    /// The headers that the request carries.
    pub open spec fn fields(self) -> HeaderFields {
        header_entries(self.headers)
    }

    /// The value of the request's header `name`, if it has one.
    pub fn header(&self, name: &str) -> (found: Option<String>)
        ensures
            is_lookup(self.fields(), name@, text_of(found)),
    {
        get_header(&self.headers, name)
    }
}

/// The data API of one project.
pub struct Postgrest {
    url: String,
    schema: Option<String>,
    headers: HeaderMap<HeaderValue>,
}

impl Postgrest {
    #[verifier::type_invariant]
    spec fn well_formed(self) -> bool {
        &&& header_entries(self.headers).dom().finite()
        &&& all_names_valid(header_entries(self.headers))
    }

    /// The address of the data API.
    pub closed spec fn base_url(self) -> Seq<char> {
        self.url@
    }

    /// The schema that requests name, if any.
    pub closed spec fn schema_name(self) -> Option<String> {
        self.schema
    }

    /// The headers that every request starts from.
    pub closed spec fn fields(self) -> HeaderFields {
        header_entries(self.headers)
    }

    /// A client for the data API at `url`, without headers.
    pub fn new(url: &str) -> (client: Self)
        ensures
            client.base_url() == url@,
            client.schema_name() is None,
            client.fields() == HeaderFields::empty(),
    {
        Postgrest { url: String::from_str(url), schema: None, headers: empty_headers() }
    }

    /// The address of the data API.
    pub fn url(&self) -> (url: &str)
        ensures
            url@ == self.base_url(),
    {
        self.url.as_str()
    }

    /// How many headers requests start from. Each of them is filed under
    /// a token.
    pub fn header_count(&self) -> (count: usize)
        ensures
            self.fields().dom().finite(),
            all_names_valid(self.fields()),
            count == self.fields().dom().len(),
    {
        proof {
            use_type_invariant(self);
        }
        count_headers(&self.headers)
    }

    /// The value of the header `name`, if requests start with one.
    pub fn header(&self, name: &str) -> (found: Option<String>)
        ensures
            found is Some <==> has_header(self.fields(), name@),
            found matches Some(text) ==> text@ == self.fields()[header_key(name@)],
    {
        proof {
            use_type_invariant(self);
        }
        get_header(&self.headers, name)
    }

    /// Makes every later request carry the header `header_name` with the
    /// value `header_value`, in place of any value the header had.
    ///
    /// Header names do not distinguish case. The name must be a token and the
    /// value free of control characters, and the client must have room for
    /// one more header.
    pub fn insert_header(self, header_name: &'static str, header_value: &str) -> (client: Self)
        requires
            valid_header_name(header_name@),
            valid_header_value(header_value@),
            self.fields().dom().len() < HEADER_NAMES_MAX,
        ensures
            client.base_url() == self.base_url(),
            client.schema_name() == self.schema_name(),
            client.fields() == self.fields().insert(header_key(header_name@), header_value@),
    {
        proof {
            use_type_invariant(&self);
            lemma_header_key_is_valid(header_name@);
        }
        let Postgrest { url, schema, headers } = self;
        let mut headers = headers;
        set_header(&mut headers, header_name, header_value);
        Postgrest { url, schema, headers }
    }

    /// A request on the table `table`, with the client's headers.
    pub fn from(&self, table: &str) -> (request: Builder)
        ensures
            request.url@ == table_url(self.base_url(), table@),
            request.schema == self.schema_name(),
            request.fields() == self.fields(),
            all_names_valid(request.fields()),
            request.body is None,
    {
        proof {
            use_type_invariant(self);
        }
        let mut url = self.url.clone();
        url.append("/");
        url.append(table);
        Builder {
            url,
            schema: copy_schema(&self.schema),
            headers: copy_headers(&self.headers),
            body: None,
        }
    }

    /// A call of the stored procedure `function` with the arguments `params`,
    /// with the client's headers.
    pub fn rpc(&self, function: &str, params: String) -> (request: Builder)
        ensures
            request.url@ == rpc_url(self.base_url(), function@),
            request.schema == self.schema_name(),
            request.fields() == self.fields(),
            all_names_valid(request.fields()),
            request.body == Some(params),
    {
        proof {
            use_type_invariant(self);
        }
        let mut url = self.url.clone();
        url.append("/rpc/");
        url.append(function);
        Builder {
            url,
            schema: copy_schema(&self.schema),
            headers: copy_headers(&self.headers),
            body: Some(params),
        }
    }
}

fn copy_schema(schema: &Option<String>) -> (copy: Option<String>)
    ensures
        copy == *schema,
{
    match schema {
        Some(name) => Some(name.clone()),
        None => None,
    }
}

impl Clone for Postgrest {
    fn clone(&self) -> (copy: Self)
        ensures
            copy.base_url() == self.base_url(),
            copy.schema_name() == self.schema_name(),
            copy.fields() == self.fields(),
    {
        proof {
            use_type_invariant(self);
        }
        Postgrest {
            url: self.url.clone(),
            schema: copy_schema(&self.schema),
            headers: copy_headers(&self.headers),
        }
    }
}

} // verus!
