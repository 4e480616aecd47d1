//! Requests on the objects of a bucket.

use crate::header::text_of;
use crate::storage::{credentials, AuthenticatedClient};
use crate::SupabaseError;
use vstd::prelude::*;
use vstd::string::StringExecFns;

verus! {

/// The part of the storage API that deals with objects, with the
/// credentials to use it.
pub struct Object {
    pub client: AuthenticatedClient,
    pub url_base: String,
}

/// The name under which the storage API keeps an object.
#[derive(Debug, Clone, PartialEq, Eq, PartialOrd, Ord, Hash)]
pub struct ObjectIdentifier {
    pub id: String,
    pub key: String,
}

impl Default for ObjectIdentifier {
    fn default() -> (identifier: Self)
        ensures
            identifier.id@.len() == 0,
            identifier.key@.len() == 0,
    {
        ObjectIdentifier { id: String::new(), key: String::new() }
    }
}

/// The direction of a sort.
#[derive(Debug, Clone, PartialEq, Eq, PartialOrd, Ord, Hash)]
pub enum SortOrder {
    Ascending,
    Descending,
}

impl Default for SortOrder {
    fn default() -> (order: Self)
        ensures
            order == SortOrder::Descending,
    {
        SortOrder::Descending
    }
}

/// The column to sort a listing by, and the direction.
#[derive(Debug, Clone, PartialEq, Eq, PartialOrd, Ord, Hash)]
pub struct SortBy {
    pub column: String,
    pub order: SortOrder,
}

impl Default for SortBy {
    fn default() -> (sort: Self)
        ensures
            sort.column@.len() == 0,
            sort.order == SortOrder::Descending,
    {
        SortBy { column: String::new(), order: SortOrder::Descending }
    }
}

/// What to list of a bucket: the objects under a prefix, and optionally how
/// many, from where on, in which order, and matching what.
#[derive(Debug, Clone, PartialEq, Eq, PartialOrd, Ord, Hash)]
pub struct ListRequest {
    pub prefix: String,
    pub limit: Option<i64>,
    pub offset: Option<i64>,
    pub sort_by: Option<SortBy>,
    pub search: Option<String>,
}

impl Default for ListRequest {
    fn default() -> (request: Self)
        ensures
            request.prefix@.len() == 0,
            request.limit is None,
            request.offset is None,
            request.sort_by is None,
            request.search is None,
    {
        ListRequest {
            prefix: String::new(),
            limit: None,
            offset: None,
            sort_by: None,
            search: None,
        }
    }
}

/// An answer of the storage API that is a message and no more.
#[derive(Debug, Clone, PartialEq, Eq, PartialOrd, Ord, Hash)]
pub struct SimpleMessage {
    pub message: String,
}

impl Default for SimpleMessage {
    fn default() -> (answer: Self)
        ensures
            answer.message@.len() == 0,
    {
        SimpleMessage { message: String::new() }
    }
}

impl ListRequest {
    /// A request for every object under `prefix`.
    pub fn new(prefix: String) -> (request: Self)
        ensures
            request == (ListRequest {
                prefix,
                limit: None,
                offset: None,
                sort_by: None,
                search: None,
            }),
    {
        ListRequest { prefix, limit: None, offset: None, sort_by: None, search: None }
    }

    /// The same request, for at most `limit` objects.
    pub fn limit(self, limit: i64) -> (request: Self)
        ensures
            request == (ListRequest { limit: Some(limit), ..self }),
    {
        let mut request = self;
        request.limit = Some(limit);
        request
    }

    /// The same request, leaving out the first `offset` objects.
    pub fn offset(self, offset: i64) -> (request: Self)
        ensures
            request == (ListRequest { offset: Some(offset), ..self }),
    {
        let mut request = self;
        request.offset = Some(offset);
        request
    }

    /// The same request, with the objects sorted by `column` in the
    /// direction `order`.
    pub fn sort_by(self, column: &str, order: SortOrder) -> (request: Self)
        ensures
            request.sort_by matches Some(sort) && sort.column@ == column@ && sort.order == order,
            request.prefix == self.prefix,
            request.limit == self.limit,
            request.offset == self.offset,
            request.search == self.search,
    {
        let mut request = self;
        request.sort_by = Some(SortBy { column: String::from_str(column), order });
        request
    }

    /// The same request, for the objects that match `search` only.
    pub fn search(self, search: &str) -> (request: Self)
        ensures
            request.search matches Some(text) && text@ == search@,
            request.prefix == self.prefix,
            request.limit == self.limit,
            request.offset == self.offset,
            request.sort_by == self.sort_by,
    {
        let mut request = self;
        request.search = Some(String::from_str(search));
        request
    }
}

/// An object as it came from the storage API.
#[derive(Debug, Clone, PartialEq, Eq, PartialOrd, Ord, Hash)]
pub struct DownloadedObject {
    /// The media type of the object, such as `image/png`.
    pub mime: String,
    pub data: Vec<u8>,
}

/// What to do to an address.
#[derive(Clone, Copy, Debug, PartialEq, Eq, Structural)]
pub enum Method {
    Delete,
    Get,
    Post,
    Put,
}

/// What a request sends along.
#[derive(Debug, PartialEq, Eq)]
pub enum Body {
    /// Nothing.
    Empty,
    /// The bytes of an object.
    Bytes(Vec<u8>),
    /// A list request, to be written as JSON.
    Json(ListRequest),
}

/// A request to the storage API, ready to be sent.
#[derive(Debug, PartialEq, Eq)]
pub struct StorageRequest {
    pub method: Method,
    pub url: String,
    /// The headers to add, name and value, in this order.
    pub headers: Vec<(String, String)>,
    pub body: Body,
}

/// A request to the storage API as the contracts see it.
pub struct RequestPlan {
    pub method: Method,
    pub url: Seq<char>,
    pub headers: Seq<(Seq<char>, Seq<char>)>,
    pub body: Body,
}

impl View for StorageRequest {
    type V = RequestPlan;

    open spec fn view(&self) -> RequestPlan {
        RequestPlan {
            method: self.method,
            url: self.url@,
            headers: self.headers.deep_view(),
            body: self.body,
        }
    }
}

/// The address of the object `wildcard` in the bucket `bucket_name`.
pub open spec fn object_url(base: Seq<char>, bucket_name: Seq<char>, wildcard: Seq<char>) -> Seq<
    char,
> {
    base + "/"@ + bucket_name + "/"@ + wildcard
}

/// The address at which the objects of the bucket `bucket_name` are listed.
pub open spec fn list_url(base: Seq<char>, bucket_name: Seq<char>) -> Seq<char> {
    base + "/list/"@ + bucket_name
}

/// The media type to send an object with: the one that was given, else the
/// one that was guessed.
pub open spec fn chosen_content_type(given: Option<Seq<char>>, guess: Option<Seq<char>>)
    -> Option<Seq<char>> {
    match given {
        Some(content_type) => Some(content_type),
        None => guess,
    }
}

/// The media type as which an answer is read when it names none that can be
/// understood.
pub open spec fn octet_stream() -> Seq<char> {
    "application/octet-stream"@
}

/// What `Mime::from_str` makes of a text: the media type in its normal form,
/// or `None` where the text is no media type.
pub uninterp spec fn parsed_mime(text: Seq<char>) -> Option<Seq<char>>;

/// The media type of an answer, by what parsing its `Content-Type` header
/// gave.
pub open spec fn media_type(parsed: Option<Seq<char>>) -> Seq<char> {
    match parsed {
        Some(mime) => mime,
        None => octet_stream(),
    }
}

/// The media type of an answer with the `Content-Type` header `header`.
pub open spec fn media_type_of(header: Option<Seq<char>>) -> Seq<char> {
    match header {
        Some(text) => media_type(parsed_mime(text)),
        None => octet_stream(),
    }
}

/// `Mime::from_str`, reached through `str::parse`, with the media type
/// written back as text: what the text says as a media type, or `None` where
/// it is none.
#[verifier::external_body]
fn parse_mime(text: &str) -> (mime: Option<String>)
    ensures
        text_of(mime) == parsed_mime(text@),
{
    match text.parse::<mime::Mime>() {
        Ok(mime) => Some(mime.to_string()),
        Err(_) => None,
    }
}

/// `mime::APPLICATION_OCTET_STREAM`, written as text.
#[verifier::external_body]
fn octet_stream_mime() -> (mime: String)
    ensures
        mime@ == octet_stream(),
{
    mime::APPLICATION_OCTET_STREAM.to_string()
}

/// `mime_guess::from_path(path).first()`, written as text: the media type
/// that the extension of `path` suggests, if any.
///
/// Which part of a path counts as its extension differs between platforms,
/// so nothing is said of the guess.
#[verifier::external_body]
fn guess_mime(path: &str) -> Option<String> {
    match mime_guess::from_path(path).first() {
        Some(mime) => Some(mime.to_string()),
        None => None,
    }
}

/// The media type of an answer, by what parsing its `Content-Type` header
/// gave: the parsed type, or `application/octet-stream` without one.
pub fn media_type_or_default(parsed: Option<String>) -> (mime: String)
    ensures
        mime@ == media_type(text_of(parsed)),
{
    match parsed {
        Some(mime) => mime,
        None => octet_stream_mime(),
    }
}

/// The media type to send an object with, or the error that there is none:
/// `content_type` if it is given, else `guess`.
pub fn content_type_or_guess(content_type: Option<String>, guess: Option<String>) -> (chosen:
    Result<String, SupabaseError>)
    ensures
        match chosen {
            Ok(mime) => chosen_content_type(text_of(content_type), text_of(guess)) == Some(mime@),
            Err(error) => chosen_content_type(text_of(content_type), text_of(guess)) is None
                && error == SupabaseError::UnknownMimeType,
        },
{
    match content_type {
        Some(mime) => Ok(mime),
        None => match guess {
            Some(mime) => Ok(mime),
            None => Err(SupabaseError::UnknownMimeType),
        },
    }
}

impl DownloadedObject {
    /// The object that an answer holds: `data`, with the media type that
    /// the answer's `Content-Type` header names. Without the header, or
    /// where it names no media type, the object counts as
    /// `application/octet-stream`.
    pub fn new(content_type: Option<&str>, data: Vec<u8>) -> (object: Self)
        ensures
            object.data == data,
            object.mime@ == media_type_of(
                match content_type {
                    Some(text) => Some(text@),
                    None => None,
                },
            ),
    {
        let mime = match content_type {
            Some(text) => media_type_or_default(parse_mime(text)),
            None => octet_stream_mime(),
        };
        DownloadedObject { mime, data }
    }
}

impl Object {
    /// The request with `method` on the object `wildcard` of the bucket
    /// `bucket_name`, with the credentials and no body.
    pub open spec fn read_plan(self, method: Method, bucket_name: Seq<char>, wildcard: Seq<char>)
        -> RequestPlan {
        RequestPlan {
            method,
            url: object_url(self.url_base@, bucket_name, wildcard),
            headers: credentials(text_of(self.client.access_token), self.client.apikey@),
            body: Body::Empty,
        }
    }

    /// The request that sends `data` with `method` to the object `wildcard`
    /// of the bucket `bucket_name`: with the credentials, and then the
    /// media type.
    pub open spec fn write_plan(
        self,
        method: Method,
        bucket_name: Seq<char>,
        wildcard: Seq<char>,
        data: Vec<u8>,
        content_type: Seq<char>,
    ) -> RequestPlan {
        RequestPlan {
            method,
            url: object_url(self.url_base@, bucket_name, wildcard),
            headers: credentials(text_of(self.client.access_token), self.client.apikey@).push(
                ("Content-Type"@, content_type),
            ),
            body: Body::Bytes(data),
        }
    }

    /// The request that lists the bucket `bucket_name` as `request` says.
    pub open spec fn list_plan(self, bucket_name: Seq<char>, request: ListRequest) -> RequestPlan {
        RequestPlan {
            method: Method::Post,
            url: list_url(self.url_base@, bucket_name),
            headers: credentials(text_of(self.client.access_token), self.client.apikey@),
            body: Body::Json(request),
        }
    }

    /// What sending `data` comes to, by the media type given and the one
    /// guessed.
    pub open spec fn write_outcome(
        self,
        method: Method,
        bucket_name: Seq<char>,
        wildcard: Seq<char>,
        data: Vec<u8>,
        content_type: Option<Seq<char>>,
        guess: Option<Seq<char>>,
        outcome: Result<StorageRequest, SupabaseError>,
    ) -> bool {
        match outcome {
            Ok(request) => chosen_content_type(content_type, guess) matches Some(mime)
                && request@ == self.write_plan(method, bucket_name, wildcard, data, mime),
            Err(error) => chosen_content_type(content_type, guess) is None && error
                == SupabaseError::UnknownMimeType,
        }
    }

    fn object_address(&self, bucket_name: &str, wildcard: &str) -> (url: String)
        ensures
            url@ == object_url(self.url_base@, bucket_name@, wildcard@),
    {
        let mut url = self.url_base.clone();
        url.append("/");
        url.append(bucket_name);
        url.append("/");
        url.append(wildcard);
        url
    }

    /// The request that deletes the object `wildcard` of the bucket
    /// `bucket_name`. Its answer is a [`SimpleMessage`].
    pub fn delete_one(self, bucket_name: &str, wildcard: &str) -> (request: StorageRequest)
        ensures
            request@ == self.read_plan(Method::Delete, bucket_name@, wildcard@),
    {
        StorageRequest {
            method: Method::Delete,
            url: self.object_address(bucket_name, wildcard),
            headers: self.client.authenticate(),
            body: Body::Empty,
        }
    }

    /// The request that fetches the object `wildcard` of the bucket
    /// `bucket_name`. Its answer makes a [`DownloadedObject`].
    pub fn get_one(self, bucket_name: &str, wildcard: &str) -> (request: StorageRequest)
        ensures
            request@ == self.read_plan(Method::Get, bucket_name@, wildcard@),
    {
        StorageRequest {
            method: Method::Get,
            url: self.object_address(bucket_name, wildcard),
            headers: self.client.authenticate(),
            body: Body::Empty,
        }
    }

    /// The request that sends `data` with `method` to the object `wildcard`
    /// of the bucket `bucket_name`, as `content_type` if that is given, else
    /// as `guess`; without either there is no request.
    pub fn write_one(
        self,
        method: Method,
        bucket_name: &str,
        wildcard: &str,
        data: Vec<u8>,
        content_type: Option<String>,
        guess: Option<String>,
    ) -> (outcome: Result<StorageRequest, SupabaseError>)
        ensures
            self.write_outcome(
                method,
                bucket_name@,
                wildcard@,
                data,
                text_of(content_type),
                text_of(guess),
                outcome,
            ),
    {
        match content_type_or_guess(content_type, guess) {
            Ok(mime) => {
                let mut headers = self.client.authenticate();
                headers.push((String::from_str("Content-Type"), mime));
                let request = StorageRequest {
                    method,
                    url: self.object_address(bucket_name, wildcard),
                    headers,
                    body: Body::Bytes(data),
                };
                assert(request@.headers =~= self.write_plan(
                    method,
                    bucket_name@,
                    wildcard@,
                    data,
                    mime@,
                ).headers);
                Ok(request)
            },
            Err(error) => Err(error),
        }
    }

    /// The request that puts `data` in the place of the object `wildcard` of
    /// the bucket `bucket_name`. Its answer is an [`ObjectIdentifier`].
    ///
    /// Without a `content_type` the media type is guessed from the
    /// extension of `wildcard`; where nothing can be guessed there is no
    /// request.
    pub fn update_one(
        self,
        bucket_name: &str,
        wildcard: &str,
        data: Vec<u8>,
        content_type: Option<String>,
    ) -> (outcome: Result<StorageRequest, SupabaseError>)
        ensures
            match content_type {
                Some(mime) => outcome matches Ok(request) && request@ == self.write_plan(
                    Method::Put,
                    bucket_name@,
                    wildcard@,
                    data,
                    mime@,
                ),
                None => exists|guess: Option<Seq<char>>| #[trigger]
                    self.write_outcome(
                        Method::Put,
                        bucket_name@,
                        wildcard@,
                        data,
                        None,
                        guess,
                        outcome,
                    ),
            },
    {
        let guess = match &content_type {
            Some(_) => None,
            None => guess_mime(wildcard),
        };
        self.write_one(Method::Put, bucket_name, wildcard, data, content_type, guess)
    }

    /// The request that stores `data` as the new object `wildcard` of the
    /// bucket `bucket_name`. Its answer is an [`ObjectIdentifier`].
    ///
    /// Without a `content_type` the media type is guessed from the
    /// extension of `wildcard`; where nothing can be guessed there is no
    /// request.
    pub fn upload_one(
        self,
        bucket_name: &str,
        wildcard: &str,
        data: Vec<u8>,
        content_type: Option<String>,
    ) -> (outcome: Result<StorageRequest, SupabaseError>)
        ensures
            match content_type {
                Some(mime) => outcome matches Ok(request) && request@ == self.write_plan(
                    Method::Post,
                    bucket_name@,
                    wildcard@,
                    data,
                    mime@,
                ),
                None => exists|guess: Option<Seq<char>>| #[trigger]
                    self.write_outcome(
                        Method::Post,
                        bucket_name@,
                        wildcard@,
                        data,
                        None,
                        guess,
                        outcome,
                    ),
            },
    {
        let guess = match &content_type {
            Some(_) => None,
            None => guess_mime(wildcard),
        };
        self.write_one(Method::Post, bucket_name, wildcard, data, content_type, guess)
    }

    /// The request that lists the objects of the bucket `bucket_name` as
    /// `request` says.
    pub fn list(self, bucket_name: &str, request: ListRequest) -> (listing: StorageRequest)
        ensures
            listing@ == self.list_plan(bucket_name@, request),
    {
        let mut url = self.url_base.clone();
        url.append("/list/");
        url.append(bucket_name);
        StorageRequest {
            method: Method::Post,
            url,
            headers: self.client.authenticate(),
            body: Body::Json(request),
        }
    }
}

} // verus!
