use suparust::auth::{Session, SessionChangeListener};
use suparust::storage::object::{
    content_type_or_guess, media_type_or_default, Body, DownloadedObject, ListRequest, Method,
    Object, ObjectIdentifier, SimpleMessage, SortBy, SortOrder, StorageRequest,
};
use suparust::storage::{
    decode_storage_error_response, AuthenticatedClient, Error, ResponseBody, Storage,
};
use suparust::{Supabase, SupabaseError};

fn pair(name: &str, value: &str) -> (String, String) {
    (name.to_string(), value.to_string())
}

fn object_with_token() -> Object {
    Object {
        client: AuthenticatedClient {
            access_token: Some("token".to_string()),
            apikey: "key".to_string(),
        },
        url_base: "http://host/storage/v1/object".to_string(),
    }
}

fn object_without_token() -> Object {
    Object {
        client: AuthenticatedClient { access_token: None, apikey: "key".to_string() },
        url_base: "http://host/storage/v1/object".to_string(),
    }
}

#[test]
fn list_request_starts_with_the_prefix_only() {
    let request = ListRequest::new("my_folder".to_string());
    assert_eq!(request.prefix, "my_folder");
    assert_eq!(request.limit, None);
    assert_eq!(request.offset, None);
    assert_eq!(request.sort_by, None);
    assert_eq!(request.search, None);
}

#[test]
fn list_request_builders_set_one_field_each() {
    let request = ListRequest::new("my_folder".to_string())
        .limit(10)
        .offset(20)
        .sort_by("my_column", SortOrder::Ascending)
        .search("needle");
    assert_eq!(
        request,
        ListRequest {
            prefix: "my_folder".to_string(),
            limit: Some(10),
            offset: Some(20),
            sort_by: Some(SortBy { column: "my_column".to_string(), order: SortOrder::Ascending }),
            search: Some("needle".to_string()),
        }
    );
}

#[test]
fn list_request_builder_called_twice_keeps_the_last_value() {
    let request = ListRequest::new("p".to_string())
        .limit(1)
        .limit(-2)
        .offset(i64::MAX)
        .offset(i64::MIN)
        .sort_by("a", SortOrder::Ascending)
        .sort_by("b", SortOrder::Descending)
        .search("x")
        .search("y");
    assert_eq!(request.limit, Some(-2));
    assert_eq!(request.offset, Some(i64::MIN));
    assert_eq!(
        request.sort_by,
        Some(SortBy { column: "b".to_string(), order: SortOrder::Descending })
    );
    assert_eq!(request.search, Some("y".to_string()));
    assert_eq!(request.prefix, "p");
}

#[test]
fn defaults_are_empty() {
    assert_eq!(SortOrder::default(), SortOrder::Descending);
    assert_eq!(
        SortBy::default(),
        SortBy { column: String::new(), order: SortOrder::Descending }
    );
    assert_eq!(ListRequest::default(), ListRequest::new(String::new()));
    assert_eq!(ObjectIdentifier::default(), ObjectIdentifier { id: String::new(), key: String::new() });
    assert_eq!(SimpleMessage::default(), SimpleMessage { message: String::new() });
    assert_eq!(
        Error::default(),
        Error { status_code: String::new(), error: String::new(), message: String::new() }
    );
}

#[test]
fn sort_orders_are_ordered() {
    assert!(SortOrder::Ascending < SortOrder::Descending);
}

#[test]
fn authenticate_adds_token_then_api_key() {
    let client =
        AuthenticatedClient { access_token: Some("token".to_string()), apikey: "key".to_string() };
    assert_eq!(
        client.authenticate(),
        vec![pair("Authorization", "Bearer token"), pair("apikey", "key")]
    );
}

#[test]
fn authenticate_without_token_adds_api_key_only() {
    let client = AuthenticatedClient { access_token: None, apikey: "key".to_string() };
    assert_eq!(client.authenticate(), vec![pair("apikey", "key")]);
}

#[test]
fn storage_handle_carries_the_credentials() {
    let session = Session {
        provider_token: None,
        provider_refresh_token: None,
        access_token: "dummy_access_token".to_string(),
        token_type: "bearer".to_string(),
        expires_in: 3600,
        expires_at: 4_000_000_000,
        refresh_token: "refresh".to_string(),
        user: Default::default(),
    };
    let client = Supabase::new(
        "http://localhost:1234",
        "dummy_apikey",
        Some(session),
        SessionChangeListener::Ignore,
    );
    let storage = client.storage().unwrap();
    assert_eq!(storage.url_base, "http://localhost:1234/storage/v1");
    assert_eq!(storage.client.access_token, Some("dummy_access_token".to_string()));
    assert_eq!(storage.client.apikey, "dummy_apikey");
    let listing = storage.object().list("dummy", ListRequest::new("something".to_string()));
    assert_eq!(
        listing,
        StorageRequest {
            method: Method::Post,
            url: "http://localhost:1234/storage/v1/object/list/dummy".to_string(),
            headers: vec![
                pair("Authorization", "Bearer dummy_access_token"),
                pair("apikey", "dummy_apikey"),
            ],
            body: Body::Json(ListRequest::new("something".to_string())),
        }
    );
}

#[test]
fn storage_handle_needs_a_session() {
    let client =
        Supabase::new("http://localhost:1234", "dummy_apikey", None, SessionChangeListener::Ignore);
    assert!(matches!(client.storage(), Err(SupabaseError::MissingAuthenticationInformation)));
}

#[test]
fn object_endpoint_is_under_the_storage_address() {
    let storage = Storage {
        client: AuthenticatedClient { access_token: None, apikey: "key".to_string() },
        url_base: "http://host/storage/v1".to_string(),
    };
    let object = storage.object();
    assert_eq!(object.url_base, "http://host/storage/v1/object");
    assert_eq!(object.client.apikey, "key");
    assert_eq!(object.client.access_token, None);
}

#[test]
fn delete_one_request() {
    assert_eq!(
        object_with_token().delete_one("bucket", "folder/file.txt"),
        StorageRequest {
            method: Method::Delete,
            url: "http://host/storage/v1/object/bucket/folder/file.txt".to_string(),
            headers: vec![pair("Authorization", "Bearer token"), pair("apikey", "key")],
            body: Body::Empty,
        }
    );
}

#[test]
fn get_one_request() {
    assert_eq!(
        object_without_token().get_one("bucket", "file.png"),
        StorageRequest {
            method: Method::Get,
            url: "http://host/storage/v1/object/bucket/file.png".to_string(),
            headers: vec![pair("apikey", "key")],
            body: Body::Empty,
        }
    );
}

#[test]
fn update_one_with_given_content_type() {
    assert_eq!(
        object_with_token().update_one(
            "bucket",
            "file.bin",
            vec![1, 2, 3],
            Some("image/png".to_string())
        ),
        Ok(StorageRequest {
            method: Method::Put,
            url: "http://host/storage/v1/object/bucket/file.bin".to_string(),
            headers: vec![
                pair("Authorization", "Bearer token"),
                pair("apikey", "key"),
                pair("Content-Type", "image/png"),
            ],
            body: Body::Bytes(vec![1, 2, 3]),
        })
    );
}

#[test]
fn upload_one_with_given_content_type() {
    assert_eq!(
        object_with_token().upload_one(
            "bucket",
            "no_extension",
            vec![],
            Some("text/plain".to_string())
        ),
        Ok(StorageRequest {
            method: Method::Post,
            url: "http://host/storage/v1/object/bucket/no_extension".to_string(),
            headers: vec![
                pair("Authorization", "Bearer token"),
                pair("apikey", "key"),
                pair("Content-Type", "text/plain"),
            ],
            body: Body::Bytes(vec![]),
        })
    );
}

#[test]
fn upload_one_guesses_the_content_type_from_the_extension() {
    let request = object_with_token().upload_one("bucket", "photo.png", vec![9], None).unwrap();
    assert_eq!(request.method, Method::Post);
    assert_eq!(request.headers[2], pair("Content-Type", "image/png"));
    assert_eq!(request.body, Body::Bytes(vec![9]));
    let request = object_with_token().update_one("bucket", "notes.TXT", vec![9], None).unwrap();
    assert_eq!(request.method, Method::Put);
    assert_eq!(request.headers[2], pair("Content-Type", "text/plain"));
}

#[test]
fn upload_one_without_any_content_type_fails() {
    assert_eq!(
        object_with_token().upload_one("bucket", "no_extension", vec![1], None),
        Err(SupabaseError::UnknownMimeType)
    );
    assert_eq!(
        object_with_token().update_one("bucket", "file.surely_unknown_extension", vec![1], None),
        Err(SupabaseError::UnknownMimeType)
    );
}

#[test]
fn write_one_prefers_the_given_content_type() {
    let request = object_without_token()
        .write_one(
            Method::Put,
            "b",
            "w",
            vec![7],
            Some("a/b".to_string()),
            Some("c/d".to_string()),
        )
        .unwrap();
    assert_eq!(
        request,
        StorageRequest {
            method: Method::Put,
            url: "http://host/storage/v1/object/b/w".to_string(),
            headers: vec![pair("apikey", "key"), pair("Content-Type", "a/b")],
            body: Body::Bytes(vec![7]),
        }
    );
    let request = object_without_token()
        .write_one(Method::Post, "b", "w", vec![7], None, Some("c/d".to_string()))
        .unwrap();
    assert_eq!(request.headers, vec![pair("apikey", "key"), pair("Content-Type", "c/d")]);
    assert_eq!(
        object_without_token().write_one(Method::Post, "b", "w", vec![7], None, None),
        Err(SupabaseError::UnknownMimeType)
    );
}

#[test]
fn content_type_choice() {
    assert_eq!(
        content_type_or_guess(Some("a/b".to_string()), Some("c/d".to_string())),
        Ok("a/b".to_string())
    );
    assert_eq!(content_type_or_guess(Some("a/b".to_string()), None), Ok("a/b".to_string()));
    assert_eq!(content_type_or_guess(None, Some("c/d".to_string())), Ok("c/d".to_string()));
    assert_eq!(content_type_or_guess(None, None), Err(SupabaseError::UnknownMimeType));
}

#[test]
fn media_type_defaults_to_octet_stream() {
    assert_eq!(media_type_or_default(Some("image/png".to_string())), "image/png");
    assert_eq!(media_type_or_default(None), "application/octet-stream");
}

#[test]
fn downloaded_object_takes_the_media_type_of_the_header() {
    let object = DownloadedObject::new(Some("image/png"), vec![1, 2]);
    assert_eq!(object, DownloadedObject { mime: "image/png".to_string(), data: vec![1, 2] });
    let object = DownloadedObject::new(Some("text/plain; charset=utf-8"), vec![]);
    assert_eq!(object.mime, "text/plain; charset=utf-8");
}

#[test]
fn downloaded_object_without_usable_header_is_octet_stream() {
    let object = DownloadedObject::new(None, vec![5]);
    assert_eq!(
        object,
        DownloadedObject { mime: "application/octet-stream".to_string(), data: vec![5] }
    );
    let object = DownloadedObject::new(Some("not a media type"), vec![5]);
    assert_eq!(object.mime, "application/octet-stream");
    let object = DownloadedObject::new(Some(""), vec![5]);
    assert_eq!(object.mime, "application/octet-stream");
}

#[test]
fn error_statuses_are_400_to_599() {
    assert_eq!(decode_storage_error_response(200), ResponseBody::Payload);
    assert_eq!(decode_storage_error_response(204), ResponseBody::Payload);
    assert_eq!(decode_storage_error_response(302), ResponseBody::Payload);
    assert_eq!(decode_storage_error_response(399), ResponseBody::Payload);
    assert_eq!(decode_storage_error_response(400), ResponseBody::Failure);
    assert_eq!(decode_storage_error_response(404), ResponseBody::Failure);
    assert_eq!(decode_storage_error_response(499), ResponseBody::Failure);
    assert_eq!(decode_storage_error_response(500), ResponseBody::Failure);
    assert_eq!(decode_storage_error_response(599), ResponseBody::Failure);
    assert_eq!(decode_storage_error_response(600), ResponseBody::Payload);
    assert_eq!(decode_storage_error_response(0), ResponseBody::Payload);
    assert_eq!(decode_storage_error_response(u16::MAX), ResponseBody::Payload);
}
