use laraxum::db::stage1::{ColumnAttrIndexFilter, ColumnAttrIndexLimit};
use laraxum::model::{after_read, after_write, WriteThenRead};
use laraxum::controller::extract::is_json_mime;
use laraxum::controller::url;
use laraxum::env::EnvVar;
use laraxum::error::{AuthError, Error, ModelError, SqlErrorKind};
use laraxum::model::{aggregate_one_vec, aggregate_option, database_url, Decode, Encode, Sort};

#[test]
fn error_status_codes() {
    assert_eq!(Error::NotFound.status_code(), 404);
    assert_eq!(Error::Conflict.status_code(), 409);
    assert_eq!(Error::Internal.status_code(), 500);
    assert_eq!(AuthError::Unauthenticated.status_code(), 401);
    assert_eq!(AuthError::Unauthorized.status_code(), 403);
}

#[test]
fn model_error_status_codes() {
    let e: ModelError<()> = ModelError::from_unit(());
    assert_eq!(e.status_code(), 422);
    let e: ModelError<()> = ModelError::from(Error::Conflict);
    assert_eq!(e.status_code(), 409);
}

#[test]
fn sql_errors() {
    assert_eq!(Error::from_sql_error(SqlErrorKind::Database), Error::Conflict);
    assert_eq!(Error::from_sql_error(SqlErrorKind::Other), Error::Internal);
}

#[test]
fn bool_round_trip() {
    assert_eq!(<bool as Encode>::encode(true), 1);
    assert_eq!(<bool as Encode>::encode(false), 0);
    assert!(<bool as Decode>::decode(<bool as Encode>::encode(true)));
    assert!(!<bool as Decode>::decode(<bool as Encode>::encode(false)));
    assert!(<bool as Decode>::decode(-3));
}

#[test]
fn url_default() {
    assert_eq!(url(EnvVar::NotPresent), "localhost:80");
    assert_eq!(url(EnvVar::Present(String::from("0.0.0.0:8080"))), "0.0.0.0:8080");
    assert_eq!(database_url(EnvVar::NotPresent), None);
}

#[test]
fn json_mime() {
    assert!(is_json_mime("application", "json", None));
    assert!(is_json_mime("application", "problem", Some("json")));
    assert!(!is_json_mime("text", "json", None));
    assert!(!is_json_mime("application", "xml", None));
}

#[test]
fn aggregate_not_found_is_none() {
    let r: Result<Option<u8>, Error> = aggregate_option(Err(Error::NotFound));
    assert_eq!(r, Ok(None));
    let r: Result<Option<u8>, Error> = aggregate_option(Ok(3));
    assert_eq!(r, Ok(Some(3)));
    let r: Result<Vec<u8>, Error> = aggregate_one_vec(Err(Error::Internal));
    assert_eq!(r, Err(Error::Internal));
    assert_eq!(Sort::default(), Sort::Ascending);
}

#[test]
fn write_then_read_steps() {
    assert!(matches!(after_write::<()>(Ok(())), WriteThenRead::Read));
    assert!(matches!(
        after_write::<()>(Err(ModelError::Other(Error::NotFound))),
        WriteThenRead::Stop(ModelError::Other(Error::NotFound))
    ));
    let r: Result<u8, ModelError<()>> = after_read(Err(Error::NotFound));
    assert!(matches!(r, Err(ModelError::Other(Error::NotFound))));
    let r: Result<u8, ModelError<()>> = after_read(Ok(7));
    assert!(matches!(r, Ok(7)));
}

#[test]
fn error_builder_starts_from_default() {
    let r: Result<(), Vec<u8>> = laraxum::request::error_builder(Ok::<(), Vec<u8>>(()), |mut e| {
        e.push(1);
        e
    });
    assert_eq!(r, Err(vec![1]));
    let r: Result<(), Vec<u8>> = laraxum::request::error_builder(Err(vec![5]), |mut e| {
        e.push(1);
        e
    });
    assert_eq!(r, Err(vec![5, 1]));
}

#[test]
fn index_defaults() {
    assert!(ColumnAttrIndexFilter::default().is_none());
    assert_eq!(ColumnAttrIndexLimit::default().parameter(), None);
    assert_eq!(laraxum::db::stage4::page_offset(3, 20), 60);
    assert_eq!(laraxum::db::stage4::page_offset(u64::MAX, 2), u64::MAX);
}

#[test]
fn read_forms() {
    assert!(matches!(laraxum::db::stage4::read_form(true, true), laraxum::db::stage4::ReadForm::Optional));
    assert!(matches!(
        laraxum::db::stage4::read_form(false, true),
        laraxum::db::stage4::ReadForm::UnderOptionalParent
    ));
    assert!(matches!(laraxum::db::stage4::read_form(false, false), laraxum::db::stage4::ReadForm::Required));
}
