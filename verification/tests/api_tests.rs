//! Tests for the API boundary types.

use rustyocean::api::ApiKey;
use rustyocean::api::GetError;
use rustyocean::api::GetResouceError;
use rustyocean::api::check_status;
use rustyocean::metrics::labels_eq;

#[test]
fn status_200_is_success() {
    assert_eq!(check_status(200), Ok(()));
}

#[test]
fn any_other_status_carries_its_code() {
    assert_eq!(check_status(404), Err(GetError::Status(404)));
    assert_eq!(check_status(500), Err(GetError::Status(500)));
    assert_eq!(check_status(201), Err(GetError::Status(201)));
}

#[test]
fn api_key_from_string() {
    let key = ApiKey::from(String::from("token-1234"));
    assert_eq!(key.key, "token-1234");
}

#[test]
fn get_error_converts_into_resource_error() {
    let e = GetResouceError::from(GetError::Transport);
    assert_eq!(e, GetResouceError::GetResource(GetError::Transport));
}

#[test]
fn label_tuples_compare_by_contents() {
    let a = vec![String::from("1"), String::from("web")];
    let b = vec![String::from("1"), String::from("web")];
    let c = vec![String::from("1"), String::from("db")];
    let d = vec![String::from("1")];
    assert!(labels_eq(&a, &b));
    assert!(!labels_eq(&a, &c));
    assert!(!labels_eq(&a, &d));
}
