//! The string bridge: UTF-8 round trips and NUL rejection.

use ulkit::native::{NativeCall, NativeHost};
use ulkit::ul::error::Error;
use ulkit::ul::string::host_string_round_trip;
use ulkit::ul::String;

#[test]
fn utf8_text_round_trips_unchanged() {
    let mut host = NativeHost::new();
    for text in ["", "hello", "héllo wörld", "日本語のテキスト", "mixed π≈3.14159"] {
        let s = String::from_str(&mut host, text).unwrap();
        let bytes = s.to_bytes(&host);
        assert_eq!(bytes, text.as_bytes().to_vec());
        assert_eq!(std::str::from_utf8(&bytes).unwrap(), text);
        s.destroy(&mut host);
    }
}

#[test]
fn round_trip_helper_is_the_identity_without_nul() {
    let mut host = NativeHost::new();
    assert_eq!(
        host_string_round_trip(&mut host, "κόσμε").unwrap(),
        "κόσμε".as_bytes().to_vec()
    );
    assert!(host_string_round_trip(&mut host, "bad\0byte").is_none());
}

#[test]
fn embedded_nul_is_an_error_not_a_panic_or_truncation() {
    let mut host = NativeHost::new();
    let before = host.log_len();
    let r = String::from_str(&mut host, "a\0b");
    assert!(matches!(r, Err(Error::InvalidArgument(_))));
    assert_eq!(host.log_len(), before);
}

#[test]
fn raw_utf8_buffer_may_hold_nul_bytes() {
    let mut host = NativeHost::new();
    let s = String::from_utf8(&mut host, &[97, 0, 98]).unwrap();
    assert_eq!(s.to_bytes(&host), vec![97, 0, 98]);
    assert_eq!(s.len(&host), 3);
    assert!(!s.is_empty(&host));
    s.destroy(&mut host);
}

#[test]
fn empty_string_is_empty() {
    let mut host = NativeHost::new();
    let s = String::empty(&mut host).unwrap();
    assert!(s.is_empty(&host));
    assert_eq!(s.len(&host), 0);
    assert!(s.is_owned());
    s.destroy(&mut host);
}

#[test]
fn assign_replaces_the_contents() {
    let mut host = NativeHost::new();
    let a = String::from_str(&mut host, "first").unwrap();
    let b = String::from_str(&mut host, "second").unwrap();
    a.assign(&mut host, &b).unwrap();
    assert_eq!(a.to_bytes(&host), b"second".to_vec());
    a.assign_str(&mut host, "third").unwrap();
    assert_eq!(a.to_bytes(&host), b"third".to_vec());
    assert!(matches!(
        a.assign_str(&mut host, "th\0ird"),
        Err(Error::InvalidArgument(_))
    ));
    assert_eq!(a.to_bytes(&host), b"third".to_vec());
    a.destroy(&mut host);
    b.destroy(&mut host);
}

#[test]
fn copies_are_independent_objects() {
    let mut host = NativeHost::new();
    let a = String::from_str(&mut host, "shared").unwrap();
    let b = String::from_copy(&mut host, &a).unwrap();
    assert_ne!(a.raw(), b.raw());
    assert_eq!(b.to_bytes(&host), b"shared".to_vec());
    a.assign_str(&mut host, "changed").unwrap();
    assert_eq!(b.to_bytes(&host), b"shared".to_vec());
    a.destroy(&mut host);
    b.destroy(&mut host);
}

#[test]
fn string_destroy_is_observed_exactly_once() {
    let mut host = NativeHost::new();
    let s = String::from_str(&mut host, "x").unwrap();
    let addr = s.raw();
    s.destroy(&mut host);
    let destroys = host
        .log()
        .iter()
        .filter(|c| matches!(c, NativeCall::DestroyString { addr: a } if *a == addr))
        .count();
    assert_eq!(destroys, 1);
}

#[test]
fn script_engine_strings_round_trip_and_refcount() {
    let mut host = NativeHost::new();
    let s = ulkit::javascript_core::String::new(&mut host, "engine text").unwrap();
    assert_eq!(s.to_bytes(&host), b"engine text".to_vec());
    assert_eq!(s.len(&host), "engine text".len());
    assert!(!s.is_empty(&host));

    let second = s.retain(&mut host);
    let addr = s.as_raw();
    s.release(&mut host);
    // still alive through the second reference
    assert_eq!(second.to_bytes(&host), b"engine text".to_vec());
    second.release(&mut host);
    let releases = host
        .log()
        .iter()
        .filter(|c| matches!(c, NativeCall::JsStringRelease { addr: a } if *a == addr))
        .count();
    assert_eq!(releases, 2);
}

#[test]
fn script_engine_string_rejects_embedded_nul() {
    let mut host = NativeHost::new();
    let r = ulkit::javascript_core::String::new(&mut host, "a\0b");
    assert!(matches!(
        r,
        Err(ulkit::javascript_core::Error::InvalidParameter(_))
    ));
    let buf = ulkit::javascript_core::String::from_utf8_buffer(&mut host, &[1, 0, 2]).unwrap();
    assert_eq!(buf.to_bytes(&host), vec![1, 0, 2]);
    buf.release(&mut host);
}
