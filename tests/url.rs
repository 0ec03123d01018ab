use redict::url::{DICTUrl, DICTUrlAccess, DICTUrlError, UrlParts};
use std::str::FromStr;

#[test]
fn url_basic_parsing() {
    let url = DICTUrl::new("dict://dict.org/d:shortcake:").unwrap();

    assert_eq!(url.host, "dict.org");
    assert_eq!(url.port, 2628);

    if let DICTUrlAccess::Define(word, _, _) = url.access_method {
        assert_eq!(word, String::from("shortcake"));
    } else {
        panic!("Did not return correct access method");
    }
}

#[test]
fn url_define_defaults() {
    let url = DICTUrl::new("dict://dict.org/d:shortcake:").unwrap();
    match url.access_method {
        DICTUrlAccess::Define(_, db, n) => {
            assert_eq!(db.name, "!");
            assert_eq!(n, None);
        }
        _ => panic!(),
    }
}

#[test]
fn url_match_with_everything() {
    let url = DICTUrl::new("dict://localhost:2629/m:cake:wn:prefix:7").unwrap();
    assert_eq!(url.host, "localhost");
    assert_eq!(url.port, 2629);
    match url.access_method {
        DICTUrlAccess::Match(w, db, s, n) => {
            assert_eq!(w, "cake");
            assert_eq!(db.name, "wn");
            assert_eq!(s.name, "prefix");
            assert_eq!(n, Some(7));
        }
        _ => panic!(),
    }
}

#[test]
fn url_lenient_hint() {
    let url = DICTUrl::new("dict://h/d:cake:wn:many").unwrap();
    assert!(matches!(url.access_method, DICTUrlAccess::Define(_, _, Some(0))));
    let url = DICTUrl::new("dict://h/m:cake::").unwrap();
    match url.access_method {
        DICTUrlAccess::Match(_, db, s, n) => {
            assert_eq!(db.name, "!");
            assert_eq!(s.name, ".");
            assert_eq!(n, None);
        }
        _ => panic!(),
    }
}

#[test]
fn url_connect_only() {
    assert!(matches!(DICTUrl::new("dict://h").unwrap().access_method, DICTUrlAccess::AccessOnly));
    assert!(matches!(DICTUrl::new("dict://h/").unwrap().access_method, DICTUrlAccess::AccessOnly));
}

#[test]
fn url_errors() {
    assert!(matches!(DICTUrl::new("dict://h/d:"), Err(DICTUrlError::MissingParameters)));
    assert!(matches!(DICTUrl::new("dict://h/m"), Err(DICTUrlError::MissingParameters)));
    match DICTUrl::new("dict://h/x:cake") {
        Err(DICTUrlError::UnknownAccess(s)) => assert_eq!(s, "x"),
        _ => panic!(),
    }
    assert!(matches!(DICTUrl::new("dict://me@h/"), Err(DICTUrlError::Unsupported(_))));
    assert!(matches!(DICTUrl::new("dict://:pw@h/"), Err(DICTUrlError::Unsupported(_))));
    assert!(matches!(DICTUrl::new("dict://me:pw@h/"), Err(DICTUrlError::Unsupported(_))));
    assert!(matches!(DICTUrl::new("dict:/d:cake"), Err(DICTUrlError::MissingHost)));
    assert!(matches!(DICTUrl::new("not a url"), Err(DICTUrlError::ParseError(_))));
}

#[test]
fn url_from_parts() {
    let parts = UrlParts {
        username: String::new(),
        password: None,
        host: Some(String::from("example.org")),
        port: None,
        path: String::from("/d:tart:wn:+12"),
    };
    let url = DICTUrl::from_parts(parts).unwrap();
    assert_eq!(url.port, 2628);
    assert!(matches!(url.access_method, DICTUrlAccess::Define(_, _, Some(12))));
    let parts = UrlParts {
        username: String::new(),
        password: None,
        host: Some(String::from("h")),
        port: Some(1),
        path: String::from("/d:tart:db:99999999999999999999999"),
    };
    let url = DICTUrl::from_parts(parts).unwrap();
    assert!(matches!(url.access_method, DICTUrlAccess::Define(_, _, Some(0))));
}

#[test]
fn access_from_str() {
    assert!(matches!(DICTUrlAccess::from_str("d:cake"), Ok(DICTUrlAccess::AccessOnly)));
    assert!(matches!(DICTUrlAccess::from_str("/:x"), Ok(DICTUrlAccess::AccessOnly)));
}

#[test]
fn url_password_alone_is_refused() {
    let parts = UrlParts {
        username: String::new(),
        password: Some(String::from("pw")),
        host: Some(String::from("h")),
        port: None,
        path: String::from("/"),
    };
    assert!(matches!(DICTUrl::from_parts(parts), Err(DICTUrlError::Unsupported(_))));
}

#[test]
fn url_parse_error_converts() {
    let e = DICTUrlError::from(url::ParseError::EmptyHost);
    assert!(matches!(e, DICTUrlError::ParseError(url::ParseError::EmptyHost)));
}
