use luarc::addon::UrlParts;
use luarc::{Addon, Error};

#[test]
fn git_source() {
    let src = Addon::from_str("git+github.com/LuaCATS/love2d");
    assert!(src.is_ok());
    let src = src.unwrap();
    assert!(
        src == Addon {
            domain: "github.com".to_string(),
            host: "LuaCATS".to_string(),
            repo: "love2d".to_string(),
            version: None,
            hash: None,
        }
    );
}

#[test]
fn git_source_with_version() {
    let src = Addon::from_str("git+github.com/LuaCATS/love2d#master");
    assert!(src.is_ok());
    let src = src.unwrap();
    assert!(
        src == Addon {
            domain: "github.com".to_string(),
            host: "LuaCATS".to_string(),
            repo: "love2d".to_string(),
            version: Some("master".to_string()),
            hash: None,
        }
    );
}

#[test]
fn luacats_source() {
    let src = Addon::from_str("love2d");
    assert!(src.is_ok());
    let src = src.unwrap();
    assert!(
        src == Addon {
            domain: "github.com".to_string(),
            host: "LuaCATS".to_string(),
            repo: "love2d".to_string(),
            version: None,
            hash: None,
        }
    );
}

#[test]
fn luacats_source_with_version() {
    let src = Addon::from_str("love2d#master");
    assert!(src.is_ok());
    let src = src.unwrap();
    assert!(
        src == Addon {
            domain: "github.com".to_string(),
            host: "LuaCATS".to_string(),
            repo: "love2d".to_string(),
            version: Some("master".to_string()),
            hash: None
        }
    );
}

#[test]
fn git_source_with_scheme_is_parsed_as_given() {
    let src = Addon::from_str("git+http://example.org/owner/lib#v2").unwrap();
    assert_eq!(src.domain, "example.org");
    assert_eq!(src.host, "owner");
    assert_eq!(src.repo, "lib");
    assert_eq!(src.version.as_deref(), Some("v2"));
}

#[test]
fn git_source_without_repository_is_refused() {
    match Addon::from_str("git+github.com/LuaCATS") {
        Err(Error::InvalidAddon(m)) => assert_eq!(m, "missing repository path segment"),
        other => panic!("unexpected {other:?}"),
    }
}

#[test]
fn git_source_that_is_no_url_is_refused() {
    assert!(matches!(Addon::from_str("git+https://"), Err(Error::Url(_))));
}

#[test]
fn source_splits_at_first_hash_only() {
    let src = Addon::from_str("love2d#a#b").unwrap();
    assert_eq!(src.repo, "love2d");
    assert_eq!(src.version.as_deref(), Some("a#b"));
    assert!(src.is_luacats());
}

#[test]
fn url_parts_without_host_are_refused() {
    let parts = UrlParts { host: None, segments: Some(vec!["a".into(), "b".into()]), fragment: None };
    match Addon::from_url_parts(&parts) {
        Err(Error::InvalidAddon(m)) => assert_eq!(m, "missing host to repository"),
        other => panic!("unexpected {other:?}"),
    }
}

#[test]
fn url_parts_without_segments_are_refused() {
    let parts = UrlParts { host: Some("h".into()), segments: None, fragment: None };
    match Addon::from_url_parts(&parts) {
        Err(Error::InvalidAddon(m)) => assert_eq!(m, "missing user/org and repostiory path segments"),
        other => panic!("unexpected {other:?}"),
    }
    let parts = UrlParts { host: Some("h".into()), segments: Some(vec![]), fragment: None };
    match Addon::from_url_parts(&parts) {
        Err(Error::InvalidAddon(m)) => assert_eq!(m, "missing user/org path segment"),
        other => panic!("unexpected {other:?}"),
    }
}

#[test]
fn url_parts_name_an_addon() {
    let parts = UrlParts {
        host: Some("gitlab.com".into()),
        segments: Some(vec!["me".into(), "defs".into(), "extra".into()]),
        fragment: Some("dev".into()),
    };
    let a = Addon::from_url_parts(&parts).unwrap();
    assert_eq!(a, Addon::new("gitlab.com", "me", "defs", Some("dev".into()), None));
    assert!(!a.is_luacats());
}

#[test]
fn addon_address() {
    let a = Addon::luacats("love2d", Some("master".into()), None);
    assert_eq!(a.to_string(), "https://github.com/LuaCATS/love2d#master");
    let b = Addon::new("gitlab.com", "me", "defs", None, Some("abc".into()));
    assert_eq!(b.to_string(), "https://github.com/me/defs");
}

#[test]
fn recorded_hash_is_trimmed() {
    let mut a = Addon::luacats("love2d", None, None);
    a.record_hash("  0123abcd\n");
    assert_eq!(a.hash.as_deref(), Some("0123abcd"));
    a.record_hash(" \t\n");
    assert_eq!(a.hash.as_deref(), Some(""));
    assert_eq!(a.repo, "love2d");
}

#[test]
fn git_form_of_an_address_reads_back_the_addon() {
    for a in [
        Addon::luacats("love2d", None, None),
        Addon::luacats("luv", Some("v1.2_rc-3".into()), None),
        Addon::new("github.com", "Some_Org-9", "Repo-Name_2", Some("main".into()), None),
    ] {
        let src = format!("git+{}", a.to_string());
        assert_eq!(Addon::from_str(&src).unwrap(), a);
    }
}
