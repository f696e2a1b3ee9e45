use discovery::account::{parse, parse_resource, QueryError, Scheme};
use discovery::dispatch::{handle, Failure, Response, Route};
use discovery::documents::{build_actor, build_redirect, build_webfinger};
use discovery::identity::{Directory, IdentityRecord, ResolveError};
use discovery::negotiate::{negotiate, NegotiatedIntent, PathShape};

fn alice() -> IdentityRecord {
    IdentityRecord {
        username: "alice".to_string(),
        actor_id: "https://example.org/users/alice".to_string(),
        profile_url: "https://example.org/@alice".to_string(),
        display_name: "Alice Liddell".to_string(),
    }
}

fn directory() -> Directory {
    let mut dir = Directory::new("example.org".to_string());
    dir.insert(alice());
    dir
}

fn user(name: &str) -> Route {
    Route::User { name: name.to_string() }
}

fn webfinger(resource: &str) -> Route {
    Route::WebFinger { resource: Some(resource.to_string()) }
}

#[test]
fn parse_round_trips_username_and_host() {
    let a = parse("acct:alice@example.org").unwrap();
    assert_eq!(a.scheme, Scheme::Acct);
    assert_eq!(a.username, "alice");
    assert_eq!(a.host, "example.org");
    let b = parse("acct:bob.smith@social.example.com:8443").unwrap();
    assert_eq!(b.username, "bob.smith");
    assert_eq!(b.host, "social.example.com:8443");
}

#[test]
fn parse_rejects_missing_at_or_empty_segments() {
    for raw in ["acct:alice", "acct:@example.org", "acct:alice@", "acct:", "acct:@", "acct:a@b@c", "not-a-uri", "@example.org", ""] {
        assert_eq!(parse(raw).unwrap_err(), QueryError::MalformedAccount, "{}", raw);
    }
}

#[test]
fn parse_rejects_other_schemes() {
    for raw in ["https://example.org/@alice", "mailto:alice@example.org", "ACCT:alice@example.org", "acc:alice@example.org", "alice@example.org", "x:"] {
        assert_eq!(parse(raw).unwrap_err(), QueryError::UnsupportedScheme, "{}", raw);
    }
}

#[test]
fn parse_resource_requires_the_parameter() {
    assert_eq!(parse_resource(None).unwrap_err(), QueryError::MissingResource);
    assert_eq!(parse_resource(Some("acct:alice@example.org")).unwrap().username, "alice");
}

#[test]
fn negotiate_is_a_function_of_its_inputs() {
    for path in [PathShape::WebFinger, PathShape::User, PathShape::Profile] {
        for accept in [None, Some("application/activity+json"), Some("text/html"), Some("*/*")] {
            assert_eq!(negotiate(path, accept), negotiate(path, accept));
        }
    }
}

#[test]
fn negotiate_matches_the_media_type_exactly() {
    assert_eq!(negotiate(PathShape::User, Some("application/activity+json")), NegotiatedIntent::ActivityPubActor);
    assert_eq!(negotiate(PathShape::User, Some("*/*")), NegotiatedIntent::ProfileRedirect);
    assert_eq!(negotiate(PathShape::User, Some("application/activity+json; charset=utf-8")), NegotiatedIntent::ProfileRedirect);
    assert_eq!(negotiate(PathShape::User, Some("")), NegotiatedIntent::ProfileRedirect);
    assert_eq!(negotiate(PathShape::User, None), NegotiatedIntent::ProfileRedirect);
    assert_eq!(negotiate(PathShape::Profile, Some("application/activity+json")), NegotiatedIntent::ProfileRedirect);
    assert_eq!(negotiate(PathShape::WebFinger, Some("text/html")), NegotiatedIntent::WebFinger);
    assert_eq!(negotiate(PathShape::WebFinger, None), NegotiatedIntent::WebFinger);
}

#[test]
fn webfinger_hit() {
    let r = handle(&directory(), &webfinger("acct:alice@example.org"), None);
    assert_eq!(r.status(), 200);
    match r {
        Response::WebFinger(doc) => {
            assert_eq!(doc.subject, "acct:alice@example.org");
            assert_eq!(doc.links.len(), 2);
            assert_eq!(doc.links[0].rel, "self");
            assert_eq!(doc.links[0].media_type, "application/activity+json");
            assert_eq!(doc.links[0].href, "https://example.org/users/alice");
            assert_eq!(doc.links[1].rel, "http://webfinger.net/rel/profile-page");
            assert_eq!(doc.links[1].media_type, "text/html");
            assert_eq!(doc.links[1].href, "https://example.org/@alice");
        }
        other => panic!("unexpected {:?}", other),
    }
}

#[test]
fn actor_negotiation() {
    let r = handle(&directory(), &user("alice"), Some("application/activity+json"));
    assert_eq!(r.status(), 200);
    match r {
        Response::Actor(doc) => {
            assert_eq!(doc.preferred_username, "alice");
            assert_eq!(doc.id, "https://example.org/users/alice");
            assert_eq!(doc.actor_type, "Person");
            assert_eq!(doc.name, "Alice Liddell");
        }
        other => panic!("unexpected {:?}", other),
    }
}

#[test]
fn browser_fallback() {
    for accept in [Some("text/html"), Some("*/*"), None] {
        let r = handle(&directory(), &user("alice"), accept);
        assert_eq!(r.status(), 303);
        match r {
            Response::Redirect(t) => assert_eq!(t.location, "https://example.org/@alice"),
            other => panic!("unexpected {:?}", other),
        }
    }
}

#[test]
fn profile_alias_redirects() {
    let r = handle(&directory(), &Route::Profile { name: "alice".to_string() }, Some("application/activity+json"));
    match r {
        Response::Redirect(t) => assert_eq!(t.location, "https://example.org/@alice"),
        other => panic!("unexpected {:?}", other),
    }
}

#[test]
fn unknown_user() {
    let dir = directory();
    for accept in [Some("application/activity+json"), Some("text/html"), Some("*/*"), None] {
        for route in [user("bob"), Route::Profile { name: "bob".to_string() }, webfinger("acct:bob@example.org")] {
            let r = handle(&dir, &route, accept);
            assert_eq!(r.status(), 404);
            match r {
                Response::Error(f) => {
                    assert_eq!(f, Failure::NotFound);
                    assert_eq!(f.message(), "not found");
                }
                other => panic!("unexpected {:?}", other),
            }
        }
    }
}

#[test]
fn webfinger_foreign_host_is_not_found() {
    let r = handle(&directory(), &webfinger("acct:alice@elsewhere.net"), None);
    assert_eq!(r.status(), 404);
    assert!(matches!(r, Response::Error(Failure::NotFound)));
}

#[test]
fn malformed_query() {
    let r = handle(&directory(), &webfinger("not-a-uri"), None);
    assert_eq!(r.status(), 400);
    match r {
        Response::Error(f) => {
            assert_eq!(f, Failure::BadQuery(QueryError::MalformedAccount));
            assert_eq!(f.message(), "malformed account");
        }
        other => panic!("unexpected {:?}", other),
    }
}

#[test]
fn webfinger_query_errors() {
    let dir = directory();
    let missing = handle(&dir, &Route::WebFinger { resource: None }, None);
    assert_eq!(missing.status(), 400);
    assert!(matches!(missing, Response::Error(Failure::BadQuery(QueryError::MissingResource))));
    let scheme = handle(&dir, &webfinger("https://example.org/users/alice"), None);
    assert_eq!(scheme.status(), 400);
    assert!(matches!(scheme, Response::Error(Failure::BadQuery(QueryError::UnsupportedScheme))));
    assert_eq!(Failure::BadQuery(QueryError::MissingResource).message(), "missing resource parameter");
    assert_eq!(Failure::BadQuery(QueryError::UnsupportedScheme).message(), "unsupported resource scheme");
}

#[test]
fn resolve_returns_the_first_match() {
    let mut dir = directory();
    let mut second = alice();
    second.display_name = "Another Alice".to_string();
    dir.insert(second);
    assert_eq!(dir.resolve("alice").unwrap().display_name, "Alice Liddell");
    assert_eq!(dir.resolve("bob").unwrap_err(), ResolveError::NotFound);
    assert_eq!(dir.resolve("").unwrap_err(), ResolveError::NotFound);
    assert_eq!(dir.resolve("alic").unwrap_err(), ResolveError::NotFound);
}

#[test]
fn builders_map_the_record() {
    let rec = alice();
    let account = parse("acct:alice@example.org").unwrap();
    let doc = build_webfinger(&rec, &account);
    assert_eq!(doc.subject, "acct:alice@example.org");
    assert_eq!(doc.links[0].href, rec.actor_id);
    let actor = build_actor(&rec);
    assert_eq!(actor.preferred_username, "alice");
    assert_eq!(actor.name, "Alice Liddell");
    assert_eq!(build_redirect(&rec).location, "https://example.org/@alice");
}

#[test]
fn route_shapes() {
    assert_eq!(webfinger("x").shape(), PathShape::WebFinger);
    assert_eq!(user("x").shape(), PathShape::User);
    assert_eq!(Route::Profile { name: "x".to_string() }.shape(), PathShape::Profile);
}
