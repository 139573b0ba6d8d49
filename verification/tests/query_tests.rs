use webfinger_rs::jrdmap::{Jrd, JrdMap, ResourceLink};
use webfinger_rs::query::{handle, LookupOutcome};

fn link(rel: &str, type_: Option<&str>, href: Option<&str>) -> ResourceLink {
    ResourceLink {
        rel: rel.to_string(),
        type_: type_.map(|s| s.to_string()),
        href: href.map(|s| s.to_string()),
        titles: None,
        properties: None,
    }
}

fn alice_jrd() -> Jrd {
    Jrd {
        subject: "acct:alice@example.com".to_string(),
        aliases: None,
        properties: None,
        links: Some(vec![
            link(
                "http://webfinger.net/rel/avatar",
                Some("image/jpeg"),
                Some("https://example.com/data/alice-avatar.jpeg"),
            ),
            link("me", None, Some("acct:me@example.com")),
            link("author", None, Some("acct:author@example.com")),
        ]),
    }
}

fn alice_store() -> JrdMap {
    let mut jm = JrdMap::new();
    jm.insert("acct:alice@example.com".to_string(), alice_jrd());
    jm
}

fn other_store() -> JrdMap {
    let mut jm = JrdMap::new();
    jm.insert(
        "acct:other@example.com".to_string(),
        Jrd {
            subject: "acct:other@example.com".to_string(),
            aliases: None,
            properties: None,
            links: None,
        },
    );
    jm
}

fn strings(v: &[&str]) -> Vec<String> {
    v.iter().map(|s| s.to_string()).collect()
}

#[test]
fn known_subject_no_rels_returns_all_links_in_order() {
    let jm = alice_store();
    let r = handle(&jm, &strings(&["acct:alice@example.com"]), &strings(&[]));
    match r {
        LookupOutcome::Found(jrd) => {
            assert_eq!(jrd.subject, "acct:alice@example.com");
            let links = jrd.links.expect("links kept");
            assert_eq!(links.len(), 3);
            assert_eq!(links[0].rel, "http://webfinger.net/rel/avatar");
            assert_eq!(links[1].rel, "me");
            assert_eq!(links[2].rel, "author");
        }
        _ => panic!("expected a found outcome"),
    }
}

#[test]
fn known_subject_rel_filter_keeps_matching_subset_in_order() {
    let jm = alice_store();
    let r = handle(
        &jm,
        &strings(&["acct:alice@example.com"]),
        &strings(&["http://webfinger.net/rel/avatar", "me"]),
    );
    match r {
        LookupOutcome::Found(jrd) => {
            assert_eq!(jrd.subject, "acct:alice@example.com");
            let links = jrd.links.expect("links kept");
            assert_eq!(links.len(), 2);
            assert_eq!(links[0].rel, "http://webfinger.net/rel/avatar");
            assert_eq!(links[0].type_.as_deref(), Some("image/jpeg"));
            assert_eq!(
                links[0].href.as_deref(),
                Some("https://example.com/data/alice-avatar.jpeg")
            );
            assert_eq!(links[1].rel, "me");
            assert_eq!(links[1].href.as_deref(), Some("acct:me@example.com"));
        }
        _ => panic!("expected a found outcome"),
    }
}

#[test]
fn rel_filter_compares_case_insensitively_and_by_uri_normalization() {
    let jm = alice_store();
    // the token matches in the opposite case; the URI matches a
    // differently-written but identically-normalizing form
    let r = handle(
        &jm,
        &strings(&["acct:alice@example.com"]),
        &strings(&["ME", "http://webfinger.net/rel/./avatar"]),
    );
    match r {
        LookupOutcome::Found(jrd) => {
            let links = jrd.links.expect("links kept");
            assert_eq!(links.len(), 2);
            assert_eq!(links[0].rel, "http://webfinger.net/rel/avatar");
            assert_eq!(links[1].rel, "me");
        }
        _ => panic!("expected a found outcome"),
    }
}

#[test]
fn rel_filter_matching_nothing_still_resolves_with_empty_links() {
    let jm = alice_store();
    let r = handle(
        &jm,
        &strings(&["acct:alice@example.com"]),
        &strings(&["http://example.com/unrelated"]),
    );
    match r {
        LookupOutcome::Found(jrd) => {
            assert_eq!(jrd.subject, "acct:alice@example.com");
            assert_eq!(jrd.links.expect("links list kept").len(), 0);
        }
        _ => panic!("expected a found outcome"),
    }
}

#[test]
fn not_found() {
    let jm = other_store();
    let r = handle(&jm, &strings(&["acct:alice@example.com"]), &strings(&[]));
    assert!(matches!(r, LookupOutcome::NotFound));
    assert_eq!(r.status_code(), 404);
}

#[test]
fn missing_resource() {
    let jm = other_store();
    let r = handle(&jm, &strings(&[]), &strings(&[]));
    assert!(matches!(r, LookupOutcome::BadRequest));
    assert_eq!(r.status_code(), 400);
}

#[test]
fn duplicate_resource() {
    let jm = other_store();
    let r = handle(
        &jm,
        &strings(&["acct:other@example.com", "acct:other@example.com"]),
        &strings(&[]),
    );
    assert!(matches!(r, LookupOutcome::BadRequest));
    assert_eq!(r.status_code(), 400);
}

#[test]
fn malformed_resource() {
    let jm = other_store();
    // no URI scheme
    let r = handle(&jm, &strings(&["other@example.com"]), &strings(&[]));
    assert!(matches!(r, LookupOutcome::BadRequest));
    assert_eq!(r.status_code(), 400);
}

#[test]
fn invalid_rel() {
    let jm = other_store();
    let r = handle(&jm, &strings(&["acct:alice@example.com"]), &strings(&[""]));
    assert!(matches!(r, LookupOutcome::NotFound));
}

#[test]
fn subject_lookup_is_exact_no_normalization() {
    let jm = alice_store();
    // the store key differs only in scheme case; relation comparison would
    // equate these, subject lookup deliberately does not
    let r = handle(&jm, &strings(&["ACCT:alice@example.com"]), &strings(&[]));
    assert!(matches!(r, LookupOutcome::NotFound));
}

#[test]
fn found_status_is_200() {
    let jm = alice_store();
    let r = handle(&jm, &strings(&["acct:alice@example.com"]), &strings(&[]));
    assert_eq!(r.status_code(), 200);
}

#[test]
fn end_to_end_store_query_filters_to_avatar_link() {
    let mut jm = JrdMap::new();
    jm.insert(
        "acct:a@x.com".to_string(),
        Jrd {
            subject: "acct:a@x.com".to_string(),
            aliases: None,
            properties: None,
            links: Some(vec![
                link(
                    "http://webfinger.net/rel/avatar",
                    None,
                    Some("https://x.com/a.jpg"),
                ),
                link("me", None, Some("acct:me@x.com")),
            ]),
        },
    );
    let r = handle(
        &jm,
        &strings(&["acct:a@x.com"]),
        &strings(&["http://webfinger.net/rel/avatar"]),
    );
    assert_eq!(r.status_code(), 200);
    match r {
        LookupOutcome::Found(jrd) => {
            assert_eq!(jrd.subject, "acct:a@x.com");
            let links = jrd.links.expect("links kept");
            assert_eq!(links.len(), 1);
            assert_eq!(links[0].rel, "http://webfinger.net/rel/avatar");
            assert_eq!(links[0].href.as_deref(), Some("https://x.com/a.jpg"));
        }
        _ => panic!("expected a found outcome"),
    }
}
