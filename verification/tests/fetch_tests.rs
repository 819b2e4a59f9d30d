use gib::common::PackageConfig;
use gib::fetch::{fetch_start, fetch_step, FetchAction, FetchEvent, FetchState, FetchTarget};
use gib::models::{Package, PackageArchive};
use gib::response::{Body, ContentType, Response};

fn text_of(action: &FetchAction) -> (u16, ContentType, String) {
    match action {
        FetchAction::Respond(Response { status, content_type, body: Body::Text(t) }) => (*status, *content_type, t.clone()),
        _ => panic!("expected a text response"),
    }
}

fn package(id: i32, name: &str, version: &str) -> Package {
    Package {
        id,
        package_name: name.to_string(),
        publisher: 0,
        configuration: format!("{{\"name\":\"{}\",\"version\":\"{}\"}}", name, version),
        current_version: version.to_string(),
    }
}

fn archive(package_id: i32, version: &str, bytes: &[u8]) -> PackageArchive {
    PackageArchive { id: 1, package_id, version: version.to_string(), archive: bytes.to_vec() }
}

#[test]
fn missing_name_is_refused_for_records() {
    let (s, a) = fetch_start(None, FetchTarget::Record);
    assert!(matches!(s, FetchState::Finished));
    assert_eq!(text_of(&a), (400, ContentType::Json, "{\"status\": 6, \"error\": \"Please provide a package name\"}".to_string()));
    let (_, a) = fetch_start(None, FetchTarget::Latest);
    assert!(matches!(a, FetchAction::Abort));
}

#[test]
fn fetch_starts_by_connecting() {
    let (s, a) = fetch_start(Some("demo".to_string()), FetchTarget::Latest);
    assert!(matches!(a, FetchAction::Connect));
    assert!(matches!(s, FetchState::Connecting { ref name, target: FetchTarget::Latest } if name == "demo"));
}

#[test]
fn connection_and_lookup_errors() {
    let (_, a) = fetch_step(FetchState::Connecting { name: "d".to_string(), target: FetchTarget::Record }, FetchEvent::Connected { connection: Err("x".to_string()) });
    assert_eq!(text_of(&a), (500, ContentType::Json, "{\"status\": 3, error: \"x\" ".to_string()));
    let (s, a) = fetch_step(FetchState::Connecting { name: "d".to_string(), target: FetchTarget::Record }, FetchEvent::Connected { connection: Ok(()) });
    assert!(matches!(a, FetchAction::LookUp { ref name } if name == "d"));
    assert!(matches!(s, FetchState::LookingUp { .. }));
    let (_, a) = fetch_step(FetchState::LookingUp { name: "d".to_string(), target: FetchTarget::Record }, FetchEvent::LookedUp { packages: Err("q".to_string()) });
    assert_eq!(text_of(&a), (500, ContentType::Json, "{\"status\": 6, error: \"q\" ".to_string()));
    let (_, a) = fetch_step(FetchState::LookingUp { name: "d".to_string(), target: FetchTarget::Latest }, FetchEvent::LookedUp { packages: Ok(vec![]) });
    assert_eq!(text_of(&a), (400, ContentType::Json, "{\"status\": \"7\", \"error\": \"no package found called: d\"}".to_string()));
}

#[test]
fn record_is_described_as_json() {
    let (s, a) = fetch_step(
        FetchState::LookingUp { name: "d".to_string(), target: FetchTarget::Record },
        FetchEvent::LookedUp { packages: Ok(vec![package(3, "d", "1"), package(4, "d2", "2")]) },
    );
    assert!(matches!(s, FetchState::Describing));
    assert!(matches!(a, FetchAction::Describe { ref package } if package.id == 3));
    let (_, a) = fetch_step(FetchState::Describing, FetchEvent::Described { json: "{\"id\":3}".to_string() });
    assert_eq!(text_of(&a), (200, ContentType::Json, "{\"status\": \"0\", \"package\": {\"id\":3}}".to_string()));
}

#[test]
fn latest_uses_the_described_version() {
    let (s, a) = fetch_step(
        FetchState::LookingUp { name: "d".to_string(), target: FetchTarget::Latest },
        FetchEvent::LookedUp { packages: Ok(vec![package(3, "d", "1.0")]) },
    );
    assert!(matches!(a, FetchAction::ReadConfig { ref text } if text == "{\"name\":\"d\",\"version\":\"1.0\"}"));
    let described = PackageConfig { name: "d".to_string(), version: "2.0".to_string(), author: "a".to_string(), post_script: None };
    let (s, a) = fetch_step(s, FetchEvent::ConfigRead { config: Some(described) });
    assert!(matches!(a, FetchAction::FetchArchive { package_id: 3, ref version } if version == "2.0"));
    let (_, none) = fetch_step(
        FetchState::Fetching { package_name: "d".to_string(), shown_version: "1.0".to_string() },
        FetchEvent::ArchivesFetched { archives: Ok(vec![]) },
    );
    assert_eq!(text_of(&none), (400, ContentType::Json, "{\"status\": \"7\", \"error\": \"no archive forund for: d@1.0\"}".to_string()));
    let (s, a) = fetch_step(s, FetchEvent::ArchivesFetched { archives: Ok(vec![archive(3, "2.0", &[1, 2, 3]), archive(3, "2.0", &[9])]) });
    assert!(matches!(s, FetchState::Finished));
    match a {
        FetchAction::Respond(Response { status: 200, content_type: ContentType::Gzip, body: Body::Binary(b) }) => assert_eq!(b, vec![1, 2, 3]),
        _ => panic!("expected the archive"),
    }
}

#[test]
fn latest_with_unreadable_description_is_abandoned() {
    let state = FetchState::ReadingConfig { package_id: 1, package_name: "d".to_string(), current_version: "1".to_string() };
    let (_, a) = fetch_step(state, FetchEvent::ConfigRead { config: None });
    assert!(matches!(a, FetchAction::Abort));
}

#[test]
fn version_fetch_uses_the_requested_version() {
    let (s, a) = fetch_step(
        FetchState::LookingUp { name: "d".to_string(), target: FetchTarget::Version { version: "0.3".to_string() } },
        FetchEvent::LookedUp { packages: Ok(vec![package(8, "d", "1.0")]) },
    );
    assert!(matches!(a, FetchAction::FetchArchive { package_id: 8, ref version } if version == "0.3"));
    let (_, a) = fetch_step(s, FetchEvent::ArchivesFetched { archives: Ok(vec![]) });
    assert_eq!(text_of(&a).2, "{\"status\": \"7\", \"error\": \"no archive forund for: d@0.3\"}");
    let (_, a) = fetch_step(
        FetchState::Fetching { package_name: "d".to_string(), shown_version: "0.3".to_string() },
        FetchEvent::ArchivesFetched { archives: Err("e".to_string()) },
    );
    assert_eq!(text_of(&a), (500, ContentType::Json, "{\"status\": 6, error: \"e\" ".to_string()));
}

#[test]
fn finished_fetch_ignores_events() {
    let (_, a) = fetch_step(FetchState::Finished, FetchEvent::Described { json: String::new() });
    assert!(matches!(a, FetchAction::Nothing));
    let (_, a) = fetch_step(FetchState::Describing, FetchEvent::Connected { connection: Ok(()) });
    assert!(matches!(a, FetchAction::Abort));
}

#[test]
fn published_version_is_served_by_version() {
    let (s, a) = fetch_start(Some("demo".to_string()), FetchTarget::Version { version: "0.1".to_string() });
    assert!(matches!(a, FetchAction::Connect));
    let (s, _) = fetch_step(s, FetchEvent::Connected { connection: Ok(()) });
    let (s, a) = fetch_step(s, FetchEvent::LookedUp { packages: Ok(vec![package(7, "demo", "0.1")]) });
    assert!(matches!(a, FetchAction::FetchArchive { package_id: 7, ref version } if version == "0.1"));
    let uploaded: &[u8] = &[0x1f, 0x8b, 1, 2, 3];
    let (s, a) = fetch_step(s, FetchEvent::ArchivesFetched { archives: Ok(vec![archive(7, "0.1", uploaded)]) });
    assert!(matches!(s, FetchState::Finished));
    match a {
        FetchAction::Respond(Response { status, content_type, body: Body::Binary(b) }) => {
            assert_eq!(status, 200);
            assert_eq!(content_type, ContentType::Gzip);
            assert_eq!(b, uploaded.to_vec());
        }
        _ => panic!("expected a binary response"),
    }
}
