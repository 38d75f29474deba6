use ic_http_certification::HttpRequest;
use ic_static_assets::AssetRecord;
use ic_static_assets::certification::{certify_all_assets, serve_assets, ProcessState, ServeError};
use ic_static_assets::tree::AssetDir;

fn record(path: &str, bytes: &[u8]) -> AssetRecord {
    AssetRecord { path: path.to_string(), bytes: bytes.to_vec() }
}

fn demo_tree() -> AssetDir {
    AssetDir {
        files: vec![
            record("index.html", b"<h1>hi</h1>"),
            record("app.js", b"console.log(1)"),
            record("logo.png", &[137, 80, 78, 71]),
        ],
        subdirs: vec![],
    }
}

fn canister_id() -> String {
    "aaaaa-aa".to_string()
}

#[test]
fn serve_before_certify_is_rejected() {
    let state = ProcessState::Uninitialized;
    let request = HttpRequest::get("/index.html").build();
    let result = serve_assets(&state, &vec![0u8], &request);
    assert!(matches!(result, Err(ServeError::NotCertified)));
    assert!(state.committed_digest().is_none());
}

#[test]
fn certification_commits_the_returned_digest() {
    let mut state = ProcessState::Uninitialized;
    let digest = certify_all_assets(&mut state, &demo_tree(), &canister_id()).unwrap();
    assert_eq!(state.committed_digest(), Some(&digest));
    assert_eq!(digest.len(), 32);
}

#[test]
fn digest_is_stable_within_an_epoch() {
    // Read-only serving never moves the committed digest, and repeating a
    // request against the same epoch yields a byte-identical response.
    let mut state = ProcessState::Uninitialized;
    let digest = certify_all_assets(&mut state, &demo_tree(), &canister_id()).unwrap();
    let request = HttpRequest::get("/app.js").build();
    let first = serve_assets(&state, &vec![0u8], &request).unwrap();
    let second = serve_assets(&state, &vec![0u8], &request).unwrap();
    assert_eq!(first.status_code(), second.status_code());
    assert_eq!(first.headers(), second.headers());
    assert_eq!(first.body(), second.body());
    assert_eq!(state.committed_digest(), Some(&digest));
}

#[test]
fn changed_assets_change_the_digest() {
    let mut state = ProcessState::Uninitialized;
    let first = certify_all_assets(&mut state, &demo_tree(), &canister_id()).unwrap();
    let other_tree = AssetDir {
        files: vec![record("index.html", b"<h1>other</h1>")],
        subdirs: vec![],
    };
    let mut other_state = ProcessState::Uninitialized;
    let second = certify_all_assets(&mut other_state, &other_tree, &canister_id()).unwrap();
    assert_ne!(first, second);
}

#[test]
fn unmatched_path_gets_the_root_fallback() {
    let mut state = ProcessState::Uninitialized;
    certify_all_assets(&mut state, &demo_tree(), &canister_id()).unwrap();
    let request = HttpRequest::get("/does/not/exist").build();
    let response = serve_assets(&state, &vec![0u8], &request).unwrap();
    assert_eq!(response.status_code().as_u16(), 200);
    assert_eq!(response.body(), b"<h1>hi</h1>");
}

#[test]
fn script_is_served_with_content_type_and_immutable_cache() {
    let mut state = ProcessState::Uninitialized;
    certify_all_assets(&mut state, &demo_tree(), &canister_id()).unwrap();
    let request = HttpRequest::get("/app.js").build();
    let response = serve_assets(&state, &vec![0u8], &request).unwrap();
    assert_eq!(response.status_code().as_u16(), 200);
    assert_eq!(response.body(), b"console.log(1)");
    assert!(response.headers().iter().any(|h| h.0.eq_ignore_ascii_case("content-type")
        && h.1 == "text/javascript"));
    assert!(response.headers().iter().any(|h| h.0.eq_ignore_ascii_case("cache-control")
        && h.1 == "public, max-age=31536000, immutable"));
}

#[test]
fn root_alias_serves_the_root_document() {
    let mut state = ProcessState::Uninitialized;
    certify_all_assets(&mut state, &demo_tree(), &canister_id()).unwrap();
    let request = HttpRequest::get("/").build();
    let response = serve_assets(&state, &vec![0u8], &request).unwrap();
    assert_eq!(response.status_code().as_u16(), 200);
    assert_eq!(response.body(), b"<h1>hi</h1>");
    assert!(response.headers().iter().any(|h| h.0.eq_ignore_ascii_case("set-cookie")
        && h.1 == "canisterId=aaaaa-aa"));
}

#[test]
fn malformed_request_yields_an_engine_error() {
    let mut state = ProcessState::Uninitialized;
    certify_all_assets(&mut state, &demo_tree(), &canister_id()).unwrap();
    let request = HttpRequest::get("/app.js")
        .with_headers(vec![("range".to_string(), "bytes=junk".to_string())])
        .build();
    let result = serve_assets(&state, &vec![0u8], &request);
    assert!(matches!(result, Err(ServeError::Engine { .. })));
}

#[test]
fn upgrade_replaces_the_committed_epoch_wholesale() {
    let mut state = ProcessState::Uninitialized;
    let first = certify_all_assets(&mut state, &demo_tree(), &canister_id()).unwrap();
    let new_tree = AssetDir {
        files: vec![record("index.html", b"<h1>upgraded</h1>")],
        subdirs: vec![],
    };
    let second = certify_all_assets(&mut state, &new_tree, &canister_id()).unwrap();
    assert_ne!(first, second);
    assert_eq!(state.committed_digest(), Some(&second));
    let request = HttpRequest::get("/").build();
    let response = serve_assets(&state, &vec![0u8], &request).unwrap();
    assert_eq!(response.body(), b"<h1>upgraded</h1>");
}

#[test]
fn different_session_cookie_changes_the_digest() {
    // The dynamic cookie header is committed with the root document, so
    // certifying under another process address yields another digest.
    let mut state = ProcessState::Uninitialized;
    let first = certify_all_assets(&mut state, &demo_tree(), &canister_id()).unwrap();
    let mut other_state = ProcessState::Uninitialized;
    let second =
        certify_all_assets(&mut other_state, &demo_tree(), &"bbbbb-bb".to_string()).unwrap();
    assert_ne!(first, second);
}
