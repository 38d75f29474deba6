use ic_static_assets::AssetRecord;
use ic_static_assets::tree::{AssetDir, collect_assets, is_sentinel_path};

fn record(path: &str, bytes: &[u8]) -> AssetRecord {
    AssetRecord { path: path.to_string(), bytes: bytes.to_vec() }
}

#[test]
fn test_include_assets_macro() {
    // A project directory, modelled as the library's tree: the collector
    // must expose the embedded file under its embedded path.
    let dir = AssetDir {
        files: vec![record("Cargo.toml", b"[package]"), record("src/lib.rs", b"fn x() {}")],
        subdirs: vec![],
    };
    let mut assets: Vec<AssetRecord> = Vec::new();
    collect_assets(&dir, &mut assets);
    assert!(assets.iter().any(|a| a.path == "Cargo.toml"));
}

#[test]
fn exhaustive_collection_counts_every_file() {
    let dir = AssetDir {
        files: vec![record("index.html", b"<h1>hi</h1>")],
        subdirs: vec![
            AssetDir {
                files: vec![record("js/app.js", b"console.log(1)")],
                subdirs: vec![AssetDir {
                    files: vec![record("js/vendor/lib.js", b"lib")],
                    subdirs: vec![],
                }],
            },
            AssetDir { files: vec![record("img/logo.png", &[1, 2, 3])], subdirs: vec![] },
        ],
    };
    let mut assets: Vec<AssetRecord> = Vec::new();
    collect_assets(&dir, &mut assets);
    assert_eq!(assets.len(), 4);
    assert_eq!(assets[0].path, "index.html");
    assert_eq!(assets[1].path, "js/app.js");
    assert_eq!(assets[2].path, "js/vendor/lib.js");
    assert_eq!(assets[3].path, "img/logo.png");
}

#[test]
fn sentinel_files_are_excluded() {
    let dir = AssetDir {
        files: vec![record("index.html", b"x")],
        subdirs: vec![AssetDir {
            files: vec![record("static/.gitkeep", b""), record("static/a.txt", b"a")],
            subdirs: vec![],
        }],
    };
    let mut assets: Vec<AssetRecord> = Vec::new();
    collect_assets(&dir, &mut assets);
    assert_eq!(assets.len(), 2);
    assert!(assets.iter().all(|a| !a.path.ends_with(".gitkeep")));
}

#[test]
fn sentinel_test_matches_suffix_only() {
    assert!(is_sentinel_path(&".gitkeep".to_string()));
    assert!(is_sentinel_path(&"static/.gitkeep".to_string()));
    assert!(!is_sentinel_path(&"gitkeep".to_string()));
    assert!(!is_sentinel_path(&"a.gitkeep.txt".to_string()));
}
