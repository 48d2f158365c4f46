use umi_cli::manifest::{FirmwareBinary, Manifest, ManifestSchema, ResolveError, Selector};
use umi_cli::update::resolve_update;
use umi_cli::version::Version;

fn catalog() -> Manifest {
    let binaries = vec![
        (
            String::from("1.2.0"),
            FirmwareBinary::new(
                String::from("https://example.invalid/fw/1.2.0.uf2"),
                String::from("1.0.0"),
                Some(String::from("ab12")),
            ),
        ),
        (
            String::from("1.1.0"),
            FirmwareBinary::new(
                String::from("https://example.invalid/fw/1.1.0.uf2"),
                String::from("0.9.0"),
                None,
            ),
        ),
    ];
    Manifest::new(
        String::from("0.1.0"),
        String::from("1.3.0"),
        String::from("1.2.0"),
        binaries,
    )
}

#[test]
fn resolve_stable_yields_entry() {
    let m = catalog();
    let (key, binary) = m.resolve(&Selector::Stable).unwrap();
    assert_eq!(key, "1.2.0");
    assert_eq!(binary.file(), "https://example.invalid/fw/1.2.0.uf2");
    assert_eq!(binary.minimum_supported_version(), "1.0.0");
    assert_eq!(binary.sha256(), Some("ab12"));
}

#[test]
fn resolve_absent_version_not_found() {
    let m = catalog();
    match m.resolve(&Selector::Version(String::from("9.9.9"))) {
        Err(ResolveError::NotFound(key)) => assert_eq!(key, "9.9.9"),
        other => panic!("expected a missing-key failure, got {:?}", other),
    }
}

#[test]
fn resolve_dangling_latest_not_found() {
    // The latest pointer names 1.3.0, which is absent from the catalog:
    // the failure names the dangling key.
    let m = catalog();
    match m.resolve(&Selector::Latest) {
        Err(ResolveError::NotFound(key)) => assert_eq!(key, "1.3.0"),
        other => panic!("expected a missing-key failure, got {:?}", other),
    }
    assert!(m.latest().is_none());
}

#[test]
fn getters_find_entries() {
    let m = catalog();
    assert_eq!(
        m.stable().unwrap().file(),
        "https://example.invalid/fw/1.2.0.uf2"
    );
    assert_eq!(m.version("1.1.0").unwrap().minimum_supported_version(), "0.9.0");
    assert_eq!(m.version("1.1.0").unwrap().sha256(), None);
    assert!(m.version("2.0.0").is_none());
    assert_eq!(m.binaries().len(), 2);
}

#[test]
fn resolve_update_prefers_explicit_version() {
    let m = catalog();
    let (key, _) = resolve_update(&m, &Some(String::from("1.1.0"))).unwrap();
    assert_eq!(key, "1.1.0");
    let (key, _) = resolve_update(&m, &None).unwrap();
    assert_eq!(key, "1.2.0");
    match resolve_update(&m, &Some(String::from("0.0.1"))) {
        Err(ResolveError::NotFound(key)) => assert_eq!(key, "0.0.1"),
        other => panic!("expected a missing-key failure, got {:?}", other),
    }
}

#[test]
fn update_options_carry_the_request() {
    let options = umi_cli::update::UpdateOptions {
        file: Some(String::from("fw.uf2")),
        version: None,
    };
    assert_eq!(options.file.as_deref(), Some("fw.uf2"));
    assert!(options.version.is_none());
}

#[test]
fn schema_probe_carries_the_field() {
    let probe = ManifestSchema { schema: String::from("0.1.0") };
    assert_eq!(probe.schema, "0.1.0");
}

#[test]
fn minimum_version_gate() {
    let current = Version { major: 1, minor: 0, patch: 0 };
    let min_ok = Version { major: 0, minor: 9, patch: 9 };
    let min_too_new = Version { major: 1, minor: 0, patch: 1 };
    assert!(umi_cli::update::minimum_satisfied(&current, &min_ok));
    assert!(!umi_cli::update::minimum_satisfied(&current, &min_too_new));
}
