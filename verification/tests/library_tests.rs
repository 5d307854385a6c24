//! Library resolution: explicit metadata verbatim, coordinate synthesis
//! against the default and declared repository bases, and the sidecar URL.

use launcher_core::{
    get_maven_artifact_path, Architecture, HostInfo, Library, LibraryArtifact,
    LibraryDownloadInfo, LibraryDownloads, LauncherError, OsRule, Rule, RuleAction,
};

fn plain_library(name: &str) -> Library {
    Library {
        name: name.to_string(),
        downloads: None,
        natives: None,
        rules: Vec::new(),
        url: None,
    }
}

#[test]
fn coordinate_resolves_to_conventional_path_against_default_repository() {
    let lib = plain_library("com.example:foo:1.2.3");
    let info = lib.get_library_download().unwrap();
    assert_eq!(info.path, "com/example/foo/1.2.3/foo-1.2.3.jar");
    assert_eq!(info.url, "https://libraries.minecraft.net/com/example/foo/1.2.3/foo-1.2.3.jar");
    assert_eq!(info.sha1, None);
    assert_eq!(info.size, None);
}

#[test]
fn declared_repository_base_is_used() {
    let mut lib = plain_library("org.demo:bar:0.1");
    lib.url = Some("https://repo.example.org/".to_string());
    let info = lib.get_library_download().unwrap();
    assert_eq!(info.url, "https://repo.example.org/org/demo/bar/0.1/bar-0.1.jar");
}

#[test]
fn explicit_artifact_metadata_taken_verbatim() {
    let artifact = LibraryArtifact {
        path: "explicit/path/x.jar".to_string(),
        sha1: "abc123".to_string(),
        size: 42,
        url: "https://cdn.example.net/x.jar".to_string(),
    };
    let lib = Library {
        name: "whatever:else:9".to_string(),
        downloads: Some(LibraryDownloads { artifact: Some(artifact), classifiers: None }),
        natives: None,
        rules: Vec::new(),
        url: None,
    };
    let info = lib.get_library_download().unwrap();
    assert_eq!(info.path, "explicit/path/x.jar");
    assert_eq!(info.sha1.as_deref(), Some("abc123"));
    assert_eq!(info.size, Some(42));
    assert_eq!(info.url, "https://cdn.example.net/x.jar");
}

#[test]
fn malformed_coordinate_is_rejected() {
    let lib = plain_library("notacoordinate");
    match lib.get_library_download() {
        Err(LauncherError::InvalidVersionProfile(m)) => {
            assert_eq!(m, "invalid maven artifact name");
        }
        _ => panic!("expected an invalid coordinate error"),
    }
    match get_maven_artifact_path(&"a:b:c:d".to_string()) {
        Err(LauncherError::InvalidVersionProfile(_)) => {}
        _ => panic!("four-part coordinates are rejected"),
    }
}

#[test]
fn maven_path_keeps_dots_only_in_group() {
    let p = get_maven_artifact_path(&"net.fabricmc:fabric-loader:0.15.11".to_string()).unwrap();
    assert_eq!(p, "net/fabricmc/fabric-loader/0.15.11/fabric-loader-0.15.11.jar");
}

#[test]
fn sidecar_url_appends_extension() {
    let info = LibraryDownloadInfo {
        path: "a/b.jar".to_string(),
        sha1: None,
        size: None,
        url: "https://libraries.minecraft.net/a/b.jar".to_string(),
    };
    assert_eq!(info.sha1_url(), "https://libraries.minecraft.net/a/b.jar.sha1");
}

#[test]
fn descriptor_from_artifact_copies_fields() {
    let artifact = LibraryArtifact {
        path: "p.jar".to_string(),
        sha1: "ff".to_string(),
        size: 7,
        url: "https://u/p.jar".to_string(),
    };
    let info = LibraryDownloadInfo::from(&artifact);
    assert_eq!(info.path, "p.jar");
    assert_eq!(info.sha1.as_deref(), Some("ff"));
    assert_eq!(info.size, Some(7));
    assert_eq!(info.url, "https://u/p.jar");
}

#[test]
fn resolve_excludes_library_denied_by_rules() {
    let mut lib = plain_library("com.example:foo:1.2.3");
    lib.rules.push(Rule {
        action: RuleAction::Allow,
        os: Some(OsRule { name: Some("osx".to_string()), version: None, arch: None }),
        features: None,
    });
    let linux = HostInfo {
        os_name: "linux".to_string(),
        os_version: "6.1".to_string(),
        arch: Architecture::X64,
    };
    let osx = HostInfo {
        os_name: "osx".to_string(),
        os_version: "14.2".to_string(),
        arch: Architecture::Arm64,
    };
    assert!(lib.resolve(&linux, &Vec::new()).unwrap().is_none());
    let resolved = lib.resolve(&osx, &Vec::new()).unwrap().unwrap();
    assert_eq!(resolved.path, "com/example/foo/1.2.3/foo-1.2.3.jar");
}
