//! Argument building: the fixed JVM preamble, the legacy and structured
//! tails, whitespace splitting, and the missing-game-arguments condition.

use launcher_core::{
    Argument, ArgumentDeclaration, ArgumentValue, Arguments, Architecture, HostInfo,
    LaunchingParameter, LauncherError, OsRule, Rule, RuleAction, V14ArgumentDeclaration,
    V21ArgumentDeclaration,
};

fn host(os_name: &str) -> HostInfo {
    HostInfo {
        os_name: os_name.to_string(),
        os_version: "10.0".to_string(),
        arch: Architecture::X64,
    }
}

fn parameter(memory: u64, dev_mode: bool, custom: &str) -> LaunchingParameter {
    LaunchingParameter { memory, dev_mode, custom_java_args: custom.to_string() }
}

fn legacy(args: Option<&str>) -> ArgumentDeclaration {
    ArgumentDeclaration::V14(V14ArgumentDeclaration {
        minecraft_arguments: args.map(|s| s.to_string()),
    })
}

#[test]
fn jvm_args_legacy_preamble_and_placeholders() {
    let decl = legacy(Some("--demo"));
    let mut cmd: Vec<String> = Vec::new();
    let p = parameter(2048, false, "");
    let r = decl.add_jvm_args_to_vec("tok123", &mut cmd, &p, &host("linux"), &Vec::new());
    assert!(r.is_ok());
    assert_eq!(
        cmd,
        vec![
            "-Xmx2048M",
            "-XX:+UnlockExperimentalVMOptions",
            "-XX:+UseG1GC",
            "-XX:G1NewSizePercent=20",
            "-XX:G1ReservePercent=20",
            "-XX:MaxGCPauseMillis=50",
            "-XX:G1HeapRegionSize=32M",
            "-Dnorisk.token=tok123",
            "-Dnorisk.experimental=false",
            "-Djava.library.path=${natives_directory}",
            "-cp",
            "${classpath}",
        ]
    );
}

#[test]
fn jvm_args_custom_tokens_skip_empties() {
    let decl = legacy(Some("--demo"));
    let mut cmd: Vec<String> = Vec::new();
    let p = parameter(512, true, "  -Dfoo=1   -Dbar=2 ");
    let r = decl.add_jvm_args_to_vec("t", &mut cmd, &p, &host("linux"), &Vec::new());
    assert!(r.is_ok());
    assert_eq!(cmd[0], "-Xmx512M");
    assert_eq!(cmd[8], "-Dnorisk.experimental=true");
    assert_eq!(cmd[9], "-Dfoo=1");
    assert_eq!(cmd[10], "-Dbar=2");
    assert_eq!(cmd[11], "-Djava.library.path=${natives_directory}");
}

#[test]
fn jvm_args_structured_filters_by_rules() {
    let guarded = Argument {
        rules: Some(vec![Rule {
            action: RuleAction::Allow,
            os: Some(OsRule { name: Some("osx".to_string()), version: None, arch: None }),
            features: None,
        }]),
        value: ArgumentValue::SINGLE("-XstartOnFirstThread".to_string()),
    };
    let plain = Argument {
        rules: None,
        value: ArgumentValue::SINGLE("-Dplain=1".to_string()),
    };
    let decl = ArgumentDeclaration::V21(V21ArgumentDeclaration {
        arguments: Arguments { game: Vec::new(), jvm: vec![guarded, plain] },
    });
    let p = parameter(1024, false, "");

    let mut on_osx: Vec<String> = Vec::new();
    assert!(decl.add_jvm_args_to_vec("t", &mut on_osx, &p, &host("osx"), &Vec::new()).is_ok());
    assert!(on_osx.contains(&"-XstartOnFirstThread".to_string()));
    assert!(on_osx.contains(&"-Dplain=1".to_string()));

    let mut on_linux: Vec<String> = Vec::new();
    assert!(decl.add_jvm_args_to_vec("t", &mut on_linux, &p, &host("linux"), &Vec::new()).is_ok());
    assert!(!on_linux.contains(&"-XstartOnFirstThread".to_string()));
    assert!(on_linux.contains(&"-Dplain=1".to_string()));
}

#[test]
fn game_args_legacy_splits_on_whitespace() {
    let decl = legacy(Some("--userName ${auth_player_name}  --demo"));
    let mut cmd: Vec<String> = Vec::new();
    let r = decl.add_game_args_to_vec(&mut cmd, &host("linux"), &Vec::new());
    assert!(r.is_ok());
    assert_eq!(cmd, vec!["--userName", "${auth_player_name}", "--demo"]);
}

#[test]
fn game_args_legacy_missing_string_fails() {
    let decl = legacy(None);
    let mut cmd: Vec<String> = vec!["kept".to_string()];
    let r = decl.add_game_args_to_vec(&mut cmd, &host("linux"), &Vec::new());
    match r {
        Err(LauncherError::InvalidVersionProfile(m)) => {
            assert_eq!(m, "no game arguments specified");
        }
        _ => panic!("expected the missing-game-arguments condition"),
    }
    assert_eq!(cmd, vec!["kept".to_string()]);
}

#[test]
fn game_args_structured_expand_lists_in_order() {
    let list_entry = Argument {
        rules: None,
        value: ArgumentValue::VEC(vec!["--width".to_string(), "1920".to_string()]),
    };
    let feature_guarded = Argument {
        rules: Some(vec![Rule {
            action: RuleAction::Allow,
            os: None,
            features: Some(vec![("is_demo_user".to_string(), true)]),
        }]),
        value: ArgumentValue::SINGLE("--demo".to_string()),
    };
    let decl = ArgumentDeclaration::V21(V21ArgumentDeclaration {
        arguments: Arguments { game: vec![list_entry, feature_guarded], jvm: Vec::new() },
    });

    let mut plain: Vec<String> = Vec::new();
    assert!(decl.add_game_args_to_vec(&mut plain, &host("linux"), &Vec::new()).is_ok());
    assert_eq!(plain, vec!["--width", "1920"]);

    let mut demo: Vec<String> = Vec::new();
    let features = vec!["is_demo_user".to_string()];
    assert!(decl.add_game_args_to_vec(&mut demo, &host("linux"), &features).is_ok());
    assert_eq!(demo, vec!["--width", "1920", "--demo"]);
}

#[test]
fn error_message_carries_detail() {
    let e = LauncherError::ChecksumMismatch("artifact x".to_string());
    assert_eq!(e.message(), "artifact x");
    let e2 = LauncherError::MalformedDocument("manifest".to_string());
    assert_eq!(e2.message(), "manifest");
}
