use locations::{
    Env, EnvReadings, EnvVarLookup, InitializeError, LocationProvider, MemoizedPath, PlatformDirs,
    ProjectDirsOrEnv,
};

fn absent_readings() -> EnvReadings {
    EnvReadings {
        cache_dir: EnvVarLookup::Absent,
        config_dir: EnvVarLookup::Absent,
        config_local_dir: EnvVarLookup::Absent,
        data_dir: EnvVarLookup::Absent,
        data_local_dir: EnvVarLookup::Absent,
        preference_dir: EnvVarLookup::Absent,
        project_path: EnvVarLookup::Absent,
        runtime_dir: EnvVarLookup::Absent,
        state_dir: EnvVarLookup::Absent,
    }
}

fn full_readings() -> EnvReadings {
    EnvReadings {
        cache_dir: EnvVarLookup::Present(String::from("/tmp/c")),
        config_dir: EnvVarLookup::Present(String::from("/tmp/cfg")),
        config_local_dir: EnvVarLookup::Present(String::from("/tmp/cfgl")),
        data_dir: EnvVarLookup::Present(String::from("/tmp/d")),
        data_local_dir: EnvVarLookup::Present(String::from("/tmp/dl")),
        preference_dir: EnvVarLookup::Present(String::from("/tmp/p")),
        project_path: EnvVarLookup::Present(String::from("/tmp/proj")),
        runtime_dir: EnvVarLookup::Absent,
        state_dir: EnvVarLookup::Absent,
    }
}

fn empty_env() -> Env {
    Env {
        cache_dir: None,
        config_dir: None,
        config_local_dir: None,
        data_dir: None,
        data_local_dir: None,
        preference_dir: None,
        project_path: None,
        runtime_dir: None,
        state_dir: None,
    }
}

fn stub_platform() -> PlatformDirs {
    PlatformDirs {
        cache_dir: String::from("/plat/cache"),
        config_dir: String::from("/plat/config"),
        config_local_dir: String::from("/plat/config_local"),
        data_dir: String::from("/plat/data"),
        data_local_dir: String::from("/plat/data_local"),
        preference_dir: String::from("/plat/pref"),
        project_path: String::from("/plat/proj"),
        runtime_dir: Some(String::from("/plat/run")),
        state_dir: None,
    }
}

#[test]
fn complete_environment_is_authoritative() {
    let resolved = ProjectDirsOrEnv::new("acme", "ACME", full_readings())
        .unwrap_or_else(|_| panic!("a complete environment must resolve"));
    assert_eq!(resolved.cache_dir(), "/tmp/c");
    assert_eq!(resolved.config_dir(), "/tmp/cfg");
    assert_eq!(resolved.config_local_dir(), "/tmp/cfgl");
    assert_eq!(resolved.data_dir(), "/tmp/d");
    assert_eq!(resolved.data_local_dir(), "/tmp/dl");
    assert_eq!(resolved.preference_dir(), "/tmp/p");
    assert_eq!(resolved.project_path(), "/tmp/proj");
    assert_eq!(resolved.runtime_dir(), None);
    assert_eq!(resolved.state_dir(), None);
}

#[test]
fn complete_environment_carries_optionals_verbatim() {
    let mut readings = full_readings();
    readings.runtime_dir = EnvVarLookup::Present(String::from("/tmp/run"));
    let resolved = ProjectDirsOrEnv::new("acme", "ACME", readings)
        .unwrap_or_else(|_| panic!("a complete environment must resolve"));
    assert_eq!(resolved.runtime_dir(), Some("/tmp/run"));
    assert_eq!(resolved.state_dir(), None);
}

#[test]
fn hybrid_merge_prefers_env_per_field() {
    let mut env = empty_env();
    env.cache_dir = Some(String::from("/tmp/c"));
    env.state_dir = Some(String::from("/tmp/s"));
    let resolved = ProjectDirsOrEnv::from_parts(env, stub_platform());
    assert_eq!(resolved.cache_dir(), "/tmp/c");
    assert_eq!(resolved.config_dir(), "/plat/config");
    assert_eq!(resolved.config_local_dir(), "/plat/config_local");
    assert_eq!(resolved.data_dir(), "/plat/data");
    assert_eq!(resolved.data_local_dir(), "/plat/data_local");
    assert_eq!(resolved.preference_dir(), "/plat/pref");
    assert_eq!(resolved.project_path(), "/plat/proj");
    assert_eq!(resolved.runtime_dir(), Some("/plat/run"));
    assert_eq!(resolved.state_dir(), Some("/tmp/s"));
}

#[test]
fn empty_environment_equals_platform_defaults() {
    let resolved = ProjectDirsOrEnv::from_parts(empty_env(), stub_platform());
    assert_eq!(resolved.cache_dir(), "/plat/cache");
    assert_eq!(resolved.config_dir(), "/plat/config");
    assert_eq!(resolved.config_local_dir(), "/plat/config_local");
    assert_eq!(resolved.data_dir(), "/plat/data");
    assert_eq!(resolved.data_local_dir(), "/plat/data_local");
    assert_eq!(resolved.preference_dir(), "/plat/pref");
    assert_eq!(resolved.project_path(), "/plat/proj");
    assert_eq!(resolved.runtime_dir(), Some("/plat/run"));
    assert_eq!(resolved.state_dir(), None);
}

#[test]
fn encoding_failure_names_first_variable() {
    let mut readings = full_readings();
    readings.config_dir = EnvVarLookup::NotUnicode(String::from("b\u{fffd}d"));
    readings.preference_dir = EnvVarLookup::NotUnicode(String::from("later"));
    let err = match ProjectDirsOrEnv::new("acme", "ACME", readings) {
        Err(InitializeError::Env(e)) => e,
        Err(_) => panic!("expected the encoding error, not the platform error"),
        Ok(_) => panic!("an undecodable variable must abort resolution"),
    };
    assert_eq!(err.name, "ACME_CONFIG_DIR");
    assert_eq!(err.value, "b\u{fffd}d");
}

#[test]
fn encoding_failure_beats_other_valid_variables() {
    let mut readings = absent_readings();
    readings.state_dir = EnvVarLookup::NotUnicode(String::from("raw"));
    let err = match Env::new("APP", readings) {
        Err(e) => e,
        Ok(_) => panic!("an undecodable variable must abort resolution"),
    };
    assert_eq!(err.name, "APP_STATE_DIR");
    assert_eq!(err.value, "raw");
}

#[test]
fn env_new_decodes_present_and_absent() {
    let mut readings = absent_readings();
    readings.data_dir = EnvVarLookup::Present(String::from("/tmp/d"));
    let env = Env::new("APP", readings).unwrap_or_else(|_| panic!("no invalid variable here"));
    assert_eq!(env.data_dir, Some(String::from("/tmp/d")));
    assert_eq!(env.cache_dir, None);
    assert_eq!(env.state_dir, None);
}

#[test]
fn parity_complete_is_consumed_verbatim() {
    let env = Env {
        cache_dir: Some(String::from("/c")),
        config_dir: Some(String::from("/cfg")),
        config_local_dir: Some(String::from("/cfgl")),
        data_dir: Some(String::from("/d")),
        data_local_dir: Some(String::from("/dl")),
        preference_dir: Some(String::from("/p")),
        project_path: Some(String::from("/proj")),
        runtime_dir: Some(String::from("/run")),
        state_dir: None,
    };
    let parity = match env.parity() {
        Ok(p) => p,
        Err(_) => panic!("a complete environment must classify as complete"),
    };
    assert_eq!(parity.cache_dir, "/c");
    assert_eq!(parity.config_dir, "/cfg");
    assert_eq!(parity.config_local_dir, "/cfgl");
    assert_eq!(parity.data_dir, "/d");
    assert_eq!(parity.data_local_dir, "/dl");
    assert_eq!(parity.preference_dir, "/p");
    assert_eq!(parity.project_path, "/proj");
    assert_eq!(parity.runtime_dir, Some(String::from("/run")));
    assert_eq!(parity.state_dir, None);

    let resolved = ProjectDirsOrEnv::from(parity);
    assert_eq!(resolved.cache_dir(), "/c");
    assert_eq!(resolved.runtime_dir(), Some("/run"));
}

#[test]
fn parity_incomplete_hands_env_back_unchanged() {
    let mut env = empty_env();
    env.cache_dir = Some(String::from("/c"));
    env.runtime_dir = Some(String::from("/run"));
    let env = match env.parity() {
        Ok(_) => panic!("one mandatory entry does not make a complete environment"),
        Err(e) => e,
    };
    assert_eq!(env.cache_dir, Some(String::from("/c")));
    assert_eq!(env.config_dir, None);
    assert_eq!(env.runtime_dir, Some(String::from("/run")));
}

#[test]
fn parity_ignores_optional_entries() {
    let mut readings = full_readings();
    readings.runtime_dir = EnvVarLookup::Absent;
    readings.state_dir = EnvVarLookup::Absent;
    let env = Env::new("ACME", readings).unwrap_or_else(|_| panic!("no invalid variable here"));
    assert!(env.parity().is_ok());
}

#[test]
fn hybrid_path_honors_partial_override() {
    let mut readings = absent_readings();
    readings.cache_dir = EnvVarLookup::Present(String::from("/tmp/c"));
    match ProjectDirsOrEnv::new("acme", "ACME", readings) {
        Ok(resolved) => {
            assert_eq!(resolved.cache_dir(), "/tmp/c");
            assert_ne!(resolved.config_dir(), "");
        }
        Err(InitializeError::ProjectDirs(_)) => {
            // Legal where the machine exposes no home directory.
        }
        Err(InitializeError::Env(e)) => {
            panic!("no variable is invalid here: {}", e.message());
        }
    }
}

#[test]
fn second_initialize_is_rejected() {
    let first = ProjectDirsOrEnv::from_parts(empty_env(), stub_platform());
    let mut env = empty_env();
    env.cache_dir = Some(String::from("/other"));
    let second = ProjectDirsOrEnv::from_parts(env, stub_platform());

    let mut provider = LocationProvider::new();
    assert!(provider.get().is_none());
    assert!(provider.initialize(first).is_ok());
    assert!(provider.initialize(second).is_err());
    let stored = provider.get().unwrap_or_else(|| panic!("the first snapshot must be kept"));
    assert_eq!(stored.cache_dir(), "/plat/cache");
}

#[test]
fn accessors_return_identical_values_on_every_call() {
    let resolved = ProjectDirsOrEnv::from_parts(empty_env(), stub_platform());
    let first = String::from(resolved.cache_dir());
    for _ in 0..3 {
        assert_eq!(resolved.cache_dir(), first.as_str());
        assert_eq!(resolved.runtime_dir(), Some("/plat/run"));
        assert_eq!(resolved.state_dir(), None);
    }
}

#[test]
fn derived_accessor_memoizes_first_value() {
    let mut memo = MemoizedPath::new();
    let first = memo.get_or_compute(String::from("/plat/cache/logs"));
    assert_eq!(first, "/plat/cache/logs");
    let second = memo.get_or_compute(String::from("/somewhere/else"));
    assert_eq!(second, "/plat/cache/logs");
    let third = memo.get_or_compute(String::from("/a/third/value"));
    assert_eq!(third, "/plat/cache/logs");
}

#[test]
fn error_messages_match() {
    let mut readings = absent_readings();
    readings.project_path = EnvVarLookup::NotUnicode(String::from("odd"));
    let err = match Env::new("X", readings) {
        Err(e) => e,
        Ok(_) => panic!("an undecodable variable must abort resolution"),
    };
    assert_eq!(
        err.message(),
        "the environment variable 'X_PROJECT_PATH' does not contain valid unicode data"
    );

    let init_err = InitializeError::Env(err);
    assert_eq!(init_err.message(), "env provider failed to initialize");
}
