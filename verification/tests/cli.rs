use wasmut::addressresolver::{CodeLocation, DebugFrame};
use wasmut::cliarguments::{
    config_source, new_config_path, worker_count, CLICommand, ConfigSource, ConfigSourceError, Output,
};

#[test]
fn config_source_choices() {
    assert!(matches!(
        config_source(Some("a.toml"), Some("m.wasm"), true),
        Err(ConfigSourceError::ConflictingOptions)
    ));
    assert!(matches!(
        config_source(Some("a.toml"), None, false),
        Ok(ConfigSource::File(f)) if f == "a.toml"
    ));
    assert!(matches!(
        config_source(None, Some("dir/m.wasm"), true),
        Ok(ConfigSource::ModuleDirectory(m)) if m == "dir/m.wasm"
    ));
    assert!(matches!(
        config_source(None, None, true),
        Err(ConfigSourceError::SameDirWithoutModule)
    ));
    assert!(matches!(config_source(None, Some("m.wasm"), false), Ok(ConfigSource::CurrentDirectory)));
}

#[test]
fn commands_request_configuration() {
    let cmd = CLICommand::Mutate {
        config: None,
        config_samedir: true,
        threads: Some(2),
        report: Output::Html,
        output: "out".into(),
        wasmfile: "m.wasm".into(),
    };
    let req = cmd.config_request().unwrap();
    assert_eq!(req.module.as_deref(), Some("m.wasm"));
    assert!(req.config_samedir);
    assert!(req.config.is_none());

    let cmd = CLICommand::ListOperators { config: Some("c.toml".into()), config_samedir: false, wasmfile: None };
    let req = cmd.config_request().unwrap();
    assert_eq!(req.config.as_deref(), Some("c.toml"));
    assert!(req.module.is_none());

    assert!(CLICommand::NewConfig { path: None }.config_request().is_none());
}

#[test]
fn new_config_default_path_and_workers() {
    assert_eq!(new_config_path(None), "wasmut.toml");
    assert_eq!(new_config_path(Some("custom.toml".into())), "custom.toml");
    assert_eq!(worker_count(Some(3), 8), 3);
    assert_eq!(worker_count(None, 8), 8);
}

#[test]
fn code_location_from_frame_or_symbol() {
    let frame = DebugFrame {
        function: Some("test_add_2".into()),
        file: Some("testdata/simple_add/test.c".into()),
        line: Some(16),
        column: Some(18),
    };
    let loc = CodeLocation::from_debug_info(Some(frame), Some("ignored".into()));
    assert_eq!(loc.function.as_deref(), Some("test_add_2"));
    assert_eq!(loc.line, Some(16));
    assert_eq!(loc.column, Some(18));

    let frame = DebugFrame { function: None, file: None, line: None, column: None };
    let loc = CodeLocation::from_debug_info(Some(frame), Some("_start".into()));
    assert_eq!(loc.function.as_deref(), Some("_start"));

    let loc = CodeLocation::from_debug_info(None, Some("_start".into()));
    assert_eq!(
        loc,
        CodeLocation { file: None, function: Some("_start".into()), line: None, column: None }
    );
}
