use supervisor::config::{parse_config_var, plan_deployment, ConfigError, ConfigFile, ConfigRejected};

fn var(k: &str, v: &str) -> (Vec<u8>, Vec<u8>) {
    (k.as_bytes().to_vec(), v.as_bytes().to_vec())
}

#[test]
fn deploys_a_well_formed_variable() {
    let r = parse_config_var(b"CONFIGFILE_FOO", b"#TARGET:/tmp/x\nhello").unwrap().unwrap();
    assert_eq!(r.path, b"/tmp/x".to_vec());
    assert_eq!(r.contents, b"hello".to_vec());
}

#[test]
fn path_is_trimmed_and_contents_kept_verbatim() {
    let r = parse_config_var(b"CONFIGFILE_A", b"#TARGET:  /etc/a.conf \r\nline1\n  line2\n").unwrap().unwrap();
    assert_eq!(r.path, b"/etc/a.conf".to_vec());
    assert_eq!(r.contents, b"line1\n  line2\n".to_vec());
    let empty = parse_config_var(b"CONFIGFILE_B", b"#TARGET:/b\n").unwrap().unwrap();
    assert_eq!(empty.contents, Vec::<u8>::new());
}

#[test]
fn other_variables_are_ignored() {
    assert_eq!(parse_config_var(b"PATH", b"/usr/bin"), Ok(None));
    assert_eq!(parse_config_var(b"CONFIGFILE", b"#TARGET:/x\ny"), Ok(None));
    assert_eq!(parse_config_var(b"configfile_x", b"#TARGET:/x\ny"), Ok(None));
}

#[test]
fn malformed_variables_are_rejected() {
    assert_eq!(parse_config_var(b"CONFIGFILE_FOO", b"#TARGET:/tmp/x"), Err(ConfigError::MissingHeader));
    assert_eq!(parse_config_var(b"CONFIGFILE_FOO", b"hello"), Err(ConfigError::MissingHeader));
    assert_eq!(parse_config_var(b"CONFIGFILE_FOO", b"/tmp/x\nhello"), Err(ConfigError::BadDirective));
    assert_eq!(parse_config_var(b"CONFIGFILE_FOO", b"#TARGET /tmp/x\nhello"), Err(ConfigError::BadDirective));
    assert_eq!(parse_config_var(b"CONFIGFILE_FOO", b"#TARGET:  \nhello"), Err(ConfigError::EmptyPath));
}

#[test]
fn plan_lists_files_in_order() {
    let vars = vec![
        var("HOME", "/root"),
        var("CONFIGFILE_FOO", "#TARGET:/tmp/x\nhello"),
        var("CONFIGFILE_BAR", "#TARGET:/tmp/y\nworld\n"),
    ];
    let files = plan_deployment(&vars).unwrap();
    assert_eq!(
        files,
        vec![
            ConfigFile { path: b"/tmp/x".to_vec(), contents: b"hello".to_vec() },
            ConfigFile { path: b"/tmp/y".to_vec(), contents: b"world\n".to_vec() },
        ]
    );
    assert_eq!(plan_deployment(&Vec::new()), Ok(Vec::new()));
}

#[test]
fn plan_rejects_before_any_file_is_written() {
    let vars = vec![
        var("CONFIGFILE_FOO", "#TARGET:/tmp/x\nhello"),
        var("CONFIGFILE_BAD", "no header line"),
        var("CONFIGFILE_WORSE", "hello\nworld"),
    ];
    assert_eq!(plan_deployment(&vars), Err(ConfigRejected { index: 1, error: ConfigError::MissingHeader }));
}
