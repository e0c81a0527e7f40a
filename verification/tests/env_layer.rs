use trunk_config::env_layer::prefixed_entries;
use trunk_config::error::ConfigError;
use trunk_config::error::ErrorKind;
use trunk_config::error::Field;
use trunk_config::error::Section;
use trunk_config::options::ConfigOpts;
use trunk_config::options::ConfigOptsBuild;
use trunk_config::options::ConfigOptsClean;
use trunk_config::options::ConfigOptsServe;
use trunk_config::options::ConfigOptsWatch;

fn vars(pairs: &[(&str, &str)]) -> Vec<(String, String)> {
    pairs.iter().map(|(name, value)| (name.to_string(), value.to_string())).collect()
}

fn fault(section: Section, field: Field) -> ConfigError {
    ConfigError::Env { section, field }
}

fn text(value: &str) -> Option<String> {
    Some(value.to_string())
}

#[test]
fn empty_environment_states_four_empty_sections() {
    let layer = ConfigOpts::from_env(&Vec::new()).unwrap();
    assert_eq!(layer.build, Some(ConfigOptsBuild::default()));
    assert_eq!(layer.watch, Some(ConfigOptsWatch::default()));
    assert_eq!(layer.serve, Some(ConfigOptsServe::default()));
    assert_eq!(layer.clean, Some(ConfigOptsClean::default()));
    assert_eq!(layer.proxy, None);
    assert_eq!(layer.compression, None);
}

#[test]
fn every_variable_sets_its_field() {
    let layer = ConfigOpts::from_env(&vars(&[
        ("PATH", "/usr/bin"),
        ("TRUNK_BUILD_TARGET", "src/index.html"),
        ("TRUNK_BUILD_RELEASE", "true"),
        ("TRUNK_BUILD_DIST", "out"),
        ("TRUNK_BUILD_PUBLIC_URL", "/assets/"),
        ("TRUNK_WATCH_IGNORE", "tmp,cache/a"),
        ("TRUNK_SERVE_PORT", "9000"),
        ("TRUNK_SERVE_OPEN", "true"),
        ("TRUNK_SERVE_PROXY_BACKEND", "http://localhost:9000"),
        ("TRUNK_SERVE_PROXY_REWRITE", "/api/"),
        ("TRUNK_CLEAN_DIST", "out"),
        ("TRUNK_CLEAN_CARGO", "true"),
    ]))
    .unwrap();
    assert_eq!(
        layer.build,
        Some(ConfigOptsBuild {
            target: text("src/index.html"),
            release: true,
            dist: text("out"),
            public_url: text("/assets/"),
        })
    );
    assert_eq!(
        layer.watch,
        Some(ConfigOptsWatch { ignore: Some(vec!["tmp".to_string(), "cache/a".to_string()]) })
    );
    assert_eq!(
        layer.serve,
        Some(ConfigOptsServe {
            port: Some(9000),
            open: true,
            proxy_backend: text("http://localhost:9000/"),
            proxy_rewrite: text("/api/"),
        })
    );
    assert_eq!(layer.clean, Some(ConfigOptsClean { dist: text("out"), cargo: true }));
    assert_eq!(layer.proxy, None);
    assert_eq!(layer.compression, None);
}

#[test]
fn prefix_is_taken_off_and_the_rest_lowered() {
    let entries = prefixed_entries(
        "TRUNK_BUILD_",
        &vars(&[
            ("TRUNK_BUILD_RELEASE", "true"),
            ("HOME", "/root"),
            ("TRUNK_SERVE_PORT", "1"),
            ("TRUNK_BUILD_Public_Url", "/x/"),
            ("trunk_build_dist", "d"),
            ("TRUNK_BUILD", "n"),
        ]),
    );
    assert_eq!(
        entries,
        vec![
            ("release".to_string(), "true".to_string()),
            ("public_url".to_string(), "/x/".to_string()),
        ]
    );
    assert_eq!(prefixed_entries("TRUNK_CLEAN_", &Vec::new()), Vec::new());
}

#[test]
fn sections_do_not_take_each_others_variables() {
    let layer = ConfigOpts::from_env(&vars(&[
        ("TRUNK_CLEAN_DIST", "clean-out"),
        ("TRUNK_SERVE_RELEASE", "true"),
        ("TRUNK_BUILD_CARGO", "true"),
    ]))
    .unwrap();
    assert_eq!(layer.build, Some(ConfigOptsBuild::default()));
    assert_eq!(layer.clean, Some(ConfigOptsClean { dist: text("clean-out"), cargo: false }));
}

#[test]
fn flags_must_be_true_or_false() {
    let layer = ConfigOpts::from_env(&vars(&[("TRUNK_BUILD_RELEASE", "false")])).unwrap();
    assert!(!layer.build.unwrap().release);
    for value in ["1", "yes", "TRUE", ""] {
        let error = ConfigOpts::from_env(&vars(&[("TRUNK_BUILD_RELEASE", value)])).unwrap_err();
        assert_eq!(error, fault(Section::Build, Field::Release));
        assert_eq!(error.kind(), ErrorKind::EnvCoercion);
    }
    let error = ConfigOpts::from_env(&vars(&[("TRUNK_SERVE_OPEN", "on")])).unwrap_err();
    assert_eq!(error, fault(Section::Serve, Field::Open));
    let error = ConfigOpts::from_env(&vars(&[("TRUNK_CLEAN_CARGO", "0")])).unwrap_err();
    assert_eq!(error, fault(Section::Clean, Field::Cargo));
}

#[test]
fn port_must_be_a_number_in_range() {
    let layer = ConfigOpts::from_env(&vars(&[("TRUNK_SERVE_PORT", "65535")])).unwrap();
    assert_eq!(layer.serve.unwrap().port, Some(65535));
    for value in ["65536", "-1", "http", "", "80 "] {
        let error = ConfigOpts::from_env(&vars(&[("TRUNK_SERVE_PORT", value)])).unwrap_err();
        assert_eq!(error, fault(Section::Serve, Field::Port));
    }
}

#[test]
fn proxy_backend_must_be_a_url() {
    let error =
        ConfigOpts::from_env(&vars(&[("TRUNK_SERVE_PROXY_BACKEND", "localhost")])).unwrap_err();
    assert_eq!(error, fault(Section::Serve, Field::ProxyBackend));
}

#[test]
fn two_variables_for_one_field_are_an_error() {
    let error = ConfigOpts::from_env(&vars(&[
        ("TRUNK_BUILD_DIST", "a"),
        ("TRUNK_BUILD_dist", "b"),
    ]))
    .unwrap_err();
    assert_eq!(error, fault(Section::Build, Field::Dist));
    let error = ConfigOpts::from_env(&vars(&[
        ("TRUNK_WATCH_IGNORE", "a"),
        ("TRUNK_WATCH_Ignore", "a"),
    ]))
    .unwrap_err();
    assert_eq!(error, fault(Section::Watch, Field::Ignore));
}

#[test]
fn first_environment_fault_in_declared_order_is_reported() {
    let error = ConfigOpts::from_env(&vars(&[
        ("TRUNK_CLEAN_CARGO", "x"),
        ("TRUNK_SERVE_PORT", "x"),
        ("TRUNK_BUILD_RELEASE", "x"),
    ]))
    .unwrap_err();
    assert_eq!(error, fault(Section::Build, Field::Release));
    let error = ConfigOpts::from_env(&vars(&[
        ("TRUNK_SERVE_OPEN", "x"),
        ("TRUNK_SERVE_PORT", "x"),
    ]))
    .unwrap_err();
    assert_eq!(error, fault(Section::Serve, Field::Port));
}

#[test]
fn ignore_list_is_split_at_commas() {
    let layer = ConfigOpts::from_env(&vars(&[("TRUNK_WATCH_IGNORE", "")])).unwrap();
    assert_eq!(layer.watch.unwrap().ignore, Some(vec![]));
    let layer = ConfigOpts::from_env(&vars(&[("TRUNK_WATCH_IGNORE", "a,,b")])).unwrap();
    assert_eq!(
        layer.watch.unwrap().ignore,
        Some(vec!["a".to_string(), "".to_string(), "b".to_string()])
    );
}

#[test]
fn sections_are_read_from_their_entries() {
    let entries = vars(&[("target", "index.html"), ("release", "true"), ("other", "x")]);
    let build = ConfigOptsBuild::from_entries(&entries).unwrap();
    assert_eq!(build.target, text("index.html"));
    assert!(build.release);
    assert_eq!(build.dist, None);
    let entries = vars(&[("port", "81"), ("port", "82")]);
    assert_eq!(
        ConfigOptsServe::from_entries(&entries).unwrap_err(),
        fault(Section::Serve, Field::Port)
    );
    let entries = vars(&[("ignore", "x,y")]);
    assert_eq!(
        ConfigOptsWatch::from_entries(&entries).unwrap().ignore,
        Some(vec!["x".to_string(), "y".to_string()])
    );
    let entries = vars(&[("cargo", "true"), ("dist", "")]);
    assert_eq!(
        ConfigOptsClean::from_entries(&entries).unwrap(),
        ConfigOptsClean { dist: text(""), cargo: true }
    );
}
