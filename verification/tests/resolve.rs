use trunk_config::error::ConfigError;
use trunk_config::error::Field;
use trunk_config::error::Section;
use trunk_config::file_layer::ConfigFile;
use trunk_config::options::ConfigOpts;
use trunk_config::options::ConfigOptsBuild;
use trunk_config::options::ConfigOptsClean;
use trunk_config::options::ConfigOptsProxy;
use trunk_config::options::ConfigOptsServe;
use trunk_config::options::ConfigOptsWatch;
use trunk_config::resolve::RtcBuild;
use trunk_config::resolve::RtcClean;

fn loaded(path: &str, text: &str) -> ConfigFile {
    ConfigFile::Loaded { path: path.to_string(), bytes: text.as_bytes().to_vec() }
}

fn vars(pairs: &[(&str, &str)]) -> Vec<(String, String)> {
    pairs.iter().map(|(name, value)| (name.to_string(), value.to_string())).collect()
}

fn text(value: &str) -> Option<String> {
    Some(value.to_string())
}

const SITE: &str = r#"
    [build]
    target = "index.html"
    release = false
    dist = "dist"

    [watch]
    ignore = ["tmp"]

    [serve]
    port = 8000

    [clean]
    dist = "dist"

    [[proxy]]
    backend = "http://localhost:9000/api"
"#;

#[test]
fn release_raised_by_the_environment_stays_raised() {
    let file = loaded("/site/Trunk.toml", "[build]\nrelease = false\n");
    let env = vars(&[("TRUNK_BUILD_RELEASE", "true")]);
    let cli = ConfigOptsBuild { release: false, ..ConfigOptsBuild::default() };
    let rtc = ConfigOpts::rtc_build(cli, file, &env).unwrap();
    assert!(rtc.build.release);
}

#[test]
fn release_raised_by_the_file_stays_raised() {
    let file = loaded("/site/Trunk.toml", "[build]\nrelease = true\n");
    let env = vars(&[("TRUNK_BUILD_RELEASE", "false")]);
    let rtc = ConfigOpts::rtc_build(ConfigOptsBuild::default(), file, &env).unwrap();
    assert!(rtc.build.release);
}

#[test]
fn release_stays_down_when_nobody_raises_it() {
    let file = loaded("/site/Trunk.toml", "[build]\nrelease = false\n");
    let rtc = ConfigOpts::rtc_build(ConfigOptsBuild::default(), file, &Vec::new()).unwrap();
    assert!(!rtc.build.release);
}

#[test]
fn resolving_twice_gives_the_same_configuration() {
    let env = vars(&[("TRUNK_BUILD_DIST", "/env/dist"), ("TRUNK_SERVE_OPEN", "true")]);
    let cli_build = ConfigOptsBuild { public_url: text("/app/"), ..ConfigOptsBuild::default() };
    let cli_watch = ConfigOptsWatch { ignore: None };
    let cli_serve = ConfigOptsServe { port: Some(3000), ..ConfigOptsServe::default() };
    let first = ConfigOpts::rtc_serve(
        cli_build.clone(),
        cli_watch.clone(),
        cli_serve.clone(),
        loaded("/site/Trunk.toml", SITE),
        &env,
    );
    let second = ConfigOpts::rtc_serve(
        cli_build,
        cli_watch,
        cli_serve,
        loaded("/site/Trunk.toml", SITE),
        &env,
    );
    assert_eq!(first, second);
    assert_eq!(format!("{:?}", first), format!("{:?}", second));
    let rtc = first.unwrap();
    assert_eq!(
        rtc.build,
        ConfigOptsBuild {
            target: text("/site/index.html"),
            release: false,
            dist: text("/env/dist"),
            public_url: text("/app/"),
        }
    );
    assert_eq!(rtc.watch, ConfigOptsWatch { ignore: Some(vec!["/site/tmp".to_string()]) });
    assert_eq!(
        rtc.serve,
        ConfigOptsServe { port: Some(3000), open: true, proxy_backend: None, proxy_rewrite: None }
    );
    assert_eq!(
        rtc.proxies,
        Some(vec![ConfigOptsProxy {
            backend: "http://localhost:9000/api".to_string(),
            rewrite: None,
        }])
    );
}

#[test]
fn command_line_wins_over_environment_wins_over_file() {
    let env = vars(&[("TRUNK_BUILD_TARGET", "env.html"), ("TRUNK_BUILD_DIST", "env-dist")]);
    let cli = ConfigOptsBuild { target: text("cli.html"), ..ConfigOptsBuild::default() };
    let rtc = ConfigOpts::rtc_build(cli, loaded("/site/Trunk.toml", SITE), &env).unwrap();
    assert_eq!(rtc.build.target, text("cli.html"));
    assert_eq!(rtc.build.dist, text("env-dist"));
    let rtc = ConfigOpts::rtc_build(
        ConfigOptsBuild::default(),
        loaded("/site/Trunk.toml", SITE),
        &Vec::new(),
    )
    .unwrap();
    assert_eq!(rtc.build.target, text("/site/index.html"));
    assert_eq!(rtc.build.dist, text("/site/dist"));
}

#[test]
fn environment_paths_are_not_placed_beside_the_file() {
    let env = vars(&[("TRUNK_CLEAN_DIST", "relative")]);
    let rtc =
        ConfigOpts::rtc_clean(ConfigOptsClean::default(), loaded("/site/Trunk.toml", SITE), &env)
            .unwrap();
    assert_eq!(rtc.clean.dist, text("relative"));
}

#[test]
fn watch_configuration_holds_build_and_watch() {
    let cli_watch = ConfigOptsWatch { ignore: Some(vec!["cli".to_string()]) };
    let rtc = ConfigOpts::rtc_watch(
        ConfigOptsBuild::default(),
        cli_watch,
        loaded("/site/Trunk.toml", SITE),
        &Vec::new(),
    )
    .unwrap();
    assert_eq!(rtc.watch.ignore, Some(vec!["cli".to_string()]));
    assert_eq!(rtc.build.target, text("/site/index.html"));
}

#[test]
fn clean_configuration_with_no_layers_is_the_command_line() {
    let cli = ConfigOptsClean { dist: text("out"), cargo: true };
    let rtc = ConfigOpts::rtc_clean(cli.clone(), ConfigFile::Missing, &Vec::new()).unwrap();
    assert_eq!(rtc, RtcClean { clean: cli });
}

#[test]
fn build_configuration_over_an_empty_base_is_the_command_line() {
    let cli = ConfigOptsBuild { target: text("x.html"), ..ConfigOptsBuild::default() };
    let rtc = ConfigOpts::resolve_build(ConfigOpts::default(), cli.clone());
    assert_eq!(rtc, RtcBuild { build: cli });
}

#[test]
fn file_failure_fails_the_resolution() {
    let error =
        ConfigOpts::rtc_build(ConfigOptsBuild::default(), ConfigFile::Unreadable, &Vec::new())
            .unwrap_err();
    assert_eq!(error, ConfigError::FileRead);
    let error = ConfigOpts::rtc_clean(
        ConfigOptsClean::default(),
        loaded("/site/Trunk.toml", "[clean]\ncargo = 3\n"),
        &Vec::new(),
    )
    .unwrap_err();
    assert_eq!(error, ConfigError::Shape { section: Section::Clean, field: Field::Cargo });
}

#[test]
fn environment_failure_fails_the_resolution() {
    let env = vars(&[("TRUNK_SERVE_PORT", "eighty")]);
    let error = ConfigOpts::rtc_serve(
        ConfigOptsBuild::default(),
        ConfigOptsWatch::default(),
        ConfigOptsServe::default(),
        ConfigFile::Missing,
        &env,
    )
    .unwrap_err();
    assert_eq!(error, ConfigError::Env { section: Section::Serve, field: Field::Port });
    let error = ConfigOpts::rtc_build(ConfigOptsBuild::default(), ConfigFile::Missing, &env)
        .unwrap_err();
    assert_eq!(error, ConfigError::Env { section: Section::Serve, field: Field::Port });
}

#[test]
fn file_failure_comes_before_environment_failure() {
    let env = vars(&[("TRUNK_SERVE_PORT", "eighty")]);
    let error = ConfigOpts::full(ConfigFile::Unresolved, &env).unwrap_err();
    assert_eq!(error, ConfigError::PathResolution);
}

#[test]
fn full_configuration_is_file_under_environment() {
    let env = vars(&[("TRUNK_SERVE_PORT", "9999")]);
    let base = ConfigOpts::full(loaded("/site/Trunk.toml", SITE), &env).unwrap();
    assert_eq!(base.serve.unwrap().port, Some(9999));
    assert_eq!(base.build.unwrap().dist, text("/site/dist"));
    assert_eq!(base.proxy.unwrap().len(), 1);
    let same = ConfigOpts::file_and_env_layers(loaded("/site/Trunk.toml", SITE), &env);
    assert_eq!(same, ConfigOpts::full(loaded("/site/Trunk.toml", SITE), &env));
}

#[test]
fn command_line_layers_merge_over_the_base() {
    let base = ConfigOpts::from_toml(SITE.as_bytes()).unwrap();
    let cli = ConfigOptsServe { open: true, ..ConfigOptsServe::default() };
    let layer = ConfigOpts::cli_opts_layer_serve(cli, base.clone());
    assert_eq!(
        layer.serve,
        Some(ConfigOptsServe { port: Some(8000), open: true, ..ConfigOptsServe::default() })
    );
    assert_eq!(layer.build, base.build);
    let layer = ConfigOpts::cli_opts_layer_clean(
        ConfigOptsClean { dist: None, cargo: true },
        base.clone(),
    );
    assert_eq!(layer.clean, Some(ConfigOptsClean { dist: text("dist"), cargo: true }));
    let layer = ConfigOpts::cli_opts_layer_watch(ConfigOptsWatch { ignore: None }, base.clone());
    assert_eq!(layer.watch, base.watch);
    let layer = ConfigOpts::cli_opts_layer_build(
        ConfigOptsBuild { release: true, ..ConfigOptsBuild::default() },
        ConfigOpts::default(),
    );
    assert_eq!(
        layer.build,
        Some(ConfigOptsBuild { release: true, ..ConfigOptsBuild::default() })
    );
}
