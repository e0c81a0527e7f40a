use trunk_config::compression::Compressor;
use trunk_config::options::ConfigOpts;
use trunk_config::options::ConfigOptsBuild;
use trunk_config::options::ConfigOptsClean;
use trunk_config::options::ConfigOptsCompression;
use trunk_config::options::ConfigOptsProxy;
use trunk_config::options::ConfigOptsServe;
use trunk_config::options::ConfigOptsWatch;

fn text(value: &str) -> Option<String> {
    Some(value.to_string())
}

fn proxy(backend: &str) -> ConfigOptsProxy {
    ConfigOptsProxy { backend: backend.to_string(), rewrite: None }
}

fn rule(algorithm: Compressor) -> ConfigOptsCompression {
    ConfigOptsCompression {
        algorithm,
        options: None,
        test: None,
        includes: None,
        exclude: None,
        threshold: None,
        ratio: None,
    }
}

fn full_layer() -> ConfigOpts {
    ConfigOpts {
        build: Some(ConfigOptsBuild {
            target: text("/site/index.html"),
            release: true,
            dist: text("/site/dist"),
            public_url: text("/assets/"),
        }),
        watch: Some(ConfigOptsWatch { ignore: Some(vec!["/site/tmp".to_string()]) }),
        serve: Some(ConfigOptsServe {
            port: Some(9000),
            open: true,
            proxy_backend: text("http://localhost:9000/"),
            proxy_rewrite: text("/api/"),
        }),
        clean: Some(ConfigOptsClean { dist: text("/site/dist"), cargo: true }),
        proxy: Some(vec![proxy("http://a.example/")]),
        compression: Some(vec![rule(Compressor::Zstd)]),
    }
}

#[test]
fn merge_of_empty_layers_is_empty() {
    let merged = ConfigOpts::merge(ConfigOpts::default(), ConfigOpts::default());
    assert_eq!(merged, ConfigOpts::default());
    assert!(merged.build.is_none());
    assert!(merged.proxy.is_none());
}

#[test]
fn merge_with_empty_greater_is_lesser() {
    let merged = ConfigOpts::merge(full_layer(), ConfigOpts::default());
    assert_eq!(merged, full_layer());
}

#[test]
fn merge_with_empty_lesser_is_greater() {
    let merged = ConfigOpts::merge(ConfigOpts::default(), full_layer());
    assert_eq!(merged, full_layer());
}

#[test]
fn merge_of_a_layer_with_itself_is_that_layer() {
    assert_eq!(ConfigOpts::merge(full_layer(), full_layer()), full_layer());
}

#[test]
fn sticky_release_survives_a_later_false() {
    let lesser = ConfigOpts {
        build: Some(ConfigOptsBuild { release: true, ..ConfigOptsBuild::default() }),
        ..ConfigOpts::default()
    };
    let greater = ConfigOpts {
        build: Some(ConfigOptsBuild { release: false, ..ConfigOptsBuild::default() }),
        ..ConfigOpts::default()
    };
    let merged = ConfigOpts::merge(lesser, greater);
    assert!(merged.build.unwrap().release);
}

#[test]
fn sticky_flags_are_raised_by_either_side() {
    let raised = ConfigOpts {
        serve: Some(ConfigOptsServe { open: true, ..ConfigOptsServe::default() }),
        clean: Some(ConfigOptsClean { dist: None, cargo: true }),
        ..ConfigOpts::default()
    };
    let lowered = ConfigOpts {
        serve: Some(ConfigOptsServe::default()),
        clean: Some(ConfigOptsClean::default()),
        ..ConfigOpts::default()
    };
    let first = ConfigOpts::merge(raised.clone(), lowered.clone());
    assert!(first.serve.unwrap().open);
    assert!(first.clean.unwrap().cargo);
    let second = ConfigOpts::merge(lowered.clone(), raised);
    assert!(second.serve.unwrap().open);
    assert!(second.clean.unwrap().cargo);
    let third = ConfigOpts::merge(lowered.clone(), lowered);
    assert!(!third.serve.unwrap().open);
    assert!(!third.clean.unwrap().cargo);
}

#[test]
fn proxy_list_is_replaced_not_joined() {
    let lesser = ConfigOpts {
        proxy: Some(vec![proxy("http://a.example/")]),
        ..ConfigOpts::default()
    };
    let greater = ConfigOpts {
        proxy: Some(vec![proxy("http://b.example/")]),
        ..ConfigOpts::default()
    };
    let merged = ConfigOpts::merge(lesser, greater);
    assert_eq!(merged.proxy, Some(vec![proxy("http://b.example/")]));
}

#[test]
fn empty_greater_list_still_replaces() {
    let lesser = ConfigOpts {
        proxy: Some(vec![proxy("http://a.example/")]),
        compression: Some(vec![rule(Compressor::Gzip), rule(Compressor::Brotli)]),
        ..ConfigOpts::default()
    };
    let greater = ConfigOpts {
        proxy: Some(vec![]),
        compression: Some(vec![rule(Compressor::Zstd)]),
        ..ConfigOpts::default()
    };
    let merged = ConfigOpts::merge(lesser, greater);
    assert_eq!(merged.proxy, Some(vec![]));
    assert_eq!(merged.compression, Some(vec![rule(Compressor::Zstd)]));
}

#[test]
fn absent_greater_list_keeps_the_lesser() {
    let lesser = ConfigOpts {
        proxy: Some(vec![proxy("http://a.example/"), proxy("http://b.example/")]),
        compression: Some(vec![rule(Compressor::Gzip)]),
        ..ConfigOpts::default()
    };
    let merged = ConfigOpts::merge(lesser.clone(), ConfigOpts::default());
    assert_eq!(merged.proxy, lesser.proxy);
    assert_eq!(merged.compression, lesser.compression);
}

#[test]
fn greater_wins_and_lesser_fills_the_gaps() {
    let lesser = ConfigOpts {
        build: Some(ConfigOptsBuild {
            target: text("lesser.html"),
            release: false,
            dist: text("lesser-dist"),
            public_url: None,
        }),
        watch: Some(ConfigOptsWatch { ignore: Some(vec!["a".to_string()]) }),
        serve: Some(ConfigOptsServe {
            port: Some(1000),
            open: false,
            proxy_backend: text("http://lesser/"),
            proxy_rewrite: None,
        }),
        clean: Some(ConfigOptsClean { dist: text("lesser-dist"), cargo: false }),
        ..ConfigOpts::default()
    };
    let greater = ConfigOpts {
        build: Some(ConfigOptsBuild {
            target: text("greater.html"),
            release: false,
            dist: None,
            public_url: text("/greater/"),
        }),
        watch: Some(ConfigOptsWatch { ignore: None }),
        serve: Some(ConfigOptsServe {
            port: None,
            open: false,
            proxy_backend: text("http://greater/"),
            proxy_rewrite: text("/api/"),
        }),
        clean: Some(ConfigOptsClean { dist: None, cargo: false }),
        ..ConfigOpts::default()
    };
    let merged = ConfigOpts::merge(lesser, greater);
    assert_eq!(
        merged.build,
        Some(ConfigOptsBuild {
            target: text("greater.html"),
            release: false,
            dist: text("lesser-dist"),
            public_url: text("/greater/"),
        })
    );
    assert_eq!(merged.watch, Some(ConfigOptsWatch { ignore: Some(vec!["a".to_string()]) }));
    assert_eq!(
        merged.serve,
        Some(ConfigOptsServe {
            port: Some(1000),
            open: false,
            proxy_backend: text("http://greater/"),
            proxy_rewrite: text("/api/"),
        })
    );
    assert_eq!(merged.clean, Some(ConfigOptsClean { dist: text("lesser-dist"), cargo: false }));
}

#[test]
fn ignore_list_of_the_greater_layer_replaces() {
    let lesser = ConfigOptsWatch { ignore: Some(vec!["a".to_string(), "b".to_string()]) };
    let greater = ConfigOptsWatch { ignore: Some(vec!["c".to_string()]) };
    let merged = ConfigOptsWatch::merge(lesser, greater);
    assert_eq!(merged.ignore, Some(vec!["c".to_string()]));
}

#[test]
fn section_of_one_side_is_taken_unchanged() {
    let build = ConfigOptsBuild {
        target: text("index.html"),
        release: false,
        dist: None,
        public_url: None,
    };
    let clean = ConfigOptsClean { dist: text("dist"), cargo: true };
    let lesser = ConfigOpts { build: Some(build.clone()), ..ConfigOpts::default() };
    let greater = ConfigOpts { clean: Some(clean.clone()), ..ConfigOpts::default() };
    let merged = ConfigOpts::merge(lesser, greater);
    assert_eq!(merged.build, Some(build));
    assert_eq!(merged.clean, Some(clean));
    assert!(merged.watch.is_none());
    assert!(merged.serve.is_none());
}

#[test]
fn section_merges_agree_with_the_layer_merge() {
    let l = full_layer();
    let g = ConfigOpts {
        build: Some(ConfigOptsBuild { dist: text("/other"), ..ConfigOptsBuild::default() }),
        serve: Some(ConfigOptsServe { port: Some(1), ..ConfigOptsServe::default() }),
        ..ConfigOpts::default()
    };
    let merged = ConfigOpts::merge(l.clone(), g.clone());
    assert_eq!(
        merged.build,
        Some(ConfigOptsBuild::merge(l.build.clone().unwrap(), g.build.clone().unwrap()))
    );
    assert_eq!(
        merged.serve,
        Some(ConfigOptsServe::merge(l.serve.clone().unwrap(), g.serve.clone().unwrap()))
    );
    assert_eq!(merged.build.unwrap().dist, text("/other"));
    assert_eq!(merged.serve.unwrap().port, Some(1));
    assert_eq!(merged.watch, l.watch);
    assert_eq!(merged.clean, l.clean);
}
