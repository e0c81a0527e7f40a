//! Resolution: from the three layers to the configuration of one subcommand.
//!
//! The file layer is merged under the environment layer, and the result
//! under the options of the command line, subcommand by subcommand. The
//! sections that a subcommand runs on are then taken out of the merge. A
//! failure of the file layer or of the environment layer fails the whole
//! resolution, the file layer first; the options of the command line are
//! taken as they are.

use vstd::prelude::*;
use crate::env_layer::env_layer;
use crate::env_layer::lemma_env_layer_depends_on_text;
use crate::env_layer::same_variables;
use crate::error::ConfigError;
use crate::error::outcome;
use crate::file_layer::ConfigFile;
use crate::file_layer::file_layer;
use crate::file_layer::lemma_file_layer_depends_on_contents;
use crate::file_layer::same_file;
use crate::merge::merge;
use crate::merge::merge_build;
use crate::merge::merge_clean;
use crate::merge::merge_serve;
use crate::merge::merge_watch;
use crate::options::BuildView;
use crate::options::CleanView;
use crate::options::ConfigOpts;
use crate::options::ConfigOptsBuild;
use crate::options::ConfigOptsClean;
use crate::options::ConfigOptsProxy;
use crate::options::ConfigOptsServe;
use crate::options::ConfigOptsWatch;
use crate::options::ConfigView;
use crate::options::ProxyView;
use crate::options::ServeView;
use crate::options::WatchView;

verus! {

/// The configuration that the build system runs on.
#[derive(Clone, Debug, PartialEq, Eq)]
pub struct RtcBuild {
    pub build: ConfigOptsBuild,
}

/// The configuration that the watch system runs on.
#[derive(Clone, Debug, PartialEq, Eq)]
pub struct RtcWatch {
    pub build: ConfigOptsBuild,
    pub watch: ConfigOptsWatch,
}

/// The configuration that the development server runs on.
#[derive(Clone, Debug, PartialEq, Eq)]
pub struct RtcServe {
    pub build: ConfigOptsBuild,
    pub watch: ConfigOptsWatch,
    pub serve: ConfigOptsServe,
    pub proxies: Option<Vec<ConfigOptsProxy>>,
}

/// The configuration that the clean system runs on.
#[derive(Clone, Debug, PartialEq, Eq)]
pub struct RtcClean {
    pub clean: ConfigOptsClean,
}

/// The view of [`RtcBuild`].
pub struct RtcBuildView {
    pub build: BuildView,
}

/// The view of [`RtcWatch`].
pub struct RtcWatchView {
    pub build: BuildView,
    pub watch: WatchView,
}

/// The view of [`RtcServe`].
pub struct RtcServeView {
    pub build: BuildView,
    pub watch: WatchView,
    pub serve: ServeView,
    pub proxies: Option<Seq<ProxyView>>,
}

/// The view of [`RtcClean`].
pub struct RtcCleanView {
    pub clean: CleanView,
}

impl DeepView for RtcBuild {
    type V = RtcBuildView;

    open spec fn deep_view(&self) -> RtcBuildView {
        RtcBuildView { build: self.build@ }
    }
}

impl View for RtcBuild {
    type V = RtcBuildView;

    open spec fn view(&self) -> RtcBuildView {
        self.deep_view()
    }
}

impl DeepView for RtcWatch {
    type V = RtcWatchView;

    open spec fn deep_view(&self) -> RtcWatchView {
        RtcWatchView { build: self.build@, watch: self.watch@ }
    }
}

impl View for RtcWatch {
    type V = RtcWatchView;

    open spec fn view(&self) -> RtcWatchView {
        self.deep_view()
    }
}

impl DeepView for RtcServe {
    type V = RtcServeView;

    open spec fn deep_view(&self) -> RtcServeView {
        RtcServeView {
            build: self.build@,
            watch: self.watch@,
            serve: self.serve@,
            proxies: self.proxies.deep_view(),
        }
    }
}

impl View for RtcServe {
    type V = RtcServeView;

    open spec fn view(&self) -> RtcServeView {
        self.deep_view()
    }
}

impl DeepView for RtcClean {
    type V = RtcCleanView;

    open spec fn deep_view(&self) -> RtcCleanView {
        RtcCleanView { clean: self.clean@ }
    }
}

impl View for RtcClean {
    type V = RtcCleanView;

    open spec fn view(&self) -> RtcCleanView {
        self.deep_view()
    }
}

/// The layer of the command line that states build options only.
pub open spec fn build_layer(cli: BuildView) -> ConfigView {
    ConfigView {
        build: Some(cli),
        watch: None,
        serve: None,
        clean: None,
        proxy: None,
        compression: None,
    }
}

/// The layer of the command line that states watch options only.
pub open spec fn watch_layer(cli: WatchView) -> ConfigView {
    ConfigView {
        build: None,
        watch: Some(cli),
        serve: None,
        clean: None,
        proxy: None,
        compression: None,
    }
}

/// The layer of the command line that states serve options only.
pub open spec fn serve_layer(cli: ServeView) -> ConfigView {
    ConfigView {
        build: None,
        watch: None,
        serve: Some(cli),
        clean: None,
        proxy: None,
        compression: None,
    }
}

/// The layer of the command line that states clean options only.
pub open spec fn clean_layer(cli: CleanView) -> ConfigView {
    ConfigView {
        build: None,
        watch: None,
        serve: None,
        clean: Some(cli),
        proxy: None,
        compression: None,
    }
}

/// The base layer: the file layer merged under the environment layer. A
/// failure of the file layer comes before one of the environment layer.
pub open spec fn base_layer(file: ConfigFile, vars: Seq<(String, String)>) -> Result<
    ConfigView,
    ConfigError,
> {
    match file_layer(file) {
        Err(error) => Err(error),
        Ok(from_file) => match env_layer(vars) {
            Err(error) => Err(error),
            Ok(from_env) => Ok(merge(from_file, from_env)),
        },
    }
}

/// Build options if the layer states them, else those that state nothing.
pub open spec fn build_or_empty(build: Option<BuildView>) -> BuildView {
    match build {
        Some(build) => build,
        None => BuildView::empty(),
    }
}

/// Watch options if the layer states them, else those that state nothing.
pub open spec fn watch_or_empty(watch: Option<WatchView>) -> WatchView {
    match watch {
        Some(watch) => watch,
        None => WatchView::empty(),
    }
}

/// Serve options if the layer states them, else those that state nothing.
pub open spec fn serve_or_empty(serve: Option<ServeView>) -> ServeView {
    match serve {
        Some(serve) => serve,
        None => ServeView::empty(),
    }
}

/// Clean options if the layer states them, else those that state nothing.
pub open spec fn clean_or_empty(clean: Option<CleanView>) -> CleanView {
    match clean {
        Some(clean) => clean,
        None => CleanView::empty(),
    }
}

/// The configuration of the build system: the build options of the command
/// line merged over the base layer.
pub open spec fn resolved_build(base: ConfigView, cli_build: BuildView) -> RtcBuildView {
    let layer = merge(base, build_layer(cli_build));
    RtcBuildView { build: build_or_empty(layer.build) }
}

/// The configuration of the watch system: the build and watch options of
/// the command line merged over the base layer.
pub open spec fn resolved_watch(base: ConfigView, cli_build: BuildView, cli_watch: WatchView)
    -> RtcWatchView {
    let layer = merge(merge(base, build_layer(cli_build)), watch_layer(cli_watch));
    RtcWatchView { build: build_or_empty(layer.build), watch: watch_or_empty(layer.watch) }
}

/// The configuration of the development server: the build, watch and serve
/// options of the command line merged over the base layer, with the proxies
/// of the merge.
pub open spec fn resolved_serve(
    base: ConfigView,
    cli_build: BuildView,
    cli_watch: WatchView,
    cli_serve: ServeView,
) -> RtcServeView {
    let layer = merge(
        merge(merge(base, build_layer(cli_build)), watch_layer(cli_watch)),
        serve_layer(cli_serve),
    );
    RtcServeView {
        build: build_or_empty(layer.build),
        watch: watch_or_empty(layer.watch),
        serve: serve_or_empty(layer.serve),
        proxies: layer.proxy,
    }
}

/// The configuration of the clean system: the clean options of the command
/// line merged over the base layer.
pub open spec fn resolved_clean(base: ConfigView, cli_clean: CleanView) -> RtcCleanView {
    let layer = merge(base, clean_layer(cli_clean));
    RtcCleanView { clean: clean_or_empty(layer.clean) }
}

/// The outcome of resolving the build system: the failure of the base layer,
/// or the configuration over it.
pub open spec fn rtc_build_of(base: Result<ConfigView, ConfigError>, cli_build: BuildView)
    -> Result<RtcBuildView, ConfigError> {
    match base {
        Ok(base) => Ok(resolved_build(base, cli_build)),
        Err(error) => Err(error),
    }
}

/// The outcome of resolving the watch system: the failure of the base layer,
/// or the configuration over it.
pub open spec fn rtc_watch_of(
    base: Result<ConfigView, ConfigError>,
    cli_build: BuildView,
    cli_watch: WatchView,
) -> Result<RtcWatchView, ConfigError> {
    match base {
        Ok(base) => Ok(resolved_watch(base, cli_build, cli_watch)),
        Err(error) => Err(error),
    }
}

/// The outcome of resolving the development server: the failure of the base
/// layer, or the configuration over it.
pub open spec fn rtc_serve_of(
    base: Result<ConfigView, ConfigError>,
    cli_build: BuildView,
    cli_watch: WatchView,
    cli_serve: ServeView,
) -> Result<RtcServeView, ConfigError> {
    match base {
        Ok(base) => Ok(resolved_serve(base, cli_build, cli_watch, cli_serve)),
        Err(error) => Err(error),
    }
}

/// The outcome of resolving the clean system: the failure of the base layer,
/// or the configuration over it.
pub open spec fn rtc_clean_of(base: Result<ConfigView, ConfigError>, cli_clean: CleanView)
    -> Result<RtcCleanView, ConfigError> {
    match base {
        Ok(base) => Ok(resolved_clean(base, cli_clean)),
        Err(error) => Err(error),
    }
}

/// What a resolved configuration holds, section by section: the options of
/// the command line merged over those of the base layer where it states the
/// section, and the options of the command line alone where it does not.
/// The proxies are those of the base layer.
pub proof fn lemma_resolved_sections(
    base: ConfigView,
    cli_build: BuildView,
    cli_watch: WatchView,
    cli_serve: ServeView,
    cli_clean: CleanView,
)
    ensures
        resolved_build(base, cli_build).build == match base.build {
            Some(build) => merge_build(build, cli_build),
            None => cli_build,
        },
        resolved_watch(base, cli_build, cli_watch).build == resolved_build(base, cli_build).build,
        resolved_watch(base, cli_build, cli_watch).watch == match base.watch {
            Some(watch) => merge_watch(watch, cli_watch),
            None => cli_watch,
        },
        resolved_serve(base, cli_build, cli_watch, cli_serve).build == resolved_build(
            base,
            cli_build,
        ).build,
        resolved_serve(base, cli_build, cli_watch, cli_serve).watch == resolved_watch(
            base,
            cli_build,
            cli_watch,
        ).watch,
        resolved_serve(base, cli_build, cli_watch, cli_serve).serve == match base.serve {
            Some(serve) => merge_serve(serve, cli_serve),
            None => cli_serve,
        },
        resolved_serve(base, cli_build, cli_watch, cli_serve).proxies == base.proxy,
        resolved_clean(base, cli_clean).clean == match base.clean {
            Some(clean) => merge_clean(clean, cli_clean),
            None => cli_clean,
        },
{
}

/// The order of precedence. Where the file and the environment both state
/// build options, an optional field of the resolved build options is that
/// of the command line if it states one, else that of the environment if it
/// states one, else that of the file; and the release flag is raised if any
/// of the three raises it.
pub proof fn lemma_precedence(
    from_file: ConfigView,
    from_env: ConfigView,
    cli_build: BuildView,
)
    requires
        from_file.build is Some,
        from_env.build is Some,
    ensures
        ({
            let file = from_file.build->0;
            let env = from_env.build->0;
            let build = resolved_build(merge(from_file, from_env), cli_build).build;
            &&& build == merge_build(merge_build(file, env), cli_build)
            &&& build.target == if cli_build.target is Some {
                cli_build.target
            } else if env.target is Some {
                env.target
            } else {
                file.target
            }
            &&& build.dist == if cli_build.dist is Some {
                cli_build.dist
            } else if env.dist is Some {
                env.dist
            } else {
                file.dist
            }
            &&& build.public_url == if cli_build.public_url is Some {
                cli_build.public_url
            } else if env.public_url is Some {
                env.public_url
            } else {
                file.public_url
            }
            &&& build.release == (file.release || env.release || cli_build.release)
        }),
{
}

/// A release flag that the environment raises is raised in the resolved
/// configuration, whatever the file and the command line say.
pub proof fn lemma_release_from_environment(
    from_file: ConfigView,
    from_env: ConfigView,
    cli_build: BuildView,
    cli_watch: WatchView,
    cli_serve: ServeView,
)
    requires
        from_env.build is Some,
        from_env.build->0.release,
    ensures
        resolved_build(merge(from_file, from_env), cli_build).build.release,
        resolved_watch(merge(from_file, from_env), cli_build, cli_watch).build.release,
        resolved_serve(merge(from_file, from_env), cli_build, cli_watch, cli_serve).build.release,
{
}

/// Resolution is a function of what its layers hold. Two resolutions whose
/// files are the same, whose environments hold the same variables and whose
/// command lines state the same options have the same outcome: the same
/// configuration, or the same error.
pub proof fn lemma_resolution_is_deterministic(
    first_file: ConfigFile,
    first_vars: Seq<(String, String)>,
    second_file: ConfigFile,
    second_vars: Seq<(String, String)>,
    cli_build: BuildView,
    cli_watch: WatchView,
    cli_serve: ServeView,
    cli_clean: CleanView,
)
    requires
        same_file(first_file, second_file),
        same_variables(first_vars, second_vars),
    ensures
        base_layer(first_file, first_vars) == base_layer(second_file, second_vars),
        rtc_build_of(base_layer(first_file, first_vars), cli_build) == rtc_build_of(
            base_layer(second_file, second_vars),
            cli_build,
        ),
        rtc_watch_of(base_layer(first_file, first_vars), cli_build, cli_watch) == rtc_watch_of(
            base_layer(second_file, second_vars),
            cli_build,
            cli_watch,
        ),
        rtc_serve_of(base_layer(first_file, first_vars), cli_build, cli_watch, cli_serve)
            == rtc_serve_of(
            base_layer(second_file, second_vars),
            cli_build,
            cli_watch,
            cli_serve,
        ),
        rtc_clean_of(base_layer(first_file, first_vars), cli_clean) == rtc_clean_of(
            base_layer(second_file, second_vars),
            cli_clean,
        ),
{
    lemma_file_layer_depends_on_contents(first_file, second_file);
    lemma_env_layer_depends_on_text(first_vars, second_vars);
}

impl ConfigOpts {
    /// The build options of the command line, merged over `cfg_base`.
    pub fn cli_opts_layer_build(cli: ConfigOptsBuild, cfg_base: ConfigOpts) -> (layer: ConfigOpts)
        ensures
            layer@ == merge(cfg_base@, build_layer(cli@)),
    {
        let cfg_build = ConfigOpts {
            build: Some(cli),
            watch: None,
            serve: None,
            clean: None,
            proxy: None,
            compression: None,
        };
        ConfigOpts::merge(cfg_base, cfg_build)
    }

    /// The watch options of the command line, merged over `cfg_base`.
    pub fn cli_opts_layer_watch(cli: ConfigOptsWatch, cfg_base: ConfigOpts) -> (layer: ConfigOpts)
        ensures
            layer@ == merge(cfg_base@, watch_layer(cli@)),
    {
        let cfg = ConfigOpts {
            build: None,
            watch: Some(cli),
            serve: None,
            clean: None,
            proxy: None,
            compression: None,
        };
        ConfigOpts::merge(cfg_base, cfg)
    }

    /// The serve options of the command line, merged over `cfg_base`.
    pub fn cli_opts_layer_serve(cli: ConfigOptsServe, cfg_base: ConfigOpts) -> (layer: ConfigOpts)
        ensures
            layer@ == merge(cfg_base@, serve_layer(cli@)),
    {
        let cfg = ConfigOpts {
            build: None,
            watch: None,
            serve: Some(cli),
            clean: None,
            proxy: None,
            compression: None,
        };
        ConfigOpts::merge(cfg_base, cfg)
    }

    /// The clean options of the command line, merged over `cfg_base`.
    pub fn cli_opts_layer_clean(cli: ConfigOptsClean, cfg_base: ConfigOpts) -> (layer: ConfigOpts)
        ensures
            layer@ == merge(cfg_base@, clean_layer(cli@)),
    {
        let cfg = ConfigOpts {
            build: None,
            watch: None,
            serve: None,
            clean: Some(cli),
            proxy: None,
            compression: None,
        };
        ConfigOpts::merge(cfg_base, cfg)
    }

    /// The base layer: the file layer merged under the environment layer.
    pub fn file_and_env_layers(file: ConfigFile, vars: &Vec<(String, String)>) -> (base: Result<
        ConfigOpts,
        ConfigError,
    >)
        ensures
            outcome(base) == base_layer(file, vars@),
    {
        let toml_cfg = ConfigOpts::from_file(file)?;
        let env_cfg = ConfigOpts::from_env(vars)?;
        Ok(ConfigOpts::merge(toml_cfg, env_cfg))
    }

    /// The full configuration that the file and the environment state.
    pub fn full(file: ConfigFile, vars: &Vec<(String, String)>) -> (base: Result<
        ConfigOpts,
        ConfigError,
    >)
        ensures
            outcome(base) == base_layer(file, vars@),
    {
        ConfigOpts::file_and_env_layers(file, vars)
    }

    /// The configuration of the build system over a base layer.
    pub fn resolve_build(base: ConfigOpts, cli_build: ConfigOptsBuild) -> (rtc: RtcBuild)
        ensures
            rtc@ == resolved_build(base@, cli_build@),
    {
        let build_layer = ConfigOpts::cli_opts_layer_build(cli_build, base);
        let build = match build_layer.build {
            Some(build) => build,
            None => ConfigOptsBuild::default(),
        };
        RtcBuild { build }
    }

    /// The configuration of the watch system over a base layer.
    pub fn resolve_watch(
        base: ConfigOpts,
        cli_build: ConfigOptsBuild,
        cli_watch: ConfigOptsWatch,
    ) -> (rtc: RtcWatch)
        ensures
            rtc@ == resolved_watch(base@, cli_build@, cli_watch@),
    {
        let build_layer = ConfigOpts::cli_opts_layer_build(cli_build, base);
        let watch_layer = ConfigOpts::cli_opts_layer_watch(cli_watch, build_layer);
        let build = match watch_layer.build {
            Some(build) => build,
            None => ConfigOptsBuild::default(),
        };
        let watch = match watch_layer.watch {
            Some(watch) => watch,
            None => ConfigOptsWatch::default(),
        };
        RtcWatch { build, watch }
    }

    /// The configuration of the development server over a base layer.
    pub fn resolve_serve(
        base: ConfigOpts,
        cli_build: ConfigOptsBuild,
        cli_watch: ConfigOptsWatch,
        cli_serve: ConfigOptsServe,
    ) -> (rtc: RtcServe)
        ensures
            rtc@ == resolved_serve(base@, cli_build@, cli_watch@, cli_serve@),
    {
        let build_layer = ConfigOpts::cli_opts_layer_build(cli_build, base);
        let watch_layer = ConfigOpts::cli_opts_layer_watch(cli_watch, build_layer);
        let serve_layer = ConfigOpts::cli_opts_layer_serve(cli_serve, watch_layer);
        let build = match serve_layer.build {
            Some(build) => build,
            None => ConfigOptsBuild::default(),
        };
        let watch = match serve_layer.watch {
            Some(watch) => watch,
            None => ConfigOptsWatch::default(),
        };
        let serve = match serve_layer.serve {
            Some(serve) => serve,
            None => ConfigOptsServe::default(),
        };
        RtcServe { build, watch, serve, proxies: serve_layer.proxy }
    }

    /// The configuration of the clean system over a base layer.
    pub fn resolve_clean(base: ConfigOpts, cli_clean: ConfigOptsClean) -> (rtc: RtcClean)
        ensures
            rtc@ == resolved_clean(base@, cli_clean@),
    {
        let clean_layer = ConfigOpts::cli_opts_layer_clean(cli_clean, base);
        let clean = match clean_layer.clean {
            Some(clean) => clean,
            None => ConfigOptsClean::default(),
        };
        RtcClean { clean }
    }

    /// The configuration of the build system from all layers.
    pub fn rtc_build(
        cli_build: ConfigOptsBuild,
        file: ConfigFile,
        vars: &Vec<(String, String)>,
    ) -> (rtc: Result<RtcBuild, ConfigError>)
        ensures
            outcome(rtc) == rtc_build_of(base_layer(file, vars@), cli_build@),
    {
        let base_layer = ConfigOpts::file_and_env_layers(file, vars)?;
        Ok(ConfigOpts::resolve_build(base_layer, cli_build))
    }

    /// The configuration of the watch system from all layers.
    pub fn rtc_watch(
        cli_build: ConfigOptsBuild,
        cli_watch: ConfigOptsWatch,
        file: ConfigFile,
        vars: &Vec<(String, String)>,
    ) -> (rtc: Result<RtcWatch, ConfigError>)
        ensures
            outcome(rtc) == rtc_watch_of(base_layer(file, vars@), cli_build@, cli_watch@),
    {
        let base_layer = ConfigOpts::file_and_env_layers(file, vars)?;
        Ok(ConfigOpts::resolve_watch(base_layer, cli_build, cli_watch))
    }

    /// The configuration of the development server from all layers.
    pub fn rtc_serve(
        cli_build: ConfigOptsBuild,
        cli_watch: ConfigOptsWatch,
        cli_serve: ConfigOptsServe,
        file: ConfigFile,
        vars: &Vec<(String, String)>,
    ) -> (rtc: Result<RtcServe, ConfigError>)
        ensures
            outcome(rtc) == rtc_serve_of(
                base_layer(file, vars@),
                cli_build@,
                cli_watch@,
                cli_serve@,
            ),
    {
        let base_layer = ConfigOpts::file_and_env_layers(file, vars)?;
        Ok(ConfigOpts::resolve_serve(base_layer, cli_build, cli_watch, cli_serve))
    }

    /// The configuration of the clean system from all layers.
    pub fn rtc_clean(
        cli_clean: ConfigOptsClean,
        file: ConfigFile,
        vars: &Vec<(String, String)>,
    ) -> (rtc: Result<RtcClean, ConfigError>)
        ensures
            outcome(rtc) == rtc_clean_of(base_layer(file, vars@), cli_clean@),
    {
        let base_layer = ConfigOpts::file_and_env_layers(file, vars)?;
        Ok(ConfigOpts::resolve_clean(base_layer, cli_clean))
    }
}

} // verus!
