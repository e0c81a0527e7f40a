//! The options of each subcommand, as one layer states them.
//!
//! Every field is optional: an absent field is one that the layer leaves
//! open, not one set to a default. The exceptions are the sticky flags
//! (`release`, `open`, `cargo`), which a layer either raises or leaves down.
//!
//! Paths and URLs are held as text. Each type has a view over sequences of
//! characters, and the contracts of this crate are stated over those views.

use vstd::prelude::*;
use crate::compression::Compressor;
use crate::compression::CompressorOptions;
use crate::compression::Number;

verus! {

/// Options of the build system.
#[derive(Clone, Debug, PartialEq, Eq)]
pub struct ConfigOptsBuild {
    /// The index HTML file that drives the bundling.
    pub target: Option<String>,
    /// Build in release mode. Sticky.
    pub release: bool,
    /// The output directory for all final assets.
    pub dist: Option<String>,
    /// The public URL from which assets are served.
    pub public_url: Option<String>,
}

/// Options of the watch system.
#[derive(Clone, Debug, PartialEq, Eq)]
pub struct ConfigOptsWatch {
    /// Additional paths to ignore.
    pub ignore: Option<Vec<String>>,
}

/// Options of the development server.
#[derive(Clone, Debug, PartialEq, Eq)]
pub struct ConfigOptsServe {
    /// The port to serve on.
    pub port: Option<u16>,
    /// Open a browser tab once the first build is complete. Sticky.
    pub open: bool,
    /// The URL of a backend to which requests are proxied.
    pub proxy_backend: Option<String>,
    /// The URI on which to accept the requests that are rewritten and proxied.
    pub proxy_rewrite: Option<String>,
}

/// Options of the clean system.
#[derive(Clone, Debug, PartialEq, Eq)]
pub struct ConfigOptsClean {
    /// The output directory for all final assets.
    pub dist: Option<String>,
    /// Also clean what cargo has built. Sticky.
    pub cargo: bool,
}

/// One proxy. Proxies are stated in the configuration file only.
#[derive(Clone, Debug, PartialEq, Eq)]
pub struct ConfigOptsProxy {
    /// The URL of the backend to which requests are proxied.
    pub backend: String,
    /// The URI prefix that is replaced by the backend's URI.
    pub rewrite: Option<String>,
}

/// One compression rule. Rules are stated in the configuration file only.
#[derive(Clone, Debug, PartialEq, Eq)]
pub struct ConfigOptsCompression {
    /// The compression algorithm.
    pub algorithm: Compressor,
    /// Options handed to the algorithm.
    pub options: Option<CompressorOptions>,
    /// A regular expression that selects the assets to compress.
    pub test: Option<String>,
    /// Assets that are compressed.
    pub includes: Option<Vec<String>>,
    /// Assets that are left as they are.
    pub exclude: Option<Vec<String>>,
    /// The size in bytes from which an asset is compressed.
    pub threshold: Option<usize>,
    /// The least ratio of compressed to uncompressed size worth emitting.
    pub ratio: Option<Number>,
}

/// One layer of configuration: what a single source says about every
/// subcommand.
#[derive(Clone, Debug, PartialEq, Eq)]
pub struct ConfigOpts {
    pub build: Option<ConfigOptsBuild>,
    pub watch: Option<ConfigOptsWatch>,
    pub serve: Option<ConfigOptsServe>,
    pub clean: Option<ConfigOptsClean>,
    pub proxy: Option<Vec<ConfigOptsProxy>>,
    pub compression: Option<Vec<ConfigOptsCompression>>,
}

/// The view of [`ConfigOptsBuild`].
pub struct BuildView {
    pub target: Option<Seq<char>>,
    pub release: bool,
    pub dist: Option<Seq<char>>,
    pub public_url: Option<Seq<char>>,
}

/// The view of [`ConfigOptsWatch`].
pub struct WatchView {
    pub ignore: Option<Seq<Seq<char>>>,
}

/// The view of [`ConfigOptsServe`].
pub struct ServeView {
    pub port: Option<u16>,
    pub open: bool,
    pub proxy_backend: Option<Seq<char>>,
    pub proxy_rewrite: Option<Seq<char>>,
}

/// The view of [`ConfigOptsClean`].
pub struct CleanView {
    pub dist: Option<Seq<char>>,
    pub cargo: bool,
}

/// The view of [`ConfigOptsProxy`].
pub struct ProxyView {
    pub backend: Seq<char>,
    pub rewrite: Option<Seq<char>>,
}

/// The view of [`ConfigOptsCompression`].
pub struct CompressionView {
    pub algorithm: Compressor,
    pub options: Option<CompressorOptions>,
    pub test: Option<Seq<char>>,
    pub includes: Option<Seq<Seq<char>>>,
    pub exclude: Option<Seq<Seq<char>>>,
    pub threshold: Option<usize>,
    pub ratio: Option<Number>,
}

/// The view of [`ConfigOpts`].
pub struct ConfigView {
    pub build: Option<BuildView>,
    pub watch: Option<WatchView>,
    pub serve: Option<ServeView>,
    pub clean: Option<CleanView>,
    pub proxy: Option<Seq<ProxyView>>,
    pub compression: Option<Seq<CompressionView>>,
}

impl BuildView {
    /// Build options that state nothing.
    pub open spec fn empty() -> BuildView {
        BuildView { target: None, release: false, dist: None, public_url: None }
    }
}

impl WatchView {
    /// Watch options that state nothing.
    pub open spec fn empty() -> WatchView {
        WatchView { ignore: None }
    }
}

impl ServeView {
    /// Serve options that state nothing.
    pub open spec fn empty() -> ServeView {
        ServeView { port: None, open: false, proxy_backend: None, proxy_rewrite: None }
    }
}

impl CleanView {
    /// Clean options that state nothing.
    pub open spec fn empty() -> CleanView {
        CleanView { dist: None, cargo: false }
    }
}

impl ConfigView {
    /// The layer that states nothing: every section is absent.
    pub open spec fn empty() -> ConfigView {
        ConfigView {
            build: None,
            watch: None,
            serve: None,
            clean: None,
            proxy: None,
            compression: None,
        }
    }
}

impl DeepView for ConfigOptsBuild {
    type V = BuildView;

    open spec fn deep_view(&self) -> BuildView {
        BuildView {
            target: self.target.deep_view(),
            release: self.release,
            dist: self.dist.deep_view(),
            public_url: self.public_url.deep_view(),
        }
    }
}

impl View for ConfigOptsBuild {
    type V = BuildView;

    open spec fn view(&self) -> BuildView {
        self.deep_view()
    }
}

impl DeepView for ConfigOptsWatch {
    type V = WatchView;

    open spec fn deep_view(&self) -> WatchView {
        WatchView { ignore: self.ignore.deep_view() }
    }
}

impl View for ConfigOptsWatch {
    type V = WatchView;

    open spec fn view(&self) -> WatchView {
        self.deep_view()
    }
}

impl DeepView for ConfigOptsServe {
    type V = ServeView;

    open spec fn deep_view(&self) -> ServeView {
        ServeView {
            port: self.port,
            open: self.open,
            proxy_backend: self.proxy_backend.deep_view(),
            proxy_rewrite: self.proxy_rewrite.deep_view(),
        }
    }
}

impl View for ConfigOptsServe {
    type V = ServeView;

    open spec fn view(&self) -> ServeView {
        self.deep_view()
    }
}

impl DeepView for ConfigOptsClean {
    type V = CleanView;

    open spec fn deep_view(&self) -> CleanView {
        CleanView { dist: self.dist.deep_view(), cargo: self.cargo }
    }
}

impl View for ConfigOptsClean {
    type V = CleanView;

    open spec fn view(&self) -> CleanView {
        self.deep_view()
    }
}

impl DeepView for ConfigOptsProxy {
    type V = ProxyView;

    open spec fn deep_view(&self) -> ProxyView {
        ProxyView { backend: self.backend@, rewrite: self.rewrite.deep_view() }
    }
}

impl View for ConfigOptsProxy {
    type V = ProxyView;

    open spec fn view(&self) -> ProxyView {
        self.deep_view()
    }
}

impl DeepView for ConfigOptsCompression {
    type V = CompressionView;

    open spec fn deep_view(&self) -> CompressionView {
        CompressionView {
            algorithm: self.algorithm,
            options: self.options,
            test: self.test.deep_view(),
            includes: self.includes.deep_view(),
            exclude: self.exclude.deep_view(),
            threshold: self.threshold,
            ratio: self.ratio,
        }
    }
}

impl View for ConfigOptsCompression {
    type V = CompressionView;

    open spec fn view(&self) -> CompressionView {
        self.deep_view()
    }
}

impl DeepView for ConfigOpts {
    type V = ConfigView;

    open spec fn deep_view(&self) -> ConfigView {
        ConfigView {
            build: self.build.deep_view(),
            watch: self.watch.deep_view(),
            serve: self.serve.deep_view(),
            clean: self.clean.deep_view(),
            proxy: self.proxy.deep_view(),
            compression: self.compression.deep_view(),
        }
    }
}

impl View for ConfigOpts {
    type V = ConfigView;

    open spec fn view(&self) -> ConfigView {
        self.deep_view()
    }
}

impl Default for ConfigOptsBuild {
    fn default() -> (opts: ConfigOptsBuild)
        ensures
            opts@ == BuildView::empty(),
    {
        ConfigOptsBuild { target: None, release: false, dist: None, public_url: None }
    }
}

impl Default for ConfigOptsWatch {
    fn default() -> (opts: ConfigOptsWatch)
        ensures
            opts@ == WatchView::empty(),
    {
        ConfigOptsWatch { ignore: None }
    }
}

impl Default for ConfigOptsServe {
    fn default() -> (opts: ConfigOptsServe)
        ensures
            opts@ == ServeView::empty(),
    {
        ConfigOptsServe { port: None, open: false, proxy_backend: None, proxy_rewrite: None }
    }
}

impl Default for ConfigOptsClean {
    fn default() -> (opts: ConfigOptsClean)
        ensures
            opts@ == CleanView::empty(),
    {
        ConfigOptsClean { dist: None, cargo: false }
    }
}

impl Default for ConfigOpts {
    fn default() -> (opts: ConfigOpts)
        ensures
            opts@ == ConfigView::empty(),
    {
        ConfigOpts {
            build: None,
            watch: None,
            serve: None,
            clean: None,
            proxy: None,
            compression: None,
        }
    }
}

} // verus!
