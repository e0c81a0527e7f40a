//! Layered configuration for a front-end build tool.
//!
//! A configuration is assembled from three sources, lowest priority first: a
//! TOML file, the process environment and the command line. Each source yields
//! a partial [`ConfigOpts`]; the layers are merged pairwise, and one runtime
//! configuration per subcommand is cut out of the result.

pub mod compression;
pub mod document;
pub mod env_layer;
pub mod error;
pub mod file_layer;
pub mod merge;
pub mod options;
pub mod paths;
pub mod resolve;
pub mod schema;
pub mod text;
pub mod urls;

pub use compression::Compressor;
pub use compression::CompressorOptions;
pub use compression::Number;
pub use document::Item;
pub use error::ConfigError;
pub use error::ErrorKind;
pub use error::Field;
pub use error::Layer;
pub use error::Section;
pub use file_layer::ConfigFile;
pub use options::ConfigOpts;
pub use options::ConfigOptsBuild;
pub use options::ConfigOptsClean;
pub use options::ConfigOptsCompression;
pub use options::ConfigOptsProxy;
pub use options::ConfigOptsServe;
pub use options::ConfigOptsWatch;
pub use resolve::RtcBuild;
pub use resolve::RtcClean;
pub use resolve::RtcServe;
pub use resolve::RtcWatch;
