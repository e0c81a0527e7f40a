//! What can go wrong while a layer is loaded.

use vstd::prelude::*;

verus! {

/// A section of the configuration.
#[derive(Clone, Copy, Debug, PartialEq, Eq, Structural)]
pub enum Section {
    /// The document as a whole.
    Document,
    Build,
    Watch,
    Serve,
    Clean,
    Proxy,
    Compression,
}

/// A field of a section. `Whole` stands for the section itself.
#[derive(Clone, Copy, Debug, PartialEq, Eq, Structural)]
pub enum Field {
    Whole,
    Target,
    Release,
    Dist,
    PublicUrl,
    Ignore,
    Port,
    Open,
    ProxyBackend,
    ProxyRewrite,
    Cargo,
    Backend,
    Rewrite,
    Algorithm,
    Options,
    Level,
    Test,
    Includes,
    Exclude,
    Threshold,
    Ratio,
}

/// The layers that can fail. The command line is taken as it is.
#[derive(Clone, Copy, Debug, PartialEq, Eq, Structural)]
pub enum Layer {
    File,
    Environment,
}

/// The four kinds of failure.
#[derive(Clone, Copy, Debug, PartialEq, Eq, Structural)]
pub enum ErrorKind {
    /// The configuration file could not be read.
    FileRead,
    /// The configuration file is malformed, or a value in it has the wrong
    /// type or shape.
    Parse,
    /// An environment variable does not convert to the type of its field.
    EnvCoercion,
    /// The path of the configuration file could not be made canonical.
    PathResolution,
}

/// The failure of a resolution: the first failure of a layer.
#[derive(Clone, Debug, PartialEq, Eq)]
pub enum ConfigError {
    /// The configuration file could not be read.
    FileRead,
    /// The path of the configuration file could not be made canonical.
    PathResolution,
    /// The configuration file may nest deeper than the parser can follow:
    /// it holds too many brackets, braces and dots.
    Nesting,
    /// The configuration file is not a well-formed document. The message
    /// says where and why.
    Syntax { message: String },
    /// A value of the configuration file has the wrong type or shape, or a
    /// required value is missing.
    Shape { section: Section, field: Field },
    /// The environment variable of this field does not convert to the
    /// field's type, or two variables name the field.
    Env { section: Section, field: Field },
}

impl ConfigError {
    /// The kind of an error.
    pub open spec fn spec_kind(&self) -> ErrorKind {
        match *self {
            ConfigError::FileRead => ErrorKind::FileRead,
            ConfigError::PathResolution => ErrorKind::PathResolution,
            ConfigError::Nesting => ErrorKind::Parse,
            ConfigError::Syntax { .. } => ErrorKind::Parse,
            ConfigError::Shape { .. } => ErrorKind::Parse,
            ConfigError::Env { .. } => ErrorKind::EnvCoercion,
        }
    }

    /// The layer in which an error arose.
    pub open spec fn spec_layer(&self) -> Layer {
        match *self {
            ConfigError::Env { .. } => Layer::Environment,
            _ => Layer::File,
        }
    }

    /// The layer in which this error arose.
    #[verifier::when_used_as_spec(spec_layer)]
    pub fn layer(&self) -> (layer: Layer)
        ensures
            layer == self.spec_layer(),
    {
        match self {
            ConfigError::Env { .. } => Layer::Environment,
            _ => Layer::File,
        }
    }

    /// The kind of this error.
    #[verifier::when_used_as_spec(spec_kind)]
    pub fn kind(&self) -> (kind: ErrorKind)
        ensures
            kind == self.spec_kind(),
    {
        match self {
            ConfigError::FileRead => ErrorKind::FileRead,
            ConfigError::PathResolution => ErrorKind::PathResolution,
            ConfigError::Nesting => ErrorKind::Parse,
            ConfigError::Syntax { .. } => ErrorKind::Parse,
            ConfigError::Shape { .. } => ErrorKind::Parse,
            ConfigError::Env { .. } => ErrorKind::EnvCoercion,
        }
    }
}

/// The view of an outcome: that of its value, or its error.
pub open spec fn outcome<T: DeepView>(result: Result<T, ConfigError>) -> Result<T::V, ConfigError> {
    match result {
        Ok(value) => Ok(value.deep_view()),
        Err(error) => Err(error),
    }
}

} // verus!
