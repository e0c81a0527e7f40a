//! The file layer: what the configuration file states.
//!
//! Reading the file is left to the caller, who reports what was found as a
//! [`ConfigFile`]. A file that does not exist is an empty layer, not an
//! error. The bytes of a file that was read are parsed, the document is held
//! to the shape of a configuration, and the relative paths in it are placed
//! under the directory of the file. This happens before any merge, so that
//! the later layers meet only resolved paths from the file.

use vstd::prelude::*;
use crate::document::document_of;
use crate::document::read_document;
use crate::error::ConfigError;
use crate::error::outcome;
use crate::options::BuildView;
use crate::options::CleanView;
use crate::options::ConfigOpts;
use crate::options::ConfigOptsBuild;
use crate::options::ConfigOptsClean;
use crate::options::ConfigOptsWatch;
use crate::options::ConfigView;
use crate::options::WatchView;
use crate::paths::is_absolute;
use crate::paths::join;
use crate::paths::parent;
use crate::paths::path_join;
use crate::paths::path_parent;
use crate::schema::config_of;

verus! {

/// What was found at the place of the configuration file.
#[derive(Clone, Debug, PartialEq, Eq)]
pub enum ConfigFile {
    /// No file exists at the path.
    Missing,
    /// A file exists, but its path could not be made canonical.
    Unresolved,
    /// A file exists, but it could not be read.
    Unreadable,
    /// The file was read. `path` is its canonical path.
    Loaded { path: String, bytes: Vec<u8> },
}

/// An optional path, placed under `base`.
pub open spec fn resolve_path(base: Seq<char>, path: Option<Seq<char>>) -> Option<Seq<char>> {
    match path {
        Some(path) => Some(join(base, path)),
        None => None,
    }
}

/// An optional list of paths, each placed under `base`.
pub open spec fn resolve_list(base: Seq<char>, paths: Option<Seq<Seq<char>>>) -> Option<
    Seq<Seq<char>>,
> {
    match paths {
        Some(paths) => Some(paths.map_values(|path: Seq<char>| join(base, path))),
        None => None,
    }
}

/// Build options with their paths placed under `base`.
pub open spec fn resolve_build(base: Seq<char>, build: BuildView) -> BuildView {
    BuildView {
        target: resolve_path(base, build.target),
        release: build.release,
        dist: resolve_path(base, build.dist),
        public_url: build.public_url,
    }
}

/// Watch options with their paths placed under `base`.
pub open spec fn resolve_watch(base: Seq<char>, watch: WatchView) -> WatchView {
    WatchView { ignore: resolve_list(base, watch.ignore) }
}

/// Clean options with their paths placed under `base`.
pub open spec fn resolve_clean(base: Seq<char>, clean: CleanView) -> CleanView {
    CleanView { dist: resolve_path(base, clean.dist), cargo: clean.cargo }
}

/// A layer with every path placed under `base`: the target and the output
/// directory of `build`, the ignored paths of `watch` and the output
/// directory of `clean`. Absolute paths, absent fields and all other fields
/// stay as they are.
pub open spec fn resolve_paths(base: Seq<char>, layer: ConfigView) -> ConfigView {
    ConfigView {
        build: match layer.build {
            Some(build) => Some(resolve_build(base, build)),
            None => None,
        },
        watch: match layer.watch {
            Some(watch) => Some(resolve_watch(base, watch)),
            None => None,
        },
        serve: layer.serve,
        clean: match layer.clean {
            Some(clean) => Some(resolve_clean(base, clean)),
            None => None,
        },
        proxy: layer.proxy,
        compression: layer.compression,
    }
}

/// The layer that a text states, with its paths as written: the failure to
/// read the text as a document, or the document held to the shape of a
/// configuration.
pub open spec fn text_layer(bytes: Seq<u8>) -> Result<ConfigView, ConfigError> {
    match document_of(bytes) {
        Err(error) => Err(error),
        Ok(document) => config_of(document),
    }
}

/// A layer with its paths placed under the directory of the file at `path`.
/// A file whose path has no directory part keeps its paths as written.
pub open spec fn beside(path: Seq<char>, layer: ConfigView) -> ConfigView {
    match parent(path) {
        Some(base) => resolve_paths(base, layer),
        None => layer,
    }
}

/// The file layer: empty for a file that does not exist, the failure to find
/// or read a file that does, and else what the text of the file states,
/// with the paths placed under the directory of the file.
pub open spec fn file_layer(file: ConfigFile) -> Result<ConfigView, ConfigError> {
    match file {
        ConfigFile::Missing => Ok(ConfigView::empty()),
        ConfigFile::Unresolved => Err(ConfigError::PathResolution),
        ConfigFile::Unreadable => Err(ConfigError::FileRead),
        ConfigFile::Loaded { path, bytes } => match text_layer(bytes@) {
            Err(error) => Err(error),
            Ok(layer) => Ok(beside(path@, layer)),
        },
    }
}

/// Whether two findings are the same: the same case, and for a file that
/// was read the same path and the same bytes.
pub open spec fn same_file(first: ConfigFile, second: ConfigFile) -> bool {
    match (first, second) {
        (ConfigFile::Missing, ConfigFile::Missing) => true,
        (ConfigFile::Unresolved, ConfigFile::Unresolved) => true,
        (ConfigFile::Unreadable, ConfigFile::Unreadable) => true,
        (
            ConfigFile::Loaded { path: first_path, bytes: first_bytes },
            ConfigFile::Loaded { path: second_path, bytes: second_bytes },
        ) => first_path@ == second_path@ && first_bytes@ == second_bytes@,
        _ => false,
    }
}

/// The file layer depends on the path and the bytes of the file only.
pub proof fn lemma_file_layer_depends_on_contents(first: ConfigFile, second: ConfigFile)
    requires
        same_file(first, second),
    ensures
        file_layer(first) == file_layer(second),
{
}

/// Whether every path that a layer states is absolute.
pub open spec fn paths_are_absolute(layer: ConfigView) -> bool {
    &&& layer.build matches Some(build) ==> {
        &&& build.target matches Some(target) ==> is_absolute(target)
        &&& build.dist matches Some(dist) ==> is_absolute(dist)
    }
    &&& layer.watch matches Some(watch) ==> (watch.ignore matches Some(paths) ==> forall|at: int|
        0 <= at < paths.len() ==> is_absolute(#[trigger] paths[at]))
    &&& layer.clean matches Some(clean) ==> (clean.dist matches Some(dist) ==> is_absolute(dist))
}

/// An absolute path stands for itself under every base, and a relative path
/// under an absolute base is absolute.
pub proof fn lemma_join_absolute(base: Seq<char>, path: Seq<char>)
    ensures
        is_absolute(path) ==> join(base, path) == path,
        is_absolute(base) ==> is_absolute(join(base, path)),
        !is_absolute(path) && base.len() > 0 && base.last() != crate::paths::SEPARATOR ==> join(
            base,
            path,
        ) == base.push(crate::paths::SEPARATOR) + path,
{
}

/// Under an absolute base every path of a resolved layer is absolute.
pub proof fn lemma_resolved_paths_are_absolute(base: Seq<char>, layer: ConfigView)
    requires
        is_absolute(base),
    ensures
        paths_are_absolute(resolve_paths(base, layer)),
{
    assert forall|path: Seq<char>| is_absolute(#[trigger] join(base, path)) by {
        lemma_join_absolute(base, path);
    }
}

/// A layer whose paths are all absolute is left unchanged: resolving touches
/// relative paths only.
pub proof fn lemma_resolve_keeps_absolute_paths(base: Seq<char>, layer: ConfigView)
    requires
        paths_are_absolute(layer),
    ensures
        resolve_paths(base, layer) == layer,
{
    if layer.watch is Some && layer.watch->0.ignore is Some {
        let paths = layer.watch->0.ignore->0;
        assert(paths.map_values(|path: Seq<char>| join(base, path)) =~= paths);
    }
}

/// An absolute path has a last separator, so its directory is absolute too.
pub proof fn lemma_parent_of_absolute(path: Seq<char>)
    requires
        is_absolute(path),
    ensures
        crate::paths::last_separator(path) is Some,
        parent(path) matches Some(base) ==> is_absolute(base),
        parent(path) is None <==> path.len() == 1,
{
    crate::paths::lemma_last_separator(path);
}

/// Every path that the layer of a file with an absolute path states is
/// absolute, so the later layers meet only resolved paths from the file.
pub proof fn lemma_file_paths_are_absolute(path: Seq<char>, bytes: Seq<u8>, layer: ConfigView)
    requires
        is_absolute(path),
        path.len() > 1,
    ensures
        paths_are_absolute(beside(path, layer)),
        text_layer(bytes) is Ok ==> paths_are_absolute(beside(path, text_layer(bytes)->Ok_0)),
{
    lemma_parent_of_absolute(path);
    lemma_resolved_paths_are_absolute(parent(path)->0, layer);
    if text_layer(bytes) is Ok {
        lemma_resolved_paths_are_absolute(parent(path)->0, text_layer(bytes)->Ok_0);
    }
}

/// Resolving a second time under an absolute base changes nothing.
pub proof fn lemma_resolve_idempotent(base: Seq<char>, layer: ConfigView)
    requires
        is_absolute(base),
    ensures
        resolve_paths(base, resolve_paths(base, layer)) == resolve_paths(base, layer),
{
    lemma_resolved_paths_are_absolute(base, layer);
    lemma_resolve_keeps_absolute_paths(base, resolve_paths(base, layer));
}

/// Resolving leaves the sections without paths, and the fields that are no
/// paths, as they are, and neither adds nor removes a section.
pub proof fn lemma_resolve_touches_paths_only(base: Seq<char>, layer: ConfigView)
    ensures
        resolve_paths(base, layer).serve == layer.serve,
        resolve_paths(base, layer).proxy == layer.proxy,
        resolve_paths(base, layer).compression == layer.compression,
        resolve_paths(base, layer).build is Some <==> layer.build is Some,
        resolve_paths(base, layer).watch is Some <==> layer.watch is Some,
        resolve_paths(base, layer).clean is Some <==> layer.clean is Some,
        layer.build matches Some(build) ==> {
            let resolved = resolve_paths(base, layer).build->0;
            &&& resolved.release == build.release
            &&& resolved.public_url == build.public_url
            &&& resolved.target is Some <==> build.target is Some
            &&& resolved.dist is Some <==> build.dist is Some
        },
        layer.clean matches Some(clean) ==> resolve_paths(base, layer).clean->0.cargo
            == clean.cargo,
{
}

fn place(base: &str, path: Option<String>) -> (placed: Option<String>)
    ensures
        placed.deep_view() == resolve_path(base@, path.deep_view()),
{
    match path {
        Some(path) => Some(path_join(base, path.as_str())),
        None => None,
    }
}

fn place_all(base: &str, paths: Option<Vec<String>>) -> (placed: Option<Vec<String>>)
    ensures
        placed.deep_view() == resolve_list(base@, paths.deep_view()),
{
    match paths {
        Some(paths) => {
            let mut placed: Vec<String> = Vec::new();
            let mut at: usize = 0;
            while at < paths.len()
                invariant
                    at <= paths.len(),
                    placed.len() == at,
                    forall|seen: int|
                        0 <= seen < at ==> #[trigger] placed[seen]@ == join(base@, paths[seen]@),
                decreases paths.len() - at,
            {
                placed.push(path_join(base, paths[at].as_str()));
                at = at + 1;
            }
            assert(placed.deep_view() =~= paths.deep_view().map_values(
                |path: Seq<char>| join(base@, path),
            ));
            Some(placed)
        },
        None => None,
    }
}

impl ConfigOptsBuild {
    /// Places the target and the output directory under `base`.
    pub fn resolve_paths(self, base: &str) -> (resolved: ConfigOptsBuild)
        ensures
            resolved@ == resolve_build(base@, self@),
    {
        ConfigOptsBuild {
            target: place(base, self.target),
            release: self.release,
            dist: place(base, self.dist),
            public_url: self.public_url,
        }
    }
}

impl ConfigOptsWatch {
    /// Places the ignored paths under `base`.
    pub fn resolve_paths(self, base: &str) -> (resolved: ConfigOptsWatch)
        ensures
            resolved@ == resolve_watch(base@, self@),
    {
        ConfigOptsWatch { ignore: place_all(base, self.ignore) }
    }
}

impl ConfigOptsClean {
    /// Places the output directory under `base`.
    pub fn resolve_paths(self, base: &str) -> (resolved: ConfigOptsClean)
        ensures
            resolved@ == resolve_clean(base@, self@),
    {
        ConfigOptsClean { dist: place(base, self.dist), cargo: self.cargo }
    }
}

impl ConfigOpts {
    /// Places every relative path of this layer under `base`.
    pub fn resolve_paths(self, base: &str) -> (resolved: ConfigOpts)
        ensures
            resolved@ == resolve_paths(base@, self@),
    {
        ConfigOpts {
            build: match self.build {
                Some(build) => Some(build.resolve_paths(base)),
                None => None,
            },
            watch: match self.watch {
                Some(watch) => Some(watch.resolve_paths(base)),
                None => None,
            },
            serve: self.serve,
            clean: match self.clean {
                Some(clean) => Some(clean.resolve_paths(base)),
                None => None,
            },
            proxy: self.proxy,
            compression: self.compression,
        }
    }

    /// Places every relative path of this layer under the directory of the
    /// file at `path`.
    pub fn resolve_beside(self, path: &str) -> (resolved: ConfigOpts)
        ensures
            resolved@ == beside(path@, self@),
    {
        match path_parent(path) {
            Some(base) => self.resolve_paths(base.as_str()),
            None => self,
        }
    }

    /// The layer that the TOML text in `bytes` states, with its paths as
    /// written.
    pub fn from_toml(bytes: &[u8]) -> (layer: Result<ConfigOpts, ConfigError>)
        ensures
            outcome(layer) == text_layer(bytes@),
    {
        let document = read_document(bytes)?;
        ConfigOpts::from_document(&document)
    }

    /// Reads the file layer from what was found at the place of the
    /// configuration file.
    pub fn from_file(file: ConfigFile) -> (layer: Result<ConfigOpts, ConfigError>)
        ensures
            outcome(layer) == file_layer(file),
    {
        match file {
            ConfigFile::Missing => Ok(ConfigOpts::default()),
            ConfigFile::Unresolved => Err(ConfigError::PathResolution),
            ConfigFile::Unreadable => Err(ConfigError::FileRead),
            ConfigFile::Loaded { path, bytes } => {
                let layer = ConfigOpts::from_toml(bytes.as_slice())?;
                Ok(layer.resolve_beside(path.as_str()))
            },
        }
    }
}

} // verus!
