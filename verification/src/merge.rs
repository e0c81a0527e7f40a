//! Merging two layers, of which the greater takes precedence.
//!
//! Each field is merged by one of three rules:
//! - an optional field takes the greater layer's value if it states one,
//!   else the lesser layer's ([`overriding`]);
//! - a sticky flag is raised if either layer raises it ([`sticky`]);
//! - a list section is taken whole from the greater layer if it states one,
//!   else from the lesser: lists are never joined ([`replacing`]).
//!
//! A section that only one layer states is taken from that layer unchanged.

use vstd::prelude::*;
use crate::options::BuildView;
use crate::options::CleanView;
use crate::options::ConfigOpts;
use crate::options::ConfigOptsBuild;
use crate::options::ConfigOptsClean;
use crate::options::ConfigOptsServe;
use crate::options::ConfigOptsWatch;
use crate::options::ConfigView;
use crate::options::ServeView;
use crate::options::WatchView;

verus! {

/// The rule for an optional field: the greater layer's value if it states
/// one, else the lesser layer's.
pub open spec fn overriding<T>(lesser: Option<T>, greater: Option<T>) -> Option<T> {
    if greater is Some {
        greater
    } else {
        lesser
    }
}

/// The rule for a sticky flag: once raised, it stays raised.
pub open spec fn sticky(lesser: bool, greater: bool) -> bool {
    lesser || greater
}

/// The rule for a list section: the greater layer's whole list if it states
/// one, else the lesser layer's. No element of the lesser list survives
/// beside a greater list.
pub open spec fn replacing<T>(lesser: Option<Seq<T>>, greater: Option<Seq<T>>) -> Option<Seq<T>> {
    overriding(lesser, greater)
}

/// Build options stated by both layers, merged field by field.
pub open spec fn merge_build(lesser: BuildView, greater: BuildView) -> BuildView {
    BuildView {
        target: overriding(lesser.target, greater.target),
        release: sticky(lesser.release, greater.release),
        dist: overriding(lesser.dist, greater.dist),
        public_url: overriding(lesser.public_url, greater.public_url),
    }
}

/// Watch options stated by both layers, merged field by field.
pub open spec fn merge_watch(lesser: WatchView, greater: WatchView) -> WatchView {
    WatchView { ignore: overriding(lesser.ignore, greater.ignore) }
}

/// Serve options stated by both layers, merged field by field.
pub open spec fn merge_serve(lesser: ServeView, greater: ServeView) -> ServeView {
    ServeView {
        port: overriding(lesser.port, greater.port),
        open: sticky(lesser.open, greater.open),
        proxy_backend: overriding(lesser.proxy_backend, greater.proxy_backend),
        proxy_rewrite: overriding(lesser.proxy_rewrite, greater.proxy_rewrite),
    }
}

/// Clean options stated by both layers, merged field by field.
pub open spec fn merge_clean(lesser: CleanView, greater: CleanView) -> CleanView {
    CleanView {
        dist: overriding(lesser.dist, greater.dist),
        cargo: sticky(lesser.cargo, greater.cargo),
    }
}

/// A section of two layers: absent if neither states it, taken unchanged
/// from the one layer that states it, and merged by `both` if both do.
pub open spec fn merge_section<T>(
    lesser: Option<T>,
    greater: Option<T>,
    both: spec_fn(T, T) -> T,
) -> Option<T> {
    match (lesser, greater) {
        (None, None) => None,
        (Some(only), None) => Some(only),
        (None, Some(only)) => Some(only),
        (Some(l), Some(g)) => Some(both(l, g)),
    }
}

/// The merge of two layers.
pub open spec fn merge(lesser: ConfigView, greater: ConfigView) -> ConfigView {
    ConfigView {
        build: merge_section(lesser.build, greater.build, |l, g| merge_build(l, g)),
        watch: merge_section(lesser.watch, greater.watch, |l, g| merge_watch(l, g)),
        serve: merge_section(lesser.serve, greater.serve, |l, g| merge_serve(l, g)),
        clean: merge_section(lesser.clean, greater.clean, |l, g| merge_clean(l, g)),
        proxy: replacing(lesser.proxy, greater.proxy),
        compression: replacing(lesser.compression, greater.compression),
    }
}

/// Merging with the empty layer changes nothing, whichever side it is on.
pub proof fn lemma_merge_empty(layer: ConfigView)
    ensures
        merge(layer, ConfigView::empty()) == layer,
        merge(ConfigView::empty(), layer) == layer,
{
}

/// A section that only one of the two layers states comes out unchanged.
pub proof fn lemma_merge_lone_section(lesser: ConfigView, greater: ConfigView)
    ensures
        lesser.build is None ==> merge(lesser, greater).build == greater.build,
        greater.build is None ==> merge(lesser, greater).build == lesser.build,
        lesser.watch is None ==> merge(lesser, greater).watch == greater.watch,
        greater.watch is None ==> merge(lesser, greater).watch == lesser.watch,
        lesser.serve is None ==> merge(lesser, greater).serve == greater.serve,
        greater.serve is None ==> merge(lesser, greater).serve == lesser.serve,
        lesser.clean is None ==> merge(lesser, greater).clean == greater.clean,
        greater.clean is None ==> merge(lesser, greater).clean == lesser.clean,
{
}

/// A sticky flag that either layer raises is raised in the merge: no layer
/// can lower it again.
pub proof fn lemma_sticky_flags_stay_raised(lesser: ConfigView, greater: ConfigView)
    ensures
        (lesser.build is Some && lesser.build->0.release) || (greater.build is Some
            && greater.build->0.release) ==> merge(lesser, greater).build is Some && merge(
            lesser,
            greater,
        ).build->0.release,
        (lesser.serve is Some && lesser.serve->0.open) || (greater.serve is Some
            && greater.serve->0.open) ==> merge(lesser, greater).serve is Some && merge(
            lesser,
            greater,
        ).serve->0.open,
        (lesser.clean is Some && lesser.clean->0.cargo) || (greater.clean is Some
            && greater.clean->0.cargo) ==> merge(lesser, greater).clean is Some && merge(
            lesser,
            greater,
        ).clean->0.cargo,
{
}

/// A sticky flag is raised in the merge only if one of the layers raises it.
pub proof fn lemma_sticky_flags_have_a_source(lesser: ConfigView, greater: ConfigView)
    ensures
        merge(lesser, greater).build is Some && merge(lesser, greater).build->0.release ==> (
        lesser.build is Some && lesser.build->0.release) || (greater.build is Some
            && greater.build->0.release),
        merge(lesser, greater).serve is Some && merge(lesser, greater).serve->0.open ==> (
        lesser.serve is Some && lesser.serve->0.open) || (greater.serve is Some
            && greater.serve->0.open),
        merge(lesser, greater).clean is Some && merge(lesser, greater).clean->0.cargo ==> (
        lesser.clean is Some && lesser.clean->0.cargo) || (greater.clean is Some
            && greater.clean->0.cargo),
{
}

/// A list section that the greater layer states replaces the lesser layer's
/// whole; one that it leaves open is taken from the lesser layer. The merged
/// list is never a mix of the two.
pub proof fn lemma_lists_replace(lesser: ConfigView, greater: ConfigView)
    ensures
        greater.proxy is Some ==> merge(lesser, greater).proxy == greater.proxy,
        greater.proxy is None ==> merge(lesser, greater).proxy == lesser.proxy,
        greater.compression is Some ==> merge(lesser, greater).compression
            == greater.compression,
        greater.compression is None ==> merge(lesser, greater).compression
            == lesser.compression,
{
}

/// The greater layer wins every conflict: an optional field that it states
/// has its value in the merge.
pub proof fn lemma_greater_wins(lesser: ConfigView, greater: ConfigView)
    ensures
        greater.build matches Some(g) ==> {
            let merged = merge(lesser, greater).build->0;
            &&& g.target is Some ==> merged.target == g.target
            &&& g.dist is Some ==> merged.dist == g.dist
            &&& g.public_url is Some ==> merged.public_url == g.public_url
        },
        greater.watch matches Some(g) ==> g.ignore is Some ==> merge(
            lesser,
            greater,
        ).watch->0.ignore == g.ignore,
        greater.serve matches Some(g) ==> {
            let merged = merge(lesser, greater).serve->0;
            &&& g.port is Some ==> merged.port == g.port
            &&& g.proxy_backend is Some ==> merged.proxy_backend == g.proxy_backend
            &&& g.proxy_rewrite is Some ==> merged.proxy_rewrite == g.proxy_rewrite
        },
        greater.clean matches Some(g) ==> g.dist is Some ==> merge(
            lesser,
            greater,
        ).clean->0.dist == g.dist,
{
}

/// What the greater layer leaves open in a section that both layers state
/// is filled from the lesser layer.
pub proof fn lemma_lesser_fills_gaps(lesser: ConfigView, greater: ConfigView)
    ensures
        lesser.build is Some && greater.build is Some ==> {
            let l = lesser.build->0;
            let g = greater.build->0;
            let merged = merge(lesser, greater).build->0;
            &&& g.target is None ==> merged.target == l.target
            &&& g.dist is None ==> merged.dist == l.dist
            &&& g.public_url is None ==> merged.public_url == l.public_url
        },
        lesser.watch is Some && greater.watch is Some && greater.watch->0.ignore is None
            ==> merge(lesser, greater).watch->0.ignore == lesser.watch->0.ignore,
        lesser.serve is Some && greater.serve is Some ==> {
            let l = lesser.serve->0;
            let g = greater.serve->0;
            let merged = merge(lesser, greater).serve->0;
            &&& g.port is None ==> merged.port == l.port
            &&& g.proxy_backend is None ==> merged.proxy_backend == l.proxy_backend
            &&& g.proxy_rewrite is None ==> merged.proxy_rewrite == l.proxy_rewrite
        },
        lesser.clean is Some && greater.clean is Some && greater.clean->0.dist is None
            ==> merge(lesser, greater).clean->0.dist == lesser.clean->0.dist,
{
}

/// Merging is associative: a chain of layers merges to the same layer
/// however its steps are grouped, as long as the layers keep their order.
pub proof fn lemma_merge_associative(low: ConfigView, middle: ConfigView, high: ConfigView)
    ensures
        merge(merge(low, middle), high) == merge(low, merge(middle, high)),
{
    let left = merge(merge(low, middle), high);
    let right = merge(low, merge(middle, high));
    assert(left.build == right.build);
    assert(left.watch == right.watch);
    assert(left.serve == right.serve);
    assert(left.clean == right.clean);
    assert(left.proxy == right.proxy);
    assert(left.compression == right.compression);
}

/// Merging a layer with itself changes nothing.
pub proof fn lemma_merge_idempotent(layer: ConfigView)
    ensures
        merge(layer, layer) == layer,
{
}

/// The greater value if there is one, else the lesser.
fn prefer<T: DeepView>(lesser: Option<T>, greater: Option<T>) -> (chosen: Option<T>)
    ensures
        chosen.deep_view() == overriding(lesser.deep_view(), greater.deep_view()),
{
    match greater {
        Some(value) => Some(value),
        None => lesser,
    }
}

impl ConfigOptsBuild {
    /// Merges the build options of two layers that both state them.
    pub fn merge(lesser: ConfigOptsBuild, greater: ConfigOptsBuild) -> (merged: ConfigOptsBuild)
        ensures
            merged@ == merge_build(lesser@, greater@),
    {
        ConfigOptsBuild {
            target: prefer(lesser.target, greater.target),
            release: lesser.release || greater.release,
            dist: prefer(lesser.dist, greater.dist),
            public_url: prefer(lesser.public_url, greater.public_url),
        }
    }
}

impl ConfigOptsWatch {
    /// Merges the watch options of two layers that both state them.
    pub fn merge(lesser: ConfigOptsWatch, greater: ConfigOptsWatch) -> (merged: ConfigOptsWatch)
        ensures
            merged@ == merge_watch(lesser@, greater@),
    {
        ConfigOptsWatch { ignore: prefer(lesser.ignore, greater.ignore) }
    }
}

impl ConfigOptsServe {
    /// Merges the serve options of two layers that both state them.
    pub fn merge(lesser: ConfigOptsServe, greater: ConfigOptsServe) -> (merged: ConfigOptsServe)
        ensures
            merged@ == merge_serve(lesser@, greater@),
    {
        ConfigOptsServe {
            port: prefer(lesser.port, greater.port),
            open: lesser.open || greater.open,
            proxy_backend: prefer(lesser.proxy_backend, greater.proxy_backend),
            proxy_rewrite: prefer(lesser.proxy_rewrite, greater.proxy_rewrite),
        }
    }
}

impl ConfigOptsClean {
    /// Merges the clean options of two layers that both state them.
    pub fn merge(lesser: ConfigOptsClean, greater: ConfigOptsClean) -> (merged: ConfigOptsClean)
        ensures
            merged@ == merge_clean(lesser@, greater@),
    {
        ConfigOptsClean {
            dist: prefer(lesser.dist, greater.dist),
            cargo: lesser.cargo || greater.cargo,
        }
    }
}

impl ConfigOpts {
    /// Merges two layers, where `greater` takes precedence.
    pub fn merge(lesser: ConfigOpts, greater: ConfigOpts) -> (merged: ConfigOpts)
        ensures
            merged@ == merge(lesser@, greater@),
    {
        let build = match (lesser.build, greater.build) {
            (None, None) => None,
            (Some(only), None) => Some(only),
            (None, Some(only)) => Some(only),
            (Some(l), Some(g)) => Some(ConfigOptsBuild::merge(l, g)),
        };
        let watch = match (lesser.watch, greater.watch) {
            (None, None) => None,
            (Some(only), None) => Some(only),
            (None, Some(only)) => Some(only),
            (Some(l), Some(g)) => Some(ConfigOptsWatch::merge(l, g)),
        };
        let serve = match (lesser.serve, greater.serve) {
            (None, None) => None,
            (Some(only), None) => Some(only),
            (None, Some(only)) => Some(only),
            (Some(l), Some(g)) => Some(ConfigOptsServe::merge(l, g)),
        };
        let clean = match (lesser.clean, greater.clean) {
            (None, None) => None,
            (Some(only), None) => Some(only),
            (None, Some(only)) => Some(only),
            (Some(l), Some(g)) => Some(ConfigOptsClean::merge(l, g)),
        };
        let proxy = prefer(lesser.proxy, greater.proxy);
        let compression = prefer(lesser.compression, greater.compression);
        ConfigOpts { build, watch, serve, clean, proxy, compression }
    }
}

} // verus!
