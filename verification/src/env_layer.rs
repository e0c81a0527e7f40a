//! The environment layer: what the environment variables state.
//!
//! Each subcommand has a prefix of its own, and a variable with that prefix
//! sets the field that the rest of its name spells: `TRUNK_BUILD_RELEASE`
//! sets `release` of the build options. How a name is matched against a
//! prefix and turned into the key of a field is the `envy` crate's work.
//! The environment itself is read by the caller, who hands over the
//! variables as pairs of name and value.
//!
//! The environment always states all four subcommand sections, if only
//! empty ones, and never a proxy or a compression rule. A value that does
//! not convert to the type of its field is a [`ConfigError::Env`], and so are
//! two variables that set the same field. Where several fields are at
//! fault, the first one in the order of sections and fields as declared here
//! is reported.

use vstd::prelude::*;
use crate::error::ConfigError;
use crate::error::outcome;
use crate::error::Field;
use crate::error::Section;
use crate::options::BuildView;
use crate::options::CleanView;
use crate::options::ConfigOpts;
use crate::options::ConfigOptsBuild;
use crate::options::ConfigOptsClean;
use crate::options::ConfigOptsServe;
use crate::options::ConfigOptsWatch;
use crate::options::ConfigView;
use crate::options::ServeView;
use crate::options::WatchView;
use crate::text::flag_named;
use crate::text::list_named;
use crate::text::parse_flag;
use crate::text::parse_port;
use crate::text::port_named;
use crate::text::split_list;
use crate::urls::normalize_url;
use crate::urls::url_text;

verus! {

/// The key of the field that the `envy` crate makes of the variable `name`
/// with `value` under `prefix`, or `None` where it passes the variable over.
pub uninterp spec fn envy_key(prefix: Seq<char>, name: Seq<char>, value: Seq<char>) -> Option<
    Seq<char>,
>;

/// Calls `envy::prefixed(prefix).from_iter` on the one variable `name` with
/// `value`, asks for a map from keys to values, and takes the key of what
/// comes back. The contract gives the outcome its name and claims nothing
/// more of it.
#[verifier::external_body]
fn field_key(prefix: &str, name: &str, value: &str) -> (key: Option<String>)
    ensures
        key.deep_view() == envy_key(prefix@, name@, value@),
{
    let variable = (name.to_owned(), value.to_owned());
    match envy::prefixed(prefix).from_iter::<_, std::collections::BTreeMap<String, String>>(
        [variable],
    ) {
        Ok(fields) => fields.into_keys().next(),
        Err(_) => None,
    }
}

/// The entries of one section: for each variable that the prefix takes, in
/// the order of the variables, the key of its field and its value.
pub open spec fn entries_of(prefix: Seq<char>, vars: Seq<(String, String)>) -> Seq<
    (Seq<char>, Seq<char>),
>
    decreases vars.len(),
{
    if vars.len() == 0 {
        Seq::empty()
    } else {
        let before = entries_of(prefix, vars.drop_last());
        let last = vars.last();
        match envy_key(prefix, last.0@, last.1@) {
            Some(key) => before.push((key, last.1@)),
            None => before,
        }
    }
}

/// Whether the entry at `at` sets the field `key`.
pub open spec fn sets(entries: Seq<(Seq<char>, Seq<char>)>, at: int, key: Seq<char>) -> bool {
    0 <= at < entries.len() && entries[at].0 == key
}

/// The error for the variable of `field` in `section`.
pub open spec fn env_fault(section: Section, field: Field) -> ConfigError {
    ConfigError::Env { section, field }
}

/// The text that the entries give the field `key`: none if no entry sets
/// it, the value of the entry that does, and an error if two do.
pub open spec fn variable_of(
    entries: Seq<(Seq<char>, Seq<char>)>,
    key: Seq<char>,
    section: Section,
    field: Field,
) -> Result<Option<Seq<char>>, ConfigError> {
    if !exists|at: int| sets(entries, at, key) {
        Ok(None)
    } else {
        let at = choose|at: int| sets(entries, at, key);
        if forall|other: int| sets(entries, other, key) ==> other == at {
            Ok(Some(entries[at].1))
        } else {
            Err(env_fault(section, field))
        }
    }
}

/// A flag from the environment: `true` or `false`, and down where no
/// variable sets it.
pub open spec fn env_flag(
    entries: Seq<(Seq<char>, Seq<char>)>,
    key: Seq<char>,
    section: Section,
    field: Field,
) -> Result<bool, ConfigError> {
    match variable_of(entries, key, section, field) {
        Err(error) => Err(error),
        Ok(None) => Ok(false),
        Ok(Some(text)) => match flag_named(text) {
            Some(flag) => Ok(flag),
            None => Err(env_fault(section, field)),
        },
    }
}

/// A port from the environment.
pub open spec fn env_port(
    entries: Seq<(Seq<char>, Seq<char>)>,
    key: Seq<char>,
    section: Section,
    field: Field,
) -> Result<Option<u16>, ConfigError> {
    match variable_of(entries, key, section, field) {
        Err(error) => Err(error),
        Ok(None) => Ok(None),
        Ok(Some(text)) => match port_named(text) {
            Some(port) => Ok(Some(port)),
            None => Err(env_fault(section, field)),
        },
    }
}

/// A URL from the environment, in its normal form.
pub open spec fn env_url(
    entries: Seq<(Seq<char>, Seq<char>)>,
    key: Seq<char>,
    section: Section,
    field: Field,
) -> Result<Option<Seq<char>>, ConfigError> {
    match variable_of(entries, key, section, field) {
        Err(error) => Err(error),
        Ok(None) => Ok(None),
        Ok(Some(text)) => match url_text(text) {
            Some(url) => Ok(Some(url)),
            None => Err(env_fault(section, field)),
        },
    }
}

/// A list from the environment: the pieces of the value between commas.
pub open spec fn env_list(
    entries: Seq<(Seq<char>, Seq<char>)>,
    key: Seq<char>,
    section: Section,
    field: Field,
) -> Result<Option<Seq<Seq<char>>>, ConfigError> {
    match variable_of(entries, key, section, field) {
        Err(error) => Err(error),
        Ok(None) => Ok(None),
        Ok(Some(text)) => Ok(Some(list_named(text))),
    }
}

/// Build options, from the entries of the build prefix.
pub open spec fn env_build(entries: Seq<(Seq<char>, Seq<char>)>) -> Result<
    BuildView,
    ConfigError,
> {
    let target = variable_of(entries, "target"@, Section::Build, Field::Target);
    let release = env_flag(entries, "release"@, Section::Build, Field::Release);
    let dist = variable_of(entries, "dist"@, Section::Build, Field::Dist);
    let public_url = variable_of(entries, "public_url"@, Section::Build, Field::PublicUrl);
    if target is Err {
        Err(target->Err_0)
    } else if release is Err {
        Err(release->Err_0)
    } else if dist is Err {
        Err(dist->Err_0)
    } else if public_url is Err {
        Err(public_url->Err_0)
    } else {
        Ok(
            BuildView {
                target: target->Ok_0,
                release: release->Ok_0,
                dist: dist->Ok_0,
                public_url: public_url->Ok_0,
            },
        )
    }
}

/// Watch options, from the entries of the watch prefix.
pub open spec fn env_watch(entries: Seq<(Seq<char>, Seq<char>)>) -> Result<
    WatchView,
    ConfigError,
> {
    match env_list(entries, "ignore"@, Section::Watch, Field::Ignore) {
        Ok(ignore) => Ok(WatchView { ignore }),
        Err(error) => Err(error),
    }
}

/// Serve options, from the entries of the serve prefix.
pub open spec fn env_serve(entries: Seq<(Seq<char>, Seq<char>)>) -> Result<
    ServeView,
    ConfigError,
> {
    let port = env_port(entries, "port"@, Section::Serve, Field::Port);
    let open = env_flag(entries, "open"@, Section::Serve, Field::Open);
    let proxy_backend = env_url(entries, "proxy_backend"@, Section::Serve, Field::ProxyBackend);
    let proxy_rewrite = variable_of(
        entries,
        "proxy_rewrite"@,
        Section::Serve,
        Field::ProxyRewrite,
    );
    if port is Err {
        Err(port->Err_0)
    } else if open is Err {
        Err(open->Err_0)
    } else if proxy_backend is Err {
        Err(proxy_backend->Err_0)
    } else if proxy_rewrite is Err {
        Err(proxy_rewrite->Err_0)
    } else {
        Ok(
            ServeView {
                port: port->Ok_0,
                open: open->Ok_0,
                proxy_backend: proxy_backend->Ok_0,
                proxy_rewrite: proxy_rewrite->Ok_0,
            },
        )
    }
}

/// Clean options, from the entries of the clean prefix.
pub open spec fn env_clean(entries: Seq<(Seq<char>, Seq<char>)>) -> Result<
    CleanView,
    ConfigError,
> {
    let dist = variable_of(entries, "dist"@, Section::Clean, Field::Dist);
    let cargo = env_flag(entries, "cargo"@, Section::Clean, Field::Cargo);
    if dist is Err {
        Err(dist->Err_0)
    } else if cargo is Err {
        Err(cargo->Err_0)
    } else {
        Ok(CleanView { dist: dist->Ok_0, cargo: cargo->Ok_0 })
    }
}

/// The environment layer.
pub open spec fn env_layer(vars: Seq<(String, String)>) -> Result<ConfigView, ConfigError> {
    let build = env_build(entries_of("TRUNK_BUILD_"@, vars));
    let watch = env_watch(entries_of("TRUNK_WATCH_"@, vars));
    let serve = env_serve(entries_of("TRUNK_SERVE_"@, vars));
    let clean = env_clean(entries_of("TRUNK_CLEAN_"@, vars));
    if build is Err {
        Err(build->Err_0)
    } else if watch is Err {
        Err(watch->Err_0)
    } else if serve is Err {
        Err(serve->Err_0)
    } else if clean is Err {
        Err(clean->Err_0)
    } else {
        Ok(
            ConfigView {
                build: Some(build->Ok_0),
                watch: Some(watch->Ok_0),
                serve: Some(serve->Ok_0),
                clean: Some(clean->Ok_0),
                proxy: None,
                compression: None,
            },
        )
    }
}

/// The one entry of a section sets its own field and no other.
pub proof fn lemma_single_entry(
    key: Seq<char>,
    value: Seq<char>,
    other: Seq<char>,
    section: Section,
    field: Field,
)
    ensures
        variable_of(seq![(key, value)], key, section, field) == Ok::<
            Option<Seq<char>>,
            ConfigError,
        >(Some(value)),
        other != key ==> variable_of(seq![(key, value)], other, section, field) == Ok::<
            Option<Seq<char>>,
            ConfigError,
        >(None),
{
    let entries = seq![(key, value)];
    assert(sets(entries, 0, key));
    assert(forall|at: int| sets(entries, at, key) ==> at == 0);
    assert(forall|at: int| !sets(entries, at, other) || other == key);
}

/// A section whose one entry is `release` with the value `true` states
/// build options with the release flag raised and nothing else.
pub proof fn lemma_release_entry()
    ensures
        env_build(seq![("release"@, "true"@)]) == Ok::<BuildView, ConfigError>(
            BuildView { target: None, release: true, dist: None, public_url: None },
        ),
{
    reveal_strlit("release");
    reveal_strlit("target");
    reveal_strlit("dist");
    reveal_strlit("public_url");
    assert("target"@.len() != "release"@.len());
    assert("dist"@.len() != "release"@.len());
    assert("public_url"@.len() != "release"@.len());
    lemma_single_entry("release"@, "true"@, "target"@, Section::Build, Field::Target);
    lemma_single_entry("release"@, "true"@, "release"@, Section::Build, Field::Release);
    lemma_single_entry("release"@, "true"@, "dist"@, Section::Build, Field::Dist);
    lemma_single_entry("release"@, "true"@, "public_url"@, Section::Build, Field::PublicUrl);
}

/// Whether two lists of variables hold the same names and values, as text,
/// in the same order.
pub open spec fn same_variables(first: Seq<(String, String)>, second: Seq<(String, String)>)
    -> bool {
    &&& first.len() == second.len()
    &&& forall|at: int|
        0 <= at < first.len() ==> (#[trigger] first[at]).0@ == second[at].0@ && first[at].1@
            == second[at].1@
}

/// The environment layer depends on the text of the variables only: two
/// lists with the same names and values state the same layer, or fail alike.
pub proof fn lemma_env_layer_depends_on_text(
    first: Seq<(String, String)>,
    second: Seq<(String, String)>,
)
    requires
        same_variables(first, second),
    ensures
        env_layer(first) == env_layer(second),
{
    lemma_entries_depend_on_text("TRUNK_BUILD_"@, first, second);
    lemma_entries_depend_on_text("TRUNK_WATCH_"@, first, second);
    lemma_entries_depend_on_text("TRUNK_SERVE_"@, first, second);
    lemma_entries_depend_on_text("TRUNK_CLEAN_"@, first, second);
}

/// The entries of a section depend on the text of the variables only.
pub proof fn lemma_entries_depend_on_text(
    prefix: Seq<char>,
    first: Seq<(String, String)>,
    second: Seq<(String, String)>,
)
    requires
        same_variables(first, second),
    ensures
        entries_of(prefix, first) == entries_of(prefix, second),
    decreases first.len(),
{
    if first.len() > 0 {
        assert(first.last() == first[first.len() - 1]);
        assert(second.last() == second[second.len() - 1]);
        assert(same_variables(first.drop_last(), second.drop_last())) by {
            assert forall|at: int| 0 <= at < first.len() - 1 implies (#[trigger] first.drop_last()[at]).0@
                == second.drop_last()[at].0@ && first.drop_last()[at].1@
                == second.drop_last()[at].1@ by {
                assert(first.drop_last()[at] == first[at]);
                assert(second.drop_last()[at] == second[at]);
            }
        }
        lemma_entries_depend_on_text(prefix, first.drop_last(), second.drop_last());
    }
}

/// The environment states all four subcommand sections, and neither
/// proxies nor compression rules.
pub proof fn lemma_env_layer_sections(vars: Seq<(String, String)>)
    ensures
        env_layer(vars) matches Ok(layer) ==> {
            &&& layer.build is Some
            &&& layer.watch is Some
            &&& layer.serve is Some
            &&& layer.clean is Some
            &&& layer.proxy is None
            &&& layer.compression is None
        },
{
}

/// With no variable that a prefix takes, the environment states four
/// sections that state nothing.
pub proof fn lemma_empty_environment()
    ensures
        env_layer(Seq::empty()) == Ok::<ConfigView, ConfigError>(
            ConfigView {
                build: Some(BuildView::empty()),
                watch: Some(WatchView::empty()),
                serve: Some(ServeView::empty()),
                clean: Some(CleanView::empty()),
                proxy: None,
                compression: None,
            },
        ),
{
    let none = Seq::<(Seq<char>, Seq<char>)>::empty();
    assert(entries_of("TRUNK_BUILD_"@, Seq::empty()) == none);
    assert(entries_of("TRUNK_WATCH_"@, Seq::empty()) == none);
    assert(entries_of("TRUNK_SERVE_"@, Seq::empty()) == none);
    assert(entries_of("TRUNK_CLEAN_"@, Seq::empty()) == none);
    assert forall|key: Seq<char>, section: Section, field: Field|
        variable_of(none, key, section, field) == Ok::<Option<Seq<char>>, ConfigError>(
            None,
        ) by {
        assert(forall|at: int| !sets(none, at, key));
    }
}

/// The entries of one section: the variables that `prefix` takes, each as
/// the key of its field with its value.
pub fn prefixed_entries(prefix: &str, vars: &Vec<(String, String)>) -> (entries: Vec<
    (String, String),
>)
    ensures
        entries.deep_view() == entries_of(prefix@, vars@),
{
    let mut entries: Vec<(String, String)> = Vec::new();
    let mut at: usize = 0;
    assert(vars@.subrange(0, 0) =~= Seq::<(String, String)>::empty());
    assert(entries.deep_view() =~= entries_of(prefix@, vars@.subrange(0, 0)));
    while at < vars.len()
        invariant
            at <= vars.len(),
            entries.deep_view() == entries_of(prefix@, vars@.subrange(0, at as int)),
        decreases vars.len() - at,
    {
        let ghost before = entries.deep_view();
        let ghost next = vars@.subrange(0, at + 1);
        assert(next.drop_last() =~= vars@.subrange(0, at as int));
        assert(next.last() == vars@[at as int]);
        match field_key(prefix, vars[at].0.as_str(), vars[at].1.as_str()) {
            Some(key) => {
                entries.push((key, vars[at].1.clone()));
                assert(entries.deep_view() =~= before.push((key@, vars@[at as int].1@)));
            },
            None => {},
        }
        at = at + 1;
    }
    assert(vars@.subrange(0, vars@.len() as int) =~= vars@);
    entries
}

fn variable<'a>(
    entries: &'a Vec<(String, String)>,
    key: &str,
    section: Section,
    field: Field,
) -> (found: Result<Option<&'a String>, ConfigError>)
    ensures
        match found {
            Ok(Some(text)) => variable_of(entries.deep_view(), key@, section, field) == Ok::<
                Option<Seq<char>>,
                ConfigError,
            >(Some(text@)),
            Ok(None) => variable_of(entries.deep_view(), key@, section, field) == Ok::<
                Option<Seq<char>>,
                ConfigError,
            >(None),
            Err(error) => variable_of(entries.deep_view(), key@, section, field) == Err::<
                Option<Seq<char>>,
                ConfigError,
            >(error),
        },
{
    let wanted = String::from_str(key);
    let ghost all = entries.deep_view();
    let mut found: Option<usize> = None;
    let mut at: usize = 0;
    while at < entries.len()
        invariant
            at <= entries.len(),
            wanted@ == key@,
            all == entries.deep_view(),
            found is None ==> forall|seen: int| 0 <= seen < at ==> !sets(all, seen, key@),
            found matches Some(first) ==> first < at && sets(all, first as int, key@) && forall|
                seen: int,
            |
                0 <= seen < at && sets(all, seen, key@) ==> seen == first,
        decreases entries.len() - at,
    {
        assert(all[at as int].0 == entries[at as int].0@);
        if entries[at].0 == wanted {
            assert(sets(all, at as int, key@));
            match found {
                Some(first) => {
                    assert(sets(all, first as int, key@));
                    let ghost chosen = choose|at: int| sets(all, at, key@);
                    assert(chosen != at as int || chosen != first as int);
                    return Err(ConfigError::Env { section, field });
                },
                None => {
                    found = Some(at);
                },
            }
        }
        at = at + 1;
    }
    match found {
        Some(first) => {
            assert(sets(all, first as int, key@));
            assert(all[first as int].1 == entries[first as int].1@);
            Ok(Some(&entries[first].1))
        },
        None => Ok(None),
    }
}

fn read_flag(entries: &Vec<(String, String)>, key: &str, section: Section, field: Field) -> (read:
    Result<bool, ConfigError>)
    ensures
        read == env_flag(entries.deep_view(), key@, section, field),
{
    match variable(entries, key, section, field)? {
        None => Ok(false),
        Some(text) => match parse_flag(text) {
            Some(flag) => Ok(flag),
            None => Err(ConfigError::Env { section, field }),
        },
    }
}

fn read_text(entries: &Vec<(String, String)>, key: &str, section: Section, field: Field) -> (read:
    Result<Option<String>, ConfigError>)
    ensures
        outcome(read) == variable_of(entries.deep_view(), key@, section, field),
{
    match variable(entries, key, section, field)? {
        None => Ok(None),
        Some(text) => Ok(Some(text.clone())),
    }
}

fn read_port(entries: &Vec<(String, String)>, key: &str, section: Section, field: Field) -> (read:
    Result<Option<u16>, ConfigError>)
    ensures
        read == env_port(entries.deep_view(), key@, section, field),
{
    match variable(entries, key, section, field)? {
        None => Ok(None),
        Some(text) => match parse_port(text.as_str()) {
            Some(port) => Ok(Some(port)),
            None => Err(ConfigError::Env { section, field }),
        },
    }
}

fn read_url(entries: &Vec<(String, String)>, key: &str, section: Section, field: Field) -> (read:
    Result<Option<String>, ConfigError>)
    ensures
        outcome(read) == env_url(entries.deep_view(), key@, section, field),
{
    match variable(entries, key, section, field)? {
        None => Ok(None),
        Some(text) => match normalize_url(text.as_str()) {
            Some(url) => Ok(Some(url)),
            None => Err(ConfigError::Env { section, field }),
        },
    }
}

fn read_list(entries: &Vec<(String, String)>, key: &str, section: Section, field: Field) -> (read:
    Result<Option<Vec<String>>, ConfigError>)
    ensures
        outcome(read) == env_list(entries.deep_view(), key@, section, field),
{
    match variable(entries, key, section, field)? {
        None => Ok(None),
        Some(text) => Ok(Some(split_list(text.as_str()))),
    }
}

impl ConfigOptsBuild {
    /// Reads build options from the entries of the build prefix.
    pub fn from_entries(entries: &Vec<(String, String)>) -> (read: Result<
        ConfigOptsBuild,
        ConfigError,
    >)
        ensures
            outcome(read) == env_build(entries.deep_view()),
    {
        let target = read_text(entries, "target", Section::Build, Field::Target)?;
        let release = read_flag(entries, "release", Section::Build, Field::Release)?;
        let dist = read_text(entries, "dist", Section::Build, Field::Dist)?;
        let public_url = read_text(entries, "public_url", Section::Build, Field::PublicUrl)?;
        Ok(ConfigOptsBuild { target, release, dist, public_url })
    }
}

impl ConfigOptsWatch {
    /// Reads watch options from the entries of the watch prefix.
    pub fn from_entries(entries: &Vec<(String, String)>) -> (read: Result<
        ConfigOptsWatch,
        ConfigError,
    >)
        ensures
            outcome(read) == env_watch(entries.deep_view()),
    {
        let ignore = read_list(entries, "ignore", Section::Watch, Field::Ignore)?;
        Ok(ConfigOptsWatch { ignore })
    }
}

impl ConfigOptsServe {
    /// Reads serve options from the entries of the serve prefix.
    pub fn from_entries(entries: &Vec<(String, String)>) -> (read: Result<
        ConfigOptsServe,
        ConfigError,
    >)
        ensures
            outcome(read) == env_serve(entries.deep_view()),
    {
        let port = read_port(entries, "port", Section::Serve, Field::Port)?;
        let open = read_flag(entries, "open", Section::Serve, Field::Open)?;
        let proxy_backend = read_url(
            entries,
            "proxy_backend",
            Section::Serve,
            Field::ProxyBackend,
        )?;
        let proxy_rewrite = read_text(
            entries,
            "proxy_rewrite",
            Section::Serve,
            Field::ProxyRewrite,
        )?;
        Ok(ConfigOptsServe { port, open, proxy_backend, proxy_rewrite })
    }
}

impl ConfigOptsClean {
    /// Reads clean options from the entries of the clean prefix.
    pub fn from_entries(entries: &Vec<(String, String)>) -> (read: Result<
        ConfigOptsClean,
        ConfigError,
    >)
        ensures
            outcome(read) == env_clean(entries.deep_view()),
    {
        let dist = read_text(entries, "dist", Section::Clean, Field::Dist)?;
        let cargo = read_flag(entries, "cargo", Section::Clean, Field::Cargo)?;
        Ok(ConfigOptsClean { dist, cargo })
    }
}

impl ConfigOpts {
    /// Reads the environment layer from the variables of the environment.
    pub fn from_env(vars: &Vec<(String, String)>) -> (layer: Result<ConfigOpts, ConfigError>)
        ensures
            outcome(layer) == env_layer(vars@),
    {
        let build = ConfigOptsBuild::from_entries(&prefixed_entries("TRUNK_BUILD_", vars))?;
        let watch = ConfigOptsWatch::from_entries(&prefixed_entries("TRUNK_WATCH_", vars))?;
        let serve = ConfigOptsServe::from_entries(&prefixed_entries("TRUNK_SERVE_", vars))?;
        let clean = ConfigOptsClean::from_entries(&prefixed_entries("TRUNK_CLEAN_", vars))?;
        Ok(
            ConfigOpts {
                build: Some(build),
                watch: Some(watch),
                serve: Some(serve),
                clean: Some(clean),
                proxy: None,
                compression: None,
            },
        )
    }
}

} // verus!
