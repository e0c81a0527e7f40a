//! The shape of a configuration document.
//!
//! A document is a table with one optional entry per section. `build`,
//! `watch`, `serve` and `clean` are tables of optional fields; `proxy` and
//! `compression` are arrays of tables. Entries under other keys are passed
//! over. A value of the wrong type, a number out of its range or a missing
//! required value is a [`ConfigError::Shape`], which names the section and
//! the field. Where a document holds several such faults, the first one in
//! the order of sections and fields as declared here is reported.

use vstd::prelude::*;
use crate::compression::Compressor;
use crate::compression::CompressorOptions;
use crate::compression::Number;
use crate::compression::compressor_named;
use crate::document::Item;
use crate::document::entry;
use crate::document::lookup;
use crate::error::ConfigError;
use crate::error::Field;
use crate::error::outcome;
use crate::error::Section;
use crate::options::BuildView;
use crate::options::CleanView;
use crate::options::CompressionView;
use crate::options::ConfigOpts;
use crate::options::ConfigOptsBuild;
use crate::options::ConfigOptsClean;
use crate::options::ConfigOptsCompression;
use crate::options::ConfigOptsProxy;
use crate::options::ConfigOptsServe;
use crate::options::ConfigOptsWatch;
use crate::options::ConfigView;
use crate::options::ProxyView;
use crate::options::ServeView;
use crate::options::WatchView;
use crate::urls::normalize_url;
use crate::urls::url_text;

verus! {

/// The error for a fault at `field` of `section`.
pub open spec fn fault(section: Section, field: Field) -> ConfigError {
    ConfigError::Shape { section, field }
}

/// An optional string.
pub open spec fn text_of(found: Option<Item>, section: Section, field: Field) -> Result<
    Option<Seq<char>>,
    ConfigError,
> {
    match found {
        None => Ok(None),
        Some(Item::Text(text)) => Ok(Some(text@)),
        Some(_) => Err(fault(section, field)),
    }
}

/// A flag, which is down where the document leaves it out.
pub open spec fn flag_of(found: Option<Item>, section: Section, field: Field) -> Result<
    bool,
    ConfigError,
> {
    match found {
        None => Ok(false),
        Some(Item::Flag(flag)) => Ok(flag),
        Some(_) => Err(fault(section, field)),
    }
}

/// An optional port: a whole number from 0 to 65535.
pub open spec fn port_of(found: Option<Item>, section: Section, field: Field) -> Result<
    Option<u16>,
    ConfigError,
> {
    match found {
        None => Ok(None),
        Some(Item::Integer(number)) => if 0 <= number <= u16::MAX {
            Ok(Some(number as u16))
        } else {
            Err(fault(section, field))
        },
        Some(_) => Err(fault(section, field)),
    }
}

/// An optional count: a whole number that is not negative and fits the
/// machine word.
pub open spec fn count_of(found: Option<Item>, section: Section, field: Field) -> Result<
    Option<usize>,
    ConfigError,
> {
    match found {
        None => Ok(None),
        Some(Item::Integer(number)) => if 0 <= number <= usize::MAX {
            Ok(Some(number as usize))
        } else {
            Err(fault(section, field))
        },
        Some(_) => Err(fault(section, field)),
    }
}

/// An optional number, whole or with a fraction.
pub open spec fn number_of(found: Option<Item>, section: Section, field: Field) -> Result<
    Option<Number>,
    ConfigError,
> {
    match found {
        None => Ok(None),
        Some(Item::Integer(number)) => Ok(Some(Number::Integer(number))),
        Some(Item::Real(bits)) => Ok(Some(Number::Real(bits))),
        Some(_) => Err(fault(section, field)),
    }
}

/// An optional URL: a string that writes an absolute URL, in its normal form.
pub open spec fn url_of(found: Option<Item>, section: Section, field: Field) -> Result<
    Option<Seq<char>>,
    ConfigError,
> {
    match found {
        None => Ok(None),
        Some(Item::Text(text)) => match url_text(text@) {
            Some(url) => Ok(Some(url)),
            None => Err(fault(section, field)),
        },
        Some(_) => Err(fault(section, field)),
    }
}

/// A value that the document must state.
pub open spec fn required<T>(read: Result<Option<T>, ConfigError>, section: Section, field: Field)
    -> Result<T, ConfigError> {
    match read {
        Ok(Some(value)) => Ok(value),
        Ok(None) => Err(fault(section, field)),
        Err(error) => Err(error),
    }
}

/// The values of a list of outcomes if all are good, else the first error.
pub open spec fn collect<T>(results: Seq<Result<T, ConfigError>>) -> Result<Seq<T>, ConfigError> {
    if forall|at: int| 0 <= at < results.len() ==> results[at] is Ok {
        Ok(Seq::new(results.len(), |at: int| results[at]->Ok_0))
    } else {
        Err(results[first_error(results)]->Err_0)
    }
}

/// The position of the first error in a list of outcomes.
pub open spec fn first_error<T>(results: Seq<Result<T, ConfigError>>) -> int {
    choose|at: int|
        0 <= at < results.len() && results[at] is Err && forall|before: int|
            0 <= before < at ==> results[before] is Ok
}

/// An error with only good outcomes before it is the first error.
pub proof fn lemma_collect_error<T>(results: Seq<Result<T, ConfigError>>, at: int)
    requires
        0 <= at < results.len(),
        results[at] is Err,
        forall|before: int| 0 <= before < at ==> results[before] is Ok,
    ensures
        collect(results) == Err::<Seq<T>, ConfigError>(results[at]->Err_0),
{
    let first = first_error(results);
    assert(0 <= first < results.len() && results[first] is Err && forall|before: int|
        0 <= before < first ==> results[before] is Ok);
    if first < at {
        assert(results[first] is Ok);
    }
    if at < first {
        assert(results[at] is Ok);
    }
}

/// A list of good outcomes collects to their values.
pub proof fn lemma_collect_values<T>(results: Seq<Result<T, ConfigError>>, values: Seq<T>)
    requires
        values.len() == results.len(),
        forall|at: int| 0 <= at < results.len() ==> #[trigger] results[at] == Ok::<T, ConfigError>(
            values[at],
        ),
    ensures
        collect(results) == Ok::<Seq<T>, ConfigError>(values),
{
    assert(Seq::new(results.len(), |at: int| results[at]->Ok_0) =~= values);
}

/// One element of a list of strings.
pub open spec fn text_item(item: Item, section: Section, field: Field) -> Result<
    Seq<char>,
    ConfigError,
> {
    match item {
        Item::Text(text) => Ok(text@),
        _ => Err(fault(section, field)),
    }
}

/// The elements of a list of strings, each read by itself.
pub open spec fn text_items(items: Seq<Item>, section: Section, field: Field) -> Seq<
    Result<Seq<char>, ConfigError>,
> {
    items.map_values(|item: Item| text_item(item, section, field))
}

/// An optional list of strings.
pub open spec fn texts_of(found: Option<Item>, section: Section, field: Field) -> Result<
    Option<Seq<Seq<char>>>,
    ConfigError,
> {
    match found {
        None => Ok(None),
        Some(Item::List(items)) => match collect(text_items(items@, section, field)) {
            Ok(texts) => Ok(Some(texts)),
            Err(error) => Err(error),
        },
        Some(_) => Err(fault(section, field)),
    }
}

/// An optional section that is a table, read by `read`.
pub open spec fn table_of<T>(
    found: Option<Item>,
    section: Section,
    field: Field,
    read: spec_fn(Seq<(String, Item)>) -> Result<T, ConfigError>,
) -> Result<Option<T>, ConfigError> {
    match found {
        None => Ok(None),
        Some(Item::Table(entries)) => match read(entries@) {
            Ok(value) => Ok(Some(value)),
            Err(error) => Err(error),
        },
        Some(_) => Err(fault(section, field)),
    }
}

/// Build options, from the entries of the `build` table.
pub open spec fn build_of(entries: Seq<(String, Item)>) -> Result<BuildView, ConfigError> {
    let target = text_of(entry(entries, "target"@), Section::Build, Field::Target);
    let release = flag_of(entry(entries, "release"@), Section::Build, Field::Release);
    let dist = text_of(entry(entries, "dist"@), Section::Build, Field::Dist);
    let public_url = text_of(entry(entries, "public_url"@), Section::Build, Field::PublicUrl);
    if target is Err {
        Err(target->Err_0)
    } else if release is Err {
        Err(release->Err_0)
    } else if dist is Err {
        Err(dist->Err_0)
    } else if public_url is Err {
        Err(public_url->Err_0)
    } else {
        Ok(
            BuildView {
                target: target->Ok_0,
                release: release->Ok_0,
                dist: dist->Ok_0,
                public_url: public_url->Ok_0,
            },
        )
    }
}

/// Watch options, from the entries of the `watch` table.
pub open spec fn watch_of(entries: Seq<(String, Item)>) -> Result<WatchView, ConfigError> {
    match texts_of(entry(entries, "ignore"@), Section::Watch, Field::Ignore) {
        Ok(ignore) => Ok(WatchView { ignore }),
        Err(error) => Err(error),
    }
}

/// Serve options, from the entries of the `serve` table.
pub open spec fn serve_of(entries: Seq<(String, Item)>) -> Result<ServeView, ConfigError> {
    let port = port_of(entry(entries, "port"@), Section::Serve, Field::Port);
    let open = flag_of(entry(entries, "open"@), Section::Serve, Field::Open);
    let proxy_backend = url_of(
        entry(entries, "proxy_backend"@),
        Section::Serve,
        Field::ProxyBackend,
    );
    let proxy_rewrite = text_of(
        entry(entries, "proxy_rewrite"@),
        Section::Serve,
        Field::ProxyRewrite,
    );
    if port is Err {
        Err(port->Err_0)
    } else if open is Err {
        Err(open->Err_0)
    } else if proxy_backend is Err {
        Err(proxy_backend->Err_0)
    } else if proxy_rewrite is Err {
        Err(proxy_rewrite->Err_0)
    } else {
        Ok(
            ServeView {
                port: port->Ok_0,
                open: open->Ok_0,
                proxy_backend: proxy_backend->Ok_0,
                proxy_rewrite: proxy_rewrite->Ok_0,
            },
        )
    }
}

/// Clean options, from the entries of the `clean` table.
pub open spec fn clean_of(entries: Seq<(String, Item)>) -> Result<CleanView, ConfigError> {
    let dist = text_of(entry(entries, "dist"@), Section::Clean, Field::Dist);
    let cargo = flag_of(entry(entries, "cargo"@), Section::Clean, Field::Cargo);
    if dist is Err {
        Err(dist->Err_0)
    } else if cargo is Err {
        Err(cargo->Err_0)
    } else {
        Ok(CleanView { dist: dist->Ok_0, cargo: cargo->Ok_0 })
    }
}

/// One proxy, from the entries of its table. The backend is required.
pub open spec fn proxy_of(entries: Seq<(String, Item)>) -> Result<ProxyView, ConfigError> {
    let backend = required(
        url_of(entry(entries, "backend"@), Section::Proxy, Field::Backend),
        Section::Proxy,
        Field::Backend,
    );
    let rewrite = text_of(entry(entries, "rewrite"@), Section::Proxy, Field::Rewrite);
    if backend is Err {
        Err(backend->Err_0)
    } else if rewrite is Err {
        Err(rewrite->Err_0)
    } else {
        Ok(ProxyView { backend: backend->Ok_0, rewrite: rewrite->Ok_0 })
    }
}

/// One element of the `proxy` array.
pub open spec fn proxy_item(item: Item) -> Result<ProxyView, ConfigError> {
    match item {
        Item::Table(entries) => proxy_of(entries@),
        _ => Err(fault(Section::Proxy, Field::Whole)),
    }
}

/// The elements of the `proxy` array, each read by itself.
pub open spec fn proxy_items(items: Seq<Item>) -> Seq<Result<ProxyView, ConfigError>> {
    items.map_values(|item: Item| proxy_item(item))
}

/// The `proxy` section: an array of tables.
pub open spec fn proxies_of(found: Option<Item>) -> Result<Option<Seq<ProxyView>>, ConfigError> {
    match found {
        None => Ok(None),
        Some(Item::List(items)) => match collect(proxy_items(items@)) {
            Ok(proxies) => Ok(Some(proxies)),
            Err(error) => Err(error),
        },
        Some(_) => Err(fault(Section::Proxy, Field::Whole)),
    }
}

/// The algorithm of a compression rule, which is required and is one of
/// `gzip`, `brotli` and `zstd`.
pub open spec fn algorithm_of(found: Option<Item>) -> Result<Compressor, ConfigError> {
    match found {
        Some(Item::Text(name)) => match compressor_named(name@) {
            Some(algorithm) => Ok(algorithm),
            None => Err(fault(Section::Compression, Field::Algorithm)),
        },
        _ => Err(fault(Section::Compression, Field::Algorithm)),
    }
}

/// The options of a compression rule, from the entries of its `options`
/// table.
pub open spec fn options_of(entries: Seq<(String, Item)>) -> Result<
    CompressorOptions,
    ConfigError,
> {
    match count_of(entry(entries, "level"@), Section::Compression, Field::Level) {
        Ok(level) => Ok(CompressorOptions { level }),
        Err(error) => Err(error),
    }
}

/// The key under which a compression rule lists the assets to compress.
pub open spec fn includes_key() -> Seq<char> {
    "in"@ + "clude"@
}

/// One compression rule, from the entries of its table.
pub open spec fn compression_of(entries: Seq<(String, Item)>) -> Result<
    CompressionView,
    ConfigError,
> {
    let algorithm = algorithm_of(entry(entries, "algorithm"@));
    let options = table_of(
        entry(entries, "options"@),
        Section::Compression,
        Field::Options,
        |table: Seq<(String, Item)>| options_of(table),
    );
    let test = text_of(entry(entries, "test"@), Section::Compression, Field::Test);
    let includes = texts_of(
        entry(entries, includes_key()),
        Section::Compression,
        Field::Includes,
    );
    let exclude = texts_of(entry(entries, "exclude"@), Section::Compression, Field::Exclude);
    let threshold = count_of(
        entry(entries, "threshold"@),
        Section::Compression,
        Field::Threshold,
    );
    let ratio = number_of(entry(entries, "ratio"@), Section::Compression, Field::Ratio);
    if algorithm is Err {
        Err(algorithm->Err_0)
    } else if options is Err {
        Err(options->Err_0)
    } else if test is Err {
        Err(test->Err_0)
    } else if includes is Err {
        Err(includes->Err_0)
    } else if exclude is Err {
        Err(exclude->Err_0)
    } else if threshold is Err {
        Err(threshold->Err_0)
    } else if ratio is Err {
        Err(ratio->Err_0)
    } else {
        Ok(
            CompressionView {
                algorithm: algorithm->Ok_0,
                options: options->Ok_0,
                test: test->Ok_0,
                includes: includes->Ok_0,
                exclude: exclude->Ok_0,
                threshold: threshold->Ok_0,
                ratio: ratio->Ok_0,
            },
        )
    }
}

/// One element of the `compression` array.
pub open spec fn compression_item(item: Item) -> Result<CompressionView, ConfigError> {
    match item {
        Item::Table(entries) => compression_of(entries@),
        _ => Err(fault(Section::Compression, Field::Whole)),
    }
}

/// The elements of the `compression` array, each read by itself.
pub open spec fn compression_items(items: Seq<Item>) -> Seq<
    Result<CompressionView, ConfigError>,
> {
    items.map_values(|item: Item| compression_item(item))
}

/// The `compression` section: an array of tables.
pub open spec fn compressions_of(found: Option<Item>) -> Result<
    Option<Seq<CompressionView>>,
    ConfigError,
> {
    match found {
        None => Ok(None),
        Some(Item::List(items)) => match collect(compression_items(items@)) {
            Ok(rules) => Ok(Some(rules)),
            Err(error) => Err(error),
        },
        Some(_) => Err(fault(Section::Compression, Field::Whole)),
    }
}

/// The layer that a document states.
pub open spec fn config_of(document: Item) -> Result<ConfigView, ConfigError> {
    match document {
        Item::Table(table) => {
            let entries = table@;
            let build = table_of(
                entry(entries, "build"@),
                Section::Build,
                Field::Whole,
                |table: Seq<(String, Item)>| build_of(table),
            );
            let watch = table_of(
                entry(entries, "watch"@),
                Section::Watch,
                Field::Whole,
                |table: Seq<(String, Item)>| watch_of(table),
            );
            let serve = table_of(
                entry(entries, "serve"@),
                Section::Serve,
                Field::Whole,
                |table: Seq<(String, Item)>| serve_of(table),
            );
            let clean = table_of(
                entry(entries, "clean"@),
                Section::Clean,
                Field::Whole,
                |table: Seq<(String, Item)>| clean_of(table),
            );
            let proxy = proxies_of(entry(entries, "proxy"@));
            let compression = compressions_of(entry(entries, "compression"@));
            if build is Err {
                Err(build->Err_0)
            } else if watch is Err {
                Err(watch->Err_0)
            } else if serve is Err {
                Err(serve->Err_0)
            } else if clean is Err {
                Err(clean->Err_0)
            } else if proxy is Err {
                Err(proxy->Err_0)
            } else if compression is Err {
                Err(compression->Err_0)
            } else {
                Ok(
                    ConfigView {
                        build: build->Ok_0,
                        watch: watch->Ok_0,
                        serve: serve->Ok_0,
                        clean: clean->Ok_0,
                        proxy: proxy->Ok_0,
                        compression: compression->Ok_0,
                    },
                )
            }
        },
        _ => Err(fault(Section::Document, Field::Whole)),
    }
}

/// A rule of the compression section must name its algorithm, and a proxy
/// its backend: a table without the key is a fault at that field.
pub proof fn lemma_required_fields(entries: Seq<(String, Item)>)
    ensures
        entry(entries, "algorithm"@) is None ==> compression_of(entries) == Err::<
            CompressionView,
            ConfigError,
        >(ConfigError::Shape { section: Section::Compression, field: Field::Algorithm }),
        entry(entries, "backend"@) is None ==> proxy_of(entries) == Err::<
            ProxyView,
            ConfigError,
        >(ConfigError::Shape { section: Section::Proxy, field: Field::Backend }),
{
}

fn read_text(entries: &Vec<(String, Item)>, key: &str, section: Section, field: Field) -> (read:
    Result<Option<String>, ConfigError>)
    ensures
        outcome(read) == text_of(entry(entries@, key@), section, field),
{
    match lookup(entries, key) {
        None => Ok(None),
        Some(Item::Text(text)) => Ok(Some(text.clone())),
        Some(_) => Err(ConfigError::Shape { section, field }),
    }
}

fn read_flag(entries: &Vec<(String, Item)>, key: &str, section: Section, field: Field) -> (read:
    Result<bool, ConfigError>)
    ensures
        outcome(read) == flag_of(entry(entries@, key@), section, field),
{
    match lookup(entries, key) {
        None => Ok(false),
        Some(Item::Flag(flag)) => Ok(*flag),
        Some(_) => Err(ConfigError::Shape { section, field }),
    }
}

fn read_port(entries: &Vec<(String, Item)>, key: &str, section: Section, field: Field) -> (read:
    Result<Option<u16>, ConfigError>)
    ensures
        outcome(read) == port_of(entry(entries@, key@), section, field),
{
    match lookup(entries, key) {
        None => Ok(None),
        Some(Item::Integer(number)) => {
            if 0 <= *number && *number <= 65535 {
                Ok(Some(*number as u16))
            } else {
                Err(ConfigError::Shape { section, field })
            }
        },
        Some(_) => Err(ConfigError::Shape { section, field }),
    }
}

fn read_count(entries: &Vec<(String, Item)>, key: &str, section: Section, field: Field) -> (read:
    Result<Option<usize>, ConfigError>)
    ensures
        outcome(read) == count_of(entry(entries@, key@), section, field),
{
    match lookup(entries, key) {
        None => Ok(None),
        Some(Item::Integer(number)) => {
            if 0 <= *number && *number as u64 <= usize::MAX as u64 {
                Ok(Some(*number as usize))
            } else {
                Err(ConfigError::Shape { section, field })
            }
        },
        Some(_) => Err(ConfigError::Shape { section, field }),
    }
}

fn read_number(entries: &Vec<(String, Item)>, key: &str, section: Section, field: Field) -> (read:
    Result<Option<Number>, ConfigError>)
    ensures
        read == number_of(entry(entries@, key@), section, field),
{
    match lookup(entries, key) {
        None => Ok(None),
        Some(Item::Integer(number)) => Ok(Some(Number::Integer(*number))),
        Some(Item::Real(bits)) => Ok(Some(Number::Real(*bits))),
        Some(_) => Err(ConfigError::Shape { section, field }),
    }
}

fn read_url(entries: &Vec<(String, Item)>, key: &str, section: Section, field: Field) -> (read:
    Result<Option<String>, ConfigError>)
    ensures
        outcome(read) == url_of(entry(entries@, key@), section, field),
{
    match lookup(entries, key) {
        None => Ok(None),
        Some(Item::Text(text)) => match normalize_url(text.as_str()) {
            Some(url) => Ok(Some(url)),
            None => Err(ConfigError::Shape { section, field }),
        },
        Some(_) => Err(ConfigError::Shape { section, field }),
    }
}

fn read_texts(entries: &Vec<(String, Item)>, key: &str, section: Section, field: Field) -> (read:
    Result<Option<Vec<String>>, ConfigError>)
    ensures
        outcome(read) == texts_of(entry(entries@, key@), section, field),
{
    match lookup(entries, key) {
        None => Ok(None),
        Some(Item::List(items)) => {
            let ghost results = text_items(items@, section, field);
            let mut texts: Vec<String> = Vec::new();
            let mut at: usize = 0;
            while at < items.len()
                invariant
                    at <= items.len(),
                    texts.len() == at,
                    results == text_items(items@, section, field),
                    entry(entries@, key@) == Some(Item::List(*items)),
                    forall|seen: int|
                        0 <= seen < at ==> #[trigger] results[seen] == Ok::<
                            Seq<char>,
                            ConfigError,
                        >(texts[seen]@),
                decreases items.len() - at,
            {
                assert(results[at as int] == text_item(items@[at as int], section, field));
                match &items[at] {
                    Item::Text(text) => {
                        texts.push(text.clone());
                    },
                    _ => {
                        proof {
                            lemma_collect_error(results, at as int);
                        }
                        return Err(ConfigError::Shape { section, field });
                    },
                }
                at = at + 1;
            }
            proof {
                lemma_collect_values(results, texts.deep_view());
            }
            Ok(Some(texts))
        },
        Some(_) => Err(ConfigError::Shape { section, field }),
    }
}

impl ConfigOptsBuild {
    /// Reads build options from the entries of a `build` table.
    pub fn from_table(entries: &Vec<(String, Item)>) -> (read: Result<ConfigOptsBuild, ConfigError>)
        ensures
            outcome(read) == build_of(entries@),
    {
        let target = read_text(entries, "target", Section::Build, Field::Target)?;
        let release = read_flag(entries, "release", Section::Build, Field::Release)?;
        let dist = read_text(entries, "dist", Section::Build, Field::Dist)?;
        let public_url = read_text(entries, "public_url", Section::Build, Field::PublicUrl)?;
        Ok(ConfigOptsBuild { target, release, dist, public_url })
    }
}

impl ConfigOptsWatch {
    /// Reads watch options from the entries of a `watch` table.
    pub fn from_table(entries: &Vec<(String, Item)>) -> (read: Result<ConfigOptsWatch, ConfigError>)
        ensures
            outcome(read) == watch_of(entries@),
    {
        let ignore = read_texts(entries, "ignore", Section::Watch, Field::Ignore)?;
        Ok(ConfigOptsWatch { ignore })
    }
}

impl ConfigOptsServe {
    /// Reads serve options from the entries of a `serve` table.
    pub fn from_table(entries: &Vec<(String, Item)>) -> (read: Result<ConfigOptsServe, ConfigError>)
        ensures
            outcome(read) == serve_of(entries@),
    {
        let port = read_port(entries, "port", Section::Serve, Field::Port)?;
        let open = read_flag(entries, "open", Section::Serve, Field::Open)?;
        let proxy_backend = read_url(
            entries,
            "proxy_backend",
            Section::Serve,
            Field::ProxyBackend,
        )?;
        let proxy_rewrite = read_text(
            entries,
            "proxy_rewrite",
            Section::Serve,
            Field::ProxyRewrite,
        )?;
        Ok(ConfigOptsServe { port, open, proxy_backend, proxy_rewrite })
    }
}

impl ConfigOptsClean {
    /// Reads clean options from the entries of a `clean` table.
    pub fn from_table(entries: &Vec<(String, Item)>) -> (read: Result<ConfigOptsClean, ConfigError>)
        ensures
            outcome(read) == clean_of(entries@),
    {
        let dist = read_text(entries, "dist", Section::Clean, Field::Dist)?;
        let cargo = read_flag(entries, "cargo", Section::Clean, Field::Cargo)?;
        Ok(ConfigOptsClean { dist, cargo })
    }
}

impl ConfigOptsProxy {
    /// Reads one proxy from the entries of its table.
    pub fn from_table(entries: &Vec<(String, Item)>) -> (read: Result<ConfigOptsProxy, ConfigError>)
        ensures
            outcome(read) == proxy_of(entries@),
    {
        let backend = match read_url(entries, "backend", Section::Proxy, Field::Backend)? {
            Some(url) => url,
            None => {
                return Err(ConfigError::Shape { section: Section::Proxy, field: Field::Backend });
            },
        };
        let rewrite = read_text(entries, "rewrite", Section::Proxy, Field::Rewrite)?;
        Ok(ConfigOptsProxy { backend, rewrite })
    }

    /// Reads the `proxy` section from the entries of a document.
    pub fn list_from_table(entries: &Vec<(String, Item)>) -> (read: Result<
        Option<Vec<ConfigOptsProxy>>,
        ConfigError,
    >)
        ensures
            outcome(read) == proxies_of(entry(entries@, "proxy"@)),
    {
        match lookup(entries, "proxy") {
            None => Ok(None),
            Some(Item::List(items)) => {
                let ghost results = proxy_items(items@);
                let mut proxies: Vec<ConfigOptsProxy> = Vec::new();
                let mut at: usize = 0;
                while at < items.len()
                    invariant
                        at <= items.len(),
                        proxies.len() == at,
                        results == proxy_items(items@),
                        entry(entries@, "proxy"@) == Some(Item::List(*items)),
                        forall|seen: int|
                            0 <= seen < at ==> #[trigger] results[seen] == Ok::<
                                ProxyView,
                                ConfigError,
                            >(proxies[seen]@),
                    decreases items.len() - at,
                {
                    assert(results[at as int] == proxy_item(items@[at as int]));
                    let read = match &items[at] {
                        Item::Table(table) => ConfigOptsProxy::from_table(table),
                        _ => Err(
                            ConfigError::Shape { section: Section::Proxy, field: Field::Whole },
                        ),
                    };
                    match read {
                        Ok(proxy) => {
                            proxies.push(proxy);
                        },
                        Err(error) => {
                            proof {
                                lemma_collect_error(results, at as int);
                            }
                            return Err(error);
                        },
                    }
                    at = at + 1;
                }
                proof {
                    lemma_collect_values(results, proxies.deep_view());
                }
                Ok(Some(proxies))
            },
            Some(_) => Err(ConfigError::Shape { section: Section::Proxy, field: Field::Whole }),
        }
    }
}

fn read_algorithm(entries: &Vec<(String, Item)>) -> (read: Result<Compressor, ConfigError>)
    ensures
        read == algorithm_of(entry(entries@, "algorithm"@)),
{
    match lookup(entries, "algorithm") {
        Some(Item::Text(name)) => match Compressor::from_name(name) {
            Some(algorithm) => Ok(algorithm),
            None => Err(
                ConfigError::Shape { section: Section::Compression, field: Field::Algorithm },
            ),
        },
        _ => Err(ConfigError::Shape { section: Section::Compression, field: Field::Algorithm }),
    }
}

fn read_options(entries: &Vec<(String, Item)>) -> (read: Result<
    Option<CompressorOptions>,
    ConfigError,
>)
    ensures
        read == table_of(
            entry(entries@, "options"@),
            Section::Compression,
            Field::Options,
            |table: Seq<(String, Item)>| options_of(table),
        ),
{
    match lookup(entries, "options") {
        None => Ok(None),
        Some(Item::Table(table)) => {
            let level = read_count(table, "level", Section::Compression, Field::Level)?;
            Ok(Some(CompressorOptions { level }))
        },
        Some(_) => Err(ConfigError::Shape { section: Section::Compression, field: Field::Options }),
    }
}

impl ConfigOptsCompression {
    /// Reads one compression rule from the entries of its table.
    pub fn from_table(entries: &Vec<(String, Item)>) -> (read: Result<
        ConfigOptsCompression,
        ConfigError,
    >)
        ensures
            outcome(read) == compression_of(entries@),
    {
        let algorithm = read_algorithm(entries)?;
        let options = read_options(entries)?;
        let test = read_text(entries, "test", Section::Compression, Field::Test)?;
        let key = String::from_str("in").concat("clude");
        let includes = read_texts(entries, key.as_str(), Section::Compression, Field::Includes)?;
        let exclude = read_texts(entries, "exclude", Section::Compression, Field::Exclude)?;
        let threshold = read_count(
            entries,
            "threshold",
            Section::Compression,
            Field::Threshold,
        )?;
        let ratio = read_number(entries, "ratio", Section::Compression, Field::Ratio)?;
        Ok(
            ConfigOptsCompression {
                algorithm,
                options,
                test,
                includes,
                exclude,
                threshold,
                ratio,
            },
        )
    }

    /// Reads the `compression` section from the entries of a document.
    pub fn list_from_table(entries: &Vec<(String, Item)>) -> (read: Result<
        Option<Vec<ConfigOptsCompression>>,
        ConfigError,
    >)
        ensures
            outcome(read) == compressions_of(entry(entries@, "compression"@)),
    {
        match lookup(entries, "compression") {
            None => Ok(None),
            Some(Item::List(items)) => {
                let ghost results = compression_items(items@);
                let mut rules: Vec<ConfigOptsCompression> = Vec::new();
                let mut at: usize = 0;
                while at < items.len()
                    invariant
                        at <= items.len(),
                        rules.len() == at,
                        results == compression_items(items@),
                        entry(entries@, "compression"@) == Some(Item::List(*items)),
                        forall|seen: int|
                            0 <= seen < at ==> #[trigger] results[seen] == Ok::<
                                CompressionView,
                                ConfigError,
                            >(rules[seen]@),
                    decreases items.len() - at,
                {
                    assert(results[at as int] == compression_item(items@[at as int]));
                    let read = match &items[at] {
                        Item::Table(table) => ConfigOptsCompression::from_table(table),
                        _ => Err(
                            ConfigError::Shape {
                                section: Section::Compression,
                                field: Field::Whole,
                            },
                        ),
                    };
                    match read {
                        Ok(rule) => {
                            rules.push(rule);
                        },
                        Err(error) => {
                            proof {
                                lemma_collect_error(results, at as int);
                            }
                            return Err(error);
                        },
                    }
                    at = at + 1;
                }
                proof {
                    lemma_collect_values(results, rules.deep_view());
                }
                Ok(Some(rules))
            },
            Some(_) => Err(
                ConfigError::Shape { section: Section::Compression, field: Field::Whole },
            ),
        }
    }
}

impl ConfigOpts {
    /// Reads a layer from a document.
    pub fn from_document(document: &Item) -> (read: Result<ConfigOpts, ConfigError>)
        ensures
            outcome(read) == config_of(*document),
    {
        match document {
            Item::Table(entries) => {
                let build = match lookup(entries, "build") {
                    None => None,
                    Some(Item::Table(table)) => Some(ConfigOptsBuild::from_table(table)?),
                    Some(_) => {
                        return Err(
                            ConfigError::Shape { section: Section::Build, field: Field::Whole },
                        );
                    },
                };
                let watch = match lookup(entries, "watch") {
                    None => None,
                    Some(Item::Table(table)) => Some(ConfigOptsWatch::from_table(table)?),
                    Some(_) => {
                        return Err(
                            ConfigError::Shape { section: Section::Watch, field: Field::Whole },
                        );
                    },
                };
                let serve = match lookup(entries, "serve") {
                    None => None,
                    Some(Item::Table(table)) => Some(ConfigOptsServe::from_table(table)?),
                    Some(_) => {
                        return Err(
                            ConfigError::Shape { section: Section::Serve, field: Field::Whole },
                        );
                    },
                };
                let clean = match lookup(entries, "clean") {
                    None => None,
                    Some(Item::Table(table)) => Some(ConfigOptsClean::from_table(table)?),
                    Some(_) => {
                        return Err(
                            ConfigError::Shape { section: Section::Clean, field: Field::Whole },
                        );
                    },
                };
                let proxy = ConfigOptsProxy::list_from_table(entries)?;
                let compression = ConfigOptsCompression::list_from_table(entries)?;
                Ok(ConfigOpts { build, watch, serve, clean, proxy, compression })
            },
            _ => Err(ConfigError::Shape { section: Section::Document, field: Field::Whole }),
        }
    }
}

} // verus!
