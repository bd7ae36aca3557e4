//! The transform engine's decisions: option defaults and call-site
//! merging, client-import detection, and the per-call plans of the two
//! passes. The shell that parses and rewrites the syntax tree hands in
//! plain values (the literal arguments of a call) and executes the plan
//! that comes back.

use vstd::prelude::*;

use vstd::string::StrSliceExecFns;

use crate::log::{Log, LogLevel};
use crate::placeholder_image::{
    spec_kind_from, spec_wrapped_url, wrap_with_svg, PlaceholderImageOutputKind,
};
use crate::store::{key_matches, spec_cache_key, spec_dim_or_zero, Store, StoreDataItem};
use crate::text::{chars_of, contains_chars, spec_contains_seq, str_eq};

verus! {

/// Global options of one transform invocation; unset fields fall back
/// to the engine's defaults.
pub struct TransformOptions {
    pub placeholder_type: Option<PlaceholderImageOutputKind>,
    pub replace_function_call: Option<bool>,
    pub cache: Option<bool>,
    pub public_dir: Option<String>,
    pub cache_file_dir: Option<String>,
    pub log_level: Option<LogLevel>,
    pub width: Option<u32>,
    pub height: Option<u32>,
    pub sourcemap_file_path: Option<String>,
    pub wrap_with_svg: Option<bool>,
}

/// What a transform invocation returns: the rewritten module, an
/// optional source map, and the buffered logs.
pub struct TransformOutput {
    pub code: String,
    pub sourcemap: Option<String>,
    pub logs: Option<Vec<Log>>,
}

/// The effective rendering request of one `preview` call.
#[derive(Debug, Clone, Copy, PartialEq, Eq, Structural)]
pub struct PreviewOptions {
    pub width: Option<u32>,
    pub height: Option<u32>,
    pub output_kind: PlaceholderImageOutputKind,
    pub replace_function_call: bool,
    pub cache: bool,
    pub wrap_with_svg: bool,
}

impl PreviewOptions {
    /// The per-call options before any call-site overrides: global
    /// values where set, else `Normal` rendering with caching, call
    /// replacement and SVG wrapping all on.
    pub fn from_global_options(options: &TransformOptions) -> (r: Self)
        ensures
            r.width == options.width,
            r.height == options.height,
            r.output_kind == match options.placeholder_type {
                Some(kind) => kind,
                None => PlaceholderImageOutputKind::Normal,
            },
            r.replace_function_call == match options.replace_function_call {
                Some(b) => b,
                None => true,
            },
            r.cache == match options.cache {
                Some(b) => b,
                None => true,
            },
            r.wrap_with_svg == match options.wrap_with_svg {
                Some(b) => b,
                None => true,
            },
    {
        PreviewOptions {
            width: options.width,
            height: options.height,
            output_kind: match options.placeholder_type {
                Some(kind) => kind,
                None => PlaceholderImageOutputKind::Normal,
            },
            replace_function_call: match options.replace_function_call {
                Some(b) => b,
                None => true,
            },
            cache: match options.cache {
                Some(b) => b,
                None => true,
            },
            wrap_with_svg: match options.wrap_with_svg {
                Some(b) => b,
                None => true,
            },
        }
    }
}

/// The fixed module specifier whose imports mark `preview` calls.
pub open spec fn spec_import_path() -> Seq<char> {
    "@nocojs/client"@
}

/// The fixed module specifier whose imports mark `preview` calls.
pub fn client_import_path() -> (r: &'static str)
    ensures
        r@ == spec_import_path(),
{
    "@nocojs/client"
}

/// Whether the source text mentions the client module specifier at
/// all; when it does not, the transform is skipped outright. A pure
/// shortcut: a module cannot import the specifier without spelling it.
pub fn source_mentions_client(code: &str) -> (r: bool)
    ensures
        r == spec_contains_seq(code@, spec_import_path()),
{
    let haystack = chars_of(code);
    let needle = chars_of(client_import_path());
    contains_chars(&haystack, &needle)
}

/// Whether one import specifier marks the local binding as a
/// `preview` symbol: the declaration's source must be the client
/// module and the imported (pre-rename) name must be `preview`.
pub fn import_marks_preview(source_value: &str, imported_name: &str) -> (r: bool)
    ensures
        r == (source_value@ == spec_import_path() && imported_name@ == "preview"@),
{
    str_eq(source_value, client_import_path()) && str_eq(imported_name, "preview")
}

/// A literal value found at a call-site option key: only literals of
/// the key's expected type take effect, anything else reads as
/// `Other` and leaves the global default standing.
pub enum CallOptionValue {
    UInt(u32),
    Bool(bool),
    Text(String),
    Other,
}

/// One property of the options object literal at a call site.
pub struct CallSiteProp {
    pub key: String,
    pub value: CallOptionValue,
}

/// One call-site property applied over the options: recognized keys
/// with a literal of the right type override the field, everything
/// else changes nothing.
pub open spec fn spec_apply_option(options: PreviewOptions, prop: CallSiteProp) -> PreviewOptions {
    if prop.key@ == "width"@ {
        match prop.value {
            CallOptionValue::UInt(v) => PreviewOptions { width: Some(v), ..options },
            _ => options,
        }
    } else if prop.key@ == "height"@ {
        match prop.value {
            CallOptionValue::UInt(v) => PreviewOptions { height: Some(v), ..options },
            _ => options,
        }
    } else if prop.key@ == "placeholderType"@ {
        match prop.value {
            CallOptionValue::Text(s) => PreviewOptions { output_kind: spec_kind_from(s@), ..options },
            _ => options,
        }
    } else if prop.key@ == "replaceFunctionCall"@ {
        match prop.value {
            CallOptionValue::Bool(b) => PreviewOptions { replace_function_call: b, ..options },
            _ => options,
        }
    } else if prop.key@ == "cache"@ {
        match prop.value {
            CallOptionValue::Bool(b) => PreviewOptions { cache: b, ..options },
            _ => options,
        }
    } else if prop.key@ == "wrapWithSvg"@ {
        match prop.value {
            CallOptionValue::Bool(b) => PreviewOptions { wrap_with_svg: b, ..options },
            _ => options,
        }
    } else {
        options
    }
}

/// The first `n` call-site properties applied in order over the
/// global defaults.
pub open spec fn spec_merged(options: PreviewOptions, props: Seq<CallSiteProp>, n: int) -> PreviewOptions
    decreases n,
{
    if n <= 0 {
        options
    } else {
        spec_apply_option(spec_merged(options, props, n - 1), props[n - 1])
    }
}

/// Apply one call-site property to the options.
pub fn apply_call_site_option(options: &mut PreviewOptions, prop: &CallSiteProp)
    ensures
        *final(options) == spec_apply_option(*old(options), *prop),
{
    if str_eq(prop.key.as_str(), "width") {
        if let CallOptionValue::UInt(v) = &prop.value {
            options.width = Some(*v);
        }
    } else if str_eq(prop.key.as_str(), "height") {
        if let CallOptionValue::UInt(v) = &prop.value {
            options.height = Some(*v);
        }
    } else if str_eq(prop.key.as_str(), "placeholderType") {
        if let CallOptionValue::Text(s) = &prop.value {
            options.output_kind = PlaceholderImageOutputKind::from_string(s.as_str());
        }
    } else if str_eq(prop.key.as_str(), "replaceFunctionCall") {
        if let CallOptionValue::Bool(b) = &prop.value {
            options.replace_function_call = *b;
        }
    } else if str_eq(prop.key.as_str(), "cache") {
        if let CallOptionValue::Bool(b) = &prop.value {
            options.cache = *b;
        }
    } else if str_eq(prop.key.as_str(), "wrapWithSvg") {
        if let CallOptionValue::Bool(b) = &prop.value {
            options.wrap_with_svg = *b;
        }
    }
}

/// The effective options of one call: the global defaults overridden
/// by the call site's literal properties, in source order.
pub fn merge_call_options(global: &PreviewOptions, props: &Vec<CallSiteProp>) -> (r: PreviewOptions)
    ensures
        r == spec_merged(*global, props@, props@.len() as int),
{
    let mut merged = *global;
    let mut i: usize = 0;
    while i < props.len()
        invariant
            i <= props@.len(),
            merged == spec_merged(*global, props@, i as int),
        decreases props@.len() - i,
    {
        apply_call_site_option(&mut merged, &props[i]);
        i = i + 1;
    }
    merged
}

/// The first argument of a `preview` call, as the shell found it.
pub enum FirstArgument {
    /// A string literal holding the asset's URL or path.
    Text(String),
    /// Present but no string literal; such a call is left untouched.
    NonString,
    /// No argument at all; such a call is left untouched.
    Missing,
}

/// What the discovery pass does with one `preview` call.
#[derive(Debug, Clone, Copy, PartialEq, Eq, Structural)]
pub enum Pass1Action {
    /// A record for (url, options) already exists: no work to spawn.
    UseCache,
    /// No record yet: spawn the loader-and-pipeline task.
    Spawn,
    /// The first argument is no string literal: log and skip.
    SkipInvalid,
}

/// The discovery decision for one call, from the store's state.
pub open spec fn spec_plan_preview_call(
    store: Store,
    first: FirstArgument,
    options: PreviewOptions,
) -> Pass1Action {
    match first {
        FirstArgument::Text(url) => if store.spec_has(url@, spec_cache_key(options)) {
            Pass1Action::UseCache
        } else {
            Pass1Action::Spawn
        },
        _ => Pass1Action::SkipInvalid,
    }
}

/// Decide what the discovery pass does with one call: calls without a
/// string-literal first argument are skipped, known pairs are cache
/// hits, unknown pairs spawn a build task.
pub fn plan_preview_call(store: &Store, first: &FirstArgument, options: &PreviewOptions) -> (r:
    Pass1Action)
    ensures
        r == spec_plan_preview_call(*store, *first, *options),
{
    match first {
        FirstArgument::Text(url) => {
            if store.has_cached_image(url.as_str(), options) {
                Pass1Action::UseCache
            } else {
                Pass1Action::Spawn
            }
        },
        FirstArgument::NonString => Pass1Action::SkipInvalid,
        FirstArgument::Missing => Pass1Action::SkipInvalid,
    }
}

/// A placeholder as delivered at a call site: wrapped in an SVG at
/// the source dimensions when the options ask for it, else verbatim.
pub open spec fn spec_delivered(rec: StoreDataItem, options: PreviewOptions) -> Seq<char> {
    if options.wrap_with_svg {
        spec_wrapped_url(rec.placeholder@, rec.original_width, rec.original_height)
    } else {
        rec.placeholder@
    }
}

/// What the rewrite pass does with one `preview` call.
#[derive(Debug)]
pub enum RewriteAction {
    /// Replace the whole call expression with this string literal.
    ReplaceCall(String),
    /// Keep the call; swap its first argument for this string literal.
    ReplaceFirstArgument(String),
    /// Leave the call exactly as written.
    LeaveUntouched,
}

/// Decide what the rewrite pass does with one call. Taking the store
/// by shared reference, the decision cannot mutate it: after the
/// barrier the store is frozen.
pub fn plan_rewrite(store: &Store, first: &FirstArgument, options: &PreviewOptions) -> (r:
    RewriteAction)
    requires
        store.spec_wf(),
    ensures
        match *first {
            FirstArgument::Text(url) => {
                if store.spec_has(url@, spec_cache_key(*options)) {
                    if options.replace_function_call {
                        r matches RewriteAction::ReplaceCall(s) && s@ == spec_delivered(
                            store.spec_get(url@, spec_cache_key(*options)),
                            *options,
                        )
                    } else {
                        r matches RewriteAction::ReplaceFirstArgument(s) && s@ == spec_delivered(
                            store.spec_get(url@, spec_cache_key(*options)),
                            *options,
                        )
                    }
                } else {
                    r is LeaveUntouched
                }
            },
            _ => r is LeaveUntouched,
        },
{
    match first {
        FirstArgument::Text(url) => {
            let cache_key = Store::create_cache_key(options);
            match store.find_index(url.as_str(), cache_key.as_str()) {
                Some(i) => {
                    proof {
                        let gi = store.spec_index_of(url@, spec_cache_key(*options));
                        if gi != i {
                            assert(key_matches(
                                store.items@[gi],
                                url@,
                                spec_cache_key(*options),
                            ));
                            assert(false);
                        }
                    }
                    let rec = &store.items[i];
                    let delivered = if options.wrap_with_svg {
                        wrap_with_svg(
                            rec.placeholder.clone(),
                            rec.original_width,
                            rec.original_height,
                        )
                    } else {
                        rec.placeholder.clone()
                    };
                    if options.replace_function_call {
                        RewriteAction::ReplaceCall(delivered)
                    } else {
                        RewriteAction::ReplaceFirstArgument(delivered)
                    }
                },
                None => RewriteAction::LeaveUntouched,
            }
        },
        FirstArgument::NonString => RewriteAction::LeaveUntouched,
        FirstArgument::Missing => RewriteAction::LeaveUntouched,
    }
}

/// Whether the string parses as an absolute URL.
pub uninterp spec fn spec_parses_as_url(s: Seq<char>) -> bool;

/// Relies on url::Url::parse: whether a string parses as an absolute
/// URL is a function of the string alone.
#[verifier::external_body]
pub(crate) fn is_absolute_url(s: &str) -> (r: bool)
    ensures
        r == spec_parses_as_url(s@),
{
    url::Url::parse(s).is_ok()
}

/// How one asset is to be fetched.
pub enum FetchPlan {
    /// An absolute URL: issue an HTTP GET for it.
    Remote(String),
    /// A path under the public directory: read that file.
    Local(String),
    /// A relative path but no public directory configured: log and
    /// skip the call.
    MissingPublicDir,
}

/// A relative asset path loses one leading slash before it is joined
/// onto the public directory.
pub open spec fn spec_strip_leading_slash(url: Seq<char>) -> Seq<char> {
    if url.len() > 0 && url[0] == '/' {
        url.skip(1)
    } else {
        url
    }
}

/// The public directory joined with a relative path, with exactly one
/// separator between them.
pub open spec fn spec_joined_path(dir: Seq<char>, rel: Seq<char>) -> Seq<char> {
    if dir.len() > 0 && dir[dir.len() - 1] == '/' {
        dir + rel
    } else {
        dir + "/"@ + rel
    }
}

/// Decide how to fetch one asset: absolute URLs are downloaded;
/// anything else is a file under the public directory, with a single
/// leading slash stripped; without a public directory the call is
/// skipped.
pub fn plan_fetch(url: &String, public_dir: &Option<String>) -> (r: FetchPlan)
    ensures
        spec_parses_as_url(url@) ==> (r matches FetchPlan::Remote(u) && u@ == url@),
        !spec_parses_as_url(url@) ==> match *public_dir {
            Some(dir) => r matches FetchPlan::Local(p) && p@ == spec_joined_path(
                dir@,
                spec_strip_leading_slash(url@),
            ),
            None => r is MissingPublicDir,
        },
{
    if is_absolute_url(url.as_str()) {
        return FetchPlan::Remote(url.clone());
    }
    match public_dir {
        None => FetchPlan::MissingPublicDir,
        Some(dir) => {
            let url_len = url.as_str().unicode_len();
            let rel: &str = if url_len > 0 && url.as_str().get_char(0) == '/' {
                url.as_str().substring_char(1, url_len)
            } else {
                url.as_str()
            };
            proof {
                assert(rel@ =~= spec_strip_leading_slash(url@));
            }
            let dir_len = dir.as_str().unicode_len();
            let mut path = dir.clone();
            if !(dir_len > 0 && dir.as_str().get_char(dir_len - 1) == '/') {
                path.append("/");
            }
            path.append(rel);
            proof {
                assert(path@ =~= spec_joined_path(dir@, spec_strip_leading_slash(url@)));
            }
            FetchPlan::Local(path)
        },
    }
}

/// Whether the metadata table's version row still has to be written:
/// only when no version row exists yet (read back as absent or as the
/// placeholder "0").
pub fn needs_schema_version_write(current: &Option<String>) -> (r: bool)
    ensures
        r == match *current {
            None => true,
            Some(v) => v@ == "0"@,
        },
{
    match current {
        None => true,
        Some(v) => str_eq(v.as_str(), "0"),
    }
}

/// The schema version this engine writes into the metadata table.
pub fn schema_version() -> (r: String)
    ensures
        r@ == "1.0.0"@,
{
    "1.0.0".to_owned()
}

/// The cache key is a function of the output kind and the two
/// requested dimensions alone: options agreeing on those three agree
/// on the key, whatever their delivery switches say.
pub proof fn lemma_cache_key_deterministic(o1: PreviewOptions, o2: PreviewOptions)
    requires
        o1.output_kind == o2.output_kind,
        spec_dim_or_zero(o1.width) == spec_dim_or_zero(o2.width),
        spec_dim_or_zero(o1.height) == spec_dim_or_zero(o2.height),
    ensures
        spec_cache_key(o1) == spec_cache_key(o2),
{
}

/// The rewritten text of a call depends on the stored record's
/// placeholder and source dimensions alone: two runs whose caches
/// agree on a record rewrite its call sites identically.
pub proof fn lemma_same_record_same_rewrite(
    r1: StoreDataItem,
    r2: StoreDataItem,
    options: PreviewOptions,
)
    requires
        r1.placeholder@ == r2.placeholder@,
        r1.original_width == r2.original_width,
        r1.original_height == r2.original_height,
    ensures
        spec_delivered(r1, options) == spec_delivered(r2, options),
{
}

/// A second run over the same source and options spawns nothing: once
/// the store holds a record for (url, options), the discovery pass
/// plans a cache hit for that call, never a task.
pub proof fn lemma_hit_means_no_spawn(store: Store, url: String, options: PreviewOptions)
    requires
        store.spec_has(url@, spec_cache_key(options)),
    ensures
        spec_plan_preview_call(store, FirstArgument::Text(url), options)
            == Pass1Action::UseCache,
{
}

} // verus!
