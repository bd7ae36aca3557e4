//! The standalone placeholder flow: one URL, the same cache and
//! pipeline as the transform. The decisions — effective options,
//! fetch plan with the default public directory, the row the cache
//! gains, and the delivered string — are here; the shell around them
//! opens the database, fetches the bytes and executes the SQL.

use vstd::prelude::*;

use crate::log::Log;
use crate::placeholder_image::{
    kind_token, spec_wrapped_url, wrap_with_svg, PlaceholderImageOutputKind, ProcessImageOutput,
};
use crate::store::{spec_cache_key, InsertRow, Store};
use crate::transform::{
    plan_fetch, spec_joined_path, spec_parses_as_url, spec_strip_leading_slash, FetchPlan,
    PreviewOptions,
};

verus! {

/// Options of one standalone placeholder request.
pub struct GetPlaceholderOptions {
    pub width: Option<u32>,
    pub height: Option<u32>,
    pub output_kind: Option<PlaceholderImageOutputKind>,
    pub cache_file_dir: Option<String>,
    pub cache: Option<bool>,
    pub wrap_with_svg: Option<bool>,
}

/// What a standalone placeholder request returns.
pub struct GetPlaceholderOutput {
    pub placeholder: String,
    pub logs: Vec<Log>,
    pub is_error: bool,
}

impl GetPlaceholderOptions {
    /// The effective rendering request: given values where set, else
    /// `Normal` rendering with caching and SVG wrapping on. There is
    /// no call to replace in this flow.
    pub fn to_preview_options(&self) -> (r: PreviewOptions)
        ensures
            r.width == self.width,
            r.height == self.height,
            r.output_kind == match self.output_kind {
                Some(kind) => kind,
                None => PlaceholderImageOutputKind::Normal,
            },
            r.cache == match self.cache {
                Some(b) => b,
                None => true,
            },
            r.wrap_with_svg == match self.wrap_with_svg {
                Some(b) => b,
                None => true,
            },
            !r.replace_function_call,
    {
        PreviewOptions {
            width: self.width,
            height: self.height,
            output_kind: match self.output_kind {
                Some(kind) => kind,
                None => PlaceholderImageOutputKind::Normal,
            },
            replace_function_call: false,
            cache: match self.cache {
                Some(b) => b,
                None => true,
            },
            wrap_with_svg: match self.wrap_with_svg {
                Some(b) => b,
                None => true,
            },
        }
    }
}

/// The placeholder as handed out: wrapped in an SVG at the source
/// dimensions when asked for, else exactly the stored data URL.
pub fn deliver_placeholder(
    placeholder: String,
    original_width: u32,
    original_height: u32,
    wrap: bool,
) -> (r: String)
    ensures
        wrap ==> r@ == spec_wrapped_url(placeholder@, original_width, original_height),
        !wrap ==> r == placeholder,
{
    if wrap {
        wrap_with_svg(placeholder, original_width, original_height)
    } else {
        placeholder
    }
}

/// How a standalone request fetches its asset: absolute URLs are
/// downloaded; anything else is a file under the default public
/// directory, `public`.
pub fn standalone_fetch_plan(url: &String) -> (r: FetchPlan)
    ensures
        spec_parses_as_url(url@) ==> (r matches FetchPlan::Remote(u) && u@ == url@),
        !spec_parses_as_url(url@) ==> (r matches FetchPlan::Local(p) && p@ == spec_joined_path(
            "public"@,
            spec_strip_leading_slash(url@),
        )),
{
    let public_dir: Option<String> = Some("public".to_owned());
    plan_fetch(url, &public_dir)
}

/// The row the persistent cache gains for a freshly built
/// placeholder.
pub fn cache_insert_row(
    url: &String,
    output: &ProcessImageOutput,
    options: &PreviewOptions,
) -> (r: InsertRow)
    ensures
        r.url@ == url@,
        r.placeholder@ == output.base64_str@,
        r.preview_type@ == kind_token(options.output_kind),
        r.cache_key@ == spec_cache_key(*options),
        r.original_width == output.original_width,
        r.original_height == output.original_height,
{
    InsertRow {
        url: url.clone(),
        placeholder: output.base64_str.clone(),
        preview_type: options.output_kind.get_string_name(),
        cache_key: Store::create_cache_key(options),
        original_width: output.original_width,
        original_height: output.original_height,
    }
}

} // verus!
