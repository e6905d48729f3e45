//! Serves the Scalar API reference viewer next to an OpenAPI description.
//!
//! A [`Scalar`] descriptor holds a mount path, a page title, the OpenAPI
//! payload and the viewer's [`Config`]. From it the library derives the three
//! routes that a host HTTP server registers: the bootstrap HTML page, the
//! viewer's JavaScript bundle and the OpenAPI description as JSON.

mod config;
mod html;
mod json;
mod markup;
mod route;
mod scalar;

pub use json::{json_bool, json_escape, json_escape_char, json_hex_digit, json_quote};
pub use html::{
    html_escape, html_escape_char, html_unescape, lemma_html_escape_has_no_lt, lemma_html_escape_has_no_quote,
    lemma_html_unescape_escape, starts_with,
};
pub use config::{
    config_json_text, default_config, default_meta_info, lemma_default_config_json,
    meta_data_member, meta_info_json, Config, ConfigView, MetaInfo, MetaInfoView,
};
pub use markup::{
    api_reference_tag, lemma_single_api_reference, occurs_at, attribute_at, configuration_start, data_url_start, lemma_markup_attributes, markup_text,
    openapi_path, page_configuration, page_data_url, page_head, page_script_src, page_tail,
    render_markup, script_path, script_src_start, take_until_quote, OPENAPI_JSON, SCALAR_SCRIPT,
};
pub use scalar::{
    route_table, value_json, Scalar, Serialize, HTML_CONTENT_TYPE,
    JSON_CONTENT_TYPE, SCRIPT_CONTENT_TYPE,
};
pub use route::{
    lemma_routes_independent, paths_disjoint, respond, route_for, routes_view, Route, RouteView,
};
