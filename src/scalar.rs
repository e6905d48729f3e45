use vstd::prelude::*;
use vstd::string::StringExecFns;

use crate::route::{routes_view, Route, RouteView};
use crate::config::{config_json_text, default_config, Config, ConfigView};
use crate::markup::{
    markup_text, openapi_path, render_markup, script_path, OPENAPI_JSON, SCALAR_SCRIPT,
};

verus! {

#[verifier::external_type_specification]
#[verifier::external_body]
pub struct ExValue(serde_json::Value);

#[verifier::external_type_specification]
#[verifier::external_body]
pub struct ExOpenApi(utoipa::openapi::OpenApi);

/// The JSON text that serde_json writes for a JSON value.
pub uninterp spec fn value_json(v: serde_json::Value) -> Seq<char>;

/// A payload that can be served as JSON.
pub trait Serialize {
    /// The JSON text of the payload, where serialising it cannot fail and
    /// gives a text that depends on the payload alone; `None` where either is
    /// not known.
    spec fn json_text(&self) -> Option<Seq<char>>;

    /// Serialises the payload; `None` when its serialiser fails.
    fn to_json(&self) -> (r: Option<String>)
        ensures
            self.json_text() matches Some(t) ==> (r matches Some(s) && s@ == t),
    ;
}

/// Relies on serde_json::to_string on a `serde_json::Value`: the compact JSON
/// text of the value. Its maps are `BTreeMap`s with string keys, so the text
/// depends on the value alone, and writing into a `Vec` cannot fail.
#[verifier::external_body]
fn value_to_json(v: &serde_json::Value) -> (r: String)
    ensures
        r@ == value_json(*v),
{
    serde_json::to_string(v).unwrap_or_default()
}

/// Relies on serde_json::to_string on a `utoipa::openapi::OpenApi`, through
/// utoipa's `Serialize` impl. Nothing is promised of the text: the
/// document's `x-` extensions sit in a `HashMap`, written in the order of a
/// hasher seeded per process.
#[verifier::external_body]
fn openapi_to_json(v: &utoipa::openapi::OpenApi) -> (r: Option<String>) {
    serde_json::to_string(v).ok()
}

impl Serialize for serde_json::Value {
    open spec fn json_text(&self) -> Option<Seq<char>> {
        Some(value_json(*self))
    }

    fn to_json(&self) -> (r: Option<String>) {
        Some(value_to_json(self))
    }
}

impl Serialize for utoipa::openapi::OpenApi {
    open spec fn json_text(&self) -> Option<Seq<char>> {
        None
    }

    fn to_json(&self) -> (r: Option<String>) {
        openapi_to_json(self)
    }
}

/// The descriptor of a mounted viewer: the mount path, the page title, the
/// OpenAPI payload and the viewer's options.
#[non_exhaustive]
#[derive(Debug, Clone)]
pub struct Scalar<S: Serialize> {
    pub url: String,
    pub title: String,
    pub openapi: S,
    pub config: Config,
}

/// Media type of the bootstrap page.
pub const HTML_CONTENT_TYPE: &'static str = "text/html; charset=utf-8";

/// Media type of the viewer's bundle.
pub const SCRIPT_CONTENT_TYPE: &'static str = "application/javascript";

/// Media type of the OpenAPI description.
pub const JSON_CONTENT_TYPE: &'static str = "application/json";

/// The three routes of a viewer mounted at `url`: the bootstrap page at the
/// mount path, the bundle and the description beneath it, each answered with
/// status 200, its media type and its body.
pub open spec fn route_table(url: Seq<char>, page: Seq<char>, asset: Seq<char>, api_json: Seq<char>) -> Seq<
    RouteView,
> {
    seq![
        RouteView {
            path: url,
            status: 200,
            content_type: "text/html; charset=utf-8"@,
            body: page,
        },
        RouteView {
            path: script_path(url),
            status: 200,
            content_type: "application/javascript"@,
            body: asset,
        },
        RouteView {
            path: openapi_path(url),
            status: 200,
            content_type: "application/json"@,
            body: api_json,
        },
    ]
}

impl<S: Serialize> Scalar<S> {
    /// The bootstrap page of this descriptor.
    pub open spec fn page(&self) -> Seq<char> {
        markup_text(self.title@, self.url@, config_json_text(self.config@))
    }

    /// A descriptor mounted at `/`, titled `Scalar`, with default options.
    pub fn new(openapi: S) -> (r: Scalar<S>)
        ensures
            r.url@ == "/"@,
            r.title@ == "Scalar"@,
            r.openapi == openapi,
            r.config@ == default_config(),
    {
        Scalar {
            url: String::from_str("/"),
            title: String::from_str("Scalar"),
            openapi,
            config: Config::default(),
        }
    }

    pub fn with_url(self, url: &str) -> (r: Scalar<S>)
        ensures
            r.url@ == url@,
            r.title == self.title,
            r.openapi == self.openapi,
            r.config == self.config,
    {
        Scalar { url: url.to_owned(), ..self }
    }

    pub fn with_title(self, title: &str) -> (r: Scalar<S>)
        ensures
            r.title@ == title@,
            r.url == self.url,
            r.openapi == self.openapi,
            r.config == self.config,
    {
        Scalar { title: title.to_owned(), ..self }
    }

    pub fn with_config(self, config: Config) -> (r: Scalar<S>)
        ensures
            r.config == config,
            r.url == self.url,
            r.title == self.title,
            r.openapi == self.openapi,
    {
        Scalar { config, ..self }
    }

    /// The options as JSON.
    pub fn config_json(&self) -> (r: String)
        ensures
            r@ == config_json_text(self.config@),
    {
        self.config.to_json()
    }

    /// Where the viewer's bundle is served.
    pub fn script_url(&self) -> (r: String)
        ensures
            r@ == script_path(self.url@),
    {
        let mut r = String::from_str(self.url.as_str());
        r.append(SCALAR_SCRIPT);
        proof {
            reveal_strlit("/scalar-api-reference.js");
        }
        r
    }

    /// Where the OpenAPI description is served.
    pub fn api_json_url(&self) -> (r: String)
        ensures
            r@ == openapi_path(self.url@),
    {
        let mut r = String::from_str(self.url.as_str());
        r.append(OPENAPI_JSON);
        proof {
            reveal_strlit("/api-docs/openapi.json");
        }
        r
    }

    /// The OpenAPI payload as JSON; `None` when its serialiser fails.
    pub fn api_json(&self) -> (r: Option<String>)
        ensures
            self.openapi.json_text() matches Some(t) ==> (r matches Some(s) && s@ == t),
    {
        self.openapi.to_json()
    }

    /// The bootstrap page.
    pub fn markup(&self) -> (r: String)
        ensures
            r@ == self.page(),
    {
        let config = self.config_json();
        render_markup(self.title.as_str(), self.url.as_str(), config.as_str())
    }

    /// The three routes, given the viewer's bundle and the payload's JSON.
    pub fn routes_with(&self, asset: &str, api_json: String) -> (r: Vec<Route>)
        ensures
            routes_view(r@) == route_table(self.url@, self.page(), asset@, api_json@),
    {
        let page = Route {
            path: self.url.clone(),
            status: 200,
            content_type: String::from_str(HTML_CONTENT_TYPE),
            body: self.markup(),
        };
        let script = Route {
            path: self.script_url(),
            status: 200,
            content_type: String::from_str(SCRIPT_CONTENT_TYPE),
            body: String::from_str(asset),
        };
        let description = Route {
            path: self.api_json_url(),
            status: 200,
            content_type: String::from_str(JSON_CONTENT_TYPE),
            body: api_json,
        };
        proof {
            reveal_strlit("text/html; charset=utf-8");
            reveal_strlit("application/javascript");
            reveal_strlit("application/json");
        }
        let r = vec![page, script, description];
        assert(routes_view(r@) =~= route_table(self.url@, self.page(), asset@, api_json@));
        r
    }

    /// The three routes, with the payload serialised here; `None` when the
    /// payload's serialiser fails. The description's body is the text that
    /// the serialiser gave.
    pub fn routes(&self, asset: &str) -> (r: Option<Vec<Route>>)
        ensures
            r matches Some(v) ==> v@.len() == 3 && routes_view(v@) == route_table(
                self.url@,
                self.page(),
                asset@,
                v@[2].body@,
            ),
            self.openapi.json_text() matches Some(t) ==> (r matches Some(v) && v@.len() == 3
                && routes_view(v@) == route_table(self.url@, self.page(), asset@, t)),
    {
        match self.api_json() {
            Some(api_json) => {
                let v = self.routes_with(asset, api_json);
                assert(routes_view(v@).len() == v@.len());
                assert(routes_view(v@)[2] == v@[2]@);
                Some(v)
            },
            None => None,
        }
    }
}

} // verus!
