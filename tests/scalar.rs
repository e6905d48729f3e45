use serde_json::Value;
use utoipa::openapi::{Info, OpenApi, Paths};
use utoipa_scalar::{respond, Config, MetaInfo, Route, Scalar};

const ASSET: &str = "console.log(\"viewer\");";

fn payload() -> Value {
    serde_json::from_str(r#"{"openapi":"3.1.0","info":{"title":"t","version":"1"},"paths":{}}"#)
        .unwrap()
}

fn todo_openapi() -> OpenApi {
    OpenApi::new(Info::new("t", "1"), Paths::new())
}

fn attribute<'a>(doc: &'a str, marker: &str) -> &'a str {
    let start = doc.find(marker).unwrap() + marker.len();
    let len = doc[start..].find('"').unwrap();
    &doc[start..start + len]
}

#[test]
fn routes_are_mounted_under_the_url() {
    let scalar = Scalar::new(payload()).with_url("/docs");
    assert_eq!(scalar.script_url(), "/docs/scalar-api-reference.js");
    assert_eq!(scalar.api_json_url(), "/docs/api-docs/openapi.json");
    let routes = scalar.routes(ASSET).unwrap();
    let paths: Vec<&str> = routes.iter().map(|r| r.path.as_str()).collect();
    assert_eq!(
        paths,
        vec!["/docs", "/docs/scalar-api-reference.js", "/docs/api-docs/openapi.json"]
    );
}

#[test]
fn routes_answer_with_status_and_content_type() {
    let routes = Scalar::new(payload()).with_url("/s").routes(ASSET).unwrap();
    let kinds: Vec<(u16, &str)> = routes
        .iter()
        .map(|r| (r.status, r.content_type.as_str()))
        .collect();
    assert_eq!(
        kinds,
        vec![
            (200, "text/html; charset=utf-8"),
            (200, "application/javascript"),
            (200, "application/json"),
        ]
    );
}

#[test]
fn page_attributes_read_back() {
    let scalar = Scalar::new(payload()).with_url("/a&b\"c");
    let page = scalar.markup();
    assert_eq!(
        attribute(&page, "<script id=\"api-reference\" type=\"application/json\" data-url=\""),
        "/a&amp;b&quot;c/api-docs/openapi.json"
    );
    assert_eq!(
        attribute(&page, "<script src=\""),
        "/a&amp;b&quot;c/scalar-api-reference.js"
    );
}

#[test]
fn default_config_json() {
    assert_eq!(
        Config::default().to_json(),
        "{\"theme\":\"saturn\",\"isEditable\":false,\"hideModels\":false,\"hideClientButton\":true,\"hideClients\":true,\"defaultOpenAllTags\":false,\"showSidebar\":true}"
    );
}

#[test]
fn page_holds_config_as_escaped_attribute() {
    let scalar = Scalar::new(payload());
    let page = scalar.markup();
    let value = attribute(&page, "data-configuration=\"");
    let decoded = value.replace("&quot;", "\"").replace("&amp;", "&");
    assert_eq!(decoded, scalar.config_json());
    let parsed: Value = serde_json::from_str(&decoded).unwrap();
    let keys: Vec<&String> = parsed.as_object().unwrap().keys().collect();
    assert_eq!(keys.len(), 7);
    assert_eq!(parsed["theme"], Value::String("saturn".to_owned()));
    assert_eq!(parsed["showSidebar"], Value::Bool(true));
    assert!(parsed.get("metaData").is_none());
}

#[test]
fn api_json_body_is_payload_json() {
    let value = payload();
    let expected = serde_json::to_string(&value).unwrap();
    let routes = Scalar::new(value).routes(ASSET).unwrap();
    assert_eq!(routes[2].body, expected);
    assert_eq!(
        routes[2].body,
        "{\"info\":{\"title\":\"t\",\"version\":\"1\"},\"openapi\":\"3.1.0\",\"paths\":{}}"
    );
}

#[test]
fn script_body_is_asset() {
    let routes = Scalar::new(payload()).routes(ASSET).unwrap();
    assert_eq!(routes[1].body, ASSET);
}

#[test]
fn repeated_requests_are_identical() {
    let routes = Scalar::new(payload()).with_url("/r").routes(ASSET).unwrap();
    for path in ["/r", "/r/scalar-api-reference.js", "/r/api-docs/openapi.json"] {
        let first = respond(&routes, path).unwrap();
        let second = respond(&routes, path).unwrap();
        assert_eq!(first.path, path);
        assert_eq!(first.body, second.body);
        assert_eq!(first.content_type, second.content_type);
    }
    assert!(respond(&routes, "/r/other").is_none());
}

#[test]
fn scenario_todo_descriptor() {
    let scalar = Scalar::new(todo_openapi())
        .with_url("/scalar")
        .with_title("TodoOpenApi");
    let routes = scalar.routes(ASSET).unwrap();
    let page = respond(&routes, "/scalar").unwrap();
    assert_eq!(page.status, 200);
    assert_eq!(page.content_type, "text/html; charset=utf-8");
    assert!(page.body.contains("<title>TodoOpenApi</title>"));
    assert!(page.body.contains(
        "<script id=\"api-reference\" type=\"application/json\" data-url=\"/scalar/api-docs/openapi.json\""
    ));
    assert!(page
        .body
        .contains("<script src=\"/scalar/scalar-api-reference.js\" type=\"module\"></script>"));
    let api = respond(&routes, "/scalar/api-docs/openapi.json").unwrap();
    assert_eq!(api.status, 200);
    assert_eq!(api.content_type, "application/json");
    assert_eq!(
        api.body,
        "{\"openapi\":\"3.1.0\",\"info\":{\"title\":\"t\",\"version\":\"1\"},\"paths\":{}}"
    );
    let script = respond(&routes, "/scalar/scalar-api-reference.js").unwrap();
    assert_eq!(script.status, 200);
    assert_eq!(script.content_type, "application/javascript");
    assert_eq!(script.body, ASSET);
}

#[test]
fn scenario_todo_page_in_full() {
    let scalar = Scalar::new(todo_openapi())
        .with_url("/scalar")
        .with_title("TodoOpenApi");
    assert_eq!(
        scalar.markup(),
        "<!DOCTYPE html><head><title>TodoOpenApi</title><meta charset=\"utf-8\"><meta name=\"viewport\" content=\"width=device-width, initial-scale=1.0\"></head><body><script id=\"api-reference\" type=\"application/json\" data-url=\"/scalar/api-docs/openapi.json\" data-configuration=\"{&quot;theme&quot;:&quot;saturn&quot;,&quot;isEditable&quot;:false,&quot;hideModels&quot;:false,&quot;hideClientButton&quot;:true,&quot;hideClients&quot;:true,&quot;defaultOpenAllTags&quot;:false,&quot;showSidebar&quot;:true}\"></script><script src=\"/scalar/scalar-api-reference.js\" type=\"module\"></script></body>"
    );
}

#[test]
fn scenario_default_descriptor() {
    let scalar = Scalar::new(payload());
    assert_eq!(scalar.url, "/");
    assert_eq!(scalar.title, "Scalar");
    let routes = scalar.routes(ASSET).unwrap();
    let page = respond(&routes, "/").unwrap();
    assert_eq!(page.status, 200);
    assert!(page.body.contains("data-url=\"//api-docs/openapi.json\""));
    assert!(page.body.contains("src=\"//scalar-api-reference.js\""));
    assert!(page.body.contains("<title>Scalar</title>"));
}

#[test]
fn scenario_theme_and_hide_models() {
    let config = Config::default().theme("purple").hide_models(true);
    let json = config.to_json();
    assert!(json.contains("\"theme\":\"purple\""));
    assert!(json.contains("\"hideModels\":true"));
    assert!(!json.contains("\"metaData\""));
    let page = Scalar::new(payload()).with_config(config).markup();
    assert!(page.contains("&quot;theme&quot;:&quot;purple&quot;"));
    assert!(page.contains("&quot;hideModels&quot;:true"));
    assert!(!page.contains("metaData"));
}

#[test]
fn scenario_meta_data() {
    let meta = MetaInfo::default().title("X").og_image("https://e/x.png");
    let config = Config::default().meta_data(meta);
    let json = config.to_json();
    assert!(json.contains(
        "\"metaData\":{\"title\":\"X\",\"description\":\"\",\"ogDescription\":\"\",\"ogTitle\":\"\",\"ogImage\":\"https://e/x.png\",\"twitterCard\":\"\"}"
    ));
    assert!(json.ends_with("\"showSidebar\":true,\"metaData\":{\"title\":\"X\",\"description\":\"\",\"ogDescription\":\"\",\"ogTitle\":\"\",\"ogImage\":\"https://e/x.png\",\"twitterCard\":\"\"}}"));
}

#[test]
fn scenario_two_descriptors() {
    let mut table: Vec<Route> = Scalar::new(payload()).with_url("/a").routes("A").unwrap();
    let other = serde_json::from_str::<Value>("{\"x\":1}").unwrap();
    table.extend(Scalar::new(other).with_url("/b").routes("B").unwrap());
    assert_eq!(table.len(), 6);
    assert!(respond(&table, "/a").unwrap().body.contains("/a/api-docs/openapi.json"));
    assert!(respond(&table, "/b").unwrap().body.contains("/b/api-docs/openapi.json"));
    assert_eq!(respond(&table, "/a/scalar-api-reference.js").unwrap().body, "A");
    assert_eq!(respond(&table, "/b/scalar-api-reference.js").unwrap().body, "B");
    assert_eq!(
        respond(&table, "/a/api-docs/openapi.json").unwrap().body,
        serde_json::to_string(&payload()).unwrap()
    );
    assert_eq!(respond(&table, "/b/api-docs/openapi.json").unwrap().body, "{\"x\":1}");
    for route in &table {
        assert_eq!(route.status, 200);
    }
}

#[test]
fn title_is_html_escaped() {
    let page = Scalar::new(payload()).with_title("<b>&\"x\"").markup();
    assert!(page.contains("<title>&lt;b&gt;&amp;&quot;x&quot;</title>"));
}

#[test]
fn theme_is_json_escaped() {
    let json = Config::default().theme("a\"b\\c\nd\te").to_json();
    assert!(json.starts_with("{\"theme\":\"a\\\"b\\\\c\\nd\\te\","));
}

#[test]
fn control_characters_use_unicode_escape() {
    let json = Config::default().theme("\u{1}\u{1f}").to_json();
    assert!(json.starts_with("{\"theme\":\"\\u0001\\u001f\","));
}

#[test]
fn every_config_setter_shows_in_json() {
    let config = Config::default()
        .editable(true)
        .hide_models(true)
        .hide_client_button(false)
        .hidden_clients(false)
        .default_open_all_tags(true)
        .show_sidebar(false);
    assert_eq!(
        config.to_json(),
        "{\"theme\":\"saturn\",\"isEditable\":true,\"hideModels\":true,\"hideClientButton\":false,\"hideClients\":false,\"defaultOpenAllTags\":true,\"showSidebar\":false}"
    );
}

#[test]
fn every_meta_setter_shows_in_json() {
    let meta = MetaInfo::default()
        .title("T")
        .description("D")
        .og_description("OD")
        .og_title("OT")
        .og_image("OI")
        .twitter_card("TC");
    assert_eq!(
        meta.to_json(),
        "{\"title\":\"T\",\"description\":\"D\",\"ogDescription\":\"OD\",\"ogTitle\":\"OT\",\"ogImage\":\"OI\",\"twitterCard\":\"TC\"}"
    );
}

#[test]
fn routes_with_uses_given_json() {
    let routes = Scalar::new(payload()).with_url("/w").routes_with(ASSET, "{}".to_owned());
    assert_eq!(routes[2].body, "{}");
    assert_eq!(routes[2].path, "/w/api-docs/openapi.json");
}

#[test]
fn api_json_of_value_and_openapi() {
    assert_eq!(
        Scalar::new(serde_json::from_str::<Value>("[1,\"a\"]").unwrap()).api_json(),
        Some("[1,\"a\"]".to_owned())
    );
    assert_eq!(
        Scalar::new(todo_openapi()).api_json(),
        Some("{\"openapi\":\"3.1.0\",\"info\":{\"title\":\"t\",\"version\":\"1\"},\"paths\":{}}".to_owned())
    );
}

#[test]
fn page_has_one_api_reference_element() {
    let injected = "<script id=\"api-reference\" data-url=\"/evil\">";
    let scalar = Scalar::new(payload())
        .with_title(injected)
        .with_url(injected)
        .with_config(Config::default().theme(injected));
    let page = scalar.markup();
    assert_eq!(page.matches("<script id=\"api-reference\"").count(), 1);
    let value = attribute(&page, "<script id=\"api-reference\" type=\"application/json\" data-url=\"");
    let decoded = value
        .replace("&quot;", "\"")
        .replace("&lt;", "<")
        .replace("&gt;", ">")
        .replace("&amp;", "&");
    assert_eq!(decoded, scalar.api_json_url());
}

#[test]
fn value_payload_always_gives_routes() {
    let value = serde_json::from_str::<Value>("{\"b\":[true,null],\"a\":\"\\u0007\"}").unwrap();
    let routes = Scalar::new(value).with_url("/v").routes("js").unwrap();
    assert_eq!(routes.len(), 3);
    assert_eq!(routes[2].body, "{\"a\":\"\\u0007\",\"b\":[true,null]}");
}
