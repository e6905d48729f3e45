use vstd::prelude::*;
use vstd::string::StringExecFns;

use crate::html::{
    escape_html, html_escape, html_unescape, lemma_html_escape_has_no_lt,
    lemma_html_escape_has_no_quote, lemma_html_unescape_escape,
};

verus! {

/// File name of the viewer's JavaScript bundle under the mount path.
pub const SCALAR_SCRIPT: &'static str = "/scalar-api-reference.js";

/// Path of the OpenAPI description under the mount path.
pub const OPENAPI_JSON: &'static str = "/api-docs/openapi.json";

/// Where the viewer's bundle is served for mount path `url`.
pub open spec fn script_path(url: Seq<char>) -> Seq<char> {
    url + "/scalar-api-reference.js"@
}

/// Where the OpenAPI description is served for mount path `url`.
pub open spec fn openapi_path(url: Seq<char>) -> Seq<char> {
    url + "/api-docs/openapi.json"@
}

/// The page up to the title.
pub open spec fn page_head() -> Seq<char> {
    "<!DOCTYPE html><head><title>"@
}

/// From the end of the title to the opening quote of `data-url`.
pub open spec fn page_data_url() -> Seq<char> {
    "</title><meta charset=\"utf-8\"><meta name=\"viewport\" content=\"width=device-width, initial-scale=1.0\"></head><body><script id=\"api-reference\" type=\"application/json\" data-url=\""@
}

/// From the closing quote of `data-url` to the opening quote of `data-configuration`.
pub open spec fn page_configuration() -> Seq<char> {
    "\" data-configuration=\""@
}

/// From the closing quote of `data-configuration` to the opening quote of `src`.
pub open spec fn page_script_src() -> Seq<char> {
    "\"></script><script src=\""@
}

/// From the closing quote of `src` to the end of the page.
pub open spec fn page_tail() -> Seq<char> {
    "\" type=\"module\"></script></body>"@
}

/// The bootstrap page: it names the title, and holds the element with id
/// `api-reference` whose `data-url` and `data-configuration` attributes point
/// the viewer at the description and hold its options, and the module script
/// that loads the viewer. Every spliced value is escaped.
pub open spec fn markup_text(title: Seq<char>, url: Seq<char>, config_json: Seq<char>) -> Seq<char> {
    page_head() + html_escape(title) + page_data_url() + html_escape(openapi_path(url))
        + page_configuration() + html_escape(config_json) + page_script_src() + html_escape(
        script_path(url),
    ) + page_tail()
}

/// The characters of `s` before its first `"`.
pub open spec fn take_until_quote(s: Seq<char>) -> Seq<char>
    decreases s.len(),
{
    if s.len() == 0 || s[0] == '"' {
        Seq::empty()
    } else {
        seq![s[0]] + take_until_quote(s.skip(1))
    }
}

/// The decoded value of the quoted attribute whose text starts at `start`.
pub open spec fn attribute_at(doc: Seq<char>, start: int) -> Seq<char> {
    html_unescape(take_until_quote(doc.skip(start)))
}

/// Where the value of `data-url` starts in the page.
pub open spec fn data_url_start(title: Seq<char>) -> int {
    (page_head().len() + html_escape(title).len() + page_data_url().len()) as int
}

/// Where the value of `data-configuration` starts in the page.
pub open spec fn configuration_start(title: Seq<char>, url: Seq<char>) -> int {
    data_url_start(title) + html_escape(openapi_path(url)).len() + page_configuration().len() as int
}

/// Where the value of the module script's `src` starts in the page.
pub open spec fn script_src_start(title: Seq<char>, url: Seq<char>, config_json: Seq<char>) -> int {
    configuration_start(title, url) + html_escape(config_json).len() + page_script_src().len()
}

proof fn lemma_take_until_quote(v: Seq<char>, r: Seq<char>)
    requires
        !v.contains('"'),
        r.len() > 0,
        r[0] == '"',
    ensures
        take_until_quote(v + r) == v,
    decreases v.len(),
{
    if v.len() == 0 {
        assert(v + r =~= r);
    } else {
        assert(v[0] != '"') by {
            if v[0] == '"' {
                assert(v.contains(v[0]));
            }
        }
        assert(!v.skip(1).contains('"')) by {
            if v.skip(1).contains('"') {
                let i = choose|i: int| 0 <= i < v.skip(1).len() && v.skip(1)[i] == '"';
                assert(v[i + 1] == '"');
            }
        }
        lemma_take_until_quote(v.skip(1), r);
        assert((v + r).skip(1) =~= v.skip(1) + r);
        assert(seq![v[0]] + v.skip(1) =~= v);
    }
}

/// Reading the bootstrap page back: the `data-url` attribute of the
/// `api-reference` script decodes to the description's path, its
/// `data-configuration` attribute to the options' JSON, and the `src` of the
/// module script that follows to the bundle's path.
pub proof fn lemma_markup_attributes(title: Seq<char>, url: Seq<char>, config_json: Seq<char>)
    ensures
        ({
            let doc = markup_text(title, url, config_json);
            let k1 = data_url_start(title);
            let k2 = configuration_start(title, url);
            let k3 = script_src_start(title, url, config_json);
            let m1 = "<script id=\"api-reference\" type=\"application/json\" data-url=\""@;
            let m3 = "<script src=\""@;
            &&& doc.subrange(k1 - m1.len(), k1) == m1
            &&& attribute_at(doc, k1) == openapi_path(url)
            &&& doc.subrange(k2 - page_configuration().len(), k2) == page_configuration()
            &&& attribute_at(doc, k2) == config_json
            &&& doc.subrange(k3 - m3.len(), k3) == m3
            &&& attribute_at(doc, k3) == script_path(url)
            &&& doc.skip(k3 + html_escape(script_path(url)).len()) == page_tail()
        }),
{
    reveal_strlit(
        "</title><meta charset=\"utf-8\"><meta name=\"viewport\" content=\"width=device-width, initial-scale=1.0\"></head><body><script id=\"api-reference\" type=\"application/json\" data-url=\"",
    );
    reveal_strlit("<script id=\"api-reference\" type=\"application/json\" data-url=\"");
    reveal_strlit("\" data-configuration=\"");
    reveal_strlit("\"></script><script src=\"");
    reveal_strlit("<script src=\"");
    reveal_strlit("\" type=\"module\"></script></body>");
    let doc = markup_text(title, url, config_json);
    let et = html_escape(title);
    let ea = html_escape(openapi_path(url));
    let ec = html_escape(config_json);
    let es = html_escape(script_path(url));
    let k1 = data_url_start(title);
    let k2 = configuration_start(title, url);
    let k3 = script_src_start(title, url, config_json);
    let m1 = "<script id=\"api-reference\" type=\"application/json\" data-url=\""@;
    let m3 = "<script src=\""@;
    lemma_html_escape_has_no_quote(openapi_path(url));
    lemma_html_escape_has_no_quote(config_json);
    lemma_html_escape_has_no_quote(script_path(url));
    lemma_html_unescape_escape(openapi_path(url));
    lemma_html_unescape_escape(config_json);
    lemma_html_unescape_escape(script_path(url));

    assert(doc.subrange(k1 - m1.len(), k1) =~= m1);
    assert(doc.skip(k1) =~= ea + (page_configuration() + ec + page_script_src() + es
        + page_tail()));
    lemma_take_until_quote(
        ea,
        page_configuration() + ec + page_script_src() + es + page_tail(),
    );

    assert(doc.subrange(k2 - page_configuration().len(), k2) =~= page_configuration());
    assert(doc.skip(k2) =~= ec + (page_script_src() + es + page_tail()));
    lemma_take_until_quote(ec, page_script_src() + es + page_tail());

    assert(doc.subrange(k3 - m3.len(), k3) =~= m3);
    assert(doc.skip(k3) =~= es + page_tail());
    lemma_take_until_quote(es, page_tail());
    assert(doc.skip(k3 + es.len()) =~= page_tail());
}

/// The opening of the element that the viewer looks up.
pub open spec fn api_reference_tag() -> Seq<char> {
    "<script id=\"api-reference\""@
}

/// Whether `m` stands in `doc` from index `i` on.
pub open spec fn occurs_at(doc: Seq<char>, i: int, m: Seq<char>) -> bool {
    0 <= i && i + m.len() <= doc.len() && doc.subrange(i, i + m.len()) == m
}

/// Every `<` of `lit` but the one at `except` is followed, inside `lit`, by
/// something other than `script i`.
spec fn no_other_tag(lit: Seq<char>, except: int) -> bool {
    forall|o: int|
        0 <= o < lit.len() && o != except && #[trigger] lit[o] == '<' ==> (o + 1 < lit.len()
            && lit[o + 1] != 's') || (o + 8 < lit.len() && lit[o + 8] != 'i')
}

proof fn lemma_tag_chars(doc: Seq<char>, i: int)
    requires
        occurs_at(doc, i, api_reference_tag()),
    ensures
        doc[i] == '<',
        doc[i + 1] == 's',
        doc[i + 8] == 'i',
{
    reveal_strlit("<script id=\"api-reference\"");
    let m = api_reference_tag();
    assert(doc.subrange(i, i + m.len())[0] == doc[i]);
    assert(doc.subrange(i, i + m.len())[1] == doc[i + 1]);
    assert(doc.subrange(i, i + m.len())[8] == doc[i + 8]);
}

proof fn lemma_no_tag_in_literal(doc: Seq<char>, lo: int, lit: Seq<char>, i: int, except: int)
    requires
        0 <= lo,
        lo + lit.len() <= doc.len(),
        doc.subrange(lo, lo + lit.len()) == lit,
        lo <= i < lo + lit.len(),
        i - lo != except,
        no_other_tag(lit, except),
    ensures
        !occurs_at(doc, i, api_reference_tag()),
{
    if occurs_at(doc, i, api_reference_tag()) {
        lemma_tag_chars(doc, i);
        let o = i - lo;
        assert(lit[o] == doc[i]);
        if o + 1 < lit.len() {
            assert(lit[o + 1] == doc[i + 1]);
        }
        if o + 8 < lit.len() {
            assert(lit[o + 8] == doc[i + 8]);
        }
    }
}

proof fn lemma_no_tag_in_escaped(doc: Seq<char>, lo: int, s: Seq<char>, i: int)
    requires
        0 <= lo,
        lo + html_escape(s).len() <= doc.len(),
        doc.subrange(lo, lo + html_escape(s).len()) == html_escape(s),
        lo <= i < lo + html_escape(s).len(),
    ensures
        !occurs_at(doc, i, api_reference_tag()),
{
    if occurs_at(doc, i, api_reference_tag()) {
        lemma_tag_chars(doc, i);
        lemma_html_escape_has_no_lt(s);
        assert(html_escape(s)[i - lo] == doc[i]);
        assert(html_escape(s).contains(doc[i]));
    }
}

/// The page holds the opening of the `api-reference` element exactly once:
/// at the element whose `data-url` is read back above.
pub proof fn lemma_single_api_reference(title: Seq<char>, url: Seq<char>, config_json: Seq<char>)
    ensures
        forall|i: int|
            occurs_at(markup_text(title, url, config_json), i, api_reference_tag()) <==> i
                == data_url_start(title) - "<script id=\"api-reference\" type=\"application/json\" data-url=\""@.len(),
{
    reveal_strlit("<!DOCTYPE html><head><title>");
    reveal_strlit(
        "</title><meta charset=\"utf-8\"><meta name=\"viewport\" content=\"width=device-width, initial-scale=1.0\"></head><body><script id=\"api-reference\" type=\"application/json\" data-url=\"",
    );
    reveal_strlit("<script id=\"api-reference\" type=\"application/json\" data-url=\"");
    reveal_strlit("<script id=\"api-reference\"");
    reveal_strlit("\" data-configuration=\"");
    reveal_strlit("\"></script><script src=\"");
    reveal_strlit("\" type=\"module\"></script></body>");
    let doc = markup_text(title, url, config_json);
    let m = api_reference_tag();
    let m1 = "<script id=\"api-reference\" type=\"application/json\" data-url=\""@;
    let a0 = page_head();
    let a1 = page_data_url();
    let a2 = page_configuration();
    let a3 = page_script_src();
    let a4 = page_tail();
    let e1 = html_escape(title);
    let e2 = html_escape(openapi_path(url));
    let e3 = html_escape(config_json);
    let e4 = html_escape(script_path(url));
    let o1 = a0.len() as int;
    let o2 = o1 + e1.len();
    let o3 = o2 + a1.len();
    let o4 = o3 + e2.len();
    let o5 = o4 + a2.len();
    let o6 = o5 + e3.len();
    let o7 = o6 + a3.len();
    let o8 = o7 + e4.len();
    let k0 = data_url_start(title) - m1.len();
    let except = a1.len() - m1.len();
    assert(doc.len() == o8 + a4.len());
    assert(doc.subrange(0, o1) =~= a0);
    assert(doc.subrange(o1, o2) =~= e1);
    assert(doc.subrange(o2, o3) =~= a1);
    assert(doc.subrange(o3, o4) =~= e2);
    assert(doc.subrange(o4, o5) =~= a2);
    assert(doc.subrange(o5, o6) =~= e3);
    assert(doc.subrange(o6, o7) =~= a3);
    assert(doc.subrange(o7, o8) =~= e4);
    assert(doc.subrange(o8, o8 + a4.len()) =~= a4);
    assert(no_other_tag(a0, -1));
    assert(no_other_tag(a1, except));
    assert(no_other_tag(a2, -1));
    assert(no_other_tag(a3, -1));
    assert(no_other_tag(a4, -1));
    assert(doc.subrange(k0, k0 + m.len()) =~= m) by {
        lemma_markup_attributes(title, url, config_json);
        assert(doc.subrange(k0, k0 + m1.len()) == m1);
        assert(doc.subrange(k0, k0 + m.len()) =~= m1.subrange(0, m.len() as int));
    }
    assert forall|i: int| occurs_at(doc, i, m) implies i == k0 by {
        if i < o1 {
            lemma_no_tag_in_literal(doc, 0, a0, i, -1);
        } else if i < o2 {
            lemma_no_tag_in_escaped(doc, o1, title, i);
        } else if i < o3 {
            if i != k0 {
                lemma_no_tag_in_literal(doc, o2, a1, i, except);
            }
        } else if i < o4 {
            lemma_no_tag_in_escaped(doc, o3, openapi_path(url), i);
        } else if i < o5 {
            lemma_no_tag_in_literal(doc, o4, a2, i, -1);
        } else if i < o6 {
            lemma_no_tag_in_escaped(doc, o5, config_json, i);
        } else if i < o7 {
            lemma_no_tag_in_literal(doc, o6, a3, i, -1);
        } else if i < o8 {
            lemma_no_tag_in_escaped(doc, o7, script_path(url), i);
        } else {
            lemma_no_tag_in_literal(doc, o8, a4, i, -1);
        }
    }
}

/// Writes the bootstrap page for a title, a mount path and the options' JSON.
pub fn render_markup(title: &str, url: &str, config_json: &str) -> (r: String)
    ensures
        r@ == markup_text(title@, url@, config_json@),
{
    let mut data_url = String::from_str(url);
    data_url.append(OPENAPI_JSON);
    let mut script_src = String::from_str(url);
    script_src.append(SCALAR_SCRIPT);
    proof {
        reveal_strlit("/api-docs/openapi.json");
        reveal_strlit("/scalar-api-reference.js");
        assert(OPENAPI_JSON@ == "/api-docs/openapi.json"@);
        assert(SCALAR_SCRIPT@ == "/scalar-api-reference.js"@);
    }
    let mut out = String::from_str("<!DOCTYPE html><head><title>");
    out.append(escape_html(title).as_str());
    out.append(
        "</title><meta charset=\"utf-8\"><meta name=\"viewport\" content=\"width=device-width, initial-scale=1.0\"></head><body><script id=\"api-reference\" type=\"application/json\" data-url=\"",
    );
    out.append(escape_html(data_url.as_str()).as_str());
    out.append("\" data-configuration=\"");
    out.append(escape_html(config_json).as_str());
    out.append("\"></script><script src=\"");
    out.append(escape_html(script_src.as_str()).as_str());
    out.append("\" type=\"module\"></script></body>");
    out
}

} // verus!
