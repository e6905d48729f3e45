use vstd::prelude::*;

verus! {

/// How one character stands in HTML text or in a quoted attribute value:
/// `&`, `<`, `>` and `"` become character references.
pub open spec fn html_escape_char(c: char) -> Seq<char> {
    if c == '&' {
        seq!['&', 'a', 'm', 'p', ';']
    } else if c == '<' {
        seq!['&', 'l', 't', ';']
    } else if c == '>' {
        seq!['&', 'g', 't', ';']
    } else if c == '"' {
        seq!['&', 'q', 'u', 'o', 't', ';']
    } else {
        seq![c]
    }
}

/// `s` escaped for HTML text and quoted attribute values.
pub open spec fn html_escape(s: Seq<char>) -> Seq<char>
    decreases s.len(),
{
    if s.len() == 0 {
        Seq::empty()
    } else {
        html_escape_char(s[0]) + html_escape(s.skip(1))
    }
}

/// Whether `s` starts with `p`.
pub open spec fn starts_with(s: Seq<char>, p: Seq<char>) -> bool {
    p.len() <= s.len() && s.take(p.len() as int) == p
}

/// What a browser reads from escaped text: the references for `&`, `<`, `>`
/// and `"` are decoded, every other character is kept.
pub open spec fn html_unescape(s: Seq<char>) -> Seq<char>
    decreases s.len(),
{
    if s.len() == 0 {
        Seq::empty()
    } else if starts_with(s, seq!['&', 'a', 'm', 'p', ';']) {
        seq!['&'] + html_unescape(s.skip(5))
    } else if starts_with(s, seq!['&', 'l', 't', ';']) {
        seq!['<'] + html_unescape(s.skip(4))
    } else if starts_with(s, seq!['&', 'g', 't', ';']) {
        seq!['>'] + html_unescape(s.skip(4))
    } else if starts_with(s, seq!['&', 'q', 'u', 'o', 't', ';']) {
        seq!['"'] + html_unescape(s.skip(6))
    } else {
        seq![s[0]] + html_unescape(s.skip(1))
    }
}

/// Decoding escaped text gives the text back.
pub proof fn lemma_html_unescape_escape(s: Seq<char>)
    ensures
        html_unescape(html_escape(s)) == s,
    decreases s.len(),
{
    if s.len() > 0 {
        let c = s[0];
        let head = html_escape_char(c);
        let rest = html_escape(s.skip(1));
        let e = head + rest;
        assert(html_escape(s) == e);
        lemma_html_unescape_escape(s.skip(1));
        assert(e.take(head.len() as int) =~= head);
        assert(e.skip(head.len() as int) =~= rest);
        let amp = seq!['&', 'a', 'm', 'p', ';'];
        let lt = seq!['&', 'l', 't', ';'];
        let gt = seq!['&', 'g', 't', ';'];
        let quot = seq!['&', 'q', 'u', 'o', 't', ';'];
        if c != '&' {
            assert(!starts_with(e, amp)) by {
                if starts_with(e, amp) {
                    assert(e.take(5)[0] == e[0] && e.take(5)[1] == e[1]);
                }
            }
        }
        if c != '<' {
            assert(!starts_with(e, lt)) by {
                if starts_with(e, lt) {
                    assert(e.take(4)[0] == e[0] && e.take(4)[1] == e[1]);
                }
            }
        }
        if c != '>' {
            assert(!starts_with(e, gt)) by {
                if starts_with(e, gt) {
                    assert(e.take(4)[0] == e[0] && e.take(4)[1] == e[1]);
                }
            }
        }
        if c != '"' {
            assert(!starts_with(e, quot)) by {
                if starts_with(e, quot) {
                    assert(e.take(6)[0] == e[0] && e.take(6)[1] == e[1]);
                }
            }
        }
        assert(s =~= seq![c] + s.skip(1));
    }
}

/// Escaped text holds no `"`, so it cannot end a quoted attribute value early.
pub proof fn lemma_html_escape_has_no_quote(s: Seq<char>)
    ensures
        !html_escape(s).contains('"'),
    decreases s.len(),
{
    if s.len() > 0 {
        lemma_html_escape_has_no_quote(s.skip(1));
        let head = html_escape_char(s[0]);
        let rest = html_escape(s.skip(1));
        assert forall|i: int| 0 <= i < (head + rest).len() implies (head + rest)[i] != '"' by {
            if i >= head.len() {
                assert((head + rest)[i] == rest[i - head.len()]);
            }
        }
    }
}

/// Escaped text holds no `<`, so no tag can start inside it.
pub proof fn lemma_html_escape_has_no_lt(s: Seq<char>)
    ensures
        !html_escape(s).contains('<'),
    decreases s.len(),
{
    if s.len() > 0 {
        lemma_html_escape_has_no_lt(s.skip(1));
        let head = html_escape_char(s[0]);
        let rest = html_escape(s.skip(1));
        assert forall|i: int| 0 <= i < (head + rest).len() implies (head + rest)[i] != '<' by {
            if i >= head.len() {
                assert((head + rest)[i] == rest[i - head.len()]);
            }
        }
    }
}

/// Relies on maud::Escaper, the escaper that maud's `html!` applies to
/// spliced values: it writes `&amp;`, `&lt;`, `&gt;` and `&quot;` for `&`,
/// `<`, `>` and `"`, copies every other byte, and never fails.
#[verifier::external_body]
pub(crate) fn escape_html(s: &str) -> (r: String)
    ensures
        r@ == html_escape(s@),
{
    let mut out = String::new();
    let _ = std::fmt::Write::write_str(&mut maud::Escaper::new(&mut out), s);
    out
}

} // verus!
