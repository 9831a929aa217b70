use vstd::prelude::*;
use crate::text::{normalize, normalize_spec};

verus! {

/// The texts of the elements of the HTML document `html` that the CSS
/// selector `selector` matches, in the order of the parsed tree's nodes;
/// each text is the concatenation of the element's descendant text nodes.
pub uninterp spec fn selected_texts(html: Seq<char>, selector: Seq<char>) -> Seq<Seq<char>>;

/// Whether `selector` is a CSS selector that the parser accepts.
pub uninterp spec fn selector_parses(selector: Seq<char>) -> bool;

/// The views of a sequence of strings.
pub open spec fn string_views(v: Seq<String>) -> Seq<Seq<char>> {
    v.map_values(|s: String| s@)
}

/// Relies on scraper's Html::parse_document, Selector::parse, Html::select
/// and ElementRef::text: parses the document, and returns the text of each
/// element that the selector matches, or `None` when the selector does not
/// parse; whether it parses depends on the selector alone.
#[verifier::external_body]
fn select_texts(html: &str, selector: &str) -> (r: Option<Vec<String>>)
    ensures
        r is Some <==> selector_parses(selector@),
        r matches Some(v) ==> string_views(v@) == selected_texts(html@, selector@),
{
    let selector = scraper::Selector::parse(selector).ok()?;
    let document = scraper::Html::parse_document(html);
    Some(document.select(&selector).map(|e| e.text().collect::<String>()).collect())
}

/// The normalized texts of `texts`.
pub open spec fn normalized_all(texts: Seq<Seq<char>>) -> Seq<Seq<char>> {
    texts.map_values(|t: Seq<char>| normalize_spec(t))
}

/// The normalized form of each text, in order.
pub fn normalize_all(raw: &Vec<String>) -> (r: Vec<String>)
    ensures
        string_views(r@) == normalized_all(string_views(raw@)),
{
    let ghost sel = string_views(raw@);
    let mut out: Vec<String> = Vec::new();
    let mut i: usize = 0;
    while i < raw.len()
        invariant
            i <= raw@.len(),
            sel == string_views(raw@),
            string_views(out@) == normalized_all(sel.take(i as int)),
        decreases raw@.len() - i,
    {
        let t = normalize(raw[i].as_str());
        let ghost before = out@;
        out.push(t);
        assert(sel[i as int] == raw@[i as int]@);
        assert(out@ == before.push(t));
        assert(string_views(out@) =~= string_views(before).push(t@));
        assert(normalized_all(sel.take(i + 1)) =~= normalized_all(sel.take(i as int)).push(
            normalize_spec(sel[i as int]),
        ));
        assert(string_views(out@) =~= normalized_all(sel.take(i + 1)));
        i += 1;
    }
    assert(sel.take(i as int) =~= sel);
    out
}

/// The review texts of a fetched page, normalized, in the order of the
/// parsed tree; `None` exactly when the review selector does not parse.
pub fn extract_reviews(html: &str) -> (r: Option<Vec<String>>)
    ensures
        r is Some <==> selector_parses("div.ZmyHeo > div > div"@),
        r matches Some(v) ==> string_views(v@) == normalized_all(
            selected_texts(html@, "div.ZmyHeo > div > div"@),
        ),
{
    let raw = match select_texts(html, "div.ZmyHeo > div > div") {
        Some(raw) => raw,
        None => return None,
    };
    Some(normalize_all(&raw))
}

/// Whether a fetched product page announces more reviews on a separate
/// listing; `None` exactly when the marker selector does not parse.
pub fn has_more_reviews(html: &str) -> (r: Option<bool>)
    ensures
        r is Some <==> selector_parses("div._23J90q.RcXBOT"@),
        r matches Some(b) ==> b == (selected_texts(html@, "div._23J90q.RcXBOT"@).len() > 0),
{
    match select_texts(html, "div._23J90q.RcXBOT") {
        Some(found) => Some(found.len() > 0),
        None => None,
    }
}

} // verus!
