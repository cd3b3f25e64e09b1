//! CSS selectors and what they select from an HTML page.
use vstd::prelude::*;

verus! {

/// The message with which the `scraper` crate rejects `css` as a selector,
/// or `None` when `css` parses as a selector list.
pub uninterp spec fn css_parse_error(css: Seq<char>) -> Option<Seq<char>>;

/// The elements that the selector `css` matches in the document parsed from
/// `page`, in the order in which the parser created their nodes, each
/// serialized with its own start and end tags.
pub uninterp spec fn outer_html_matches(page: Seq<char>, css: Seq<char>) -> Seq<Seq<char>>;

/// The elements that the selector `css` matches in the document parsed from
/// `page`, in the order in which the parser created their nodes, each
/// serialized without its own tags.
pub uninterp spec fn inner_html_matches(page: Seq<char>, css: Seq<char>) -> Seq<Seq<char>>;

/// Whether `css` is accepted as a selector list.
pub open spec fn css_is_valid(css: Seq<char>) -> bool {
    css_parse_error(css) is None
}

/// What a selector yields from a page: the inner or the outer HTML of each match.
pub open spec fn selected(page: Seq<char>, css: Seq<char>, inner_html: bool) -> Seq<Seq<char>> {
    if inner_html {
        inner_html_matches(page, css)
    } else {
        outer_html_matches(page, css)
    }
}

/// Calls `scraper::Selector::parse`. It returns `Ok` exactly when `css` is a
/// selector list, and otherwise the `Debug` text of the parse error; both are
/// taken by the name `css_parse_error`, which says nothing more of them.
#[verifier::external_body]
fn parse_css(css: &str) -> (r: Result<(), String>)
    ensures
        match r {
            Ok(()) => css_parse_error(css@) is None,
            Err(message) => css_parse_error(css@) == Some(message@),
        },
{
    match scraper::Selector::parse(css) {
        Ok(_) => Ok(()),
        Err(e) => Err(format!("{:?}", e)),
    }
}

/// Calls `scraper::Html::parse_document` on `page`, selects with the parsed
/// `css` (`Html::select`) and serializes each match with `ElementRef::html`.
/// The result is taken by the name `outer_html_matches`.
#[verifier::external_body]
fn select_outer_html(page: &str, css: &str) -> (r: Vec<String>)
    requires
        css_is_valid(css@),
    ensures
        r.deep_view() == outer_html_matches(page@, css@),
{
    match scraper::Selector::parse(css) {
        Ok(selector) => scraper::Html::parse_document(page).select(&selector).map(|e| e.html()).collect(),
        Err(_) => Vec::new(),
    }
}

/// Calls `scraper::Html::parse_document` on `page`, selects with the parsed
/// `css` (`Html::select`) and serializes each match with `ElementRef::inner_html`.
/// The result is taken by the name `inner_html_matches`.
#[verifier::external_body]
fn select_inner_html(page: &str, css: &str) -> (r: Vec<String>)
    requires
        css_is_valid(css@),
    ensures
        r.deep_view() == inner_html_matches(page@, css@),
{
    match scraper::Selector::parse(css) {
        Ok(selector) => scraper::Html::parse_document(page).select(&selector).map(|e| e.inner_html()).collect(),
        Err(_) => Vec::new(),
    }
}

/// Why a string was refused as a CSS selector.
#[derive(Debug)]
pub struct SelectorParseError {
    pub css: String,
    pub message: String,
}

/// A CSS selector list that has been checked to parse.
#[derive(Debug)]
pub struct SelectorWrapper {
    css: String,
}

impl SelectorWrapper {
    #[verifier::type_invariant]
    spec fn parses(self) -> bool {
        css_is_valid(self.css@)
    }

    /// The selector's source text.
    pub closed spec fn css(self) -> Seq<char> {
        self.css@
    }

    /// Checks `css` as a selector list.
    pub fn parse(css: &str) -> (r: Result<SelectorWrapper, SelectorParseError>)
        ensures
            r is Ok <==> css_is_valid(css@),
            r matches Ok(w) ==> w.css() == css@,
            r matches Err(e) ==> e.css@ == css@ && Some(e.message@) == css_parse_error(css@),
    {
        match parse_css(css) {
            Ok(()) => Ok(SelectorWrapper { css: css.to_owned() }),
            Err(message) => Err(SelectorParseError { css: css.to_owned(), message }),
        }
    }

    /// The selector's source text.
    pub fn as_str(&self) -> (r: &str)
        ensures
            r@ == self.css(),
    {
        self.css.as_str()
    }

    /// The HTML of every element that the selector matches in `page`, in the
    /// order in which the parser created their nodes: each element's contents when `inner_html` holds, else
    /// the element with its own tags.
    pub fn select(&self, page: &str, inner_html: bool) -> (r: Vec<String>)
        ensures
            r.deep_view() == selected(page@, self.css(), inner_html),
    {
        proof {
            use_type_invariant(self);
        }
        if inner_html {
            select_inner_html(page, self.css.as_str())
        } else {
            select_outer_html(page, self.css.as_str())
        }
    }
}

impl Clone for SelectorWrapper {
    fn clone(&self) -> (r: Self)
        ensures
            r.css() == self.css(),
    {
        proof {
            use_type_invariant(self);
        }
        SelectorWrapper { css: self.css.clone() }
    }
}

} // verus!
