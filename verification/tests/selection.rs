use fixerss::config::{to_rss_item, ItemConfig, ItemError, SelectorOrText, StringExt};
use fixerss::selector::SelectorWrapper;

const PAGE: &str = r#"
    <html>
    <h1>This is a website</h1>
    <p>And this is content</p>
    <p>And <b>more</b> content</p>
    </html>
"#;

fn css(text: &str) -> SelectorWrapper {
    match SelectorWrapper::parse(text) {
        Ok(w) => w,
        Err(e) => panic!("selector {} refused: {}", e.css, e.message),
    }
}

#[test]
fn valid_selector_parses_and_keeps_its_text() {
    let w = css("h1 > a, p");
    assert_eq!(w.as_str(), "h1 > a, p");
}

#[test]
fn invalid_selector_is_refused_with_a_message() {
    match SelectorWrapper::parse("p[") {
        Ok(_) => panic!("an unclosed attribute selector must be refused"),
        Err(e) => {
            assert_eq!(e.css, "p[");
            assert!(!e.message.is_empty());
        }
    }
}

#[test]
fn selector_yields_outer_html_in_document_order() {
    let matches = css("p").select(PAGE, false);
    assert_eq!(matches, vec!["<p>And this is content</p>".to_string(), "<p>And <b>more</b> content</p>".to_string()]);
}

#[test]
fn selector_yields_inner_html_when_asked() {
    let matches = css("p").select(PAGE, true);
    assert_eq!(matches, vec!["And this is content".to_string(), "And <b>more</b> content".to_string()]);
}

#[test]
fn selector_without_matches_yields_nothing() {
    assert!(css("h2").select(PAGE, false).is_empty());
}

#[test]
fn bare_selector_takes_first_match() {
    let s = SelectorOrText::Selector { css: css("p"), inner_html: false };
    assert_eq!(s.select(PAGE).unwrap(), "<p>And this is content</p>");
}

#[test]
fn bare_selector_without_match_is_an_error_naming_it() {
    let s = SelectorOrText::Selector { css: css("h2"), inner_html: true };
    match s.select(PAGE) {
        Ok(_) => panic!("nothing matches h2"),
        Err(e) => assert_eq!(e.css, "h2"),
    }
}

#[test]
fn text_is_selected_from_any_page() {
    let s = SelectorOrText::Text { text: "fixed".to_string() };
    assert_eq!(s.select(PAGE).unwrap(), "fixed");
    assert_eq!(s.select("").unwrap(), "fixed");
}

#[test]
fn fallback_is_used_only_without_match() {
    let with_match = SelectorOrText::SelectorWithFallback { css: css("h1"), text: "none".to_string(), inner_html: true };
    assert_eq!(with_match.select(PAGE).unwrap(), "This is a website");
    let without = SelectorOrText::SelectorWithFallback { css: css("h3"), text: "none".to_string(), inner_html: true };
    assert_eq!(without.select(PAGE).unwrap(), "none");
}

#[test]
fn pick_takes_first_of_given_matches() {
    let s = SelectorOrText::Selector { css: css("p"), inner_html: false };
    assert_eq!(s.pick(vec!["a".to_string(), "b".to_string()]).unwrap(), "a");
    assert!(s.pick(vec![]).is_err());
    let f = SelectorOrText::SelectorWithFallback { css: css("p"), text: "t".to_string(), inner_html: false };
    assert_eq!(f.pick(vec![]).unwrap(), "t");
}

fn item_config(title: SelectorOrText, description: SelectorOrText) -> ItemConfig {
    ItemConfig { title, description, guid: None }
}

#[test]
fn rss_item_has_selected_title_and_description() {
    let config = item_config(
        SelectorOrText::Selector { css: css("h1"), inner_html: true },
        SelectorOrText::Selector { css: css("p"), inner_html: false },
    );
    let item = to_rss_item(PAGE, &config).unwrap();
    assert_eq!(item.title.as_deref(), Some("This is a website"));
    assert_eq!(item.description.as_deref(), Some("<p>And this is content</p>"));
    assert!(item.guid.is_none());
    assert!(item.link.is_none());
    assert!(item.pub_date.is_none());
}

#[test]
fn rss_item_without_title_reports_the_title() {
    let config = item_config(
        SelectorOrText::Selector { css: css("h2"), inner_html: true },
        SelectorOrText::Selector { css: css("h3"), inner_html: false },
    );
    assert!(matches!(to_rss_item(PAGE, &config), Err(ItemError::Title(ref e)) if e.css == "h2"));
}

#[test]
fn rss_item_without_description_reports_the_description() {
    let config = item_config(
        SelectorOrText::Text { text: "t".to_string() },
        SelectorOrText::Selector { css: css("h3"), inner_html: false },
    );
    assert!(matches!(to_rss_item(PAGE, &config), Err(ItemError::Description(ref e)) if e.css == "h3"));
}

#[test]
fn string_ext_takes_the_same_item() {
    let config = item_config(
        SelectorOrText::Selector { css: css("h1"), inner_html: false },
        SelectorOrText::Text { text: "d".to_string() },
    );
    let item = PAGE.to_rss_item(&config).unwrap();
    assert_eq!(item.title.as_deref(), Some("<h1>This is a website</h1>"));
    assert_eq!(item.description.as_deref(), Some("d"));
}
