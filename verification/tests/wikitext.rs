use wikimedia::dump::types::{CategoryName, Page, Revision};
use wikimedia::slug::{page_title_to_slug, title_to_slug};
use wikimedia::wikitext::{escape_templates, parse_categories};

#[test]
fn escape_templates_cases() {
    let cases: &[(&str, &str)] = [
        ("", ""),
        ("asdf", "asdf"),
        ("{{a}}", "<pre>{{a}}</pre>"),
        ("{{<pre>a</pre>}}", "<pre>{{&lt;pre&gt;a&lt;/pre&gt;}}</pre>"),
    ].as_slice();

    for (input, expected) in cases.into_iter() {
        let out = escape_templates(input);
        println!("\nCase:\n\
                  |   in:       '{input}'\n\
                  |   out:      '{out}'\n\
                  |   expected: '{expected}'\n");
        assert_eq!(out, *expected);
    }
}

#[test]
fn escape_templates_between_text() {
    assert_eq!(escape_templates("x {{a & b}} y {{c}}"),
               "x <pre>{{a &amp; b}}</pre> y <pre>{{c}}</pre>");
}

#[test]
fn categories_are_sorted_and_distinct() {
    let cats = parse_categories("[[Category:Zebra]] text [[Category:Apple]] [[Category:Zebra]]");
    assert_eq!(cats, vec![CategoryName("Apple".to_string()), CategoryName("Zebra".to_string())]);
    assert!(parse_categories("no links [[Other:X]]").is_empty());
}

#[test]
fn category_slug_and_title() {
    let c = CategoryName("Big cats".to_string());
    assert_eq!(c.to_slug().0, "Big_cats");
    assert_eq!(c.to_display_string(), "Category:Big cats");
}

#[test]
fn slugs_replace_spaces() {
    assert_eq!(page_title_to_slug("Albert Einstein"), "Albert_Einstein");
    assert_eq!(title_to_slug("Albert_Einstein"), "Albert_Einstein");
    assert_eq!(title_to_slug(&title_to_slug("a b c")), title_to_slug("a b c"));
}

#[test]
fn page_revision_text() {
    let mut p = Page { ns_id: 0, id: 1, title: "T".to_string(), revision: None };
    assert_eq!(p.revision_text(), None);
    p.revision = Some(Revision { id: 2, parent_id: None, timestamp: None, text: None, categories: vec![], sha1: None });
    assert_eq!(p.revision_text(), None);
    p.revision = Some(Revision { id: 2, parent_id: None, timestamp: None, text: Some("body".to_string()), categories: vec![], sha1: None });
    assert_eq!(p.revision_text(), Some("body"));
}
