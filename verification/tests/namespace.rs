use wikimedia::dump::dump_name_to_wikimedia_url_base;
use wikimedia::dump::namespace::{Case, Namespace};
use wikimedia::dump::types::DumpName;
use wikimedia::error::WikiError;

#[test]
fn namespace_from_key() {
    let ns = Namespace::from_key(14).expect("known");
    assert_eq!(ns.name(), "Category");
    assert_eq!(ns.name_option(), Some("Category"));
    assert!(!ns.talk());
    assert_eq!(ns.case(), Case::FirstLetter);
    let main = Namespace::from_key(0).expect("known");
    assert_eq!(main.name_option(), None);
    assert_eq!(main.name(), "Page");
    assert!(matches!(Namespace::from_key(99), Err(WikiError::NamespaceKeyNotFound { key: 99 })));
}

#[test]
fn namespace_roundtrips() {
    for key in [-2i64, -1, 0, 1, 2, 3, 14, 15, 710, 829, 2300, 2303] {
        let ns = Namespace::from_key(key).expect("known");
        assert_eq!(ns.key() as i64, key);
        let again = Namespace::from_name(ns.name_option()).expect("named");
        assert_eq!(again.key() as i64, key);
    }
}

#[test]
fn namespace_from_titles_and_slugs() {
    assert_eq!(Namespace::from_page_title("Talk:Foo").expect("talk").key(), 1);
    assert_eq!(Namespace::from_page_title("Foo").expect("main").key(), 0);
    assert_eq!(Namespace::from_page_slug("User_talk:Bob").expect("user talk").key(), 3);
    assert_eq!(Namespace::from_page_slug("Gadget_definition:X").expect("gadget").case(),
               Case::CaseSensitive);
    assert!(matches!(Namespace::from_page_title("Nope:Foo"),
                     Err(WikiError::NamespaceNameNotFound { .. })));
}

#[test]
fn wikimedia_url_bases() {
    assert_eq!(dump_name_to_wikimedia_url_base(&DumpName("enwiki".to_string())).as_deref(),
               Some("https://en.wikipedia.org/wiki"));
    assert_eq!(dump_name_to_wikimedia_url_base(&DumpName("simplewiki".to_string())).as_deref(),
               Some("https://simple.wikipedia.org/wiki"));
    assert_eq!(dump_name_to_wikimedia_url_base(&DumpName("dewiki".to_string())), None);
}

#[test]
fn namespace_found_by_name_is_found_by_key() {
    for name in [None, Some("Page"), Some("Talk"), Some("Category"), Some("Gadget definition talk")] {
        let ns = Namespace::from_name(name).expect("known");
        let again = Namespace::from_key(ns.key() as i64).expect("known key");
        assert_eq!(again.key(), ns.key());
        assert_eq!(again.name_option(), ns.name_option());
        assert_eq!(again.talk(), ns.talk());
        assert_eq!(again.case(), ns.case());
    }
}

#[test]
fn namespace_from_slug_matches_title() {
    for slug in ["User_talk:Bob_B", "Category:Big_cats", "Plain_page", "No_such:X", "A:B:C"] {
        let title = slug.replace('_', " ");
        let from_slug = Namespace::from_page_slug(slug).map(|ns| ns.key()).ok();
        let from_title = Namespace::from_page_title(&title).map(|ns| ns.key()).ok();
        assert_eq!(from_slug, from_title);
    }
}
