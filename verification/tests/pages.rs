use wikimedia::dump::pages::{PageParser, ParseAction, XmlEvent};
use wikimedia::dump::types::Page;
use wikimedia::error::WikiError;
use wikimedia::util::fmt::Sha1Hash;

fn start(n: &str) -> XmlEvent {
    XmlEvent::Start(n.to_string())
}

fn end(n: &str) -> XmlEvent {
    XmlEvent::End(n.to_string())
}

fn text(t: &str) -> XmlEvent {
    XmlEvent::Text(t.as_bytes().to_vec())
}

fn element(name: &str, t: &str) -> Vec<XmlEvent> {
    vec![start(name), text(t), end(name)]
}

/// Feeds events to a parser and collects what it hands out.
fn run(events: Vec<XmlEvent>) -> (Vec<Page>, Vec<WikiError>, bool) {
    let mut parser = PageParser::new();
    let mut pages = Vec::new();
    let mut errors = Vec::new();
    let mut finished = false;
    for e in events {
        match parser.step(e) {
            ParseAction::Continue => {},
            ParseAction::Emit(p) => pages.push(p),
            ParseAction::Fail(err) => errors.push(err),
            ParseAction::Finished => {
                finished = true;
            },
        }
    }
    (pages, errors, finished)
}

fn page_events(title: &str, ns: &str, id: &str, rev_id: &str, rev_text: &str) -> Vec<XmlEvent> {
    let mut v = vec![start("page")];
    v.extend(element("title", title));
    v.extend(element("ns", ns));
    v.extend(element("id", id));
    v.push(start("revision"));
    v.extend(element("id", rev_id));
    v.extend(element("parentid", "46448989"));
    v.extend(element("timestamp", "2017-06-04T21:45:26Z"));
    v.push(start("contributor"));
    v.extend(element("username", "Someone"));
    v.extend(element("id", "9784415"));
    v.push(end("contributor"));
    v.extend(element("text", rev_text));
    v.extend(element("sha1", "tdzgf1eon4l1v0cjer5nnwg0y1enxye"));
    v.push(end("revision"));
    v.push(end("page"));
    v
}

#[test]
fn parser_reads_a_page() {
    let mut events = vec![start("mediawiki"), XmlEvent::Other];
    events.extend(page_events("AbacuS", "0", "46", "783822039",
                              "See [[Category:Abacus]] and [[Category:Math &amp; more]]"));
    events.push(end("mediawiki"));
    events.push(XmlEvent::Eof);
    let (pages, errors, finished) = run(events);
    assert!(errors.is_empty());
    assert!(finished);
    assert_eq!(pages.len(), 1);
    let p = &pages[0];
    assert_eq!(p.title, "AbacuS");
    assert_eq!(p.ns_id, 0);
    assert_eq!(p.id, 46);
    let rev = p.revision.as_ref().expect("revision");
    // The contributor's <id> comes after the revision's and is not taken.
    assert_eq!(rev.id, 783822039);
    assert_eq!(rev.parent_id, Some(46448989));
    let ts = rev.timestamp.expect("timestamp");
    assert_eq!(ts.secs, 1496612726);
    assert_eq!(ts.nanos, 0);
    assert_eq!(ts.offset_secs, 0);
    assert_eq!(rev.sha1, Some(Sha1Hash::from_base36_str("tdzgf1eon4l1v0cjer5nnwg0y1enxye").unwrap()));
    assert_eq!(rev.text.as_deref(), Some("See [[Category:Abacus]] and [[Category:Math & more]]"));
    let cats: Vec<&str> = rev.categories.iter().map(|c| c.0.as_str()).collect();
    assert_eq!(cats, vec!["Abacus", "Math & more"]);
}

#[test]
fn parser_reads_several_pages() {
    let mut events = Vec::new();
    events.extend(page_events("A", "0", "1", "10", "a"));
    events.extend(page_events("Talk:B", "1", "2", "20", "b"));
    events.push(XmlEvent::Eof);
    let (pages, errors, finished) = run(events);
    assert!(errors.is_empty() && finished);
    let ids: Vec<u64> = pages.iter().map(|p| p.id).collect();
    assert_eq!(ids, vec![1, 2]);
    assert_eq!(pages[1].ns_id, 1);
}

#[test]
fn parser_unescapes_text() {
    let mut events = vec![start("page")];
    events.extend(element("title", "Fish &amp; Chips &lt;3 &#65;"));
    events.extend(element("ns", "0"));
    events.extend(element("id", "7"));
    events.push(end("page"));
    let (pages, errors, _) = run(events);
    assert!(errors.is_empty());
    assert_eq!(pages[0].title, "Fish & Chips <3 A");
    assert!(pages[0].revision.is_none());
}

#[test]
fn parser_reports_missing_fields() {
    let mut no_title = vec![start("page")];
    no_title.extend(element("ns", "0"));
    no_title.extend(element("id", "7"));
    no_title.push(end("page"));
    let (_, errors, _) = run(no_title);
    assert!(matches!(errors.as_slice(), [WikiError::PageTitleMissing]));

    let mut no_id = vec![start("page")];
    no_id.extend(element("title", "T"));
    no_id.extend(element("ns", "0"));
    no_id.push(end("page"));
    let (_, errors, _) = run(no_id);
    assert!(matches!(errors.as_slice(), [WikiError::PageIdMissing]));

    let mut no_ns = vec![start("page")];
    no_ns.extend(element("title", "T"));
    no_ns.extend(element("id", "7"));
    no_ns.push(end("page"));
    let (_, errors, _) = run(no_ns);
    assert!(matches!(errors.as_slice(), [WikiError::PageNsMissing]));

    let mut no_rev_id = vec![start("page")];
    no_rev_id.extend(element("title", "T"));
    no_rev_id.push(start("revision"));
    no_rev_id.extend(element("text", "x"));
    no_rev_id.push(end("revision"));
    let (_, errors, _) = run(no_rev_id);
    assert!(matches!(errors.as_slice(), [WikiError::RevisionIdMissing]));
}

#[test]
fn parser_reports_bad_numbers_and_text() {
    let mut bad_ns = vec![start("page")];
    bad_ns.extend(element("ns", "-1"));
    let (_, errors, _) = run(bad_ns);
    assert!(matches!(errors.as_slice(), [WikiError::ParseInt]));

    let mut bad_entity = vec![start("page")];
    bad_entity.extend(element("title", "a &bogus; b"));
    let (_, errors, _) = run(bad_entity);
    assert!(matches!(errors.as_slice(), [WikiError::XmlText]));

    let bad_utf8 = vec![start("page"), start("title"), XmlEvent::Text(vec![0xff, 0xfe])];
    let (_, errors, _) = run(bad_utf8);
    assert!(matches!(errors.as_slice(), [WikiError::XmlText]));

    let mut bad_time = vec![start("page"), start("revision")];
    bad_time.extend(element("timestamp", "yesterday"));
    let (_, errors, _) = run(bad_time);
    assert!(matches!(errors.as_slice(), [WikiError::Timestamp]));

    let mut bad_sha1 = vec![start("page"), start("revision")];
    bad_sha1.extend(element("sha1", "not base 36!"));
    let (_, errors, _) = run(bad_sha1);
    assert!(matches!(errors.as_slice(), [WikiError::Sha1Base36]));
}

#[test]
fn parser_goes_on_after_a_failed_page() {
    let mut events = vec![start("page")];
    events.extend(element("ns", "x"));
    events.push(end("page"));
    events.extend(page_events("Good", "0", "5", "50", "text"));
    events.push(XmlEvent::Eof);
    let (pages, errors, finished) = run(events);
    assert_eq!(errors.len(), 1);
    assert_eq!(pages.len(), 1);
    assert_eq!(pages[0].title, "Good");
    assert!(finished);
}

#[test]
fn parser_ignores_end_of_input_inside_a_page() {
    let events = vec![start("page"), XmlEvent::Eof];
    let (pages, errors, finished) = run(events);
    assert!(pages.is_empty() && errors.is_empty());
    assert!(!finished);
}

#[test]
fn parser_text_keeps_last_text_and_reset_drops_page() {
    let mut parser = PageParser::new();
    assert!(matches!(parser.step(start("page")), ParseAction::Continue));
    assert!(matches!(parser.step(start("title")), ParseAction::Continue));
    assert!(matches!(parser.step_text(Some("first".to_string())), ParseAction::Continue));
    assert!(matches!(parser.step_text(Some("second".to_string())), ParseAction::Continue));
    assert!(matches!(parser.step(end("title")), ParseAction::Continue));
    parser.reset();
    // After a reset, the end of the old page is ignored.
    assert!(matches!(parser.step(end("page")), ParseAction::Continue));
    assert!(matches!(parser.step(XmlEvent::Eof), ParseAction::Finished));
}

#[test]
fn revision_sha1_check() {
    let empty_sha1 = Sha1Hash::calculate_from_bytes(b"");
    assert_eq!(empty_sha1.to_display_string(), "da39a3ee5e6b4b0d3255bfef95601890afd80709");
    let mut rev = wikimedia::dump::types::Revision {
        id: 1,
        parent_id: None,
        timestamp: None,
        text: Some(String::new()),
        categories: vec![],
        sha1: Some(empty_sha1),
    };
    assert!(matches!(rev.check_sha1(), wikimedia::dump::types::Sha1Check::Matches));
    rev.text = Some("x".to_string());
    match rev.check_sha1() {
        wikimedia::dump::types::Sha1Check::Mismatch { expected, calculated } => {
            assert_eq!(expected, empty_sha1);
            assert_eq!(calculated, Sha1Hash::calculate_from_bytes(b"x"));
        }
        _ => panic!("the hash of x is not that of the empty text"),
    }
    rev.sha1 = None;
    assert!(matches!(rev.check_sha1(), wikimedia::dump::types::Sha1Check::NotChecked));
}
