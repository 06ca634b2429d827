//! MediaWiki namespaces: the prefix of a page title such as `Talk:` or
//! `Category:`, with the numeric key that dumps use for it.

use vstd::prelude::*;
use crate::error::WikiError;
use crate::patterns::opt_string_view;
use crate::text::{chars_of, str_eq, string_from_chars};

verus! {

/// How the first letter of titles in a namespace is treated.
#[derive(Clone, Copy, Debug, PartialEq, Eq, Structural)]
pub enum Case {
    /// The first letter is case-insensitive.
    FirstLetter,
    /// Titles are case-sensitive throughout.
    CaseSensitive,
}

/// A MediaWiki namespace.
#[derive(Clone, Debug)]
pub struct Namespace {
    key: i32,
    case: Case,
    name: Option<&'static str>,
    talk: bool,
}

/// The value of a namespace: its key, case rule, name (`None` for the main
/// namespace of ordinary pages) and whether it is a talk namespace.
pub struct NamespaceView {
    pub key: int,
    pub case: Case,
    pub name: Option<Seq<char>>,
    pub talk: bool,
}

impl View for Namespace {
    type V = NamespaceView;

    closed spec fn view(&self) -> NamespaceView {
        NamespaceView {
            key: self.key as int,
            case: self.case,
            name: match self.name {
                Some(n) => Some(n@),
                None => None,
            },
            talk: self.talk,
        }
    }
}

/// The number of namespaces known to the library.
pub const NAMESPACE_COUNT: usize = 26;

/// A namespace value from its parts.
pub open spec fn nsv(key: int, case: Case, name: Option<Seq<char>>, talk: bool) -> NamespaceView {
    NamespaceView { key, case, name, talk }
}

/// All namespaces known to the library, in order of key.
#[verifier::opaque]
pub open spec fn namespace_table() -> Seq<NamespaceView> {
    seq![
        nsv(-2, Case::FirstLetter, Some("Media"@), false),
        nsv(-1, Case::FirstLetter, Some("Special"@), false),
        nsv(0, Case::FirstLetter, None, false),
        nsv(1, Case::FirstLetter, Some("Talk"@), true),
        nsv(2, Case::FirstLetter, Some("User"@), false),
        nsv(3, Case::FirstLetter, Some("User talk"@), true),
        nsv(4, Case::FirstLetter, Some("Wikipedia"@), false),
        nsv(5, Case::FirstLetter, Some("Wikipedia talk"@), true),
        nsv(6, Case::FirstLetter, Some("File"@), false),
        nsv(7, Case::FirstLetter, Some("File talk"@), true),
        nsv(8, Case::FirstLetter, Some("MediaWiki"@), false),
        nsv(9, Case::FirstLetter, Some("MediaWiki talk"@), true),
        nsv(10, Case::FirstLetter, Some("Template"@), false),
        nsv(11, Case::FirstLetter, Some("Template talk"@), true),
        nsv(12, Case::FirstLetter, Some("Help"@), false),
        nsv(13, Case::FirstLetter, Some("Help talk"@), true),
        nsv(14, Case::FirstLetter, Some("Category"@), false),
        nsv(15, Case::FirstLetter, Some("Category talk"@), true),
        nsv(710, Case::FirstLetter, Some("TimedText"@), false),
        nsv(711, Case::FirstLetter, Some("TimedText talk"@), true),
        nsv(828, Case::FirstLetter, Some("Module"@), false),
        nsv(829, Case::FirstLetter, Some("Module talk"@), true),
        nsv(2300, Case::CaseSensitive, Some("Gadget"@), false),
        nsv(2301, Case::CaseSensitive, Some("Gadget talk"@), true),
        nsv(2302, Case::CaseSensitive, Some("Gadget definition"@), false),
        nsv(2303, Case::CaseSensitive, Some("Gadget definition talk"@), true),
    ]
}

/// The index in [`namespace_table`] of the first namespace with this key.
pub open spec fn key_index(key: int) -> Option<int> {
    if exists|i: int| 0 <= i < namespace_table().len() && namespace_table()[i].key == key {
        Some(
            choose|i: int|
                0 <= i < namespace_table().len() && namespace_table()[i].key == key && forall|j: int|
                    0 <= j < i ==> namespace_table()[j].key != key,
        )
    } else {
        None
    }
}

/// The namespace that a title prefix names: no prefix, or the prefix
/// `Page`, is the main namespace; any other prefix must be a namespace's
/// name exactly.
pub open spec fn name_lookup(name: Option<Seq<char>>) -> Option<NamespaceView> {
    if name is None || name == Some("Page"@) {
        Some(namespace_table()[2])
    } else if exists|i: int| 0 <= i < namespace_table().len() && namespace_table()[i].name == name {
        Some(
            namespace_table()[choose|i: int|
                0 <= i < namespace_table().len() && namespace_table()[i].name == name && forall|j: int|
                    0 <= j < i ==> namespace_table()[j].name != name],
        )
    } else {
        None
    }
}

/// The part of `s` before its first `:`, if it has one.
pub open spec fn prefix_before_colon(s: Seq<char>) -> Option<Seq<char>> {
    if exists|i: int| 0 <= i < s.len() && s[i] == ':' {
        let i = choose|i: int| 0 <= i < s.len() && s[i] == ':' && forall|j: int| 0 <= j < i ==> s[j] != ':';
        Some(s.take(i))
    } else {
        None
    }
}

/// The sequence with every `_` replaced by a space.
pub open spec fn underscores_to_spaces(s: Seq<char>) -> Seq<char> {
    s.map_values(|c: char| if c == '_' { ' ' } else { c })
}

fn namespace_at(i: usize) -> (ns: Namespace)
    requires
        i < NAMESPACE_COUNT,
    ensures
        ns@ == namespace_table()[i as int],
        namespace_table().len() == NAMESPACE_COUNT,
{
    reveal(namespace_table);
    let (key, case, name, talk): (i32, Case, Option<&'static str>, bool) = match i {
        0 => (-2, Case::FirstLetter, Some("Media"), false),
        1 => (-1, Case::FirstLetter, Some("Special"), false),
        2 => (0, Case::FirstLetter, None, false),
        3 => (1, Case::FirstLetter, Some("Talk"), true),
        4 => (2, Case::FirstLetter, Some("User"), false),
        5 => (3, Case::FirstLetter, Some("User talk"), true),
        6 => (4, Case::FirstLetter, Some("Wikipedia"), false),
        7 => (5, Case::FirstLetter, Some("Wikipedia talk"), true),
        8 => (6, Case::FirstLetter, Some("File"), false),
        9 => (7, Case::FirstLetter, Some("File talk"), true),
        10 => (8, Case::FirstLetter, Some("MediaWiki"), false),
        11 => (9, Case::FirstLetter, Some("MediaWiki talk"), true),
        12 => (10, Case::FirstLetter, Some("Template"), false),
        13 => (11, Case::FirstLetter, Some("Template talk"), true),
        14 => (12, Case::FirstLetter, Some("Help"), false),
        15 => (13, Case::FirstLetter, Some("Help talk"), true),
        16 => (14, Case::FirstLetter, Some("Category"), false),
        17 => (15, Case::FirstLetter, Some("Category talk"), true),
        18 => (710, Case::FirstLetter, Some("TimedText"), false),
        19 => (711, Case::FirstLetter, Some("TimedText talk"), true),
        20 => (828, Case::FirstLetter, Some("Module"), false),
        21 => (829, Case::FirstLetter, Some("Module talk"), true),
        22 => (2300, Case::CaseSensitive, Some("Gadget"), false),
        23 => (2301, Case::CaseSensitive, Some("Gadget talk"), true),
        24 => (2302, Case::CaseSensitive, Some("Gadget definition"), false),
        _ => (2303, Case::CaseSensitive, Some("Gadget definition talk"), true),
    };
    Namespace { key, case, name, talk }
}

/// Accessors
impl Namespace {
    /// The namespace's numeric key, as used in dump files.
    pub fn key(&self) -> (r: i32)
        ensures
            r == self@.key,
    {
        self.key
    }

    /// How titles in this namespace treat letter case.
    pub fn case(&self) -> (r: Case)
        ensures
            r == self@.case,
    {
        self.case
    }

    /// The namespace's name, `None` for the main namespace.
    pub fn name_option(&self) -> (r: Option<&'static str>)
        ensures
            match r {
                Some(n) => self@.name == Some(n@),
                None => self@.name is None,
            },
    {
        self.name
    }

    /// The namespace's name, `"Page"` for the main namespace.
    pub fn name(&self) -> (r: &'static str)
        ensures
            match self@.name {
                Some(n) => r@ == n,
                None => r@ == "Page"@,
            },
    {
        match self.name {
            Some(n) => n,
            None => "Page",
        }
    }

    /// Whether this is a talk namespace.
    pub fn talk(&self) -> (r: bool)
        ensures
            r == self@.talk,
    {
        self.talk
    }
}

/// Lookup
impl Namespace {
    /// The namespace with this key.
    pub fn from_key(key: i64) -> (r: Result<Namespace, WikiError>)
        ensures
            match r {
                Ok(ns) => key_index(key as int) matches Some(i) && ns@ == namespace_table()[i],
                Err(e) => key_index(key as int) is None && e == (WikiError::NamespaceKeyNotFound {
                    key,
                }),
            },
    {
        proof {
            lemma_table_facts();
        }
        let mut i: usize = 0;
        while i < NAMESPACE_COUNT
            invariant
                i <= NAMESPACE_COUNT,
                namespace_table().len() == NAMESPACE_COUNT,
                forall|j: int| 0 <= j < i ==> namespace_table()[j].key != key as int,
            decreases NAMESPACE_COUNT - i,
        {
            let ns = namespace_at(i);
            if ns.key as i64 == key {
                assert(namespace_table()[i as int].key == key as int);
                assert(key_index(key as int) == Some(i as int)) by {
                    let k = choose|k: int|
                        0 <= k < namespace_table().len() && namespace_table()[k].key == key as int
                            && forall|j: int| 0 <= j < k ==> namespace_table()[j].key != key as int;
                    if k < i {
                    } else if k > i {
                        assert(namespace_table()[i as int].key == key as int);
                    }
                }
                return Ok(ns);
            }
            i = i + 1;
        }
        Err(WikiError::NamespaceKeyNotFound { key })
    }

    /// The namespace with this name; `None` or `"Page"` give the main
    /// namespace.
    pub fn from_name(name: Option<&str>) -> (r: Result<Namespace, WikiError>)
        ensures
            match r {
                Ok(ns) => name_lookup(opt_str_view(name)) == Some(ns@),
                Err(e) => name_lookup(opt_str_view(name)) is None && (e matches WikiError::NamespaceNameNotFound { name: n } && opt_string_view(n) == opt_str_view(name)),
            },
    {
        proof {
            lemma_table_facts();
        }
        let n = match name {
            None => {
                return Ok(namespace_at(2));
            },
            Some(n) => n,
        };
        if str_eq(n, "Page") {
            return Ok(namespace_at(2));
        }
        let mut i: usize = 0;
        while i < NAMESPACE_COUNT
            invariant
                i <= NAMESPACE_COUNT,
                n@ != "Page"@,
                name == Some(n),
                namespace_table().len() == NAMESPACE_COUNT,
                forall|j: int| 0 <= j < i ==> namespace_table()[j].name != Some(n@),
            decreases NAMESPACE_COUNT - i,
        {
            let ns = namespace_at(i);
            let found = match ns.name {
                Some(nn) => str_eq(nn, n),
                None => false,
            };
            if found {
                assert(namespace_table()[i as int].name == Some(n@));
                proof {
                    lemma_name_lookup_first(n@, i as int);
                }
                return Ok(ns);
            }
            i = i + 1;
        }
        Err(WikiError::NamespaceNameNotFound { name: Some(n.to_owned()) })
    }

    /// The namespace of a page slug: the text before the first `:`, with
    /// underscores read as spaces, names the namespace.
    pub fn from_page_slug(slug: &str) -> (r: Result<Namespace, WikiError>)
        ensures
            match r {
                Ok(ns) => name_lookup(
                    match prefix_before_colon(slug@) {
                        Some(p) => Some(underscores_to_spaces(p)),
                        None => None,
                    },
                ) == Some(ns@),
                Err(e) => name_lookup(
                    match prefix_before_colon(slug@) {
                        Some(p) => Some(underscores_to_spaces(p)),
                        None => None,
                    },
                ) is None && e is NamespaceNameNotFound,
            },
    {
        let prefix = prefix_of(slug);
        match prefix {
            None => Self::from_name(None),
            Some(p) => {
                let mut out: Vec<char> = Vec::new();
                let mut i: usize = 0;
                while i < p.len()
                    invariant
                        i <= p.len(),
                        out@ == underscores_to_spaces(p@.take(i as int)),
                    decreases p.len() - i,
                {
                    let c = p[i];
                    out.push(if c == '_' { ' ' } else { c });
                    assert(out@ =~= underscores_to_spaces(p@.take((i + 1) as int)));
                    i = i + 1;
                }
                assert(p@.take(p.len() as int) =~= p@);
                let s = string_from_chars(&out);
                Self::from_name(Some(s.as_str()))
            },
        }
    }

    /// The namespace of a page title: the text before the first `:` names
    /// the namespace.
    pub fn from_page_title(title: &str) -> (r: Result<Namespace, WikiError>)
        ensures
            match r {
                Ok(ns) => name_lookup(prefix_before_colon(title@)) == Some(ns@),
                Err(e) => name_lookup(prefix_before_colon(title@)) is None
                    && e is NamespaceNameNotFound,
            },
    {
        match prefix_of(title) {
            None => Self::from_name(None),
            Some(p) => {
                let s = string_from_chars(&p);
                Self::from_name(Some(s.as_str()))
            },
        }
    }
}

/// The view of an optional string slice.
pub open spec fn opt_str_view(o: Option<&str>) -> Option<Seq<char>> {
    match o {
        Some(s) => Some(s@),
        None => None,
    }
}

/// The characters before the first `:` of `s`, if it has one.
fn prefix_of(s: &str) -> (r: Option<Vec<char>>)
    ensures
        match r {
            Some(p) => prefix_before_colon(s@) == Some(p@),
            None => prefix_before_colon(s@) is None,
        },
{
    let v = chars_of(s);
    let mut i: usize = 0;
    while i < v.len()
        invariant
            i <= v.len(),
            v@ == s@,
            forall|j: int| 0 <= j < i ==> v@[j] != ':',
        decreases v.len() - i,
    {
        if v[i] == ':' {
            let mut p: Vec<char> = Vec::new();
            let mut k: usize = 0;
            while k < i
                invariant
                    k <= i < v.len(),
                    p@ == v@.take(k as int),
                decreases i - k,
            {
                p.push(v[k]);
                assert(p@ =~= v@.take((k + 1) as int));
                k = k + 1;
            }
            assert(prefix_before_colon(s@) == Some(p@)) by {
                let c = choose|c: int|
                    0 <= c < s@.len() && s@[c] == ':' && forall|j: int| 0 <= j < c ==> s@[j] != ':';
                if c < i {
                } else if c > i {
                    assert(s@[i as int] == ':');
                }
            }
            return Some(p);
        }
        i = i + 1;
    }
    None
}

proof fn lemma_name_lookup_first(name: Seq<char>, i: int)
    requires
        0 <= i < namespace_table().len(),
        namespace_table()[i].name == Some(name),
        forall|j: int| 0 <= j < i ==> namespace_table()[j].name != Some(name),
        name != "Page"@,
    ensures
        name_lookup(Some(name)) == Some(namespace_table()[i]),
{
    let k = choose|k: int|
        0 <= k < namespace_table().len() && namespace_table()[k].name == Some(name) && forall|j: int|
            0 <= j < k ==> namespace_table()[j].name != Some(name);
    if k < i {
    } else if k > i {
        assert(namespace_table()[i].name == Some(name));
    }
}

/// The table has one entry per known namespace, and the main namespace,
/// which has no name, is at index 2.
pub proof fn lemma_table_facts()
    ensures
        namespace_table().len() == NAMESPACE_COUNT,
        namespace_table()[2].name is None,
        namespace_table()[2].key == 0,
{
    reveal(namespace_table);
}

/// Looking a namespace up by its own key finds it.
pub proof fn lemma_from_key_roundtrip(i: int)
    requires
        0 <= i < NAMESPACE_COUNT,
    ensures
        key_index(namespace_table()[i].key) == Some(i),
{
    reveal(namespace_table);
    let key = namespace_table()[i].key;
    assert(forall|a: int, b: int|
        0 <= a < b < NAMESPACE_COUNT ==> #[trigger] namespace_table()[a].key != #[trigger] namespace_table()[b].key);
    let k = choose|k: int|
        0 <= k < namespace_table().len() && namespace_table()[k].key == key && forall|j: int|
            0 <= j < k ==> namespace_table()[j].key != key;
    if k < i {
        assert(namespace_table()[k].key != namespace_table()[i].key);
    } else if k > i {
        assert(namespace_table()[k].key != namespace_table()[i].key);
    }
}

/// Looking a namespace up by its own name finds it.
#[verifier::rlimit(50)]
pub proof fn lemma_from_name_roundtrip(i: int)
    requires
        0 <= i < NAMESPACE_COUNT,
    ensures
        name_lookup(namespace_table()[i].name) == Some(namespace_table()[i]),
{
    reveal(namespace_table);
    reveal_strlit("Page");
    assert("Page"@.len() == 4 && "Page"@[0] == 'P');
    reveal_strlit("Media");
    assert("Media"@.len() == 5 && "Media"@[0] == 'M');
    reveal_strlit("Special");
    assert("Special"@.len() == 7 && "Special"@[0] == 'S');
    reveal_strlit("Talk");
    assert("Talk"@.len() == 4 && "Talk"@[0] == 'T');
    reveal_strlit("User");
    assert("User"@.len() == 4 && "User"@[0] == 'U');
    reveal_strlit("User talk");
    assert("User talk"@.len() == 9 && "User talk"@[0] == 'U');
    reveal_strlit("Wikipedia");
    assert("Wikipedia"@.len() == 9 && "Wikipedia"@[0] == 'W');
    reveal_strlit("Wikipedia talk");
    assert("Wikipedia talk"@.len() == 14 && "Wikipedia talk"@[0] == 'W');
    reveal_strlit("File");
    assert("File"@.len() == 4 && "File"@[0] == 'F');
    reveal_strlit("File talk");
    assert("File talk"@.len() == 9 && "File talk"@[0] == 'F');
    reveal_strlit("MediaWiki");
    assert("MediaWiki"@.len() == 9 && "MediaWiki"@[0] == 'M');
    reveal_strlit("MediaWiki talk");
    assert("MediaWiki talk"@.len() == 14 && "MediaWiki talk"@[0] == 'M');
    reveal_strlit("Template");
    assert("Template"@.len() == 8 && "Template"@[0] == 'T');
    reveal_strlit("Template talk");
    assert("Template talk"@.len() == 13 && "Template talk"@[0] == 'T');
    reveal_strlit("Help");
    assert("Help"@.len() == 4 && "Help"@[0] == 'H');
    reveal_strlit("Help talk");
    assert("Help talk"@.len() == 9 && "Help talk"@[0] == 'H');
    reveal_strlit("Category");
    assert("Category"@.len() == 8 && "Category"@[0] == 'C');
    reveal_strlit("Category talk");
    assert("Category talk"@.len() == 13 && "Category talk"@[0] == 'C');
    reveal_strlit("TimedText");
    assert("TimedText"@.len() == 9 && "TimedText"@[0] == 'T');
    reveal_strlit("TimedText talk");
    assert("TimedText talk"@.len() == 14 && "TimedText talk"@[0] == 'T');
    reveal_strlit("Module");
    assert("Module"@.len() == 6 && "Module"@[0] == 'M');
    reveal_strlit("Module talk");
    assert("Module talk"@.len() == 11 && "Module talk"@[0] == 'M');
    reveal_strlit("Gadget");
    assert("Gadget"@.len() == 6 && "Gadget"@[0] == 'G');
    reveal_strlit("Gadget talk");
    assert("Gadget talk"@.len() == 11 && "Gadget talk"@[0] == 'G');
    reveal_strlit("Gadget definition");
    assert("Gadget definition"@.len() == 17 && "Gadget definition"@[0] == 'G');
    reveal_strlit("Gadget definition talk");
    assert("Gadget definition talk"@.len() == 22 && "Gadget definition talk"@[0] == 'G');
    if i != 2 {
        let name = namespace_table()[i].name->0;
        assert(name != "Page"@);
        assert forall|j: int| 0 <= j < i implies namespace_table()[j].name != Some(name) by {
        }
        lemma_name_lookup_first(name, i);
    }
}

/// A namespace found by its name is found again by its key: the key of
/// what [`Namespace::from_name`] finds leads [`Namespace::from_key`] to the
/// same namespace, with the same key, name, case rule and talk flag.
pub proof fn lemma_name_then_key(name: Option<Seq<char>>)
    requires
        name_lookup(name) is Some,
    ensures
        key_index(name_lookup(name)->0.key) matches Some(i) && namespace_table()[i] == name_lookup(
            name,
        )->0,
{
    lemma_table_facts();
    if name is None || name == Some("Page"@) {
        lemma_from_key_roundtrip(2);
    } else {
        let k = choose|i: int|
            0 <= i < namespace_table().len() && namespace_table()[i].name == name && forall|j: int|
                0 <= j < i ==> namespace_table()[j].name != name;
        lemma_from_key_roundtrip(k);
    }
}

/// A slug's prefix is its title's prefix: replacing `_` by spaces changes
/// no `:`, so the part before the first `:` of the title is that of the
/// slug with its `_` replaced.
pub proof fn lemma_slug_prefix_is_title_prefix(s: Seq<char>)
    ensures
        prefix_before_colon(underscores_to_spaces(s)) == match prefix_before_colon(s) {
            Some(p) => Some(underscores_to_spaces(p)),
            None => None,
        },
{
    let t = underscores_to_spaces(s);
    assert forall|i: int| 0 <= i < s.len() implies (t[i] == ':') == (s[i] == ':') by {}
    if exists|i: int| 0 <= i < s.len() && s[i] == ':' {
        let i = choose|i: int| 0 <= i < s.len() && s[i] == ':' && forall|j: int| 0 <= j < i ==> s[j] != ':';
        assert(0 <= i < s.len() && s[i] == ':' && forall|j: int| 0 <= j < i ==> s[j] != ':') by {
            lemma_first_colon(s);
        }
        assert(t[i] == ':');
        lemma_first_colon(t);
        let k = choose|k: int| 0 <= k < t.len() && t[k] == ':' && forall|j: int| 0 <= j < k ==> t[j] != ':';
        if k < i {
            assert(s[k] == ':');
        } else if k > i {
            assert(t[i] != ':');
        }
        assert(t.take(i) =~= underscores_to_spaces(s.take(i)));
    } else {
        assert forall|k: int| 0 <= k < t.len() implies t[k] != ':' by {
            assert(s[k] != ':');
        }
    }
}

/// A text with a `:` among its first `n` characters has a first `:`.
proof fn lemma_first_colon_within(s: Seq<char>, n: int)
    requires
        0 <= n <= s.len(),
        exists|i: int| 0 <= i < n && s[i] == ':',
    ensures
        exists|i: int| 0 <= i < s.len() && s[i] == ':' && forall|j: int| 0 <= j < i ==> s[j] != ':',
    decreases n,
{
    if exists|i: int| 0 <= i < n - 1 && s[i] == ':' {
        lemma_first_colon_within(s, n - 1);
    } else {
        let w = choose|i: int| 0 <= i < n && s[i] == ':';
        assert(w == n - 1);
        assert(0 <= w < s.len() && s[w] == ':' && forall|j: int| 0 <= j < w ==> s[j] != ':');
    }
}

/// A text with a `:` has a first one.
proof fn lemma_first_colon(s: Seq<char>)
    requires
        exists|i: int| 0 <= i < s.len() && s[i] == ':',
    ensures
        exists|i: int| 0 <= i < s.len() && s[i] == ':' && forall|j: int| 0 <= j < i ==> s[j] != ':',
{
    lemma_first_colon_within(s, s.len() as int);
}

/// A page's namespace from its slug is the one from its title:
/// [`Namespace::from_page_slug`] of a slug finds what
/// [`Namespace::from_page_title`] finds for the slug with `_` replaced by
/// spaces.
pub proof fn lemma_from_page_slug_is_from_page_title(slug: Seq<char>)
    ensures
        name_lookup(
            match prefix_before_colon(slug) {
                Some(p) => Some(underscores_to_spaces(p)),
                None => None,
            },
        ) == name_lookup(prefix_before_colon(underscores_to_spaces(slug))),
{
    lemma_slug_prefix_is_title_prefix(slug);
}

/// A namespace is a talk namespace exactly when its key is positive and
/// odd (Talk 1, User talk 3, ..., Gadget definition talk 2303): each
/// subject namespace of key `k >= 0` has its talk namespace at `k + 1`.
/// And its case rule is per letter, but for the gadget namespaces (keys
/// 2300 to 2303), whose names are case-sensitive.
pub proof fn lemma_talk_namespaces_have_odd_keys(i: int)
    requires
        0 <= i < NAMESPACE_COUNT,
    ensures
        namespace_table()[i].talk == (namespace_table()[i].key > 0 && namespace_table()[i].key % 2
            == 1),
        (namespace_table()[i].case == Case::CaseSensitive) == (2300 <= namespace_table()[i].key
            <= 2303),
{
    reveal(namespace_table);
}

/// What [`Namespace::talk`] answers for a namespace found by its key: a
/// talk namespace exactly when the key is positive and odd.
pub proof fn lemma_from_key_talk(key: int)
    requires
        key_index(key) is Some,
    ensures
        namespace_table()[key_index(key)->0].key == key,
        namespace_table()[key_index(key)->0].talk == (key > 0 && key % 2 == 1),
{
    lemma_table_facts();
    let i = key_index(key)->0;
    assert(0 <= i < namespace_table().len() && namespace_table()[i].key == key);
    lemma_talk_namespaces_have_odd_keys(i);
}

} // verus!
