//! Localisation catalogs: keyed texts and text lists, looked up by language
//! with English as the fallback, and `${name}` placeholders filled in.

use vstd::prelude::*;
use crate::config_types::Language;
use crate::text::{concat3, copy_strings, insert_sorted, same_text, strictly_sorted, text_of, views};

verus! {

/// A node of a catalog document: a table of named nodes, a text, a list,
/// or a value of another kind.
#[derive(Debug)]
pub enum CatalogNode {
    Table(Vec<(String, CatalogNode)>),
    Text(String),
    List(Vec<CatalogNode>),
    Other,
}

/// A value a catalog holds under a key.
#[derive(Debug, Clone, PartialEq, Eq)]
pub enum CatalogValue {
    Text(String),
    List(Vec<String>),
}

/// The model of a catalog value.
pub enum Leaf {
    Text(Seq<char>),
    List(Seq<Seq<char>>),
}

pub open spec fn leaf_of(v: CatalogValue) -> Leaf {
    match v {
        CatalogValue::Text(s) => Leaf::Text(s@),
        CatalogValue::List(l) => Leaf::List(l@.map_values(|s: String| s@)),
    }
}

/// Whether two entries hold values of the same kind.
pub open spec fn same_kind(a: Leaf, b: Leaf) -> bool {
    (a is Text && b is Text) || (a is List && b is List)
}

/// No key holds two values of one kind.
pub open spec fn no_clash(s: Seq<(Seq<char>, Leaf)>) -> bool {
    forall|i: int, j: int|
        0 <= i < j < s.len() ==> !(#[trigger] s[i].0 == #[trigger] s[j].0 && same_kind(
            s[i].1,
            s[j].1,
        ))
}

/// The key of a node named `key` under `prefix`.
pub open spec fn key_under(prefix: Option<Seq<char>>, key: Seq<char>) -> Seq<char> {
    match prefix {
        Some(p) => p + seq!['.'] + key,
        None => key,
    }
}

pub open spec fn text_items(items: Seq<CatalogNode>) -> Seq<Seq<char>> {
    items.map_values(
        |n: CatalogNode|
            match n {
                CatalogNode::Text(s) => s@,
                _ => Seq::<char>::empty(),
            },
    )
}

/// Whether a node can stand in a catalog under `prefix`: every text and
/// list is keyed, lists hold texts only, and nothing is of another kind.
pub open spec fn node_ok(prefix: Option<Seq<char>>, node: CatalogNode) -> bool
    decreases node,
{
    match node {
        CatalogNode::Table(v) => entries_ok(prefix, v@),
        CatalogNode::Text(_) => prefix is Some,
        CatalogNode::List(items) => prefix is Some && forall|i: int|
            0 <= i < items@.len() ==> #[trigger] items@[i] is Text,
        CatalogNode::Other => false,
    }
}

pub open spec fn entries_ok(prefix: Option<Seq<char>>, s: Seq<(String, CatalogNode)>) -> bool
    decreases s,
{
    if s.len() == 0 {
        true
    } else {
        entries_ok(prefix, s.drop_last()) && node_ok(
            Some(key_under(prefix, s.last().0@)),
            s.last().1,
        )
    }
}

/// The keyed values of a node under `prefix`, in document order.
pub open spec fn node_leaves(prefix: Option<Seq<char>>, node: CatalogNode) -> Seq<
    (Seq<char>, Leaf),
>
    decreases node,
{
    match node {
        CatalogNode::Table(v) => entries_leaves(prefix, v@),
        CatalogNode::Text(s) => match prefix {
            Some(p) => seq![(p, Leaf::Text(s@))],
            None => Seq::empty(),
        },
        CatalogNode::List(items) => match prefix {
            Some(p) => seq![(p, Leaf::List(text_items(items@)))],
            None => Seq::empty(),
        },
        CatalogNode::Other => Seq::empty(),
    }
}

pub open spec fn entries_leaves(prefix: Option<Seq<char>>, s: Seq<(String, CatalogNode)>) -> Seq<
    (Seq<char>, Leaf),
>
    decreases s,
{
    if s.len() == 0 {
        Seq::empty()
    } else {
        entries_leaves(prefix, s.drop_last()) + node_leaves(
            Some(key_under(prefix, s.last().0@)),
            s.last().1,
        )
    }
}

/// The first text stored under `key`.
pub open spec fn find_text(s: Seq<(Seq<char>, Leaf)>, key: Seq<char>) -> Option<Seq<char>>
    decreases s.len(),
{
    if s.len() == 0 {
        None
    } else if s[0].0 == key && s[0].1 is Text {
        Some(s[0].1->Text_0)
    } else {
        find_text(s.drop_first(), key)
    }
}

/// The first list stored under `key`.
pub open spec fn find_list(s: Seq<(Seq<char>, Leaf)>, key: Seq<char>) -> Option<Seq<Seq<char>>>
    decreases s.len(),
{
    if s.len() == 0 {
        None
    } else if s[0].0 == key && s[0].1 is List {
        Some(s[0].1->List_0)
    } else {
        find_list(s.drop_first(), key)
    }
}

/// A catalog of one language: keyed texts and keyed text lists.
pub struct Catalog {
    entries: Vec<(String, CatalogValue)>,
}

impl View for Catalog {
    type V = Seq<(Seq<char>, Leaf)>;

    closed spec fn view(&self) -> Seq<(Seq<char>, Leaf)> {
        self.entries@.map_values(|e: (String, CatalogValue)| (e.0@, leaf_of(e.1)))
    }
}

impl Catalog {
    /// An empty catalog.
    pub fn new() -> (r: Catalog)
        ensures
            r@ == Seq::<(Seq<char>, Leaf)>::empty(),
    {
        let r = Catalog { entries: Vec::new() };
        assert(r@ =~= Seq::<(Seq<char>, Leaf)>::empty());
        r
    }

    /// Whether the catalog holds a value of the kind of `value` under `key`.
    fn holds(&self, key: &str, text: bool) -> (r: bool)
        ensures
            r == exists|i: int|
                0 <= i < self@.len() && #[trigger] self@[i].0 == key@ && (self@[i].1 is Text
                    == text),
    {
        let mut i: usize = 0;
        while i < self.entries.len()
            invariant
                i <= self.entries.len(),
                self@.len() == self.entries@.len(),
                forall|k: int|
                    0 <= k < i ==> !(#[trigger] self@[k].0 == key@ && (self@[k].1 is Text
                        == text)),
            decreases self.entries.len() - i,
        {
            let e = &self.entries[i];
            let kind_matches = match &e.1 {
                CatalogValue::Text(_) => text,
                CatalogValue::List(_) => !text,
            };
            if kind_matches && same_text(e.0.as_str(), key) {
                assert(self@[i as int].0 == key@);
                return true;
            }
            i = i + 1;
        }
        false
    }

    fn push_entry(&mut self, key: String, value: CatalogValue)
        ensures
            final(self)@ == old(self)@.push((key@, leaf_of(value))),
    {
        self.entries.push((key, value));
        assert(final(self)@ =~= old(self)@.push((key@, leaf_of(value))));
    }

    /// Looks up the text stored under `key`.
    pub fn lookup_text(&self, key: &str) -> (r: Option<String>)
        ensures
            r is Some <==> find_text(self@, key@) is Some,
            r is Some ==> r->Some_0@ == find_text(self@, key@)->Some_0,
    {
        let mut i: usize = 0;
        assert(self@.subrange(0, self@.len() as int) =~= self@);
        while i < self.entries.len()
            invariant
                i <= self.entries.len(),
                self@.len() == self.entries@.len(),
                find_text(self@, key@) == find_text(self@.subrange(i as int, self@.len() as int), key@),
            decreases self.entries.len() - i,
        {
            let ghost rest = self@.subrange(i as int, self@.len() as int);
            assert(rest.drop_first() =~= self@.subrange(i as int + 1, self@.len() as int));
            let e = &self.entries[i];
            if let CatalogValue::Text(t) = &e.1 {
                if same_text(e.0.as_str(), key) {
                    return Some(t.clone());
                }
            }
            i = i + 1;
        }
        None
    }

    /// Looks up the list stored under `key`.
    pub fn lookup_list(&self, key: &str) -> (r: Option<Vec<String>>)
        ensures
            r is Some <==> find_list(self@, key@) is Some,
            r is Some ==> r->Some_0@.map_values(|s: String| s@) == find_list(self@, key@)->Some_0,
    {
        let mut i: usize = 0;
        assert(self@.subrange(0, self@.len() as int) =~= self@);
        while i < self.entries.len()
            invariant
                i <= self.entries.len(),
                self@.len() == self.entries@.len(),
                find_list(self@, key@) == find_list(self@.subrange(i as int, self@.len() as int), key@),
            decreases self.entries.len() - i,
        {
            let ghost rest = self@.subrange(i as int, self@.len() as int);
            assert(rest.drop_first() =~= self@.subrange(i as int + 1, self@.len() as int));
            let e = &self.entries[i];
            if let CatalogValue::List(l) = &e.1 {
                if same_text(e.0.as_str(), key) {
                    let c = copy_strings(l);
                    return Some(c);
                }
            }
            i = i + 1;
        }
        None
    }
}

/// Stores a text under `key`; refused (and `false`) where the catalog
/// already holds a text under that key.
pub fn insert_string(key: &str, value: &str, catalog: &mut Catalog) -> (r: bool)
    ensures
        r == !exists|i: int|
            0 <= i < old(catalog)@.len() && #[trigger] old(catalog)@[i].0 == key@ && old(
                catalog,
            )@[i].1 is Text,
        r ==> final(catalog)@ == old(catalog)@.push((key@, Leaf::Text(value@))),
        !r ==> final(catalog)@ == old(catalog)@,
{
    if catalog.holds(key, true) {
        return false;
    }
    catalog.push_entry(String::from_str(key), CatalogValue::Text(String::from_str(value)));
    true
}

/// Stores a list under `key`; refused (and `false`) where the catalog
/// already holds a list under that key.
pub fn insert_list(key: &str, value: Vec<String>, catalog: &mut Catalog) -> (r: bool)
    ensures
        r == !exists|i: int|
            0 <= i < old(catalog)@.len() && #[trigger] old(catalog)@[i].0 == key@ && old(
                catalog,
            )@[i].1 is List,
        r ==> final(catalog)@ == old(catalog)@.push(
            (key@, Leaf::List(value@.map_values(|s: String| s@))),
        ),
        !r ==> final(catalog)@ == old(catalog)@,
{
    if catalog.holds(key, false) {
        return false;
    }
    catalog.push_entry(String::from_str(key), CatalogValue::List(value));
    true
}


pub open spec fn opt_view(p: Option<&str>) -> Option<Seq<char>> {
    match p {
        Some(s) => Some(s@),
        None => None,
    }
}

fn join_key(prefix: Option<&str>, key: &str) -> (r: String)
    ensures
        r@ == key_under(opt_view(prefix), key@),
{
    match prefix {
        Some(p) => {
            let r = concat3(p, ".", key);
            proof {
                reveal_strlit(".");
            }
            assert(r@ =~= p@ + seq!['.'] + key@);
            r
        },
        None => String::from_str(key),
    }
}

proof fn lemma_no_clash_prefix(a: Seq<(Seq<char>, Leaf)>, t: Seq<(Seq<char>, Leaf)>)
    requires
        no_clash(a + t),
    ensures
        no_clash(a),
{
    assert forall|i: int, j: int| 0 <= i < j < a.len() implies !(#[trigger] a[i].0
        == #[trigger] a[j].0 && same_kind(a[i].1, a[j].1)) by {
        assert((a + t)[i] == a[i]);
        assert((a + t)[j] == a[j]);
    }
}

proof fn lemma_no_clash_push(s: Seq<(Seq<char>, Leaf)>, x: (Seq<char>, Leaf))
    requires
        no_clash(s),
    ensures
        no_clash(s.push(x)) <==> !exists|i: int|
            0 <= i < s.len() && #[trigger] s[i].0 == x.0 && same_kind(s[i].1, x.1),
{
    let t = s.push(x);
    if exists|i: int| 0 <= i < s.len() && #[trigger] s[i].0 == x.0 && same_kind(s[i].1, x.1) {
        let i = choose|i: int| 0 <= i < s.len() && #[trigger] s[i].0 == x.0 && same_kind(s[i].1, x.1);
        assert(t[i] == s[i]);
        assert(t[s.len() as int] == x);
    } else {
        assert forall|i: int, j: int| 0 <= i < j < t.len() implies !(#[trigger] t[i].0
            == #[trigger] t[j].0 && same_kind(t[i].1, t[j].1)) by {
            if j < s.len() {
                assert(t[i] == s[i]);
                assert(t[j] == s[j]);
            } else {
                assert(t[i] == s[i]);
            }
        }
    }
}

proof fn lemma_entries_ok_prefix(p: Option<Seq<char>>, s: Seq<(String, CatalogNode)>, k: int)
    requires
        0 <= k <= s.len(),
        entries_ok(p, s),
    ensures
        entries_ok(p, s.subrange(0, k)),
    decreases s.len(),
{
    if k < s.len() {
        lemma_entries_ok_prefix(p, s.drop_last(), k);
        assert(s.drop_last().subrange(0, k) =~= s.subrange(0, k));
    } else {
        assert(s.subrange(0, k) =~= s);
    }
}

proof fn lemma_entries_leaves_prefix(p: Option<Seq<char>>, s: Seq<(String, CatalogNode)>, k: int)
    requires
        0 <= k <= s.len(),
    ensures
        exists|t: Seq<(Seq<char>, Leaf)>| entries_leaves(p, s) == entries_leaves(
            p,
            s.subrange(0, k),
        ) + t,
    decreases s.len(),
{
    if k < s.len() {
        lemma_entries_leaves_prefix(p, s.drop_last(), k);
        assert(s.drop_last().subrange(0, k) =~= s.subrange(0, k));
        let t = choose|t: Seq<(Seq<char>, Leaf)>| entries_leaves(p, s.drop_last())
            == entries_leaves(p, s.drop_last().subrange(0, k)) + t;
        let last = node_leaves(Some(key_under(p, s.last().0@)), s.last().1);
        assert(entries_leaves(p, s) =~= entries_leaves(p, s.subrange(0, k)) + (t + last));
    } else {
        assert(s.subrange(0, k) =~= s);
        assert(entries_leaves(p, s) =~= entries_leaves(p, s.subrange(0, k)) + Seq::empty());
    }
}

/// Adds the keyed values of a catalog document to `catalog`: a table's
/// entries are keyed by their dotted path, texts and lists by the key they
/// stand under. It fails where a value is unkeyed, a list holds a non-text,
/// a value is of another kind, or a key would hold two values of one kind.
pub fn flatten(prefix: Option<&str>, node: &CatalogNode, catalog: &mut Catalog) -> (r: Result<
    (),
    String,
>)
    requires
        no_clash(old(catalog)@),
    ensures
        r is Ok <==> node_ok(opt_view(prefix), *node) && no_clash(
            old(catalog)@ + node_leaves(opt_view(prefix), *node),
        ),
        r is Ok ==> final(catalog)@ == old(catalog)@ + node_leaves(opt_view(prefix), *node),
        no_clash(final(catalog)@),
    decreases node,
{
    let ghost p = opt_view(prefix);
    let ghost start = catalog@;
    match node {
        CatalogNode::Table(v) => {
            let mut i: usize = 0;
            assert(catalog@ =~= start + entries_leaves(p, v@.subrange(0, 0)));
            while i < v.len()
                invariant
                    i <= v.len(),
                    p == opt_view(prefix),
                    *node == CatalogNode::Table(*v),
                    start == old(catalog)@,
                    no_clash(start),
                    catalog@ == start + entries_leaves(p, v@.subrange(0, i as int)),
                    entries_ok(p, v@.subrange(0, i as int)),
                    no_clash(catalog@),
                decreases v.len() - i,
            {
                let next = join_key(prefix, v[i].0.as_str());
                let ghost before = catalog@;
                let ghost sub = v@.subrange(0, i as int + 1);
                proof {
                    assert(sub.drop_last() =~= v@.subrange(0, i as int));
                    assert(sub.last() == v@[i as int]);
                    assert(decreases_to!(*node => node->Table_0));
                    assert(decreases_to!(*v => v@));
                    assert(decreases_to!(v@ => v@[i as int]));
                    assert(decreases_to!(v@[i as int] => v@[i as int].1));
                }
                let next_str = next.as_str();
                assert(opt_view(Some(next_str)) == Some(next@));
                let res = flatten(Some(next_str), &v[i].1, catalog);
                let ghost leaves_i = node_leaves(Some(next@), v@[i as int].1);
                assert(entries_leaves(p, sub) == entries_leaves(p, v@.subrange(0, i as int))
                    + leaves_i);
                if let Err(m) = res {
                    proof {
                        if node_ok(p, *node) && no_clash(start + node_leaves(p, *node)) {
                            lemma_entries_ok_prefix(p, v@, i as int + 1);
                            lemma_entries_leaves_prefix(p, v@, i as int + 1);
                            let t = choose|t: Seq<(Seq<char>, Leaf)>| entries_leaves(p, v@)
                                == entries_leaves(p, sub) + t;
                            assert(entries_ok(p, sub));
                            assert(node_ok(Some(next@), v@[i as int].1));
                            assert(node_leaves(p, *node) == entries_leaves(p, v@));
                            assert(start + node_leaves(p, *node) =~= (before + leaves_i) + t);
                            lemma_no_clash_prefix(before + leaves_i, t);
                            assert(no_clash(before + leaves_i));
                        }
                    }
                    return Err(m);
                }
                assert(catalog@ =~= start + entries_leaves(p, sub));
                i = i + 1;
            }
            assert(v@.subrange(0, v@.len() as int) =~= v@);
            Ok(())
        },
        CatalogNode::Text(t) => {
            match prefix {
                Some(key) => {
                    proof {
                        lemma_no_clash_push(catalog@, (key@, Leaf::Text(t@)));
                        assert(seq![(key@, Leaf::Text(t@))] =~= node_leaves(p, *node));
                        assert(catalog@.push((key@, Leaf::Text(t@))) =~= catalog@ + node_leaves(
                            p,
                            *node,
                        ));
                    }
                    if insert_string(key, t.as_str(), catalog) {
                        Ok(())
                    } else {
                        Err(concat3("duplicate i18n key: ", key, ""))
                    }
                },
                None => Err(text_of("i18n values must be keyed")),
            }
        },
        CatalogNode::List(items) => {
            let mut texts: Vec<String> = Vec::new();
            let mut j: usize = 0;
            while j < items.len()
                invariant
                    j <= items.len(),
                    p == opt_view(prefix),
                    *node == CatalogNode::List(*items),
                    catalog@ == start,
                    no_clash(start),
                    texts@.map_values(|s: String| s@) == text_items(items@.subrange(0, j as int)),
                    forall|k: int| 0 <= k < j ==> #[trigger] items@[k] is Text,
                decreases items.len() - j,
            {
                match &items[j] {
                    CatalogNode::Text(t) => {
                        let ghost before = texts@;
                        texts.push(t.clone());
                        assert(items@.subrange(0, j as int + 1) =~= items@.subrange(0, j as int).push(items@[j as int]));
                        assert(text_items(items@.subrange(0, j as int + 1)) =~= text_items(items@.subrange(0, j as int)).push(t@));
                        assert(texts@.map_values(|s: String| s@) =~= before.map_values(|s: String| s@).push(t@));
                    },
                    _ => {
                        assert(!(items@[j as int] is Text));
                        return Err(text_of("i18n list values must be strings"));
                    },
                }
                j = j + 1;
            }
            assert(items@.subrange(0, items@.len() as int) =~= items@);
            match prefix {
                Some(key) => {
                    let ghost x = (key@, Leaf::List(texts@.map_values(|s: String| s@)));
                    proof {
                        lemma_no_clash_push(catalog@, x);
                        assert(seq![x] =~= node_leaves(p, *node));
                        assert(catalog@.push(x) =~= catalog@ + node_leaves(p, *node));
                    }
                    if insert_list(key, texts, catalog) {
                        Ok(())
                    } else {
                        Err(concat3("duplicate i18n list key: ", key, ""))
                    }
                },
                None => Err(text_of("i18n lists must be keyed")),
            }
        },
        CatalogNode::Other => Err(text_of("unsupported i18n value type")),
    }
}

impl Catalog {
    /// The catalog that a document describes.
    pub fn from_node(node: &CatalogNode) -> (r: Result<Catalog, String>)
        ensures
            r is Ok <==> node_ok(None, *node) && no_clash(node_leaves(None, *node)),
            r is Ok ==> r->Ok_0@ == node_leaves(None, *node),
    {
        let mut c = Catalog::new();
        let res = flatten(None, node, &mut c);
        assert(Seq::<(Seq<char>, Leaf)>::empty() + node_leaves(None, *node) =~= node_leaves(
            None,
            *node,
        ));
        match res {
            Ok(()) => Ok(c),
            Err(m) => Err(m),
        }
    }
}


impl Catalog {
    /// Every key of the catalog, texts and lists alike, once each, in
    /// ascending order.
    pub fn keys(&self) -> (r: Vec<String>)
        ensures
            strictly_sorted(views(r@), false),
            forall|k: Seq<char>|
                views(r@).contains(k) <==> exists|i: int| 0 <= i < self@.len() && #[trigger] self@[i].0 == k,
    {
        let mut r: Vec<String> = Vec::new();
        let mut i: usize = 0;
        while i < self.entries.len()
            invariant
                i <= self.entries.len(),
                self@.len() == self.entries@.len(),
                strictly_sorted(views(r@), false),
                forall|k: Seq<char>|
                    views(r@).contains(k) <==> exists|j: int| 0 <= j < i && #[trigger] self@[j].0 == k,
            decreases self.entries.len() - i,
        {
            let key = self.entries[i].0.clone();
            let ghost before = views(r@);
            insert_sorted(&mut r, key, false);
            assert forall|k: Seq<char>|
                views(r@).contains(k) <==> exists|j: int| 0 <= j < i + 1 && #[trigger] self@[j].0 == k by {
                if k == self@[i as int].0 {
                    assert(views(r@).contains(k));
                }
                if exists|j: int| 0 <= j < i + 1 && #[trigger] self@[j].0 == k {
                    let j = choose|j: int| 0 <= j < i + 1 && #[trigger] self@[j].0 == k;
                    if j < i {
                        assert(before.contains(k));
                    }
                }
            }
            i = i + 1;
        }
        r
    }
}

/// The value an argument list gives a placeholder name: the first match.
pub open spec fn arg_value(args: Seq<(Seq<char>, Seq<char>)>, key: Seq<char>) -> Option<Seq<char>>
    decreases args.len(),
{
    if args.len() == 0 {
        None
    } else if args[0].0 == key {
        Some(args[0].1)
    } else {
        arg_value(args.drop_first(), key)
    }
}

/// The names and values of an argument list.
pub open spec fn arg_views(args: Seq<(&str, &str)>) -> Seq<(Seq<char>, Seq<char>)> {
    args.map_values(|a: (&str, &str)| (a.0@, a.1@))
}

/// Index of the first `${` at or after `i`, or the length where there is none.
pub open spec fn find_open(t: Seq<char>, i: int) -> int
    decreases t.len() - i,
{
    if i < 0 || i + 1 >= t.len() {
        t.len() as int
    } else if t[i] == '$' && t[i + 1] == '{' {
        i
    } else {
        find_open(t, i + 1)
    }
}

/// Index of the first `}` at or after `j`, or the length where there is none.
pub open spec fn find_close(t: Seq<char>, j: int) -> int
    decreases t.len() - j,
{
    if j < 0 || j >= t.len() {
        t.len() as int
    } else if t[j] == '}' {
        j
    } else {
        find_close(t, j + 1)
    }
}

/// What a placeholder named `key` becomes: its argument's value, or the
/// placeholder itself where no argument has that name.
pub open spec fn replacement(key: Seq<char>, args: Seq<(Seq<char>, Seq<char>)>) -> Seq<char> {
    match arg_value(args, key) {
        Some(v) => v,
        None => seq!['$', '{'] + key + seq!['}'],
    }
}

/// `t[i..]` with each closed `${name}` placeholder replaced; an unclosed
/// `${` and all that follows it stay as they are.
pub open spec fn interpolated(t: Seq<char>, args: Seq<(Seq<char>, Seq<char>)>, i: int) -> Seq<char>
    decreases t.len() - i,
{
    if i < 0 || i >= t.len() {
        Seq::empty()
    } else {
        let p = find_open(t, i);
        let q = find_close(t, p + 2);
        if p >= t.len() || p < i || q >= t.len() || q < p + 2 {
            t.subrange(i, t.len() as int)
        } else {
            t.subrange(i, p) + replacement(t.subrange(p + 2, q), args) + interpolated(
                t,
                args,
                q + 1,
            )
        }
    }
}

fn find_open_at(t: &str, n: usize, i: usize) -> (r: usize)
    requires
        n == t@.len(),
        i <= n,
    ensures
        r == find_open(t@, i as int),
        i <= r <= n,
        r < n ==> r + 1 < n,
{
    let mut k = i;
    while k < n && k + 1 < n && !(t.get_char(k) == '$' && t.get_char(k + 1) == '{')
        invariant
            i <= k <= n,
            n == t@.len(),
            find_open(t@, k as int) == find_open(t@, i as int),
        decreases n - k,
    {
        k = k + 1;
    }
    if k < n && k + 1 < n {
        k
    } else {
        n
    }
}

fn find_close_at(t: &str, n: usize, j: usize) -> (r: usize)
    requires
        n == t@.len(),
        j <= n,
    ensures
        r == find_close(t@, j as int),
        j <= r <= n,
{
    let mut k = j;
    while k < n && t.get_char(k) != '}'
        invariant
            j <= k <= n,
            n == t@.len(),
            find_close(t@, k as int) == find_close(t@, j as int),
        decreases n - k,
    {
        k = k + 1;
    }
    k
}

fn arg_lookup<'a>(args: &[(&'a str, &'a str)], key: &str) -> (r: Option<&'a str>)
    ensures
        r is Some <==> arg_value(arg_views(args@), key@) is Some,
        r is Some ==> r->Some_0@ == arg_value(arg_views(args@), key@)->Some_0,
{
    let mut i: usize = 0;
    let ghost a = arg_views(args@);
    assert(a.subrange(0, a.len() as int) =~= a);
    while i < args.len()
        invariant
            i <= args@.len(),
            a == arg_views(args@),
            arg_value(a, key@) == arg_value(a.subrange(i as int, a.len() as int), key@),
        decreases args.len() - i,
    {
        let ghost rest = a.subrange(i as int, a.len() as int);
        assert(rest.drop_first() =~= a.subrange(i as int + 1, a.len() as int));
        assert(rest[0] == (args@[i as int].0@, args@[i as int].1@));
        let (name, value) = args[i];
        if same_text(name, key) {
            return Some(value);
        }
        i = i + 1;
    }
    None
}

/// Fills `${name}` placeholders from `args`; a placeholder without an
/// argument stays as written, and an unclosed `${` ends the filling.
pub fn interpolate(template: &str, args: &[(&str, &str)]) -> (r: String)
    ensures
        r@ == interpolated(template@, arg_views(args@), 0),
{
    let n = template.unicode_len();
    let mut out = String::new();
    let mut i: usize = 0;
    while i < n
        invariant
            i <= n,
            n == template@.len(),
            out@ + interpolated(template@, arg_views(args@), i as int) == interpolated(template@, arg_views(args@), 0),
        decreases n - i,
    {
        let ghost t = template@;
        let ghost av = arg_views(args@);
        let p = find_open_at(template, n, i);
        if p >= n {
            out.append(template.substring_char(i, n));
            assert(interpolated(t, av, n as int) =~= Seq::<char>::empty());
            return out;
        }
        let q = find_close_at(template, n, p + 2);
        if q >= n {
            out.append(template.substring_char(i, n));
            return out;
        }
        let ghost out0 = out@;
        out.append(template.substring_char(i, p));
        let key = template.substring_char(p + 2, q);
        match arg_lookup(args, key) {
            Some(v) => out.append(v),
            None => {
                out.append("${");
                out.append(key);
                out.append("}");
                proof {
                    reveal_strlit("${");
                    reveal_strlit("}");
                }
            },
        }
        assert(out@ =~= out0 + t.subrange(i as int, p as int) + replacement(
            t.subrange(p as int + 2, q as int),
            av,
        ));
        assert(out@ + interpolated(t, av, q as int + 1) =~= out0 + interpolated(t, av, i as int));
        i = q + 1;
    }
    assert(interpolated(template@, arg_views(args@), n as int) =~= Seq::<char>::empty());
    assert(out@ + Seq::<char>::empty() =~= out@);
    out
}


/// The catalogs of every language, injected where text is looked up.
pub struct Catalogs {
    pub en: Catalog,
    pub zh_cn: Catalog,
}

impl Catalogs {
    pub open spec fn of(&self, language: Language) -> Seq<(Seq<char>, Leaf)> {
        match language {
            Language::En => self.en@,
            Language::ZhCn => self.zh_cn@,
        }
    }

    fn catalog(&self, language: Language) -> (r: &Catalog)
        ensures
            r@ == self.of(language),
    {
        match language {
            Language::En => &self.en,
            Language::ZhCn => &self.zh_cn,
        }
    }
}

/// The text of `key`: the language's own, else the English one.
pub open spec fn looked_up(c: Catalogs, language: Language, key: Seq<char>) -> Option<Seq<char>> {
    match find_text(c.of(language), key) {
        Some(t) => Some(t),
        None => find_text(c.en@, key),
    }
}

/// The text shown for `key`: the looked-up text, or the key itself.
pub open spec fn translated(c: Catalogs, language: Language, key: Seq<char>) -> Seq<char> {
    match looked_up(c, language, key) {
        Some(t) => t,
        None => key,
    }
}

/// Looks up the text of `key` in the language's catalog, then in English.
pub fn lookup(catalogs: &Catalogs, language: Language, key: &str) -> (r: Option<String>)
    ensures
        r is Some <==> looked_up(*catalogs, language, key@) is Some,
        r is Some ==> r->Some_0@ == looked_up(*catalogs, language, key@)->Some_0,
{
    match catalogs.catalog(language).lookup_text(key) {
        Some(t) => Some(t),
        None => catalogs.en.lookup_text(key),
    }
}

/// The text of `key`; the key itself where no catalog has it.
pub fn tr(catalogs: &Catalogs, language: Language, key: &str) -> (r: String)
    ensures
        r@ == translated(*catalogs, language, key@),
{
    match lookup(catalogs, language, key) {
        Some(t) => t,
        None => String::from_str(key),
    }
}

/// The text of `key` with its placeholders filled from `args`.
pub fn tr_args(catalogs: &Catalogs, language: Language, key: &str, args: &[(&str, &str)]) -> (r:
    String)
    ensures
        r@ == interpolated(translated(*catalogs, language, key@), arg_views(args@), 0),
{
    let template = tr(catalogs, language, key);
    interpolate(template.as_str(), args)
}

/// The list of `key`: the language's own, else the English one, else empty.
pub fn tr_list(catalogs: &Catalogs, language: Language, key: &str) -> (r: Vec<String>)
    ensures
        find_list(catalogs.of(language), key@) is Some ==> views(r@) == find_list(
            catalogs.of(language),
            key@,
        )->Some_0,
        find_list(catalogs.of(language), key@) is None && find_list(catalogs.en@, key@) is Some
            ==> views(r@) == find_list(catalogs.en@, key@)->Some_0,
        find_list(catalogs.of(language), key@) is None && find_list(catalogs.en@, key@) is None
            ==> r@.len() == 0,
{
    if let Some(list) = catalogs.catalog(language).lookup_list(key) {
        return list;
    }
    if let Some(list) = catalogs.en.lookup_list(key) {
        return list;
    }
    Vec::new()
}

/// The name of language `target`, written in language `ui_language`.
pub fn language_name(catalogs: &Catalogs, ui_language: Language, target: Language) -> (r: String)
    ensures
        target == Language::En ==> r@ == translated(*catalogs, ui_language, "language.name.en"@),
        target == Language::ZhCn ==> r@ == translated(
            *catalogs,
            ui_language,
            "language.name.zh_cn"@,
        ),
{
    match target {
        Language::En => tr(catalogs, ui_language, "language.name.en"),
        Language::ZhCn => tr(catalogs, ui_language, "language.name.zh_cn"),
    }
}

} // verus!
