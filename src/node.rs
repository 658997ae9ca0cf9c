//! A tagged tree of configuration values, and its mathematical model.

use vstd::prelude::*;

verus! {

/// The model of a configuration value: what a document holds, with no
/// machine representation.
pub ghost enum Tree {
    Str(Seq<char>),
    Integer(int),
    Boolean(bool),
    Array(Seq<Tree>),
    Table(Seq<(Seq<char>, Tree)>),
    /// A value of a kind that no setting reads (a float, a date).
    Other,
}

/// A configuration value as it is held in memory.
#[derive(Debug)]
pub enum Node {
    Str(String),
    Integer(i64),
    Boolean(bool),
    Array(Vec<Node>),
    /// The entries of a table, in the order in which they are walked.
    Table(Vec<(String, Node)>),
    /// A value of a kind that no setting reads (a float, a date).
    Other,
}

/// The model of a value.
pub open spec fn tree_of(v: Node) -> Tree
    decreases v, 0int,
{
    match v {
        Node::Str(s) => Tree::Str(s@),
        Node::Integer(n) => Tree::Integer(n as int),
        Node::Boolean(b) => Tree::Boolean(b),
        Node::Array(items) => Tree::Array(trees_of(items@)),
        Node::Table(entries) => Tree::Table(entries_of(entries@)),
        Node::Other => Tree::Other,
    }
}

/// The models of a sequence of values, element by element.
pub open spec fn trees_of(items: Seq<Node>) -> Seq<Tree>
    decreases items, 0int,
{
    if items.len() == 0 {
        Seq::empty()
    } else {
        trees_of(items.subrange(0, items.len() - 1)).push(tree_of(items[items.len() - 1]))
    }
}

/// The models of a table's entries: each key's characters and its value's model.
pub open spec fn entries_of(entries: Seq<(String, Node)>) -> Seq<(Seq<char>, Tree)>
    decreases entries, 0int,
{
    if entries.len() == 0 {
        Seq::empty()
    } else {
        let last = entries[entries.len() - 1];
        entries_of(entries.subrange(0, entries.len() - 1)).push((last.0@, tree_of(last.1)))
    }
}

impl View for Node {
    type V = Tree;

    open spec fn view(&self) -> Tree {
        tree_of(*self)
    }
}

/// The value bound to `key` in a table's entries: the first entry with that
/// key, or `None` where no entry has it.
pub open spec fn lookup(entries: Seq<(Seq<char>, Tree)>, key: Seq<char>) -> Option<Tree>
    decreases entries.len(),
{
    if entries.len() == 0 {
        None
    } else if entries[0].0 == key {
        Some(entries[0].1)
    } else {
        lookup(entries.subrange(1, entries.len() as int), key)
    }
}

/// The models of a sequence of values are taken element by element.
pub proof fn lemma_trees_of(items: Seq<Node>)
    ensures
        trees_of(items).len() == items.len(),
        forall|i: int| 0 <= i < items.len() ==> #[trigger] trees_of(items)[i] == items[i]@,
    decreases items.len(),
{
    if items.len() > 0 {
        lemma_trees_of(items.subrange(0, items.len() - 1));
    }
}

/// The models of a table's entries are taken entry by entry.
pub proof fn lemma_entries_of(entries: Seq<(String, Node)>)
    ensures
        entries_of(entries).len() == entries.len(),
        forall|i: int|
            0 <= i < entries.len() ==> #[trigger] entries_of(entries)[i] == (
            entries[i].0@,
            entries[i].1@,
        ),
    decreases entries.len(),
{
    if entries.len() > 0 {
        lemma_entries_of(entries.subrange(0, entries.len() - 1));
    }
}

/// Looks `key` up in a table's entries.
pub fn table_get<'a>(entries: &'a Vec<(String, Node)>, key: &str) -> (r: Option<&'a Node>)
    ensures
        r is None <==> lookup(entries_of(entries@), key@) is None,
        r matches Some(v) ==> lookup(entries_of(entries@), key@) == Some(v@),
{
    let ghost m = entries_of(entries@);
    proof {
        lemma_entries_of(entries@);
        assert(m.subrange(0, m.len() as int) =~= m);
    }
    let wanted = key.to_owned();
    let mut i: usize = 0;
    while i < entries.len()
        invariant
            i <= entries.len(),
            m == entries_of(entries@),
            m.len() == entries@.len(),
            wanted@ == key@,
            forall|j: int| 0 <= j < entries.len() ==> #[trigger] m[j] == (entries@[j].0@, entries@[j].1@),
            lookup(m, key@) == lookup(m.subrange(i as int, m.len() as int), key@),
        decreases entries.len() - i,
    {
        let ghost rest = m.subrange(i as int, m.len() as int);
        assert(rest[0] == m[i as int]);
        if entries[i].0 == wanted {
            return Some(&entries[i].1);
        }
        assert(rest.subrange(1, rest.len() as int) =~= m.subrange(i + 1, m.len() as int));
        i = i + 1;
    }
    None
}

impl Node {
    /// The value bound to `key`, where this value is a table that has that key.
    pub fn get(&self, key: &str) -> (r: Option<&Node>)
        ensures
            match self@ {
                Tree::Table(m) => {
                    &&& (r is None <==> lookup(m, key@) is None)
                    &&& (r matches Some(v) ==> lookup(m, key@) == Some(v@))
                },
                _ => r is None,
            },
    {
        match self {
            Node::Table(entries) => table_get(entries, key),
            _ => None,
        }
    }

    /// The string, where this value is one.
    pub fn as_str(&self) -> (r: Option<&String>)
        ensures
            r == (match self {
                Node::Str(s) => Some(s),
                _ => None,
            }),
    {
        match self {
            Node::Str(s) => Some(s),
            _ => None,
        }
    }

    /// The elements, where this value is an array.
    pub fn as_array(&self) -> (r: Option<&Vec<Node>>)
        ensures
            r == (match self {
                Node::Array(items) => Some(items),
                _ => None,
            }),
    {
        match self {
            Node::Array(items) => Some(items),
            _ => None,
        }
    }

    /// The entries, where this value is a table.
    pub fn as_table(&self) -> (r: Option<&Vec<(String, Node)>>)
        ensures
            r == (match self {
                Node::Table(entries) => Some(entries),
                _ => None,
            }),
    {
        match self {
            Node::Table(entries) => Some(entries),
            _ => None,
        }
    }

    /// Whether this value is a table.
    pub fn is_table(&self) -> (r: bool)
        ensures
            r == self@ is Table,
            r == self is Table,
    {
        match self {
            Node::Table(_) => true,
            _ => false,
        }
    }
}

} // verus!
