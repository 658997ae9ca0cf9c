//! Reading a configuration file into a table, and projecting its recognised
//! settings onto a [`Config`].
//!
//! Loading fails hard on an unreadable file, on text that is not TOML and on
//! a document whose top level is not a table. Applying never fails: a setting
//! that is missing or has the wrong type is left out, and a repository whose
//! mirror list is malformed is dropped on its own.

use vstd::prelude::*;
use vstd::string::to_string_from_display_ensures;

use crate::config::{Config, ConfigView};
use crate::repository::{Mirror, Repository, RepositoryView};
use crate::node::{entries_of, lemma_entries_of, lemma_trees_of, lookup, table_get, trees_of, Node, Tree};

verus! {

#[verifier::external_type_specification]
#[verifier::external_body]
pub struct ExIoError(std::io::Error);

#[verifier::external_type_specification]
#[verifier::external_body]
pub struct ExTomlError(toml::de::Error);

#[verifier::external_type_specification]
#[verifier::external_body]
pub struct ExTomlValue(toml::Value);

/// The tree that toml reads from a document's text, or `None` where the text
/// is not a valid document.
pub uninterp spec fn toml_document(text: Seq<char>) -> Option<Tree>;

/// Relies on toml's `FromStr` impl for `toml::Value`, which parses `text` as a
/// whole document; its outcome depends on the text alone (tables are walked
/// in the sorted order of their `BTreeMap`).
#[verifier::external_body]
fn parse_toml(text: &str) -> (r: Result<Node, toml::de::Error>)
    ensures
        match r {
            Ok(v) => toml_document(text@) == Some(v@),
            Err(_) => toml_document(text@) is None,
        },
{
    match text.parse::<toml::Value>() {
        Ok(v) => Ok(node_from_toml(v)),
        Err(e) => Err(e),
    }
}

/// Relies on the variants of `toml::Value` (a table is a `BTreeMap`, an array
/// a `Vec`): moves the tree that toml built into a `Node`, variant for
/// variant; floats and dates, which no setting reads, become `Node::Other`.
/// Only the body of `parse_toml` calls it, to convert its result.
#[verifier::external_body]
fn node_from_toml(v: toml::Value) -> Node {
    match v {
        toml::Value::String(s) => Node::Str(s),
        toml::Value::Integer(n) => Node::Integer(n),
        toml::Value::Boolean(b) => Node::Boolean(b),
        toml::Value::Array(items) => Node::Array(items.into_iter().map(node_from_toml).collect()),
        toml::Value::Table(t) => Node::Table(t.into_iter().map(|(k, v)| (k, node_from_toml(v))).collect()),
        toml::Value::Float(_) => Node::Other,
        toml::Value::Datetime(_) => Node::Other,
    }
}

/// Why a configuration file could not be loaded.
#[derive(Debug)]
pub enum ParseConfError {
    /// The file could not be opened or read.
    Io(std::io::Error),
    /// The text is not a valid TOML document.
    Deserialize(toml::de::Error),
    /// The document is valid but unfit, such as one whose top level is not a table.
    Str(String),
}

impl ParseConfError {
    /// The message that describes the error.
    pub fn message(&self) -> (r: String)
        ensures
            match self {
                ParseConfError::Io(e) => to_string_from_display_ensures::<std::io::Error>(e, r),
                ParseConfError::Deserialize(e) => to_string_from_display_ensures::<toml::de::Error>(e, r),
                ParseConfError::Str(s) => r@ == s@,
            },
    {
        match self {
            ParseConfError::Io(e) => e.to_string(),
            ParseConfError::Deserialize(e) => e.to_string(),
            ParseConfError::Str(s) => s.clone(),
        }
    }
}

/// The table bound to `key` at the top of `doc`, where it is a table.
pub open spec fn section(doc: Seq<(Seq<char>, Tree)>, key: Seq<char>) -> Option<Seq<(Seq<char>, Tree)>> {
    match lookup(doc, key) {
        Some(Tree::Table(m)) => Some(m),
        _ => None,
    }
}

/// The string bound to `key` in `table`, where it is a string.
pub open spec fn string_setting(table: Seq<(Seq<char>, Tree)>, key: Seq<char>) -> Option<Seq<char>> {
    match lookup(table, key) {
        Some(Tree::Str(s)) => Some(s),
        _ => None,
    }
}

/// The path that `doc` gives under `paths.<key>`, if any.
pub open spec fn path_setting(doc: Seq<(Seq<char>, Tree)>, key: Seq<char>) -> Option<Seq<char>> {
    match section(doc, "paths"@) {
        Some(paths) => string_setting(paths, key),
        None => None,
    }
}

/// The URLs of a mirror list, where every element is a string.
pub open spec fn mirror_urls(items: Seq<Tree>) -> Option<Seq<Seq<char>>> {
    if forall|i: int| 0 <= i < items.len() ==> #[trigger] items[i] is Str {
        Some(items.map_values(|t: Tree| t->Str_0))
    } else {
        None
    }
}

/// The repository that the entry `name = t` of the `repositories` table
/// describes: `t` must hold a `mirrors` array of strings.
pub open spec fn repository_from(name: Seq<char>, t: Tree) -> Option<RepositoryView> {
    match t {
        Tree::Table(fields) => match lookup(fields, "mirrors"@) {
            Some(Tree::Array(items)) => match mirror_urls(items) {
                Some(urls) => Some(RepositoryView { name, mirrors: urls }),
                None => None,
            },
            _ => None,
        },
        _ => None,
    }
}

/// The repositories that the entries of the `repositories` table describe,
/// in the order of the entries; an entry that describes none is left out.
pub open spec fn repositories_from(entries: Seq<(Seq<char>, Tree)>) -> Seq<RepositoryView>
    decreases entries.len(),
{
    if entries.len() == 0 {
        Seq::empty()
    } else {
        let prev = repositories_from(entries.drop_last());
        match repository_from(entries.last().0, entries.last().1) {
            Some(r) => prev.push(r),
            None => prev,
        }
    }
}

/// The repository list that `doc` gives, where it has a `repositories` table.
pub open spec fn repositories_setting(doc: Seq<(Seq<char>, Tree)>) -> Option<Seq<RepositoryView>> {
    match section(doc, "repositories"@) {
        Some(entries) => Some(repositories_from(entries)),
        None => None,
    }
}

/// `conf` with the settings of `doc` applied over it.
pub open spec fn applied(doc: Seq<(Seq<char>, Tree)>, conf: ConfigView) -> ConfigView {
    ConfigView {
        cache: match path_setting(doc, "cache_dir"@) {
            Some(p) => p,
            None => conf.cache,
        },
        download_path: match path_setting(doc, "download_dir"@) {
            Some(p) => p,
            None => conf.download_path,
        },
        repositories: match repositories_setting(doc) {
            Some(rs) => rs,
            None => conf.repositories,
        },
    }
}

/// Applying the same document a second time changes nothing: the paths are
/// set to the same text again, and the repository list is replaced by the
/// same list rather than extended.
pub proof fn lemma_apply_idempotent(doc: Seq<(Seq<char>, Tree)>, conf: ConfigView)
    ensures
        applied(doc, applied(doc, conf)) == applied(doc, conf),
{
}

/// Where a document has a `repositories` table, the repository list after
/// applying it is the one that the table describes, whatever the list was
/// before.
pub proof fn lemma_repositories_replaced(doc: Seq<(Seq<char>, Tree)>, first: ConfigView, second: ConfigView)
    requires
        section(doc, "repositories"@) is Some,
    ensures
        applied(doc, first).repositories == applied(doc, second).repositories,
        applied(doc, first).repositories == repositories_from(section(doc, "repositories"@)->Some_0),
{
}

/// Every entry of the `repositories` table that describes a repository
/// yields it, whatever the other entries hold: a malformed entry costs only
/// itself.
pub proof fn lemma_valid_repository_kept(entries: Seq<(Seq<char>, Tree)>, i: int)
    requires
        0 <= i < entries.len(),
        repository_from(entries[i].0, entries[i].1) is Some,
    ensures
        repositories_from(entries).contains(repository_from(entries[i].0, entries[i].1)->Some_0),
    decreases entries.len(),
{
    let r = repository_from(entries[i].0, entries[i].1)->Some_0;
    let prev = repositories_from(entries.drop_last());
    if i == entries.len() - 1 {
        assert(repositories_from(entries) == prev.push(r));
        assert(prev.push(r)[prev.len() as int] == r);
    } else {
        lemma_valid_repository_kept(entries.drop_last(), i);
        let k = choose|k: int| 0 <= k < prev.len() && prev[k] == r;
        match repository_from(entries.last().0, entries.last().1) {
            Some(last) => {
                assert(prev.push(last)[k] == r);
            },
            None => {},
        }
    }
}

/// A loaded configuration document. Its top level is a table by
/// construction: only its entries are held.
#[derive(Debug)]
pub struct ConfigParser {
    table: Vec<(String, Node)>,
}

impl View for ConfigParser {
    type V = Seq<(Seq<char>, Tree)>;

    closed spec fn view(&self) -> Seq<(Seq<char>, Tree)> {
        entries_of(self.table@)
    }
}

impl ConfigParser {
    /// Parses the text of a configuration file, as reading it gave it: a
    /// failed read is an `Io` error, text that is not a TOML document a
    /// `Deserialize` error.
    pub fn read_conf(source: Result<String, std::io::Error>) -> (r: Result<Node, ParseConfError>)
        ensures
            match source {
                Err(e) => r matches Err(ParseConfError::Io(e2)) && e2 == e,
                Ok(text) => match toml_document(text@) {
                    None => r matches Err(ParseConfError::Deserialize(_)),
                    Some(t) => r matches Ok(v) && v@ == t,
                },
            },
    {
        match source {
            Ok(content) => match parse_toml(content.as_str()) {
                Ok(v) => Ok(v),
                Err(e) => Err(ParseConfError::Deserialize(e)),
            },
            Err(e) => Err(ParseConfError::Io(e)),
        }
    }

    /// Keeps a parsed document whose top level is a table; any other value is
    /// refused with a `Str` error.
    pub fn from_node(value: Node) -> (r: Result<ConfigParser, ParseConfError>)
        ensures
            match value@ {
                Tree::Table(m) => r matches Ok(p) && p@ == m,
                _ => r matches Err(ParseConfError::Str(msg)) && msg@ == "Invalid toml file"@,
            },
    {
        match value {
            Node::Table(table) => Ok(ConfigParser { table }),
            _ => Err(ParseConfError::Str("Invalid toml file".to_owned())),
        }
    }

    /// Loads a configuration file from the result of reading it. Succeeds
    /// exactly on a readable TOML document whose top level is a table,
    /// whatever its sections hold.
    pub fn new(source: Result<String, std::io::Error>) -> (r: Result<ConfigParser, ParseConfError>)
        ensures
            match source {
                Err(e) => r matches Err(ParseConfError::Io(e2)) && e2 == e,
                Ok(text) => match toml_document(text@) {
                    None => r matches Err(ParseConfError::Deserialize(_)),
                    Some(Tree::Table(m)) => r matches Ok(p) && p@ == m,
                    Some(_) => r matches Err(ParseConfError::Str(msg)) && msg@ == "Invalid toml file"@,
                },
            },
    {
        match ConfigParser::read_conf(source) {
            Ok(conf) => ConfigParser::from_node(conf),
            Err(e) => Err(e),
        }
    }

    /// The section `key` of the document, where it is a table.
    pub fn get_table(&self, key: &str) -> (r: Option<&Vec<(String, Node)>>)
        ensures
            match section(self@, key@) {
                Some(m) => r matches Some(t) && entries_of(t@) == m,
                None => r is None,
            },
    {
        match table_get(&self.table, key) {
            Some(v) => v.as_table(),
            None => None,
        }
    }

    /// Builds the repository that the entry `repo_name = value` of the
    /// `repositories` table describes. `None` where `value` has no `mirrors`
    /// array, and where an element of that array is not a string.
    pub fn parse_repo(repo_name: &str, value: &Node) -> (r: Option<Repository>)
        ensures
            match repository_from(repo_name@, value@) {
                Some(rv) => r matches Some(x) && x@ == rv,
                None => r is None,
            },
    {
        let mirror_list = match value.get("mirrors") {
            Some(m) => match m.as_array() {
                Some(items) => items,
                None => return None,
            },
            None => return None,
        };
        let ghost items = trees_of(mirror_list@);
        proof {
            lemma_trees_of(mirror_list@);
        }
        let mut repo = Repository::new(repo_name);
        assert(items.subrange(0, 0).map_values(|t: Tree| t->Str_0) =~= Seq::empty());
        let mut i: usize = 0;
        while i < mirror_list.len()
            invariant
                i <= mirror_list.len(),
                items == trees_of(mirror_list@),
                items.len() == mirror_list@.len(),
                forall|j: int| 0 <= j < mirror_list.len() ==> #[trigger] items[j] == mirror_list@[j]@,
                lookup(value@->Table_0, "mirrors"@) == Some(Tree::Array(items)),
                value@ is Table,
                forall|j: int| 0 <= j < i ==> #[trigger] items[j] is Str,
                repo@ == (RepositoryView {
                    name: repo_name@,
                    mirrors: items.subrange(0, i as int).map_values(|t: Tree| t->Str_0),
                }),
            decreases mirror_list.len() - i,
        {
            match mirror_list[i].as_str() {
                Some(url) => {
                    repo.push_mirror(Mirror::new(url.as_str()));
                    assert(items.subrange(0, i + 1).map_values(|t: Tree| t->Str_0) =~= items.subrange(
                        0,
                        i as int,
                    ).map_values(|t: Tree| t->Str_0).push(url@));
                },
                None => {
                    assert(!(items[i as int] is Str));
                    return None;
                },
            }
            i = i + 1;
        }
        assert(items.subrange(0, i as int) =~= items);
        Some(repo)
    }

    /// The repositories that the `repositories` table describes, in its
    /// order, where the document has that table.
    pub fn parse_repositories(&self) -> (r: Option<Vec<Repository>>)
        ensures
            match repositories_setting(self@) {
                Some(rs) => r matches Some(v) && v@.map_values(|x: Repository| x@) == rs,
                None => r is None,
            },
    {
        let repositories = match self.get_table("repositories") {
            Some(t) => t,
            None => return None,
        };
        let ghost m = entries_of(repositories@);
        proof {
            lemma_entries_of(repositories@);
        }
        let mut repo_vec: Vec<Repository> = Vec::new();
        let mut i: usize = 0;
        while i < repositories.len()
            invariant
                i <= repositories.len(),
                m == entries_of(repositories@),
                m.len() == repositories@.len(),
                forall|j: int|
                    0 <= j < repositories.len() ==> #[trigger] m[j] == (
                    repositories@[j].0@,
                    repositories@[j].1@,
                ),
                repo_vec@.map_values(|x: Repository| x@) == repositories_from(m.subrange(0, i as int)),
            decreases repositories.len() - i,
        {
            let entry = &repositories[i];
            let ghost before = repo_vec@;
            assert(m.subrange(0, i + 1).drop_last() =~= m.subrange(0, i as int));
            if let Some(repo) = ConfigParser::parse_repo(entry.0.as_str(), &entry.1) {
                repo_vec.push(repo);
                assert(repo_vec@.map_values(|x: Repository| x@) =~= before.map_values(
                    |x: Repository| x@,
                ).push(repo@));
            }
            i = i + 1;
        }
        assert(m.subrange(0, i as int) =~= m);
        Some(repo_vec)
    }

    /// Sets the cache and download paths that the `paths` table gives.
    pub fn parse_paths_mut(&self, conf: &mut Config)
        ensures
            final(conf)@ == (ConfigView {
                repositories: old(conf)@.repositories,
                ..applied(self@, old(conf)@)
            }),
    {
        if let Some(paths) = self.get_table("paths") {
            if let Some(path) = ConfigParser::get_str(paths, "cache_dir") {
                conf.set_cache(path.clone());
            }
            if let Some(path) = ConfigParser::get_str(paths, "download_dir") {
                conf.set_download_path(path.clone());
            }
        }
    }

    /// Replaces the values of `conf` with those that the document gives: the
    /// paths it sets and, where it has a `repositories` table, the whole
    /// repository list.
    pub fn load_to_config(&self, conf: &mut Config)
        ensures
            final(conf)@ == applied(self@, old(conf)@),
    {
        self.parse_paths_mut(conf);
        if let Some(repos) = self.parse_repositories() {
            conf.set_repositories(repos);
        }
    }

    /// The string bound to `key` in `table`, where it is a string.
    pub fn get_str<'a>(table: &'a Vec<(String, Node)>, key: &str) -> (r: Option<&'a String>)
        ensures
            match string_setting(entries_of(table@), key@) {
                Some(s) => r matches Some(x) && x@ == s,
                None => r is None,
            },
    {
        match table_get(table, key) {
            Some(v) => v.as_str(),
            None => None,
        }
    }
}

} // verus!
