//! Package repositories and the mirrors that serve them.

use vstd::prelude::*;

verus! {

/// A single URL endpoint that serves a repository's content.
#[derive(Debug)]
pub struct Mirror {
    url: String,
}

impl View for Mirror {
    type V = Seq<char>;

    closed spec fn view(&self) -> Seq<char> {
        self.url@
    }
}

impl Mirror {
    pub fn new(url: &str) -> (r: Mirror)
        ensures
            r@ == url@,
    {
        Mirror { url: url.to_owned() }
    }

    pub fn url(&self) -> (r: &str)
        ensures
            r@ == self@,
    {
        self.url.as_str()
    }
}

/// The model of a repository: its name and the URLs of its mirrors, in order.
pub ghost struct RepositoryView {
    pub name: Seq<char>,
    pub mirrors: Seq<Seq<char>>,
}

/// A named source of packages, described by its list of mirrors.
#[derive(Debug)]
pub struct Repository {
    name: String,
    mirrors: Vec<Mirror>,
}

impl View for Repository {
    type V = RepositoryView;

    closed spec fn view(&self) -> RepositoryView {
        RepositoryView { name: self.name@, mirrors: self.mirrors@.map_values(|m: Mirror| m@) }
    }
}

impl Repository {
    /// A repository with no mirror yet.
    pub fn new(name: &str) -> (r: Repository)
        ensures
            r@ == (RepositoryView { name: name@, mirrors: Seq::empty() }),
    {
        let r = Repository { name: name.to_owned(), mirrors: Vec::new() };
        assert(r@.mirrors =~= Seq::empty());
        r
    }

    pub fn name(&self) -> (r: &str)
        ensures
            r@ == self@.name,
    {
        self.name.as_str()
    }

    pub fn mirrors(&self) -> (r: &Vec<Mirror>)
        ensures
            r@.map_values(|m: Mirror| m@) == self@.mirrors,
    {
        &self.mirrors
    }

    /// Appends a mirror at the end of the list.
    pub fn push_mirror(&mut self, mirror: Mirror)
        ensures
            final(self)@ == (RepositoryView {
                name: old(self)@.name,
                mirrors: old(self)@.mirrors.push(mirror@),
            }),
    {
        self.mirrors.push(mirror);
        assert(self@.mirrors =~= old(self)@.mirrors.push(mirror@));
    }
}

} // verus!
