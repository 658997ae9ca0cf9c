//! The runtime configuration that a configuration file overrides.

use vstd::prelude::*;

use crate::repository::{Repository, RepositoryView};

verus! {

/// The model of a configuration: its two paths, as text, and its repositories
/// in order.
pub ghost struct ConfigView {
    pub cache: Seq<char>,
    pub download_path: Seq<char>,
    pub repositories: Seq<RepositoryView>,
}

/// The runtime configuration: where packages are cached and downloaded, and
/// which repositories they come from.
#[derive(Debug)]
pub struct Config {
    cache: String,
    download_path: String,
    repositories: Vec<Repository>,
}

impl View for Config {
    type V = ConfigView;

    closed spec fn view(&self) -> ConfigView {
        ConfigView {
            cache: self.cache@,
            download_path: self.download_path@,
            repositories: self.repositories@.map_values(|r: Repository| r@),
        }
    }
}

impl Config {
    /// A configuration with the given paths and no repository.
    pub fn new(cache: String, download_path: String) -> (r: Config)
        ensures
            r@ == (ConfigView {
                cache: cache@,
                download_path: download_path@,
                repositories: Seq::empty(),
            }),
    {
        let r = Config { cache, download_path, repositories: Vec::new() };
        assert(r@.repositories =~= Seq::empty());
        r
    }

    pub fn cache(&self) -> (r: &str)
        ensures
            r@ == self@.cache,
    {
        self.cache.as_str()
    }

    pub fn download_path(&self) -> (r: &str)
        ensures
            r@ == self@.download_path,
    {
        self.download_path.as_str()
    }

    pub fn repositories(&self) -> (r: &Vec<Repository>)
        ensures
            r@.map_values(|x: Repository| x@) == self@.repositories,
    {
        &self.repositories
    }

    pub fn set_cache(&mut self, path: String)
        ensures
            final(self)@ == (ConfigView { cache: path@, ..old(self)@ }),
    {
        self.cache = path;
    }

    pub fn set_download_path(&mut self, path: String)
        ensures
            final(self)@ == (ConfigView { download_path: path@, ..old(self)@ }),
    {
        self.download_path = path;
    }

    /// Replaces the whole list of repositories.
    pub fn set_repositories(&mut self, repositories: Vec<Repository>)
        ensures
            final(self)@ == (ConfigView {
                repositories: repositories@.map_values(|x: Repository| x@),
                ..old(self)@
            }),
    {
        self.repositories = repositories;
    }
}

} // verus!
