use libnest::config::Config;
use libnest::config_parser::{ConfigParser, ParseConfError};
use libnest::node::Node;

fn load(text: &str) -> ConfigParser {
    ConfigParser::new(Ok(text.to_string())).unwrap()
}

fn default_config() -> Config {
    Config::new("/var/cache/nest".to_string(), "/var/download/nest".to_string())
}

fn repository_names(conf: &Config) -> Vec<String> {
    conf.repositories().iter().map(|r| r.name().to_string()).collect()
}

fn mirror_urls(conf: &Config, index: usize) -> Vec<String> {
    conf.repositories()[index].mirrors().iter().map(|m| m.url().to_string()).collect()
}

#[test]
fn table_document_with_malformed_sections_loads() {
    assert!(ConfigParser::new(Ok("paths = 3\nrepositories = \"x\"\n".to_string())).is_ok());
    let text = "[paths]\ncache_dir = 5\ndownload_dir = [1]\n[repositories]\nfoo = 1\nbar = { mirrors = [true] }\n";
    assert!(ConfigParser::new(Ok(text.to_string())).is_ok());
    assert!(ConfigParser::new(Ok(String::new())).is_ok());
}

#[test]
fn non_table_top_level_is_refused() {
    let r = ConfigParser::from_node(Node::Array(vec![Node::Integer(1), Node::Integer(2)]));
    match r {
        Err(ParseConfError::Str(msg)) => assert_eq!(msg, "Invalid toml file"),
        _ => panic!("expected the invalid file error"),
    }
    let r = ConfigParser::from_node(Node::Str("x".to_string()));
    assert!(matches!(r, Err(ParseConfError::Str(_))));
    let r = ConfigParser::from_node(Node::Other);
    assert!(matches!(r, Err(ParseConfError::Str(_))));
}

#[test]
fn table_node_is_accepted() {
    let node = Node::Table(vec![("paths".to_string(), Node::Table(vec![
        ("cache_dir".to_string(), Node::Str("c".to_string())),
    ]))]);
    let parser = ConfigParser::from_node(node).unwrap();
    let mut conf = default_config();
    parser.load_to_config(&mut conf);
    assert_eq!(conf.cache(), "c");
}

#[test]
fn unreadable_file_is_io_error() {
    let e = std::io::Error::new(std::io::ErrorKind::NotFound, "no such file");
    let r = ConfigParser::new(Err(e));
    match r {
        Err(ParseConfError::Io(e)) => assert_eq!(e.kind(), std::io::ErrorKind::NotFound),
        _ => panic!("expected an I/O error"),
    }
}

#[test]
fn malformed_document_is_deserialize_error() {
    for text in ["a = ", "[paths", "= 3", "a = \"unterminated", "a = 1\na = 2"] {
        let r = ConfigParser::new(Ok(text.to_string()));
        assert!(matches!(r, Err(ParseConfError::Deserialize(_))), "{}", text);
    }
}

#[test]
fn cache_dir_alone_sets_only_the_cache() {
    let parser = load("[paths]\ncache_dir = \"x\"\n");
    let mut conf = default_config();
    parser.load_to_config(&mut conf);
    assert_eq!(conf.cache(), "x");
    assert_eq!(conf.download_path(), "/var/download/nest");
    assert!(conf.repositories().is_empty());
}

#[test]
fn download_dir_is_set() {
    let parser = load("[paths]\ndownload_dir = \"/tmp/dl\"\nother = \"ignored\"\n");
    let mut conf = default_config();
    parser.load_to_config(&mut conf);
    assert_eq!(conf.cache(), "/var/cache/nest");
    assert_eq!(conf.download_path(), "/tmp/dl");
}

#[test]
fn non_string_paths_are_ignored() {
    let parser = load("[paths]\ncache_dir = 5\ndownload_dir = [\"a\"]\n");
    let mut conf = default_config();
    parser.load_to_config(&mut conf);
    assert_eq!(conf.cache(), "/var/cache/nest");
    assert_eq!(conf.download_path(), "/var/download/nest");
    let parser = load("paths = \"x\"\n");
    parser.load_to_config(&mut conf);
    assert_eq!(conf.cache(), "/var/cache/nest");
}

#[test]
fn invalid_mirror_repository_is_dropped() {
    let text = "[repositories.good]\nmirrors = [\"http://a\"]\n[repositories.bad]\nmirrors = [1, 2]\n";
    let parser = load(text);
    let mut conf = default_config();
    let old = load("[repositories.old]\nmirrors = [\"http://o\"]\n");
    old.load_to_config(&mut conf);
    assert_eq!(repository_names(&conf), vec!["old".to_string()]);
    parser.load_to_config(&mut conf);
    assert_eq!(repository_names(&conf), vec!["good".to_string()]);
    assert_eq!(mirror_urls(&conf, 0), vec!["http://a".to_string()]);
    parser.load_to_config(&mut conf);
    assert_eq!(repository_names(&conf), vec!["good".to_string()]);
    assert_eq!(mirror_urls(&conf, 0), vec!["http://a".to_string()]);
}

#[test]
fn repository_without_mirrors_is_absent() {
    let text = "[repositories.foo]\nurl = \"http://f\"\n[repositories.bar]\nmirrors = [\"http://b1\", \"http://b2\"]\n";
    let parser = load(text);
    let mut conf = default_config();
    parser.load_to_config(&mut conf);
    assert_eq!(repository_names(&conf), vec!["bar".to_string()]);
    assert_eq!(mirror_urls(&conf, 0), vec!["http://b1".to_string(), "http://b2".to_string()]);
}

#[test]
fn one_bad_mirror_drops_the_whole_repository() {
    let mixed = Node::Table(vec![("mirrors".to_string(), Node::Array(vec![
        Node::Str("http://a".to_string()),
        Node::Integer(3),
        Node::Str("http://c".to_string()),
    ]))]);
    let node = Node::Table(vec![("repositories".to_string(), Node::Table(vec![
        ("mixed".to_string(), mixed),
        ("plain".to_string(), Node::Table(vec![("mirrors".to_string(), Node::Str("http://p".to_string()))])),
        ("scalar".to_string(), Node::Integer(7)),
    ]))]);
    let parser = ConfigParser::from_node(node).unwrap();
    let mut conf = default_config();
    parser.load_to_config(&mut conf);
    assert!(conf.repositories().is_empty());
    assert!(ConfigParser::new(Ok("[repositories.m]\nmirrors = [\"http://a\", 3]\n".to_string())).is_err());
}

#[test]
fn empty_mirror_list_gives_a_repository() {
    let parser = load("[repositories.empty]\nmirrors = []\n");
    let mut conf = default_config();
    parser.load_to_config(&mut conf);
    assert_eq!(repository_names(&conf), vec!["empty".to_string()]);
    assert!(mirror_urls(&conf, 0).is_empty());
}

#[test]
fn repositories_follow_table_order() {
    let text = "[repositories.zeta]\nmirrors = [\"http://z\"]\n[repositories.alpha]\nmirrors = [\"http://a\"]\n";
    let parser = load(text);
    let mut conf = default_config();
    parser.load_to_config(&mut conf);
    assert_eq!(repository_names(&conf), vec!["alpha".to_string(), "zeta".to_string()]);
}

#[test]
fn missing_repositories_table_keeps_the_list() {
    let mut conf = default_config();
    load("[repositories.old]\nmirrors = [\"http://o\"]\n").load_to_config(&mut conf);
    load("[paths]\ncache_dir = \"c\"\n").load_to_config(&mut conf);
    assert_eq!(repository_names(&conf), vec!["old".to_string()]);
    load("repositories = [1]\n").load_to_config(&mut conf);
    assert_eq!(repository_names(&conf), vec!["old".to_string()]);
    load("[repositories]\n").load_to_config(&mut conf);
    assert!(conf.repositories().is_empty());
}

#[test]
fn read_conf_builds_the_tree() {
    let node = ConfigParser::read_conf(Ok("a = 1\nb = \"s\"\nc = [true]\nd = 1.5\n".to_string())).unwrap();
    let a = node.get("a").unwrap();
    assert!(matches!(a, Node::Integer(1)));
    assert_eq!(node.get("b").unwrap().as_str().unwrap(), "s");
    let c = node.get("c").unwrap().as_array().unwrap();
    assert_eq!(c.len(), 1);
    assert!(matches!(c[0], Node::Boolean(true)));
    assert!(matches!(node.get("d").unwrap(), Node::Other));
    assert!(node.get("e").is_none());
    assert!(node.is_table());
    assert_eq!(node.as_table().unwrap().len(), 4);
}

#[test]
fn get_table_and_get_str() {
    let parser = load("[paths]\ncache_dir = \"x\"\nn = 2\n[other]\n");
    let paths = parser.get_table("paths").unwrap();
    assert_eq!(ConfigParser::get_str(paths, "cache_dir").unwrap(), "x");
    assert!(ConfigParser::get_str(paths, "n").is_none());
    assert!(ConfigParser::get_str(paths, "download_dir").is_none());
    assert!(parser.get_table("other").unwrap().is_empty());
    assert!(parser.get_table("missing").is_none());
}

#[test]
fn parse_repo_and_parse_repositories() {
    let value = Node::Table(vec![("mirrors".to_string(), Node::Array(vec![
        Node::Str("http://m1".to_string()),
        Node::Str("http://m2".to_string()),
    ]))]);
    let repo = ConfigParser::parse_repo("main", &value).unwrap();
    assert_eq!(repo.name(), "main");
    assert_eq!(repo.mirrors().len(), 2);
    assert_eq!(repo.mirrors()[1].url(), "http://m2");
    assert!(ConfigParser::parse_repo("main", &Node::Str("x".to_string())).is_none());
    assert!(load("a = 1").parse_repositories().is_none());
    assert_eq!(load("[repositories.r]\nmirrors = []\n").parse_repositories().unwrap().len(), 1);
}

#[test]
fn table_lookup_takes_the_first_entry() {
    let node = Node::Table(vec![
        ("k".to_string(), Node::Str("first".to_string())),
        ("k".to_string(), Node::Str("second".to_string())),
    ]);
    assert_eq!(node.get("k").unwrap().as_str().unwrap(), "first");
    assert!(Node::Str("k".to_string()).get("k").is_none());
}

#[test]
fn error_messages() {
    let e = ParseConfError::Str("Invalid toml file".to_string());
    assert_eq!(e.message(), "Invalid toml file");
    let e = ParseConfError::Io(std::io::Error::new(std::io::ErrorKind::Other, "disk on fire"));
    assert_eq!(e.message(), "disk on fire");
    match ConfigParser::new(Ok("a = ".to_string())) {
        Err(e) => assert!(!e.message().is_empty()),
        Ok(_) => panic!("expected a parse error"),
    }
}

#[test]
fn config_setters_and_repositories() {
    let mut conf = default_config();
    conf.set_cache("c".to_string());
    conf.set_download_path("d".to_string());
    let mut repo = libnest::repository::Repository::new("r");
    repo.push_mirror(libnest::repository::Mirror::new("http://m"));
    conf.set_repositories(vec![repo]);
    assert_eq!(conf.cache(), "c");
    assert_eq!(conf.download_path(), "d");
    assert_eq!(repository_names(&conf), vec!["r".to_string()]);
    assert_eq!(mirror_urls(&conf, 0), vec!["http://m".to_string()]);
}
