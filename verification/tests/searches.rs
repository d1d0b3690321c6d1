use tor_browser_builder::platform::Os;
use tor_browser_builder::search::{has_app_extension, Entry, Search, Wanted};

fn file(name: &str) -> Entry {
    Entry { name: name.to_string(), is_dir: false }
}

fn dir(name: &str) -> Entry {
    Entry { name: name.to_string(), is_dir: true }
}

fn listing(path: &str) -> Option<Vec<Entry>> {
    match path {
        "/r" => Some(vec![dir("a"), file("readme"), dir("b"), dir("locked")]),
        "/r/a" => Some(vec![dir("deep")]),
        "/r/a/deep" => Some(vec![file("start-tor-browser")]),
        "/r/b" => Some(vec![file("start-tor-browser"), dir("X.app"), dir("Y.app")]),
        _ => None,
    }
}

/// The directories in the order in which they are listed, and what is found.
fn walk(wanted: Wanted, root: &str) -> (Vec<String>, Option<String>) {
    let mut search = Search::new(Os::Linux, wanted, root);
    let mut order = Vec::new();
    loop {
        let due = match search.next_directory() {
            Some(path) => path.to_string(),
            None => return (order, None),
        };
        let found = search.visit(listing(&due));
        order.push(due);
        if found.is_some() {
            return (order, found);
        }
    }
}

#[test]
fn app_names() {
    assert!(has_app_extension("Tor Browser.app"));
    assert!(!has_app_extension(".app"));
    assert!(!has_app_extension("Tor Browser.App"));
    assert!(!has_app_extension("app"));
    assert!(!has_app_extension("x.apps"));
}

#[test]
fn searches_go_depth_first() {
    let (order, found) = walk(Wanted::FileNamed("start-tor-browser".to_string()), "/r");
    assert_eq!(order, vec!["/r", "/r/a", "/r/a/deep"]);
    assert_eq!(found.as_deref(), Some("/r/a/deep/start-tor-browser"));
}

#[test]
fn bundles_are_found_by_their_extension() {
    let (order, found) = walk(Wanted::AppBundle, "/r");
    assert_eq!(order, vec!["/r", "/r/a", "/r/a/deep", "/r/b"]);
    assert_eq!(found.as_deref(), Some("/r/b/X.app"));
}

#[test]
fn a_directory_is_no_file_of_that_name() {
    let (order, found) = walk(Wanted::FileNamed("deep".to_string()), "/r");
    assert_eq!(order, vec!["/r", "/r/a", "/r/a/deep", "/r/b", "/r/b/X.app", "/r/b/Y.app", "/r/locked"]);
    assert_eq!(found, None);
}

#[test]
fn an_unreadable_root_has_nothing() {
    let (order, found) = walk(Wanted::AppBundle, "/nowhere");
    assert_eq!(order, vec!["/nowhere"]);
    assert_eq!(found, None);
}
