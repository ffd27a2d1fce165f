use iox_object_store::{IoxObjectStore, PathAddress, RelativePath, RootPath};

fn strings(parts: &[&str]) -> Vec<String> {
    parts.iter().map(|part| part.to_string()).collect()
}

fn relative(parts: &[&str]) -> RelativePath {
    RelativePath::new(strings(parts))
}

fn directories(parts: &[&str]) -> PathAddress {
    let mut address = PathAddress::new();
    for part in parts {
        address.push_dir(part);
    }
    address
}

fn file(parts: &[&str], name: &str) -> PathAddress {
    let mut address = directories(parts);
    address.set_file_name(name);
    address
}

#[test]
fn data_path_is_relative_to_db_root() {
    let server_id = 1;
    let database_name = "clouds";
    let iox_object_store = IoxObjectStore::new(server_id, database_name);
    assert_eq!(iox_object_store.data_path().render(), "1/clouds/data/");
}

#[test]
fn root_path_adds_itself_to_all_object_store_paths() {
    let server_id = 1;
    let database_name = "clouds";
    let root = RootPath::new(PathAddress::new(), server_id, database_name);

    let relative = RelativePath::new(vec![String::from("foo"), String::from("bar")]);

    let mut expected = PathAddress::new();
    expected.push_dir(&server_id.to_string());
    expected.push_dir(database_name);
    expected.push_dir("foo");
    expected.push_dir("bar");

    assert_eq!(expected, root.join(&relative));
}

#[test]
fn catalog_path_is_relative_to_db_root() {
    let store = IoxObjectStore::new(1, "clouds");
    assert_eq!(store.catalog_path().render(), "1/clouds/transactions/");
}

#[test]
fn fixed_locations_hold_three_directories() {
    let store = IoxObjectStore::new(42, "weather");
    assert_eq!(store.data_path(), directories(&["42", "weather", "data"]));
    assert_eq!(store.catalog_path(), directories(&["42", "weather", "transactions"]));
    assert_eq!(store.data_path().file_name(), None);
    assert_eq!(store.data_path().directories(), &strings(&["42", "weather", "data"]));
}

#[test]
fn join_yields_root_then_parts() {
    let root = RootPath::new(PathAddress::new(), 1, "clouds");
    let joined = root.join(&relative(&["foo", "bar"]));
    assert_eq!(joined.directories(), &strings(&["1", "clouds", "foo", "bar"]));
    assert_eq!(joined.file_name(), None);
    assert_eq!(joined.render(), "1/clouds/foo/bar/");
}

#[test]
fn join_of_empty_path_is_the_root() {
    let root = RootPath::new(PathAddress::new(), 1, "clouds");
    assert_eq!(&root.join(&relative(&[])), root.address());
    assert_eq!(root.address(), &directories(&["1", "clouds"]));
}

#[test]
fn relative_inverts_join() {
    let root = RootPath::new(PathAddress::new(), 7, "db");
    for parts in [
        vec![],
        vec!["a"],
        vec!["a", "b"],
        vec!["", ""],
        vec!["7", "db"],
        vec!["with space", "sl/ash", "per%cent", "..", "."],
        vec!["transactions", "00001", "file.txn"],
    ] {
        let path = relative(&parts);
        let full = root.join(&path);
        assert!(full.starts_with(root.address()));
        assert_eq!(root.relative(full), path);
    }
}

#[test]
fn join_begins_with_server_and_database() {
    for (server_id, name) in [(0u32, "a"), (1, "clouds"), (10, "x y"), (4294967295, "db")] {
        let root = RootPath::new(PathAddress::new(), server_id, name);
        for parts in [vec![], vec!["foo"], vec!["foo", "bar", "baz"]] {
            let joined = root.join(&relative(&parts));
            let dirs = joined.directories();
            assert_eq!(dirs[0], server_id.to_string());
            assert_eq!(dirs[1], name);
            assert_eq!(&dirs[2..], &strings(&parts)[..]);
            assert_eq!(joined.file_name(), None);
        }
    }
}

#[test]
fn relative_keeps_the_file_name_as_last_part() {
    let root = RootPath::new(PathAddress::new(), 1, "clouds");
    let full = file(&["1", "clouds", "data", "table"], "part.parquet");
    assert_eq!(root.relative(full), relative(&["data", "table", "part.parquet"]));
}

#[test]
fn try_relative_refuses_addresses_outside_the_root() {
    let root = RootPath::new(PathAddress::new(), 1, "clouds");
    assert_eq!(root.try_relative(&directories(&["1", "clouds"])), Some(relative(&[])));
    assert_eq!(
        root.try_relative(&directories(&["1", "clouds", "data"])),
        Some(relative(&["data"]))
    );
    assert_eq!(root.try_relative(&file(&["1", "clouds"], "f")), Some(relative(&["f"])));
    assert_eq!(root.try_relative(&PathAddress::new()), None);
    assert_eq!(root.try_relative(&directories(&["1"])), None);
    assert_eq!(root.try_relative(&directories(&["1", "cloudy", "data"])), None);
    assert_eq!(root.try_relative(&directories(&["1", "clouds2", "data"])), None);
    assert_eq!(root.try_relative(&directories(&["2", "clouds", "data"])), None);
    assert_eq!(root.try_relative(&file(&["1"], "clouds")), None);
}

#[test]
fn prefixes_are_compared_by_segment() {
    let full = file(&["a", "b"], "c");
    assert!(full.starts_with(&PathAddress::new()));
    assert!(full.starts_with(&directories(&["a"])));
    assert!(full.starts_with(&directories(&["a", "b"])));
    assert!(full.starts_with(&file(&["a", "b"], "c")));
    assert!(!full.starts_with(&directories(&["a", "b", "c"])));
    assert!(!full.starts_with(&file(&["a"], "b")));
    assert!(!full.starts_with(&file(&["a", "b"], "d")));
    assert!(!full.starts_with(&directories(&["a", "b", "c", "d"])));
    assert!(!directories(&["ab"]).starts_with(&directories(&["a"])));
    assert!(!directories(&["a/b"]).starts_with(&directories(&["a"])));
}

#[test]
fn parts_after_prefix_gives_the_rest() {
    let full = file(&["a", "b"], "c");
    assert_eq!(full.parts_after_prefix(&PathAddress::new()), Some(strings(&["a", "b", "c"])));
    assert_eq!(full.parts_after_prefix(&directories(&["a"])), Some(strings(&["b", "c"])));
    assert_eq!(full.parts_after_prefix(&directories(&["a", "b"])), Some(strings(&["c"])));
    assert_eq!(full.parts_after_prefix(&file(&["a", "b"], "c")), Some(strings(&[])));
    assert_eq!(full.parts_after_prefix(&directories(&["b"])), None);
    assert_eq!(full.parts_after_prefix(&file(&["a"], "b")), None);
    let dirs = directories(&["a", "b"]);
    assert_eq!(dirs.parts_after_prefix(&directories(&["a", "b"])), Some(strings(&[])));
    assert_eq!(dirs.parts_after_prefix(&directories(&["a", "b", "c"])), None);
}

#[test]
fn render_ends_directories_with_the_delimiter() {
    assert_eq!(PathAddress::new().render(), "");
    assert_eq!(directories(&["a"]).render(), "a/");
    assert_eq!(directories(&["a", "b"]).render(), "a/b/");
    assert_eq!(file(&[], "f.txt").render(), "f.txt");
    assert_eq!(file(&["a", "b"], "f.txt").render(), "a/b/f.txt");
    assert_eq!(directories(&[""]).render(), "/");
}

#[test]
fn addresses_are_equal_by_segments_not_by_line() {
    assert_eq!(directories(&["a", "b"]), directories(&["a", "b"]));
    assert_ne!(directories(&["a", "b"]), directories(&["a"]));
    assert_ne!(directories(&["a", "b"]), directories(&["a", "c"]));
    assert_ne!(directories(&["a", "b"]), directories(&["a/b"]));
    assert_eq!(directories(&["a/b"]).render(), directories(&["a", "b"]).render());
    assert_ne!(file(&["a"], "b"), directories(&["a", "b"]));
    assert_ne!(file(&["a"], "b"), file(&["a"], "c"));
    assert_eq!(file(&["a"], "b"), file(&["a"], "b"));
    assert_eq!(file(&["a"], "b").clone(), file(&["a"], "b"));
}

#[test]
fn push_dir_keeps_the_file_name() {
    let mut address = file(&["a"], "f");
    address.push_dir("b");
    assert_eq!(address, file(&["a", "b"], "f"));
    address.set_file_name("g");
    assert_eq!(address.file_name(), Some(&String::from("g")));
}

#[test]
fn relative_paths_compare_and_copy() {
    let path = relative(&["foo", "bar"]);
    assert_eq!(path.parts(), &strings(&["foo", "bar"]));
    assert_eq!(path.clone(), path);
    assert_ne!(path, relative(&["foo"]));
    assert_ne!(path, relative(&["foo", "baz"]));
    assert_ne!(path, relative(&["bar", "foo"]));
}
