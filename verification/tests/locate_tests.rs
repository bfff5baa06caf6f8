use live_watch::locate::existence_from;
use live_watch::locate::find_file_in;
use live_watch::locate::find_match;
use live_watch::locate::validate_existence_in;
use std::io::Write;

fn pair(path: &str, name: &str) -> (String, String) {
    (String::from(path), String::from(name))
}

#[test]
fn first_matching_entry_wins() {
    let entries = vec![
        pair("./a/b.txt", "b.txt"),
        pair("./c/foo.txt", "foo.txt"),
        pair("./d/foo.txt", "foo.txt"),
    ];
    let got = find_match(&entries, &String::from("foo.txt"));
    assert_eq!(got, Some(String::from("./c/foo.txt")));
}

#[test]
fn no_matching_entry_means_none() {
    let entries = vec![pair("./a/b.txt", "b.txt"), pair("./c", "c")];
    assert_eq!(find_match(&entries, &String::from("foo.txt")), None);
}

#[test]
fn existence_error_names_the_file() {
    let entries = vec![pair("./a/b.txt", "b.txt")];
    let err = existence_from(&entries, &String::from("foo.txt")).unwrap_err();
    assert_eq!(err, "No File present by the name of <foo.txt> in the current directory...!");
    assert!(existence_from(&entries, &String::from("b.txt")).is_ok());
}

#[test]
fn resolution_finds_a_deeply_nested_entry() {
    let root = tempfile::TempDir::new().unwrap();
    let mid = tempfile::TempDir::new_in(root.path()).unwrap();
    let deep = tempfile::TempDir::new_in(mid.path()).unwrap();
    let mut file = tempfile::NamedTempFile::new_in(deep.path()).unwrap();
    file.write_all(b"content").unwrap();
    file.flush().unwrap();

    let name = String::from(file.path().file_name().unwrap().to_str().unwrap());
    let root_str = String::from(root.path().to_str().unwrap());
    let found = find_file_in(&root_str, &name);
    assert_eq!(found, Some(String::from(file.path().to_str().unwrap())));
    assert!(validate_existence_in(&root_str, &name).is_ok());
}

#[test]
fn resolution_fails_without_a_matching_entry() {
    let root = tempfile::TempDir::new().unwrap();
    let root_str = String::from(root.path().to_str().unwrap());
    let name = String::from("no_such_entry.txt");
    assert_eq!(find_file_in(&root_str, &name), None);
    let err = validate_existence_in(&root_str, &name).unwrap_err();
    assert_eq!(
        err,
        "No File present by the name of <no_such_entry.txt> in the current directory...!"
    );
}
