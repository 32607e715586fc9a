use nak::paths::data_dir;
use nak::paths::join_path;

#[test]
fn home_set() {
    let d = data_dir(Some("/home/alice"));
    assert_eq!(d, "/home/alice/.var/app/com.fluorine.manager");
}

#[test]
fn home_unset() {
    let d = data_dir(None);
    assert_eq!(d, "/tmp/.var/app/com.fluorine.manager");
}

#[test]
fn repeated_calls_agree() {
    let a = data_dir(Some("/home/bob"));
    let b = data_dir(Some("/home/bob"));
    assert_eq!(a, b);
    let c = data_dir(None);
    let d = data_dir(None);
    assert_eq!(c, d);
}

#[test]
fn home_with_trailing_slash() {
    let d = data_dir(Some("/home/alice/"));
    assert_eq!(d, "/home/alice/.var/app/com.fluorine.manager");
}

#[test]
fn empty_home() {
    let d = data_dir(Some(""));
    assert_eq!(d, ".var/app/com.fluorine.manager");
}

#[test]
fn join_inserts_separator_when_needed() {
    assert_eq!(join_path("/a/b", "c"), "/a/b/c");
    assert_eq!(join_path("/a/b/", "c"), "/a/b/c");
    assert_eq!(join_path("", "c"), "c");
}
