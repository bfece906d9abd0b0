use std::path::PathBuf;

use distant_core::protocol::common::remote_path::RemotePath;

#[test]
fn new_should_create_from_str() {
    let path = RemotePath::new("/home/user/file.txt");
    assert_eq!(path.as_str(), "/home/user/file.txt");
}

#[test]
fn new_should_create_from_string() {
    let path = RemotePath::new(String::from("/tmp/data"));
    assert_eq!(path.as_str(), "/tmp/data");
}

#[test]
fn display_should_output_inner_string() {
    let path = RemotePath::new("/some/path");
    assert_eq!(path.to_string(), "/some/path");
}

#[test]
fn from_string_should_convert() {
    let path: RemotePath = String::from("/a/b").into();
    assert_eq!(path.as_str(), "/a/b");
}

#[test]
fn from_str_ref_should_convert() {
    let path: RemotePath = "/x/y".into();
    assert_eq!(path.as_str(), "/x/y");
}

#[test]
fn from_pathbuf_should_convert() {
    let pb = PathBuf::from("/foo/bar");
    let path: RemotePath = pb.into();
    assert_eq!(path.as_str(), "/foo/bar");
}

#[test]
fn into_pathbuf_should_convert() {
    let path = RemotePath::new("/foo/bar");
    let pb: PathBuf = path.into();
    assert_eq!(pb, PathBuf::from("/foo/bar"));
}

#[test]
fn into_string_should_return_inner() {
    let path = RemotePath::new("/abc");
    assert_eq!(path.into_string(), "/abc");
}


#[test]
fn new_keeps_the_string_verbatim() {
    let s = "/home/user/file.txt".to_string();
    let p = RemotePath::new(s.clone());
    assert_eq!(p.as_str(), s);
    assert_eq!(p.to_string(), s);
    assert_eq!(p.into_string(), s);
}
