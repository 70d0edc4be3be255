use anyhow_std::annotate::{context_layer, some_or_context};
use anyhow_std::describe::{directory_context, env_context, operand_context, path_context};
use anyhow_std::path::{
    missing_message, path_component, path_operand_result, path_result, write_result, Component,
};
use std::io::Error;
use std::path::Path;

fn debug_of(p: &Path) -> String {
    format!("{:?}", p.display())
}

fn flat<T>(r: anyhow::Result<T>) -> String {
    format!("{:#}", r.err().unwrap())
}

#[test]
fn to_str_ok() {
    let p = Path::new("/foo/bar.txt");
    assert_eq!(
        path_component(p.to_str(), Component::Utf8, &debug_of(p)).unwrap(),
        "/foo/bar.txt"
    );
}

#[test]
fn parent_ok() {
    let p = Path::new("/foo/bar.txt");
    assert_eq!(
        path_component(p.parent(), Component::Parent, &debug_of(p)).unwrap(),
        Path::new("/foo/")
    );
}

#[test]
fn parent_root() {
    let p = Path::new("/");
    assert_eq!(
        flat(path_component(p.parent(), Component::Parent, &debug_of(p))),
        r#"while processing path "/": expected parent directory"#
    );
}

#[test]
fn file_name_ok() {
    let p = Path::new("/foo/bar.txt");
    let name = path_component(p.file_name(), Component::FileName, &debug_of(p)).unwrap();
    assert_eq!(name.to_str(), Some("bar.txt"));
}

#[test]
fn file_name_dot_dot() {
    let p = Path::new("/foo/..");
    assert_eq!(
        flat(path_component(p.file_name(), Component::FileName, &debug_of(p))),
        r#"while processing path "/foo/..": missing expected filename"#
    );
}

#[test]
fn file_stem_ok() {
    for input in ["/foo/bar.txt", "/foo/bar"] {
        let p = Path::new(input);
        let stem = path_component(p.file_stem(), Component::FileStem, &debug_of(p)).unwrap();
        assert_eq!(stem.to_str(), Some("bar"));
    }
}

#[test]
fn file_stem_dot_dot() {
    let p = Path::new("/foo/..");
    assert_eq!(
        flat(path_component(p.file_stem(), Component::FileStem, &debug_of(p))),
        r#"while processing path "/foo/..": missing expected filename"#
    );
}

#[test]
fn extension_ok() {
    let p = Path::new("/foo/bar.txt");
    let ext = path_component(p.extension(), Component::Extension, &debug_of(p)).unwrap();
    assert_eq!(ext.to_str(), Some("txt"));
}

#[test]
fn extension_missing() {
    for input in ["/foo/..", "/foo/bar", "/foo/.bar"] {
        let p = Path::new(input);
        assert_eq!(
            flat(path_component(p.extension(), Component::Extension, &debug_of(p))),
            format!("while processing path \"{input}\": missing expected extension")
        );
    }
}

#[test]
fn missing_messages() {
    assert_eq!(missing_message(Component::Utf8), "invalid UTF8");
    assert_eq!(missing_message(Component::FileStem), "missing expected filename");
}

#[test]
fn strip_prefix_ok() {
    let p = Path::new("/foo/bar/quz.txt");
    let r = p.strip_prefix("/foo").map_err(anyhow::Error::from);
    let out = path_operand_result(r, "prefix", &debug_of(Path::new("/foo")), &debug_of(p));
    assert_eq!(out.unwrap(), Path::new("bar/quz.txt"));
}

#[test]
fn strip_prefix_err() {
    let p = Path::new("/foo/bar/quz.txt");
    let r = p.strip_prefix("/bananas").map_err(anyhow::Error::from);
    let out = path_operand_result(r, "prefix", &debug_of(Path::new("/bananas")), &debug_of(p));
    assert_eq!(
        flat(out),
        r#"while processing path "/foo/bar/quz.txt": with prefix "/bananas": prefix not found"#
    );
}

#[test]
fn metadata_missing() {
    let p = Path::new("/this/path/should/not/exist");
    assert_eq!(
        flat(path_result::<()>(Err(Error::from_raw_os_error(2).into()), &debug_of(p))),
        r#"while processing path "/this/path/should/not/exist": No such file or directory (os error 2)"#
    );
}

#[test]
fn copy_missing() {
    let r: anyhow::Result<u64> = Err(anyhow::Error::from(Error::from_raw_os_error(2)));
    let out = path_operand_result(
        r,
        "copy_to",
        &debug_of(Path::new("/this/path/also/should/not/exist")),
        &debug_of(Path::new("/this/path/should/not/exist")),
    );
    assert_eq!(
        flat(out),
        "while processing path \"/this/path/should/not/exist\": with copy_to \"/this/path/also/should/not/exist\": No such file or directory (os error 2)"
    );
}

#[test]
fn write_denied() {
    let p = Path::new("/tmp/ro/file");
    assert_eq!(
        flat(write_result::<()>(Err(Error::from_raw_os_error(13).into()), &debug_of(p))),
        r#"while writing to "/tmp/ro/file": Permission denied (os error 13)"#
    );
}

#[test]
fn path_result_success_passes_through() {
    let out = path_result(Ok::<Vec<u8>, anyhow::Error>(b"data".to_vec()), "\"/f\"");
    assert_eq!(out.unwrap(), b"data".to_vec());
}

#[test]
fn context_builders() {
    assert_eq!(path_context("\"/a\""), "while processing path \"/a\"");
    assert_eq!(directory_context("\"/a\""), "while reading directory \"/a\"");
    assert_eq!(operand_context("link_to", "\"/b\""), "with link_to \"/b\"");
    assert_eq!(env_context("A\"B"), "environment variable \"A\\\"B\"");
}

#[test]
fn context_layer_nests_outermost_first() {
    let e = anyhow::Error::msg("root");
    let r = context_layer::<()>(Err(e), "inner".to_string());
    let r = context_layer(r, "outer".to_string());
    assert_eq!(flat(r), "outer: inner: root");
}

#[test]
fn some_or_context_cases() {
    assert_eq!(some_or_context(Some(5u8), "gone", "ctx".to_string()).unwrap(), 5);
    assert_eq!(flat(some_or_context::<u8>(None, "gone", "ctx".to_string())), "ctx: gone");
}
