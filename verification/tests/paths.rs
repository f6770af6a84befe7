use sitegen::file_system::file_name;
use sitegen::paths::{mirror, render_target};
use std::path::PathBuf;

fn path(text: &str) -> PathBuf {
    PathBuf::from(text)
}

#[test]
fn file_name_is_final_component() {
    assert_eq!(file_name(&path("/a/b/post.md")), "post.md");
    assert_eq!(file_name(&path("/a/b/")), "b");
    assert_eq!(file_name(&path("/a/b/..")), "");
    assert_eq!(file_name(&path("/")), "");
}

#[test]
fn mirror_moves_path_under_output_root() {
    assert_eq!(mirror(&path("/in/a/b"), &path("/in"), &path("/out")), Some(path("/out/a/b")));
    assert_eq!(mirror(&path("/elsewhere/a"), &path("/in"), &path("/out")), None);
    assert_eq!(mirror(&path("/in"), &path("/in"), &path("/out")), Some(path("/out/")));
    assert_eq!(
        mirror(&path("/in/a/../b"), &path("/in"), &path("/out")),
        Some(path("/out/a/../b"))
    );
    assert_eq!(mirror(&path("/in/a/b"), &path("/in/"), &path("/out/")), Some(path("/out/a/b")));
    assert_eq!(mirror(&path("/input/a"), &path("/in"), &path("/out")), None);
}

#[test]
fn extension_is_normalized() {
    for name in ["post.md", "post.MD", "post.markdown", "post"] {
        assert_eq!(
            render_target(&path("/in/a/b").join(name), &path("/in"), &path("/out")),
            Some(path("/out/a/b/post.html"))
        );
    }
    assert_eq!(render_target(&path("/other/post.md"), &path("/in"), &path("/out")), None);
}
