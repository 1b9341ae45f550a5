use hlsl_assets::{output_path, resolve_source_path, COMPILED_EXTENSION, SOURCE_EXTENSION};

#[test]
fn extension_is_replaced() {
    assert_eq!(output_path("shaders/basic.hlsl"), "shaders/basic.spv");
    assert_eq!(output_path("assets/shaders/a.hlsl"), "assets/shaders/a.spv");
    assert_eq!(output_path("a.tar.hlsl"), "a.tar.spv");
    assert_eq!(output_path("dir.v2/shader"), "dir.v2/shader.spv");
    assert_eq!(output_path("noext"), "noext.spv");
    assert_eq!(output_path("dir/.hidden"), "dir/.hidden.spv");
    assert_eq!(output_path("trailing."), "trailing.spv");
}

#[test]
fn output_path_is_idempotent() {
    for p in ["shaders/basic.hlsl", "noext", "dir/.hidden", "a.b.c", "x/y.z/w.hlsl", "dir/", "a/..", "", "foo.txt/."] {
        let once = output_path(p);
        assert_eq!(output_path(&once), once);
    }
}

#[test]
fn trailing_separators_and_dot_components_are_passed_over() {
    assert_eq!(output_path("dir/"), "dir.spv");
    assert_eq!(output_path("dir//"), "dir.spv");
    assert_eq!(output_path("foo.txt/."), "foo.spv");
    assert_eq!(output_path("a/./"), "a.spv");
    assert_eq!(output_path("a/b.hlsl/./"), "a/b.spv");
}

#[test]
fn path_without_file_name_is_unchanged() {
    for p in ["", "/", ".", "./", "a/..", "../", "/."] {
        assert_eq!(output_path(p), p);
    }
}

#[test]
fn dots_inside_the_file_name() {
    assert_eq!(output_path("..."), "...spv");
    assert_eq!(output_path("..x"), "..spv");
    assert_eq!(output_path("a/.b.c"), "a/.b.spv");
}

#[test]
fn sources_resolve_under_the_asset_root() {
    assert_eq!(resolve_source_path("shaders/basic.hlsl"), "assets/shaders/basic.hlsl");
    assert_eq!(resolve_source_path("/abs/basic.hlsl"), "/abs/basic.hlsl");
    assert_eq!(resolve_source_path(""), "assets/");
}

#[test]
fn extensions() {
    assert_eq!(SOURCE_EXTENSION, "hlsl");
    assert_eq!(COMPILED_EXTENSION, "spv");
}
