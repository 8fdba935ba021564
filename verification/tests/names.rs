use render_assets::{base_name, logical_name, stem};

#[test]
fn the_logical_name_drops_the_extension() {
    assert_eq!(logical_name("rock.png"), "rock");
    assert_eq!(logical_name("rock_normal.png"), "rock_normal");
    assert_eq!(logical_name("sky.hdr"), "sky");
}

#[test]
fn the_logical_name_drops_the_directories() {
    assert_eq!(logical_name("assets/textures/rock.png"), "rock");
    assert_eq!(logical_name("assets\\textures\\rock.png"), "rock");
    assert_eq!(logical_name("assets/mixed\\rock.png"), "rock");
    assert_eq!(logical_name("/rock.png"), "rock");
}

#[test]
fn only_the_last_extension_is_dropped() {
    assert_eq!(logical_name("rock.001.png"), "rock.001");
    assert_eq!(logical_name("a.b.c.d"), "a.b.c");
}

#[test]
fn a_dot_in_a_directory_is_no_extension() {
    assert_eq!(logical_name("assets.v2/rock"), "rock");
    assert_eq!(logical_name("assets.v2/rock.png"), "rock");
}

#[test]
fn a_name_without_extension_is_its_own_logical_name() {
    assert_eq!(logical_name("white"), "white");
    assert_eq!(logical_name("missing_key"), "missing_key");
    assert_eq!(logical_name(""), "");
}

#[test]
fn a_leading_dot_starts_a_name() {
    assert_eq!(logical_name(".png"), ".png");
    assert_eq!(logical_name("dir/.hidden"), ".hidden");
    assert_eq!(logical_name(".hidden.png"), ".hidden");
    assert_eq!(logical_name(".."), ".");
}

#[test]
fn a_trailing_dot_is_an_empty_extension() {
    assert_eq!(logical_name("rock."), "rock");
    assert_eq!(logical_name("rock.."), "rock.");
}

#[test]
fn a_path_that_ends_in_a_separator_has_no_name() {
    assert_eq!(logical_name("assets/"), "");
    assert_eq!(logical_name("/"), "");
    assert_eq!(base_name("a/b/"), "");
}

#[test]
fn names_beyond_ascii_are_cut_between_characters() {
    assert_eq!(logical_name("küche/brötchen.png"), "brötchen");
    assert_eq!(logical_name("石/岩.法線.png"), "岩.法線");
    assert_eq!(logical_name("é"), "é");
    assert_eq!(stem("日本語"), "日本語");
}

#[test]
fn the_base_name_is_what_follows_the_last_separator() {
    assert_eq!(base_name("a/b/c.png"), "c.png");
    assert_eq!(base_name("c.png"), "c.png");
    assert_eq!(base_name("a\\c.png"), "c.png");
    assert_eq!(base_name(""), "");
}

#[test]
fn the_stem_is_what_precedes_the_last_dot() {
    assert_eq!(stem("c.png"), "c");
    assert_eq!(stem("c"), "c");
    assert_eq!(stem(".c"), ".c");
    assert_eq!(stem("a/b.c/d"), "a/b");
}
