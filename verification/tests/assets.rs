use render_assets::{AssetError, AssetManager, NameTable};

fn assets_manager() -> AssetManager<String, u32, Vec<u8>> {
    AssetManager::new("assets".to_string()).0
}

#[test]
fn a_shader_is_found_under_its_name() {
    let mut manager = assets_manager();
    manager.insert_shader("basic.shader", "void main() {}".to_string());
    assert_eq!(manager.get_shader("basic.shader"), Ok(&"void main() {}".to_string()));
}

#[test]
fn a_missing_shader_is_a_lookup_error() {
    let manager = assets_manager();
    assert_eq!(manager.get_shader("basic.shader"), Err(AssetError::Lookup));
}

#[test]
fn a_recompiled_shader_replaces_the_old_one() {
    let mut manager = assets_manager();
    manager.insert_shader("basic.shader", "old".to_string());
    manager.insert_shader("basic.shader", "new".to_string());
    assert_eq!(manager.get_shader("basic.shader"), Ok(&"new".to_string()));
}

#[test]
fn the_first_mesh_under_a_name_stays() {
    let mut manager = assets_manager();
    assert!(manager.insert_mesh("cube.gltf", vec![1]));
    assert!(!manager.insert_mesh("cube.gltf", vec![2]));
    assert_eq!(manager.get_mesh("cube.gltf"), Ok(&vec![1]));
}

#[test]
fn a_missing_mesh_is_a_lookup_error() {
    let manager = assets_manager();
    assert_eq!(manager.get_mesh("cube.gltf"), Err(AssetError::Lookup));
}

#[test]
fn a_font_is_found_under_its_name() {
    let mut manager = assets_manager();
    manager.insert_font("mono.ttf", 12);
    assert_eq!(manager.get_font("mono.ttf"), Ok(&12));
    assert_eq!(manager.get_font("serif.otf"), Err(AssetError::Lookup));
}

#[test]
fn a_font_can_be_changed_in_place() {
    let mut manager = assets_manager();
    manager.insert_font("mono.ttf", 12);
    manager.insert_font("serif.otf", 10);
    *manager.get_font_mut("mono.ttf").unwrap() = 14;
    assert_eq!(manager.get_font("mono.ttf"), Ok(&14));
    assert_eq!(manager.get_font("serif.otf"), Ok(&10));
    assert_eq!(manager.get_fonts(), vec![&14, &10]);
}

#[test]
fn a_missing_font_cannot_be_changed() {
    let mut manager = assets_manager();
    manager.insert_font("mono.ttf", 12);
    assert_eq!(manager.get_font_mut("serif.otf"), Err(AssetError::Lookup));
    assert_eq!(manager.get_fonts(), vec![&12]);
}

#[test]
fn fonts_are_listed_in_order_of_arrival() {
    let mut manager = assets_manager();
    manager.insert_font("c.ttf", 3);
    manager.insert_font("a.ttf", 1);
    manager.insert_font("b.otf", 2);
    manager.insert_font("a.ttf", 9);
    assert_eq!(manager.get_fonts(), vec![&3, &9, &2]);
}

#[test]
fn kinds_of_assets_do_not_share_names() {
    let mut manager = assets_manager();
    manager.insert_shader("x", "s".to_string());
    manager.insert_font("x", 1);
    assert_eq!(manager.get_mesh("x"), Err(AssetError::Lookup));
    assert_eq!(manager.get_image("x"), None);
    assert_eq!(manager.get_shader("white"), Err(AssetError::Lookup));
    assert_eq!(manager.get_font("x"), Ok(&1));
}

#[test]
fn a_table_keeps_names_apart() {
    let mut table: NameTable<u8> = NameTable::new();
    assert_eq!(table.len(), 0);
    table.insert("a", 1);
    table.insert("b", 2);
    assert!(table.insert_if_absent("c", 3));
    assert!(!table.insert_if_absent("a", 7));
    assert_eq!(table.len(), 3);
    assert!(table.contains("b"));
    assert!(!table.contains("d"));
    assert_eq!(table.get("a"), Some(&1));
    assert_eq!(table.get("d"), None);
    if let Some(value) = table.get_mut("b") {
        *value = 20;
    }
    assert_eq!(table.get_mut("d"), None);
    assert_eq!(table.values(), vec![&1, &20, &3]);
}
