use render_assets::{
    AssetManager, Extent3d, Image, ImageFormat, ImageInfo, MaterialData, MaterialDecl,
    MaterialHandle, MaterialKind, MaterialTable, TextureFormat,
};
use std::cell::Cell;
use std::sync::Arc;

fn material_image(file: &str) -> Arc<Image> {
    Arc::new(Image {
        image_info: Arc::new(ImageInfo { file: file.to_string(), format: ImageFormat::SRGB }),
        extent: Extent3d { width: 1, height: 1, depth: 1 },
        format: TextureFormat::Rgba8UnormSrgb,
    })
}

fn material_manager() -> AssetManager<(), (), ()> {
    let (mut manager, _) = AssetManager::new("assets".to_string());
    manager.insert_image("rock.png", material_image("rock.png"));
    manager
}

fn material_decl(kind: MaterialKind, images: &[&str]) -> MaterialDecl {
    MaterialDecl { material_kind: kind, images: images.iter().map(|s| s.to_string()).collect() }
}

#[test]
fn resolving_twice_loads_once_and_returns_equal_data() {
    let mut manager = material_manager();
    let handle = MaterialHandle { id: 1 };
    manager.register_material(handle);
    let loads = Cell::new(0u32);
    let first = manager.get_material_or_load(handle, |_| {
        loads.set(loads.get() + 1);
        material_decl(MaterialKind::PBR, &["rock.png"])
    });
    let second = manager.get_material_or_load(handle, |_| {
        loads.set(loads.get() + 1);
        material_decl(MaterialKind::Unlit, &[])
    });
    assert_eq!(loads.get(), 1);
    assert_eq!(first, second);
    assert!(Arc::ptr_eq(&first, &second));
    assert_eq!(first.material_kind, MaterialKind::PBR);
}

#[test]
fn a_resolved_handle_never_reaches_its_loader() {
    let mut manager = material_manager();
    let handle = MaterialHandle { id: 1 };
    let data = manager.resolve_material(handle, &material_decl(MaterialKind::PBR, &[]));
    let images_before = manager.get_images();
    for _ in 0..3 {
        let again = manager.get_material_or_load(handle, |_| panic!("loaded again"));
        assert!(Arc::ptr_eq(&again, &data));
    }
    assert_eq!(manager.get_images(), images_before);
    assert_eq!(manager.get_loaded_materials().len(), 1);
}

#[test]
fn the_loader_is_given_the_handle() {
    let mut manager = material_manager();
    let handle = MaterialHandle { id: 42 };
    let seen = Cell::new(0u64);
    manager.get_material_or_load(handle, |h| {
        seen.set(h.id);
        material_decl(MaterialKind::Unlit, &[])
    });
    assert_eq!(seen.get(), 42);
}

#[test]
fn an_unknown_handle_is_resolved_on_request() {
    let mut manager = material_manager();
    let handle = MaterialHandle { id: 9 };
    assert_eq!(manager.lookup_material(handle), None);
    let data = manager.resolve_material(handle, &material_decl(MaterialKind::Unlit, &["rock.png"]));
    assert_eq!(manager.lookup_material(handle), Some(data));
}

#[test]
fn registering_twice_leaves_the_handle_registered() {
    let mut manager = material_manager();
    let handle = MaterialHandle { id: 1 };
    manager.register_material(handle);
    manager.register_material(handle);
    assert_eq!(manager.lookup_material(handle), None);
    assert!(manager.get_loaded_materials().is_empty());
    manager.resolve_material(handle, &material_decl(MaterialKind::PBR, &[]));
    assert_eq!(manager.get_loaded_materials().len(), 1);
}

#[test]
fn a_resolved_handle_stays_resolved_when_registered_again() {
    let mut manager = material_manager();
    let handle = MaterialHandle { id: 1 };
    let data = manager.resolve_material(handle, &material_decl(MaterialKind::PBR, &["rock.png"]));
    manager.register_material(handle);
    manager.register_material(MaterialHandle { id: 2 });
    let again = manager.lookup_material(handle).unwrap();
    assert!(Arc::ptr_eq(&data, &again));
}

#[test]
fn a_resolved_handle_keeps_its_material_when_offered_another() {
    let mut manager = material_manager();
    let handle = MaterialHandle { id: 1 };
    let first = manager.resolve_material(handle, &material_decl(MaterialKind::PBR, &["rock.png"]));
    let second = manager.resolve_material(handle, &material_decl(MaterialKind::Unlit, &[]));
    assert!(Arc::ptr_eq(&first, &second));
    assert_eq!(second.material_kind, MaterialKind::PBR);
    assert_eq!(manager.get_loaded_materials().len(), 1);
}

#[test]
fn images_are_pulled_by_name_with_white_for_the_missing() {
    let mut manager = material_manager();
    let data = manager.resolve_material(
        MaterialHandle { id: 1 },
        &material_decl(MaterialKind::PBR, &["rock.png", "moss.png", "white"]),
    );
    let files: Vec<&str> = data.images.iter().map(|i| i.image_info.file.as_str()).collect();
    assert_eq!(files, vec!["rock.png", "white", "white"]);
    assert!(Arc::ptr_eq(&data.images[0], &manager.get_image("rock.png").unwrap()));
    assert!(Arc::ptr_eq(&data.images[1], &manager.get_image("white").unwrap()));
}

#[test]
fn a_fresh_manager_resolves_every_image_to_white() {
    let (mut manager, _) = AssetManager::<(), (), ()>::new("assets".to_string());
    let data = manager.get_material_or_load(MaterialHandle { id: 2 }, |_| {
        material_decl(MaterialKind::PBR, &["rock.png", "moss.png"])
    });
    let files: Vec<&str> = data.images.iter().map(|i| i.image_info.file.as_str()).collect();
    assert_eq!(files, vec!["white", "white"]);
}

#[test]
fn resolve_decl_builds_the_material_without_storing_it() {
    let manager = material_manager();
    let data = manager.resolve_decl(&material_decl(MaterialKind::Unlit, &["rock.png"]));
    assert_eq!(
        data,
        MaterialData {
            material_kind: MaterialKind::Unlit,
            images: vec![material_image("rock.png")],
        }
    );
    assert!(manager.get_loaded_materials().is_empty());
}

#[test]
fn loaded_materials_come_in_order_of_arrival() {
    let mut manager = material_manager();
    for id in [5u64, 3, 8] {
        manager.register_material(MaterialHandle { id });
    }
    manager.resolve_material(MaterialHandle { id: 8 }, &material_decl(MaterialKind::PBR, &[]));
    manager.resolve_material(MaterialHandle { id: 1 }, &material_decl(MaterialKind::Unbound, &[]));
    manager.resolve_material(MaterialHandle { id: 5 }, &material_decl(MaterialKind::Unlit, &[]));
    let kinds: Vec<MaterialKind> =
        manager.get_loaded_materials().iter().map(|m| m.material_kind).collect();
    assert_eq!(kinds, vec![MaterialKind::Unlit, MaterialKind::PBR, MaterialKind::Unbound]);
}

#[test]
fn a_mesh_registers_the_materials_it_names() {
    let (mut manager, _) = AssetManager::<(), (), u32>::new("assets".to_string());
    let seven = MaterialHandle { id: 7 };
    manager.resolve_material(seven, &material_decl(MaterialKind::PBR, &[]));
    let handles = vec![MaterialHandle { id: 4 }, seven, MaterialHandle { id: 4 }];
    assert!(manager.add_mesh("cube.gltf", 11, &handles));
    assert_eq!(manager.get_mesh("cube.gltf"), Ok(&11));
    assert!(manager.lookup_material(seven).is_some());
    assert_eq!(manager.lookup_material(MaterialHandle { id: 4 }), None);
    manager.resolve_material(MaterialHandle { id: 4 }, &material_decl(MaterialKind::Unlit, &[]));
    let kinds: Vec<MaterialKind> =
        manager.get_loaded_materials().iter().map(|m| m.material_kind).collect();
    assert_eq!(kinds, vec![MaterialKind::PBR, MaterialKind::Unlit]);
    assert!(!manager.add_mesh("cube.gltf", 12, &Vec::new()));
    assert_eq!(manager.get_mesh("cube.gltf"), Ok(&11));
}

#[test]
fn the_table_alone_follows_the_same_rules() {
    let mut table = MaterialTable::new();
    let handle = MaterialHandle { id: 1 };
    assert_eq!(table.get(handle), None);
    table.register(handle);
    assert_eq!(table.get(handle), None);
    let first = Arc::new(MaterialData { material_kind: MaterialKind::PBR, images: Vec::new() });
    let second = Arc::new(MaterialData { material_kind: MaterialKind::Unlit, images: Vec::new() });
    let resident = table.resolve(handle, first.clone());
    assert!(Arc::ptr_eq(&resident, &first));
    let resident = table.resolve(handle, second.clone());
    assert!(Arc::ptr_eq(&resident, &first));
    table.register(handle);
    assert!(Arc::ptr_eq(&table.get(handle).unwrap(), &first));
    let resident = table.resolve(MaterialHandle { id: 2 }, second.clone());
    assert!(Arc::ptr_eq(&resident, &second));
    assert_eq!(table.loaded(), vec![first, second]);
}
