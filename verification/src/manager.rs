//! The asset manager: every asset that a load pass has produced, each under
//! its name, and the materials that geometry refers to.
//!
//! The manager is generic in the shader, font and mesh types, of which it
//! only keeps the values. Images and materials it knows.

use std::sync::Arc;
use vstd::pervasive::unreached;
use vstd::prelude::*;
use vstd::slice::slice_to_vec;
use crate::bind_group::{
    plan_bind_groups, spec_bind_action, spec_group_name, spec_layout_name, BindGroupAction,
};
use crate::error::AssetError;
use crate::format::{ImageFormat, ImageInfo, ImageInfoView, TextureFormat};
use crate::image_asset::{is_build_outcome, is_built, Image, ImageBuilder, ImageView};
use crate::texture::{
    flat_extent, image_upload, upload_with_stride, Extent3d, TextureUpload, TextureUploadView,
};
use crate::material::{
    share, spec_arrive, spec_loaded, spec_register, spec_resolve, state_of, MaterialData,
    MaterialDataView, MaterialDecl, MaterialDeclView, MaterialHandle, MaterialState, MaterialTable,
};
use crate::names::{logical_name, spec_logical_name};
use crate::table::NameTable;

verus! {

/// The assets of one renderer.
pub struct AssetManager<S, F, M> {
    path: String,
    shaders: NameTable<S>,
    fonts: NameTable<F>,
    meshes: NameTable<M>,
    materials: MaterialTable,
    images: NameTable<Arc<Image>>,
}

/// The mathematical content of an [`AssetManager`]: a map for each kind of
/// asset, and the order of arrival of the fonts, images and materials, in
/// which they are listed.
pub struct AssetManagerView<S, F, M> {
    pub path: Seq<char>,
    pub shaders: Map<Seq<char>, S>,
    pub fonts: Map<Seq<char>, F>,
    pub font_order: Seq<Seq<char>>,
    pub meshes: Map<Seq<char>, M>,
    pub materials: Map<MaterialHandle, Option<MaterialDataView>>,
    pub material_order: Seq<MaterialHandle>,
    pub images: Map<Seq<char>, ImageView>,
    pub image_order: Seq<Seq<char>>,
}

impl<S, F, M> View for AssetManager<S, F, M> {
    type V = AssetManagerView<S, F, M>;

    closed spec fn view(&self) -> AssetManagerView<S, F, M> {
        AssetManagerView {
            path: self.path@,
            shaders: self.shaders@,
            fonts: self.fonts@,
            font_order: self.fonts.order(),
            meshes: self.meshes@,
            materials: self.materials@,
            material_order: self.materials.order(),
            images: Map::new(
                |k: Seq<char>| self.images@.contains_key(k),
                |k: Seq<char>| self.images@[k]@,
            ),
            image_order: self.images.order(),
        }
    }
}

/// The name under which the fallback image is stored.
pub open spec fn white() -> Seq<char> {
    "white"@
}

/// The image found under `name`, or else under `default_name`; with neither
/// there, the lookup fails.
pub open spec fn spec_get_or_default(
    images: Map<Seq<char>, ImageView>,
    name: Seq<char>,
    default_name: Seq<char>,
) -> Result<ImageView, AssetError> {
    if images.contains_key(name) {
        Ok(images[name])
    } else if images.contains_key(default_name) {
        Ok(images[default_name])
    } else {
        Err(AssetError::MissingFallback)
    }
}

/// The fallback image: one white pixel.
pub open spec fn white_image() -> ImageView {
    ImageView {
        image_info: ImageInfoView { file: white(), format: ImageFormat::SRGB },
        extent: flat_extent(1, 1),
        format: TextureFormat::Rgba8UnormSrgb,
    }
}

/// The upload of the fallback image.
pub open spec fn white_upload() -> TextureUploadView {
    image_upload(1, 1, TextureFormat::Rgba8UnormSrgb, 4, seq![255u8, 255u8, 255u8, 255u8])
}

/// The image found under `name`, or else the fallback image.
pub open spec fn spec_get_or_white(images: Map<Seq<char>, ImageView>, name: Seq<char>)
    -> ImageView {
    if images.contains_key(name) {
        images[name]
    } else {
        images[white()]
    }
}

/// The images that a material samples, each pulled from the cache under its
/// declared name or else the fallback.
pub open spec fn spec_pull(images: Map<Seq<char>, ImageView>, names: Seq<Seq<char>>) -> Seq<
    ImageView,
> {
    Seq::new(names.len(), |i: int| spec_get_or_white(images, names[i]))
}

/// The material that a declaration resolves to against the cached images.
pub open spec fn spec_material(images: Map<Seq<char>, ImageView>, decl: MaterialDeclView)
    -> MaterialDataView {
    MaterialDataView {
        material_kind: decl.material_kind,
        images: spec_pull(images, decl.images),
    }
}

/// The materials after each of `handles` is registered, first to last.
pub open spec fn spec_register_all(
    materials: Map<MaterialHandle, Option<MaterialDataView>>,
    handles: Seq<MaterialHandle>,
) -> Map<MaterialHandle, Option<MaterialDataView>>
    decreases handles.len(),
{
    if handles.len() == 0 {
        materials
    } else {
        spec_register(spec_register_all(materials, handles.drop_last()), handles.last())
    }
}

/// The order of the handles after each of `handles` arrives, first to last.
pub open spec fn spec_arrive_all(
    materials: Map<MaterialHandle, Option<MaterialDataView>>,
    order: Seq<MaterialHandle>,
    handles: Seq<MaterialHandle>,
) -> Seq<MaterialHandle>
    decreases handles.len(),
{
    if handles.len() == 0 {
        order
    } else {
        spec_arrive(
            spec_register_all(materials, handles.drop_last()),
            spec_arrive_all(materials, order, handles.drop_last()),
            handles.last(),
        )
    }
}

impl<S, F, M> AssetManagerView<S, F, M> {
    /// The manager after a request to resolve `handle`, where `decl` is
    /// what the material declares: a resolved handle changes nothing; any
    /// other handle is resolved against the cached images.
    pub open spec fn resolve_material(self, handle: MaterialHandle, decl: MaterialDeclView) -> Self {
        if state_of(self.materials, handle) is Resolved {
            self
        } else {
            AssetManagerView {
                materials: spec_resolve(
                    self.materials,
                    handle,
                    spec_material(self.images, decl),
                ),
                material_order: spec_arrive(self.materials, self.material_order, handle),
                ..self
            }
        }
    }

    /// What a request to resolve `handle` returns, where `decl` is what the
    /// material declares.
    pub open spec fn resolved_material(self, handle: MaterialHandle, decl: MaterialDeclView)
        -> MaterialDataView {
        match state_of(self.materials, handle) {
            MaterialState::Resolved(cached) => cached,
            _ => spec_material(self.images, decl),
        }
    }
}

/// The fallback stands in for what is missing: a lookup of a name that is
/// not in the cache gives the image that is stored under the fallback's
/// own name, which is what a lookup of that name gives.
pub proof fn lemma_fallback(images: Map<Seq<char>, ImageView>, missing: Seq<char>)
    requires
        images.contains_key(white()),
        !images.contains_key(missing),
    ensures
        spec_get_or_white(images, missing) == images[white()],
        spec_get_or_white(images, missing) == spec_get_or_white(images, white()),
        spec_get_or_default(images, missing, white()) == Ok::<ImageView, AssetError>(
            images[white()],
        ),
{
}

/// Resolution is memoized: after a request to resolve a handle, the handle
/// is resolved, so that no later request has the material loaded again;
/// and a later request returns the same material and changes nothing,
/// whatever declaration it is given.
pub proof fn lemma_resolve_memoized<S, F, M>(
    before: AssetManagerView<S, F, M>,
    handle: MaterialHandle,
    first: MaterialDeclView,
    second: MaterialDeclView,
)
    ensures
        ({
            let after = before.resolve_material(handle, first);
            &&& state_of(after.materials, handle) is Resolved
            &&& after.resolved_material(handle, second) == before.resolved_material(handle, first)
            &&& after.resolve_material(handle, second) == after
        }),
{
}

impl<S, F, M> AssetManager<S, F, M> {
    /// The invariant of the manager.
    pub closed spec fn wf(&self) -> bool {
        &&& self.shaders.wf()
        &&& self.fonts.wf()
        &&& self.meshes.wf()
        &&& self.materials.wf()
        &&& self.images.wf()
        &&& self.images@.contains_key(white())
    }

    /// The fallback image is always there.
    pub proof fn lemma_white_is_present(&self)
        requires
            self.wf(),
        ensures
            self@.images.contains_key(white()),
    {
    }

    /// Each order lists exactly the keys of its map, each once.
    pub proof fn lemma_orders(&self)
        requires
            self.wf(),
        ensures
            forall|k: Seq<char>| self@.fonts.contains_key(k) <==> self@.font_order.contains(k),
            forall|k: Seq<char>| self@.images.contains_key(k) <==> self@.image_order.contains(k),
            forall|h: MaterialHandle|
                self@.materials.contains_key(h) <==> self@.material_order.contains(h),
            forall|i: int, j: int|
                0 <= i < j < self@.font_order.len() ==> self@.font_order[i] != self@.font_order[j],
            forall|i: int, j: int|
                0 <= i < j < self@.image_order.len() ==> self@.image_order[i]
                    != self@.image_order[j],
            forall|i: int, j: int|
                0 <= i < j < self@.material_order.len() ==> self@.material_order[i]
                    != self@.material_order[j],
    {
        self.fonts.lemma_order();
        self.images.lemma_order();
        self.materials.lemma_order();
    }

    /// A manager for the assets under the directory `path`, with nothing
    /// loaded yet but the fallback image: one white pixel, stored under
    /// the name "white". The upload of the fallback is returned beside the
    /// manager.
    pub fn new(path: String) -> (made: (Self, TextureUpload))
        ensures
            made.0.wf(),
            made.0@ == (AssetManagerView::<S, F, M> {
                path: path@,
                shaders: Map::empty(),
                fonts: Map::empty(),
                font_order: Seq::empty(),
                meshes: Map::empty(),
                materials: Map::empty(),
                material_order: Seq::empty(),
                images: Map::empty().insert(white(), white_image()),
                image_order: Seq::empty().push(white()),
            }),
            made.1@ == white_upload(),
    {
        let mut pixel: Vec<u8> = Vec::new();
        pixel.push(255);
        pixel.push(255);
        pixel.push(255);
        pixel.push(255);
        assert(pixel@ =~= seq![255u8, 255u8, 255u8, 255u8]);
        let format = TextureFormat::Rgba8UnormSrgb;
        let upload = upload_with_stride(1, 1, format, 4, pixel);
        let image = Image {
            image_info: Arc::new(
                ImageInfo { file: "white".to_owned(), format: ImageFormat::SRGB },
            ),
            extent: Extent3d::flat(1, 1),
            format,
        };
        let mut images = NameTable::new();
        images.insert("white", Arc::new(image));
        let manager = AssetManager {
            path,
            shaders: NameTable::new(),
            fonts: NameTable::new(),
            meshes: NameTable::new(),
            materials: MaterialTable::new(),
            images,
        };
        assert(manager@.images =~= Map::empty().insert(white(), white_image()));
        (manager, upload)
    }

    /// The directory that the assets are loaded from.
    pub fn path(&self) -> (path: &str)
        ensures
            path@ == self@.path,
    {
        self.path.as_str()
    }

    /// Stores a compiled shader under `name`, in place of any other.
    pub fn insert_shader(&mut self, name: &str, shader: S)
        requires
            old(self).wf(),
        ensures
            final(self).wf(),
            final(self)@ == (AssetManagerView {
                shaders: old(self)@.shaders.insert(name@, shader),
                ..old(self)@
            }),
    {
        self.shaders.insert(name, shader);
    }

    /// The shader stored under `key`; `Lookup` if there is none.
    pub fn get_shader(&self, key: &str) -> (shader: Result<&S, AssetError>)
        requires
            self.wf(),
        ensures
            match shader {
                Ok(s) => self@.shaders.contains_key(key@) && *s == self@.shaders[key@],
                Err(e) => e == AssetError::Lookup && !self@.shaders.contains_key(key@),
            },
    {
        match self.shaders.get(key) {
            Some(shader) => Ok(shader),
            None => Err(AssetError::Lookup),
        }
    }

    /// Stores a mesh under `name` unless one is stored there already, and
    /// says whether it did.
    pub fn insert_mesh(&mut self, name: &str, mesh: M) -> (inserted: bool)
        requires
            old(self).wf(),
        ensures
            final(self).wf(),
            inserted == !old(self)@.meshes.contains_key(name@),
            final(self)@ == (AssetManagerView {
                meshes: if inserted {
                    old(self)@.meshes.insert(name@, mesh)
                } else {
                    old(self)@.meshes
                },
                ..old(self)@
            }),
    {
        self.meshes.insert_if_absent(name, mesh)
    }

    /// The mesh stored under `key`; `Lookup` if there is none.
    pub fn get_mesh(&self, key: &str) -> (mesh: Result<&M, AssetError>)
        requires
            self.wf(),
        ensures
            match mesh {
                Ok(m) => self@.meshes.contains_key(key@) && *m == self@.meshes[key@],
                Err(e) => e == AssetError::Lookup && !self@.meshes.contains_key(key@),
            },
    {
        match self.meshes.get(key) {
            Some(mesh) => Ok(mesh),
            None => Err(AssetError::Lookup),
        }
    }

    /// Stores a font under `name`, in place of any other.
    pub fn insert_font(&mut self, name: &str, font: F)
        requires
            old(self).wf(),
        ensures
            final(self).wf(),
            final(self)@ == (AssetManagerView {
                fonts: old(self)@.fonts.insert(name@, font),
                font_order: if old(self)@.fonts.contains_key(name@) {
                    old(self)@.font_order
                } else {
                    old(self)@.font_order.push(name@)
                },
                ..old(self)@
            }),
    {
        self.fonts.insert(name, font);
    }

    /// The font stored under `key`; `Lookup` if there is none.
    pub fn get_font(&self, key: &str) -> (font: Result<&F, AssetError>)
        requires
            self.wf(),
        ensures
            match font {
                Ok(f) => self@.fonts.contains_key(key@) && *f == self@.fonts[key@],
                Err(e) => e == AssetError::Lookup && !self@.fonts.contains_key(key@),
            },
    {
        match self.fonts.get(key) {
            Some(font) => Ok(font),
            None => Err(AssetError::Lookup),
        }
    }

    /// The font stored under `key`, for changing in place; `Lookup` if
    /// there is none. What the caller leaves in it is the font that the
    /// manager then holds under `key`; nothing else changes.
    pub fn get_font_mut(&mut self, key: &str) -> (font: Result<&mut F, AssetError>)
        requires
            old(self).wf(),
        ensures
            match font {
                Ok(f) => {
                    &&& old(self)@.fonts.contains_key(key@)
                    &&& *f == old(self)@.fonts[key@]
                    &&& final(self).wf()
                    &&& final(self)@ == (AssetManagerView {
                        fonts: old(self)@.fonts.insert(key@, *final(f)),
                        ..old(self)@
                    })
                },
                Err(e) => {
                    &&& e == AssetError::Lookup
                    &&& !old(self)@.fonts.contains_key(key@)
                    &&& *final(self) == *old(self)
                },
            },
    {
        match self.fonts.get_mut(key) {
            Some(font) => Ok(font),
            None => Err(AssetError::Lookup),
        }
    }

    /// All fonts, in the order in which their names arrived.
    pub fn get_fonts(&self) -> (fonts: Vec<&F>)
        requires
            self.wf(),
        ensures
            fonts.len() == self@.font_order.len(),
            forall|i: int| 0 <= i < fonts.len() ==> *fonts[i] == self@.fonts[self@.font_order[i]],
    {
        self.fonts.values()
    }

    /// Stores an image under `name`, in place of any other.
    pub fn insert_image(&mut self, name: &str, image: Arc<Image>)
        requires
            old(self).wf(),
        ensures
            final(self).wf(),
            final(self)@ == (AssetManagerView {
                images: old(self)@.images.insert(name@, image@),
                image_order: if old(self)@.images.contains_key(name@) {
                    old(self)@.image_order
                } else {
                    old(self)@.image_order.push(name@)
                },
                ..old(self)@
            }),
    {
        self.images.insert(name, image);
        assert(self@.images =~= old(self)@.images.insert(name@, image@));
    }

    /// The image stored under `key`, if there is one.
    pub fn get_image(&self, key: &str) -> (image: Option<Arc<Image>>)
        requires
            self.wf(),
        ensures
            match image {
                Some(i) => self@.images.contains_key(key@) && i@ == self@.images[key@],
                None => !self@.images.contains_key(key@),
            },
    {
        match self.images.get(key) {
            Some(image) => Some(share(image)),
            None => None,
        }
    }

    /// The image stored under `key`, or else the one under `default_key`;
    /// `MissingFallback` if neither is there.
    pub fn get_image_or_default(&self, key: &str, default_key: &str) -> (image: Result<
        Arc<Image>,
        AssetError,
    >)
        requires
            self.wf(),
        ensures
            match spec_get_or_default(self@.images, key@, default_key@) {
                Ok(found) => image matches Ok(i) && i@ == found,
                Err(e) => image == Err::<Arc<Image>, AssetError>(e),
            },
    {
        match self.images.get(key) {
            Some(image) => Ok(share(image)),
            None => match self.images.get(default_key) {
                Some(image) => Ok(share(image)),
                None => Err(AssetError::MissingFallback),
            },
        }
    }

    /// The image stored under `key`, or else the fallback image, which is
    /// stored under the name "white".
    pub fn get_image_or_white(&self, key: &str) -> (image: Arc<Image>)
        requires
            self.wf(),
        ensures
            image@ == spec_get_or_white(self@.images, key@),
    {
        match self.images.get(key) {
            Some(image) => share(image),
            None => match self.images.get("white") {
                Some(image) => share(image),
                None => unreached(),
            },
        }
    }

    /// All images, in the order in which their names arrived.
    pub fn get_images(&self) -> (images: Vec<Arc<Image>>)
        requires
            self.wf(),
        ensures
            images.len() == self@.image_order.len(),
            forall|i: int|
                0 <= i < images.len() ==> images[i]@ == self@.images[self@.image_order[i]],
    {
        let stored = self.images.values();
        let mut images: Vec<Arc<Image>> = Vec::new();
        let mut i: usize = 0;
        while i < stored.len()
            invariant
                i <= stored.len(),
                images.len() == i,
                forall|j: int| 0 <= j < i ==> images[j] == *stored[j],
            decreases stored.len() - i,
        {
            images.push(share(stored[i]));
            i += 1;
        }
        proof {
            self.images.lemma_order();
            assert forall|j: int| 0 <= j < images.len() implies images[j]@
                == self@.images[self@.image_order[j]] by {
                assert(self.images.order().contains(self.images.order()[j]));
            }
        }
        images
    }

    /// Makes a material handle known. A handle that is known already,
    /// resolved or not, is left as it is.
    pub fn register_material(&mut self, handle: MaterialHandle)
        requires
            old(self).wf(),
        ensures
            final(self).wf(),
            final(self)@ == (AssetManagerView {
                materials: spec_register(old(self)@.materials, handle),
                material_order: spec_arrive(
                    old(self)@.materials,
                    old(self)@.material_order,
                    handle,
                ),
                ..old(self)@
            }),
    {
        self.materials.register(handle);
    }

    /// Takes in a loaded mesh: registers the handles of the materials that
    /// it refers to, and stores the mesh under `name` unless one is stored
    /// there already. Says whether the mesh was stored.
    pub fn add_mesh(&mut self, name: &str, mesh: M, handles: &Vec<MaterialHandle>) -> (inserted:
        bool)
        requires
            old(self).wf(),
        ensures
            final(self).wf(),
            inserted == !old(self)@.meshes.contains_key(name@),
            final(self)@ == (AssetManagerView {
                meshes: if inserted {
                    old(self)@.meshes.insert(name@, mesh)
                } else {
                    old(self)@.meshes
                },
                materials: spec_register_all(old(self)@.materials, handles@),
                material_order: spec_arrive_all(
                    old(self)@.materials,
                    old(self)@.material_order,
                    handles@,
                ),
                ..old(self)@
            }),
    {
        let mut i: usize = 0;
        while i < handles.len()
            invariant
                self.wf(),
                i <= handles.len(),
                self@ == (AssetManagerView {
                    materials: spec_register_all(old(self)@.materials, handles@.take(i as int)),
                    material_order: spec_arrive_all(
                        old(self)@.materials,
                        old(self)@.material_order,
                        handles@.take(i as int),
                    ),
                    ..old(self)@
                }),
            decreases handles.len() - i,
        {
            proof {
                assert(handles@.take(i + 1).drop_last() =~= handles@.take(i as int));
            }
            self.materials.register(handles[i]);
            i += 1;
        }
        assert(handles@.take(i as int) =~= handles@);
        self.meshes.insert_if_absent(name, mesh)
    }

    /// The material of `handle`, if it is resolved. `None` means that the
    /// material has yet to be loaded.
    pub fn lookup_material(&self, handle: MaterialHandle) -> (data: Option<Arc<MaterialData>>)
        requires
            self.wf(),
        ensures
            match state_of(self@.materials, handle) {
                MaterialState::Resolved(cached) => data matches Some(d) && d@ == cached,
                _ => data is None,
            },
    {
        self.materials.get(handle)
    }

    /// Resolves a declaration against the cached images: each image that
    /// the material names is taken from the cache, or else is the fallback
    /// image.
    pub fn resolve_decl(&self, decl: &MaterialDecl) -> (data: MaterialData)
        requires
            self.wf(),
        ensures
            data@ == spec_material(self@.images, decl@),
    {
        let mut images: Vec<Arc<Image>> = Vec::new();
        let mut i: usize = 0;
        while i < decl.images.len()
            invariant
                self.wf(),
                i <= decl.images.len(),
                images.len() == i,
                forall|j: int|
                    0 <= j < i ==> (#[trigger] images[j])@ == spec_get_or_white(
                        self@.images,
                        decl@.images[j],
                    ),
            decreases decl.images.len() - i,
        {
            images.push(self.get_image_or_white(decl.images[i].as_str()));
            i += 1;
        }
        let data = MaterialData { material_kind: decl.material_kind, images };
        assert(data@.images =~= spec_pull(self@.images, decl@.images));
        data
    }

    /// Resolves `handle` with the declaration of its material, unless it is
    /// resolved already, and returns the material that the handle then has.
    ///
    /// A resolved handle keeps its material and the declaration is not
    /// looked at. Otherwise the declaration is resolved against the cached
    /// images and the handle becomes resolved.
    pub fn resolve_material(&mut self, handle: MaterialHandle, decl: &MaterialDecl) -> (data: Arc<
        MaterialData,
    >)
        requires
            old(self).wf(),
        ensures
            final(self).wf(),
            final(self)@ == old(self)@.resolve_material(handle, decl@),
            data@ == old(self)@.resolved_material(handle, decl@),
    {
        match self.materials.get(handle) {
            Some(cached) => {
                return cached;
            },
            None => {},
        }
        let fresh = self.resolve_decl(decl);
        self.materials.resolve(handle, Arc::new(fresh))
    }

    /// The material of `handle`, loaded on the first request and remembered
    /// from then on. `load` is called only if the handle is not resolved
    /// yet, and only then does it have to accept the handle; what it
    /// returns is resolved as in [`AssetManager::resolve_material`].
    pub fn get_material_or_load<L>(&mut self, handle: MaterialHandle, load: L) -> (data: Arc<
        MaterialData,
    >) where L: FnOnce(MaterialHandle) -> MaterialDecl
        requires
            old(self).wf(),
            state_of(old(self)@.materials, handle) is Resolved || call_requires(load, (handle,)),
        ensures
            final(self).wf(),
            match state_of(old(self)@.materials, handle) {
                MaterialState::Resolved(cached) => final(self)@ == old(self)@ && data@ == cached,
                _ => exists|decl: MaterialDecl|
                    {
                        &&& call_ensures(load, (handle,), decl)
                        &&& final(self)@ == old(self)@.resolve_material(handle, decl@)
                        &&& data@ == #[trigger] spec_material(old(self)@.images, decl@)
                    },
            },
    {
        match self.materials.get(handle) {
            Some(cached) => {
                return cached;
            },
            None => {},
        }
        let decl = load(handle);
        self.resolve_material(handle, &decl)
    }

    /// The resolved materials, in the order in which their handles arrived.
    pub fn get_loaded_materials(&self) -> (loaded: Vec<Arc<MaterialData>>)
        requires
            self.wf(),
        ensures
            loaded.len() == spec_loaded(self@.materials, self@.material_order).len(),
            forall|i: int|
                0 <= i < loaded.len() ==> loaded[i]@ == spec_loaded(
                    self@.materials,
                    self@.material_order,
                )[i],
    {
        self.materials.loaded()
    }

    /// What to do, for each resolved material in turn, to give the
    /// materials of this pass their bind groups: which layout to build
    /// with, and where to register what is built.
    pub fn load_materials(&self) -> (plan: Vec<BindGroupAction>)
        requires
            self.wf(),
        ensures
            plan.len() == spec_loaded(self@.materials, self@.material_order).len(),
            forall|i: int|
                #![trigger plan[i]]
                0 <= i < plan.len() ==> {
                    let kind = spec_loaded(self@.materials, self@.material_order)[i].material_kind;
                    &&& plan[i] == spec_bind_action(kind, i as usize)
                    &&& plan[i].spec_layout() == spec_layout_name(kind)
                    &&& plan[i].spec_group() == spec_group_name(kind)
                },
    {
        let loaded = self.get_loaded_materials();
        plan_bind_groups(&loaded)
    }

    /// Takes in an image file that was found under the name `file_name`:
    /// decodes `bytes` as `format` says, stores the image under the
    /// logical name of the file, in place of any other, and returns the
    /// upload to perform.
    ///
    /// Where the bytes cannot be decoded (`Decode`) or the picture cannot
    /// be uploaded (`Upload`), nothing changes: the file can be skipped.
    pub fn load_image(&mut self, file_name: &str, format: ImageFormat, bytes: &[u8]) -> (upload:
        Result<TextureUpload, AssetError>)
        requires
            old(self).wf(),
        ensures
            final(self).wf(),
            match upload {
                Ok(u) => {
                    let key = spec_logical_name(file_name@);
                    &&& final(self)@.images.contains_key(key)
                    &&& is_built(
                        bytes@,
                        ImageInfoView { file: file_name@, format },
                        final(self)@.images[key],
                        u@,
                    )
                    &&& final(self)@ == (AssetManagerView {
                        images: old(self)@.images.insert(key, final(self)@.images[key]),
                        image_order: if old(self)@.images.contains_key(key) {
                            old(self)@.image_order
                        } else {
                            old(self)@.image_order.push(key)
                        },
                        ..old(self)@
                    })
                },
                Err(e) => final(self)@ == old(self)@,
            },
            is_build_outcome(
                bytes@,
                ImageInfoView { file: file_name@, format },
                match upload {
                    Ok(u) => Ok((final(self)@.images[spec_logical_name(file_name@)], u@)),
                    Err(e) => Err(e),
                },
            ),
    {
        let image_info = Arc::new(ImageInfo { file: file_name.to_owned(), format });
        let builder = ImageBuilder { bytes: slice_to_vec(bytes) };
        match builder.build(image_info) {
            Ok((image, upload)) => {
                self.insert_image(logical_name(file_name), Arc::new(image));
                Ok(upload)
            },
            Err(e) => Err(e),
        }
    }
}

} // verus!
