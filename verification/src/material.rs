//! Materials and their resolution.
//!
//! Geometry names its materials by handle before any material is loaded.
//! A handle is first registered without data and is resolved on the first
//! request; from then on the same data is handed out, and the handle never
//! loses it.

use std::sync::Arc;
use vstd::hash_map::HashMapWithView;
use vstd::prelude::*;
use crate::image_asset::{Image, ImageView};

verus! {

broadcast use vstd::std_specs::hash::group_hash_axioms;

/// The identity of a material, as geometry refers to it.
#[derive(Clone, Copy, Debug, PartialEq, Eq, Hash, Structural)]
pub struct MaterialHandle {
    pub id: u64,
}

/// How a material is rendered, which decides the bind group it needs.
#[derive(Clone, Copy, Debug, PartialEq, Eq, Hash, Structural)]
pub enum MaterialKind {
    /// Rendered without a bind group of its own.
    Unbound,
    /// Textured, without lighting.
    Unlit,
    /// Physically based.
    PBR,
}

/// What a material declares before it is resolved: its kind and the names
/// of the images it samples.
#[derive(Clone, Debug, PartialEq, Eq)]
pub struct MaterialDecl {
    pub material_kind: MaterialKind,
    pub images: Vec<String>,
}

/// The mathematical content of a [`MaterialDecl`].
pub struct MaterialDeclView {
    pub material_kind: MaterialKind,
    pub images: Seq<Seq<char>>,
}

impl View for MaterialDecl {
    type V = MaterialDeclView;

    open spec fn view(&self) -> MaterialDeclView {
        MaterialDeclView {
            material_kind: self.material_kind,
            images: Seq::new(self.images.len() as nat, |i: int| self.images[i]@),
        }
    }
}

/// A resolved material: its kind and the images it samples, in the order in
/// which it declared them.
#[derive(Clone, Debug, PartialEq, Eq)]
pub struct MaterialData {
    pub material_kind: MaterialKind,
    pub images: Vec<Arc<Image>>,
}

/// The mathematical content of a [`MaterialData`].
pub struct MaterialDataView {
    pub material_kind: MaterialKind,
    pub images: Seq<ImageView>,
}

impl View for MaterialData {
    type V = MaterialDataView;

    open spec fn view(&self) -> MaterialDataView {
        MaterialDataView {
            material_kind: self.material_kind,
            images: Seq::new(self.images.len() as nat, |i: int| self.images[i]@),
        }
    }
}

/// Where a handle stands.
pub enum MaterialState {
    /// No geometry has named the handle.
    Unregistered,
    /// The handle is known, its material not yet loaded.
    Registered,
    /// The material is loaded.
    Resolved(MaterialDataView),
}

/// The state of `handle` in a map from handles to their material, if any.
pub open spec fn state_of(
    materials: Map<MaterialHandle, Option<MaterialDataView>>,
    handle: MaterialHandle,
) -> MaterialState {
    if !materials.contains_key(handle) {
        MaterialState::Unregistered
    } else {
        match materials[handle] {
            Some(data) => MaterialState::Resolved(data),
            None => MaterialState::Registered,
        }
    }
}

/// The materials after `handle` is registered: a new handle is known
/// without data, a known handle keeps what it has.
pub open spec fn spec_register(
    materials: Map<MaterialHandle, Option<MaterialDataView>>,
    handle: MaterialHandle,
) -> Map<MaterialHandle, Option<MaterialDataView>> {
    if materials.contains_key(handle) {
        materials
    } else {
        materials.insert(handle, None)
    }
}

/// The materials after `data` is offered for `handle`: a resolved handle
/// keeps its material, any other handle receives `data`.
pub open spec fn spec_resolve(
    materials: Map<MaterialHandle, Option<MaterialDataView>>,
    handle: MaterialHandle,
    data: MaterialDataView,
) -> Map<MaterialHandle, Option<MaterialDataView>> {
    if state_of(materials, handle) is Resolved {
        materials
    } else {
        materials.insert(handle, Some(data))
    }
}

/// The order of the handles after `handle` arrives: a new handle goes to
/// the end.
pub open spec fn spec_arrive(
    materials: Map<MaterialHandle, Option<MaterialDataView>>,
    order: Seq<MaterialHandle>,
    handle: MaterialHandle,
) -> Seq<MaterialHandle> {
    if materials.contains_key(handle) {
        order
    } else {
        order.push(handle)
    }
}

/// The resolved materials among `order`, in that order.
pub open spec fn spec_loaded(
    materials: Map<MaterialHandle, Option<MaterialDataView>>,
    order: Seq<MaterialHandle>,
) -> Seq<MaterialDataView>
    decreases order.len(),
{
    if order.len() == 0 {
        Seq::empty()
    } else {
        let rest = spec_loaded(materials, order.drop_last());
        match state_of(materials, order.last()) {
            MaterialState::Resolved(data) => rest.push(data),
            _ => rest,
        }
    }
}

/// Registration is idempotent: registering a handle a second time changes
/// neither the materials nor the order of the handles, and a handle that
/// was not resolved is registered, without data, after one registration as
/// after two.
pub proof fn lemma_register_idempotent(
    materials: Map<MaterialHandle, Option<MaterialDataView>>,
    order: Seq<MaterialHandle>,
    handle: MaterialHandle,
)
    ensures
        spec_register(spec_register(materials, handle), handle) == spec_register(materials, handle),
        spec_arrive(spec_register(materials, handle), spec_arrive(materials, order, handle), handle)
            == spec_arrive(materials, order, handle),
        !(state_of(materials, handle) is Resolved) ==> state_of(
            spec_register(spec_register(materials, handle), handle),
            handle,
        ) is Registered,
{
}

/// Resolution is monotonic: a resolved handle keeps its material when any
/// handle is registered and when any handle is offered a material.
pub proof fn lemma_resolved_is_kept(
    materials: Map<MaterialHandle, Option<MaterialDataView>>,
    handle: MaterialHandle,
    other: MaterialHandle,
    offered: MaterialDataView,
)
    requires
        state_of(materials, handle) is Resolved,
    ensures
        state_of(spec_register(materials, other), handle) == state_of(materials, handle),
        state_of(spec_resolve(materials, other, offered), handle) == state_of(materials, handle),
{
}

/// Calls `Arc::clone`, which gives another pointer to the same value.
#[verifier::external_body]
pub(crate) fn share<T>(value: &Arc<T>) -> (shared: Arc<T>)
    ensures
        shared == *value,
{
    Arc::clone(value)
}

/// The materials that geometry has named, each with its data once resolved.
pub struct MaterialTable {
    index: HashMapWithView<u64, usize>,
    handles: Vec<MaterialHandle>,
    slots: Vec<Option<Arc<MaterialData>>>,
}

impl View for MaterialTable {
    type V = Map<MaterialHandle, Option<MaterialDataView>>;

    closed spec fn view(&self) -> Map<MaterialHandle, Option<MaterialDataView>> {
        Map::new(
            |h: MaterialHandle| self.index@.contains_key(h.id),
            |h: MaterialHandle|
                match self.slots[self.index@[h.id] as int] {
                    Some(data) => Some(data@),
                    None => None,
                },
        )
    }
}

impl MaterialTable {
    /// The invariant of the table: every handle has one slot, and every
    /// slot one handle.
    pub closed spec fn wf(&self) -> bool {
        &&& self.handles.len() == self.slots.len()
        &&& forall|i: int|
            #![trigger self.handles[i]]
            0 <= i < self.handles.len() ==> self.index@.contains_key(self.handles[i].id)
                && self.index@[self.handles[i].id] == i
        &&& forall|id: u64| #[trigger]
            self.index@.contains_key(id) ==> self.index@[id] < self.handles.len()
                && self.handles[self.index@[id] as int].id == id
    }

    /// The handles in the order in which they first arrived.
    pub closed spec fn order(&self) -> Seq<MaterialHandle> {
        self.handles@
    }

    /// The handles in [`MaterialTable::order`] are exactly the known
    /// handles, each listed once.
    pub proof fn lemma_order(&self)
        requires
            self.wf(),
        ensures
            forall|h: MaterialHandle| self@.contains_key(h) <==> self.order().contains(h),
            forall|i: int, j: int|
                0 <= i < j < self.order().len() ==> self.order()[i] != self.order()[j],
    {
        assert forall|h: MaterialHandle| self@.contains_key(h) <==> self.order().contains(h) by {
            if self@.contains_key(h) {
                assert(self.handles[self.index@[h.id] as int] == h);
            }
            if self.order().contains(h) {
                let i = choose|i: int| 0 <= i < self.order().len() && self.order()[i] == h;
                assert(self.handles[i] == h);
            }
        }
        assert forall|i: int, j: int| 0 <= i < j < self.order().len() implies self.order()[i]
            != self.order()[j] by {
            assert(self.handles[i] == self.order()[i]);
            assert(self.handles[j] == self.order()[j]);
        }
    }

    /// A table that knows no handle.
    pub fn new() -> (table: Self)
        ensures
            table.wf(),
            table@ == Map::<MaterialHandle, Option<MaterialDataView>>::empty(),
            table.order() == Seq::<MaterialHandle>::empty(),
    {
        let table = MaterialTable {
            index: HashMapWithView::new(),
            handles: Vec::new(),
            slots: Vec::new(),
        };
        assert(table@ =~= Map::<MaterialHandle, Option<MaterialDataView>>::empty());
        table
    }

    /// Makes `handle` known. A handle that is known already, resolved or
    /// not, is left as it is.
    pub fn register(&mut self, handle: MaterialHandle)
        requires
            old(self).wf(),
        ensures
            final(self).wf(),
            final(self)@ == spec_register(old(self)@, handle),
            final(self).order() == spec_arrive(old(self)@, old(self).order(), handle),
    {
        if !self.index.contains_key(&handle.id) {
            let slot = self.handles.len();
            self.index.insert(handle.id, slot);
            self.handles.push(handle);
            self.slots.push(None);
        }
        assert(self@ =~= spec_register(old(self)@, handle));
    }

    /// The material of `handle`, if it is resolved.
    pub fn get(&self, handle: MaterialHandle) -> (data: Option<Arc<MaterialData>>)
        requires
            self.wf(),
        ensures
            match state_of(self@, handle) {
                MaterialState::Resolved(cached) => data matches Some(d) && d@ == cached,
                _ => data is None,
            },
    {
        match self.index.get(&handle.id) {
            Some(slot) => match &self.slots[*slot] {
                Some(data) => Some(share(data)),
                None => None,
            },
            None => None,
        }
    }

    /// Offers `data` as the material of `handle`, and returns the material
    /// that the handle has afterwards: the one it had, if it was resolved,
    /// and `data` otherwise. A handle that was not known becomes known.
    pub fn resolve(&mut self, handle: MaterialHandle, data: Arc<MaterialData>) -> (resident: Arc<
        MaterialData,
    >)
        requires
            old(self).wf(),
        ensures
            final(self).wf(),
            final(self)@ == spec_resolve(old(self)@, handle, data@),
            final(self).order() == spec_arrive(old(self)@, old(self).order(), handle),
            state_of(final(self)@, handle) == MaterialState::Resolved(resident@),
    {
        let found = match self.index.get(&handle.id) {
            Some(slot) => Some(*slot),
            None => None,
        };
        let resident = match found {
            Some(slot) => {
                let cached = match &self.slots[slot] {
                    Some(cached) => Some(share(cached)),
                    None => None,
                };
                match cached {
                    Some(cached) => cached,
                    None => {
                        self.slots.set(slot, Some(share(&data)));
                        data
                    },
                }
            },
            None => {
                let slot = self.handles.len();
                self.index.insert(handle.id, slot);
                self.handles.push(handle);
                self.slots.push(Some(share(&data)));
                data
            },
        };
        assert(self@ =~= spec_resolve(old(self)@, handle, data@));
        resident
    }

    /// The resolved materials, in the order in which their handles arrived.
    pub fn loaded(&self) -> (all: Vec<Arc<MaterialData>>)
        requires
            self.wf(),
        ensures
            all.len() == spec_loaded(self@, self.order()).len(),
            forall|i: int| 0 <= i < all.len() ==> all[i]@ == spec_loaded(self@, self.order())[i],
    {
        let mut all: Vec<Arc<MaterialData>> = Vec::new();
        let mut i: usize = 0;
        while i < self.handles.len()
            invariant
                self.wf(),
                i <= self.handles.len(),
                all.len() == spec_loaded(self@, self.order().take(i as int)).len(),
                forall|j: int|
                    0 <= j < all.len() ==> all[j]@ == spec_loaded(
                        self@,
                        self.order().take(i as int),
                    )[j],
            decreases self.handles.len() - i,
        {
            proof {
                let before = self.order().take(i as int);
                let after = self.order().take(i + 1);
                assert(after.drop_last() =~= before);
                assert(after.last() == self.handles[i as int]);
            }
            match &self.slots[i] {
                Some(data) => {
                    all.push(share(data));
                },
                None => {},
            }
            i += 1;
        }
        assert(self.order().take(i as int) =~= self.order());
        all
    }
}

} // verus!
