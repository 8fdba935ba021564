//! Which bind group each resolved material needs.
//!
//! The bind groups themselves are built by whoever owns the GPU device and
//! the bind group layouts. This module decides, for the materials of one
//! load pass, what is to be built and where it is to be registered.

use std::sync::Arc;
use vstd::prelude::*;
use crate::material::{MaterialData, MaterialKind};

verus! {

/// What to do for one material of a load pass.
#[derive(Clone, Copy, Debug, PartialEq, Eq, Hash, Structural)]
pub enum BindGroupAction {
    /// Build nothing.
    Skip,
    /// Build a bind group with the unlit layout. It is used at once and
    /// not kept.
    BuildUnlit,
    /// Build a bind group with the PBR layout, and register it in the PBR
    /// group under `index`.
    BuildPbr { index: usize },
}

/// The action for a material of the given kind that is processed at
/// `position` of its pass. A registered bind group takes the position as
/// its index.
pub open spec fn spec_bind_action(kind: MaterialKind, position: usize) -> BindGroupAction {
    match kind {
        MaterialKind::Unbound => BindGroupAction::Skip,
        MaterialKind::Unlit => BindGroupAction::BuildUnlit,
        MaterialKind::PBR => BindGroupAction::BuildPbr { index: position },
    }
}

/// The name of the bind group layout for a kind of material, if materials
/// of that kind have a bind group.
pub open spec fn spec_layout_name(kind: MaterialKind) -> Option<Seq<char>> {
    match kind {
        MaterialKind::Unbound => None,
        MaterialKind::Unlit => Some("unlit"@),
        MaterialKind::PBR => Some("pbr"@),
    }
}

/// The name of the group in which bind groups of a kind of material are
/// registered, if they are registered at all.
pub open spec fn spec_group_name(kind: MaterialKind) -> Option<Seq<char>> {
    match kind {
        MaterialKind::PBR => Some("pbr"@),
        _ => None,
    }
}

impl BindGroupAction {
    /// The name of the layout that the bind group of this action is built
    /// with, if the action builds one.
    pub open spec fn spec_layout(self) -> Option<Seq<char>> {
        match self {
            BindGroupAction::Skip => None,
            BindGroupAction::BuildUnlit => Some("unlit"@),
            BindGroupAction::BuildPbr { .. } => Some("pbr"@),
        }
    }

    /// The name of the group that the bind group of this action is
    /// registered in, if the action registers one.
    pub open spec fn spec_group(self) -> Option<Seq<char>> {
        match self {
            BindGroupAction::BuildPbr { .. } => Some("pbr"@),
            _ => None,
        }
    }

    /// The name of the layout to fetch and build with: "unlit" for an
    /// unlit material, "pbr" for a PBR material.
    pub fn layout(self) -> (name: Option<&'static str>)
        ensures
            match self.spec_layout() {
                Some(n) => name matches Some(s) && s@ == n,
                None => name is None,
            },
    {
        match self {
            BindGroupAction::Skip => None,
            BindGroupAction::BuildUnlit => Some("unlit"),
            BindGroupAction::BuildPbr { .. } => Some("pbr"),
        }
    }

    /// The name of the group to register the bind group in: "pbr" for a
    /// PBR material; the other bind groups are not registered.
    pub fn group(self) -> (name: Option<&'static str>)
        ensures
            match self.spec_group() {
                Some(n) => name matches Some(s) && s@ == n,
                None => name is None,
            },
    {
        match self {
            BindGroupAction::BuildPbr { .. } => Some("pbr"),
            _ => None,
        }
    }
}

/// The action for one material, processed at `position` of its pass.
pub fn bind_action(kind: MaterialKind, position: usize) -> (action: BindGroupAction)
    ensures
        action == spec_bind_action(kind, position),
{
    match kind {
        MaterialKind::Unbound => BindGroupAction::Skip,
        MaterialKind::Unlit => BindGroupAction::BuildUnlit,
        MaterialKind::PBR => BindGroupAction::BuildPbr { index: position },
    }
}

/// The name of the bind group layout that materials of this kind are built
/// with: "unlit", "pbr", or none.
pub fn layout_name(kind: MaterialKind) -> (name: Option<&'static str>)
    ensures
        match spec_layout_name(kind) {
            Some(n) => name matches Some(s) && s@ == n,
            None => name is None,
        },
{
    match kind {
        MaterialKind::Unbound => None,
        MaterialKind::Unlit => Some("unlit"),
        MaterialKind::PBR => Some("pbr"),
    }
}

/// The name of the group that bind groups of this kind are registered in:
/// "pbr" for PBR materials, none for the others.
pub fn group_name(kind: MaterialKind) -> (name: Option<&'static str>)
    ensures
        match spec_group_name(kind) {
            Some(n) => name matches Some(s) && s@ == n,
            None => name is None,
        },
{
    match kind {
        MaterialKind::PBR => Some("pbr"),
        _ => None,
    }
}

/// The actions for the materials of one pass, in the order of the pass.
pub fn plan_bind_groups(materials: &Vec<Arc<MaterialData>>) -> (plan: Vec<BindGroupAction>)
    ensures
        plan.len() == materials.len(),
        forall|i: int|
            #![trigger plan[i]]
            0 <= i < plan.len() ==> {
                let kind = materials[i]@.material_kind;
                &&& plan[i] == spec_bind_action(kind, i as usize)
                &&& plan[i].spec_layout() == spec_layout_name(kind)
                &&& plan[i].spec_group() == spec_group_name(kind)
            },
{
    let mut plan: Vec<BindGroupAction> = Vec::new();
    let mut i: usize = 0;
    while i < materials.len()
        invariant
            i <= materials.len(),
            plan.len() == i,
            forall|j: int|
                0 <= j < i ==> plan[j] == spec_bind_action(materials[j]@.material_kind, j as usize),
        decreases materials.len() - i,
    {
        plan.push(bind_action(materials[i].material_kind, i));
        i += 1;
    }
    plan
}

/// In one pass no two registered bind groups share an index, and the index
/// of each is the position of its material in the pass.
pub proof fn lemma_pbr_indices_distinct(kinds: Seq<MaterialKind>, i: int, j: int)
    requires
        kinds.len() <= usize::MAX,
        0 <= i < kinds.len(),
        0 <= j < kinds.len(),
        i != j,
        kinds[i] == MaterialKind::PBR,
        kinds[j] == MaterialKind::PBR,
    ensures
        spec_bind_action(kinds[i], i as usize) == (BindGroupAction::BuildPbr { index: i as usize }),
        spec_bind_action(kinds[j], j as usize) == (BindGroupAction::BuildPbr { index: j as usize }),
        spec_bind_action(kinds[i], i as usize) != spec_bind_action(kinds[j], j as usize),
{
}

} // verus!
