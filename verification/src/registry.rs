//! The resource registry.
//!
//! The registry is the sole owner of renderer-issued handles to
//! GPU-resident objects and directional lights. A handle is an arena
//! index: the slot it was stored in plus the generation it was issued in,
//! and it is live only while the registry still tracks that generation.
//! Clearing the objects empties the arena and moves to a new generation,
//! so every previously issued object handle goes dead at once and the
//! memory owned through it becomes eligible for release; lights are an
//! append-only list and are not affected.

use crate::camera::Affine;
use crate::ratio::Ratio;
use vstd::prelude::*;

verus! {

/// Identifier of a mesh already uploaded to the device.
#[derive(Clone, Copy, PartialEq, Eq, Structural, Debug)]
pub struct MeshId {
    pub raw: u64,
}

/// Identifier of a material already uploaded to the device.
#[derive(Clone, Copy, PartialEq, Eq, Structural, Debug)]
pub struct MaterialId {
    pub raw: u64,
}

/// A colour with exact rational channels, linear RGBA.
#[derive(Clone, Copy, PartialEq, Eq, Structural, Debug)]
pub struct Rgba {
    pub r: Ratio,
    pub g: Ratio,
    pub b: Ratio,
    pub a: Ratio,
}

/// An object: a mesh, a material and a world transform. There is no
/// partial update; changing a transform means re-adding the object.
#[derive(Clone, Copy, PartialEq, Eq, Structural, Debug)]
pub struct ObjectRecord {
    pub mesh: MeshId,
    pub material: MaterialId,
    pub transform: Affine,
}

/// A directional light: direction, colour and intensity.
#[derive(Clone, Copy, PartialEq, Eq, Structural, Debug)]
pub struct LightRecord {
    pub direction_x: Ratio,
    pub direction_y: Ratio,
    pub direction_z: Ratio,
    pub color: Rgba,
    pub intensity: Ratio,
}

/// A registry-issued object handle: arena slot plus generation.
#[derive(Clone, Copy, PartialEq, Eq, Structural, Debug)]
pub struct ObjectHandle {
    pub slot: usize,
    pub generation: u64,
}

/// A handle to an appended light. Lights are never removed, so a slot
/// alone identifies one.
#[derive(Clone, Copy, PartialEq, Eq, Structural, Debug)]
pub struct LightHandle {
    pub slot: usize,
}

/// Albedo of the default material attached when a bare mesh is added as
/// an object: a muted red, opaque.
pub open spec fn spec_default_albedo() -> Rgba {
    Rgba {
        r: Ratio { num: 4, den: 5 },
        g: Ratio { num: 1, den: 10 },
        b: Ratio { num: 1, den: 10 },
        a: Ratio { num: 1, den: 1 },
    }
}

/// The albedo of the default material.
pub fn default_albedo() -> (c: Rgba)
    ensures
        c == spec_default_albedo(),
{
    Rgba {
        r: Ratio { num: 4, den: 5 },
        g: Ratio { num: 1, den: 10 },
        b: Ratio { num: 1, den: 10 },
        a: Ratio { num: 1, den: 1 },
    }
}

/// The owner of every tracked object and light.
pub struct Registry {
    pub objects: Vec<ObjectRecord>,
    pub lights: Vec<LightRecord>,
    pub generation: u64,
}

impl Registry {
    /// An object handle is live while the registry is in the generation
    /// that issued it and still fills the handle's slot. GPU memory owned
    /// solely through a handle may be released once the handle is dead.
    pub open spec fn object_live(self, h: ObjectHandle) -> bool {
        h.generation == self.generation && (h.slot as int) < self.objects@.len()
    }

    /// An empty registry.
    pub fn new() -> (r: Registry)
        ensures
            r.objects@ == Seq::<ObjectRecord>::empty(),
            r.lights@ == Seq::<LightRecord>::empty(),
            r.generation == 0,
    {
        Registry { objects: Vec::new(), lights: Vec::new(), generation: 0 }
    }

    /// Records a pre-built object and issues its handle.
    pub fn add_object(&mut self, object: ObjectRecord) -> (h: ObjectHandle)
        ensures
            final(self).objects@ == old(self).objects@.push(object),
            final(self).lights@ == old(self).lights@,
            final(self).generation == old(self).generation,
            h.slot == old(self).objects@.len(),
            h.generation == old(self).generation,
            final(self).object_live(h),
    {
        let h = ObjectHandle { slot: self.objects.len(), generation: self.generation };
        self.objects.push(object);
        h
    }

    /// Records an object made of an uploaded mesh, the default material
    /// and the identity transform, and issues its handle. The uploads
    /// themselves happen at the device boundary before this call; an
    /// upload the device rejects is fatal and never reaches the registry.
    pub fn add_mesh_as_object(&mut self, mesh: MeshId, material: MaterialId) -> (h: ObjectHandle)
        ensures
            final(self).objects@ == old(self).objects@.push(
                ObjectRecord { mesh, material, transform: Affine::spec_identity() },
            ),
            final(self).lights@ == old(self).lights@,
            final(self).generation == old(self).generation,
            h.slot == old(self).objects@.len(),
            h.generation == old(self).generation,
            final(self).object_live(h),
    {
        let record = ObjectRecord { mesh, material, transform: Affine::identity() };
        self.add_object(record)
    }

    /// Appends a directional light. No cap is enforced here; a device
    /// limit, if any, is the pipeline's to impose.
    pub fn add_light(&mut self, light: LightRecord) -> (h: LightHandle)
        ensures
            final(self).lights@ == old(self).lights@.push(light),
            final(self).objects@ == old(self).objects@,
            final(self).generation == old(self).generation,
            h.slot == old(self).lights@.len(),
    {
        let h = LightHandle { slot: self.lights.len() };
        self.lights.push(light);
        h
    }

    /// Drops every tracked object handle and moves to a new generation:
    /// afterwards no object handle whatsoever is live, so the memory the
    /// old handles owned is eligible for release exactly once. Lights are
    /// kept.
    pub fn clear_objects(&mut self)
        requires
            old(self).generation < u64::MAX,
        ensures
            final(self).objects@ == Seq::<ObjectRecord>::empty(),
            final(self).lights@ == old(self).lights@,
            final(self).generation == old(self).generation + 1,
            forall|h: ObjectHandle| !final(self).object_live(h),
    {
        self.objects.clear();
        self.generation = self.generation + 1;
    }
}

/// Law, the registry lifecycle: a registry that has just been cleared
/// tracks no object — whatever was added before, every object handle is
/// dead — while its lights are exactly those added so far.
pub proof fn lemma_registry_lifecycle(before: Registry, after: Registry, h: ObjectHandle)
    requires
        after.objects@ == Seq::<ObjectRecord>::empty(),
        after.lights@ == before.lights@,
        after.generation == before.generation + 1,
    ensures
        !after.object_live(h),
        after.objects@.len() == 0,
        after.lights@.len() == before.lights@.len(),
{
}

} // verus!
