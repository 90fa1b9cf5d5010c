//! The store that owns the images and meshes of a scene.

use vstd::prelude::*;
use crate::image::Image;
use crate::mesh::{Mesh, MeshData};

verus! {

/// Names an image of a store by the slot it was given.
#[derive(Clone, Copy, Debug, PartialEq, Eq, Structural)]
pub struct ImageId {
    pub slot: usize,
}

/// Names a mesh of a store by the slot it was given.
#[derive(Clone, Copy, Debug, PartialEq, Eq, Structural)]
pub struct MeshId {
    pub slot: usize,
}

/// What a store holds: one slot per entity ever added, empty once the
/// entity has been released.
pub struct StoreData {
    pub images: Seq<Option<Image>>,
    pub meshes: Seq<Option<MeshData>>,
}

impl StoreData {
    /// The image named by `id`, if it is still held.
    pub open spec fn image_at(self, id: ImageId) -> Option<Image> {
        if id.slot < self.images.len() {
            self.images[id.slot as int]
        } else {
            None
        }
    }

    /// The mesh named by `id`, if it is still held.
    pub open spec fn mesh_at(self, id: MeshId) -> Option<MeshData> {
        if id.slot < self.meshes.len() {
            self.meshes[id.slot as int]
        } else {
            None
        }
    }

    /// The slots with the image named by `id` released.
    pub open spec fn without_image(self, id: ImageId) -> StoreData {
        if id.slot < self.images.len() {
            StoreData { images: self.images.update(id.slot as int, None), meshes: self.meshes }
        } else {
            self
        }
    }

    /// The slots with the mesh named by `id` released.
    pub open spec fn without_mesh(self, id: MeshId) -> StoreData {
        if id.slot < self.meshes.len() {
            StoreData { images: self.images, meshes: self.meshes.update(id.slot as int, None) }
        } else {
            self
        }
    }
}

/// The view of one mesh slot.
pub open spec fn slot_view(slot: Option<Mesh>) -> Option<MeshData> {
    match slot {
        Some(mesh) => Some(mesh@),
        None => None,
    }
}

/// Owns the drawable entities of a scene. An entity keeps its slot for the
/// life of the store; releasing it empties the slot and nothing fills it
/// again.
#[derive(Debug)]
pub struct EntityStore {
    images: Vec<Option<Image>>,
    meshes: Vec<Option<Mesh>>,
}

impl View for EntityStore {
    type V = StoreData;

    closed spec fn view(&self) -> StoreData {
        StoreData {
            images: self.images@,
            meshes: Seq::new(self.meshes@.len(), |i: int| slot_view(self.meshes@[i])),
        }
    }
}

impl EntityStore {
    /// A store that holds nothing.
    pub fn new() -> (store: EntityStore)
        ensures
            store@.images == Seq::<Option<Image>>::empty(),
            store@.meshes == Seq::<Option<MeshData>>::empty(),
    {
        EntityStore { images: Vec::new(), meshes: Vec::new() }
    }

    /// Takes ownership of an image and gives it the next free slot.
    pub fn add_image(&mut self, image: Image) -> (id: ImageId)
        ensures
            id.slot == old(self)@.images.len(),
            final(self)@.images == old(self)@.images.push(Some(image)),
            final(self)@.meshes == old(self)@.meshes,
    {
        let id = ImageId { slot: self.images.len() };
        self.images.push(Some(image));
        id
    }

    /// Takes ownership of a mesh and gives it the next free slot.
    pub fn add_mesh(&mut self, mesh: Mesh) -> (id: MeshId)
        ensures
            id.slot == old(self)@.meshes.len(),
            final(self)@.meshes == old(self)@.meshes.push(Some(mesh@)),
            final(self)@.images == old(self)@.images,
    {
        let id = MeshId { slot: self.meshes.len() };
        self.meshes.push(Some(mesh));
        id
    }

    /// The image named by `id`, if it is still held.
    pub fn image(&self, id: ImageId) -> (image: Option<Image>)
        ensures
            image == self@.image_at(id),
    {
        if id.slot < self.images.len() {
            self.images[id.slot]
        } else {
            None
        }
    }

    /// The mesh named by `id`, if it is still held.
    pub fn mesh(&self, id: MeshId) -> (mesh: Option<&Mesh>)
        ensures
            slot_view_ref(mesh) == self@.mesh_at(id),
    {
        if id.slot < self.meshes.len() {
            self.meshes[id.slot].as_ref()
        } else {
            None
        }
    }

    /// Whether the mesh named by `id` is still held.
    pub fn holds_mesh(&self, id: MeshId) -> (held: bool)
        ensures
            held == self@.mesh_at(id).is_some(),
    {
        id.slot < self.meshes.len() && self.meshes[id.slot].is_some()
    }

    /// Gives up the image named by `id` and returns it, if it was held.
    pub fn release_image(&mut self, id: ImageId) -> (image: Option<Image>)
        ensures
            image == old(self)@.image_at(id),
            final(self)@ == old(self)@.without_image(id),
    {
        if id.slot < self.images.len() {
            let image = self.images[id.slot];
            self.images.set(id.slot, None);
            image
        } else {
            None
        }
    }

    /// Gives up the mesh named by `id` and returns it, if it was held.
    pub fn release_mesh(&mut self, id: MeshId) -> (mesh: Option<Mesh>)
        ensures
            slot_view(mesh) == old(self)@.mesh_at(id),
            final(self)@ == old(self)@.without_mesh(id),
    {
        if id.slot < self.meshes.len() {
            let mut mesh: Option<Mesh> = None;
            std::mem::swap(&mut mesh, &mut self.meshes[id.slot]);
            assert(self@.meshes =~= old(self)@.meshes.update(id.slot as int, None));
            mesh
        } else {
            None
        }
    }
}

/// The view of a borrowed mesh slot.
pub open spec fn slot_view_ref(slot: Option<&Mesh>) -> Option<MeshData> {
    match slot {
        Some(mesh) => Some(mesh@),
        None => None,
    }
}

} // verus!
