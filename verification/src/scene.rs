use vstd::prelude::*;

verus! {

/// Identifier of a material in a scene's append-only table: the index at
/// which the material was added, assigned sequentially from zero.
pub type MaterialId = i32;

/// Scene storage: an append-only table of materials, referenced elsewhere by
/// integer id, and a list of the primitives that make up the world.  Built
/// once before rendering and then only read, so workers can share it freely.
///
/// The material and primitive payloads are type parameters: their geometry
/// and shading data are the renderer's concern, while the id discipline of
/// the arena is fixed here.
pub struct Scene<M, O> {
    materials: Vec<M>,
    objects: Vec<O>,
}

impl<M, O> Scene<M, O> {
    pub closed spec fn spec_materials(self) -> Seq<M> {
        self.materials@
    }

    pub closed spec fn spec_objects(self) -> Seq<O> {
        self.objects@
    }

    /// Empty scene: no materials, no primitives.
    pub fn new() -> (scene: Scene<M, O>)
        ensures
            scene.spec_materials().len() == 0,
            scene.spec_objects().len() == 0,
    {
        Scene { materials: Vec::new(), objects: Vec::new() }
    }

    /// Appends a material and returns its id: the index it was stored at,
    /// which later additions never change.
    pub fn add_material(&mut self, material: M) -> (id: MaterialId)
        requires
            old(self).spec_materials().len() < i32::MAX,
        ensures
            final(self).spec_materials() == old(self).spec_materials().push(material),
            final(self).spec_objects() == old(self).spec_objects(),
            id == old(self).spec_materials().len() as int,
    {
        self.materials.push(material);
        (self.materials.len() as i32) - 1
    }

    /// Appends a primitive to the world.
    pub fn add_object(&mut self, object: O)
        ensures
            final(self).spec_objects() == old(self).spec_objects().push(object),
            final(self).spec_materials() == old(self).spec_materials(),
    {
        self.objects.push(object)
    }

    /// Looks a material up by id.  An id outside the table is a programming
    /// error, so callers must stay within the assigned range.
    pub fn get_material(&self, material_id: MaterialId) -> (material: &M)
        requires
            0 <= material_id < self.spec_materials().len(),
        ensures
            *material == self.spec_materials()[material_id as int],
    {
        let idx: usize = material_id as usize;
        &self.materials[idx]
    }

    /// Number of materials added so far; equivalently, the first id not yet
    /// assigned.
    pub fn material_count(&self) -> (count: usize)
        ensures
            count == self.spec_materials().len(),
    {
        self.materials.len()
    }

    /// Borrow of the primitive list, for the intersection sweep.
    pub fn objects(&self) -> (objects: &Vec<O>)
        ensures
            objects@ == self.spec_objects(),
    {
        &self.objects
    }
}

/// Material ids, once assigned, keep naming the same material: growing the
/// table by one entry leaves every earlier index unchanged.
pub proof fn lemma_material_ids_stable<M, O>(
    before: Scene<M, O>,
    after: Scene<M, O>,
    material: M,
    id: MaterialId,
)
    requires
        after.spec_materials() == before.spec_materials().push(material),
        0 <= id < before.spec_materials().len(),
    ensures
        after.spec_materials()[id as int] == before.spec_materials()[id as int],
{
}

} // verus!
