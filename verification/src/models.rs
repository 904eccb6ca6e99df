//! Mesh models: the index/vertex/uniform data a renderer uploads for a model.

use vstd::prelude::*;

verus! {

/// A drawable model: vertices of type `V`, uniform data of type `U`, and a
/// list of indices into the vertex list.
pub trait Model<V, U> {
    fn get_indices() -> Vec<u16>;

    fn get_vertices() -> Vec<V>;

    fn get_initial_uniform_data() -> U;
}

/// A unit square drawn as two triangles over four vertices.
pub struct SquareModel;

impl SquareModel {
    /// The two triangles (0,1,2) and (1,2,3) over the square's four corners.
    pub fn get_indices() -> (r: Vec<u16>)
        ensures
            r@ == seq![0u16, 1u16, 2u16, 1u16, 2u16, 3u16],
    {
        let r: Vec<u16> = vec![0, 1, 2, 1, 2, 3];
        proof {
            assert(r@ =~= seq![0u16, 1u16, 2u16, 1u16, 2u16, 3u16]);
        }
        r
    }
}

} // verus!
