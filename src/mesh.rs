use vstd::prelude::*;
use crate::error::BspError;
use crate::records::{Face, Model};

verus! {

/// The face types whose triangles are listed in the mesh-vertex sequence:
/// polygons (1) and meshes (3).
pub open spec fn is_meshed(face: Face) -> bool {
    face.f_type == 1 || face.f_type == 3
}

/// `[start, start + count)` is a range of indices into a sequence of `len`
/// items.
pub open spec fn range_ok(start: i32, count: i32, len: int) -> bool {
    &&& 0 <= start
    &&& 0 <= count
    &&& start + count <= len
}

/// The vertex indices of a face's triangles: each mesh vertex of its range,
/// plus the face's first vertex. Faces of other types contribute none.
pub open spec fn face_indices(face: Face, meshverts: Seq<i32>) -> Seq<int> {
    if is_meshed(face) {
        Seq::new(
            face.n_meshverts as nat,
            |j: int| meshverts[face.meshvert + j] + face.vertex,
        )
    } else {
        Seq::empty()
    }
}

/// The vertex indices of the triangles of `faces`, face after face.
pub open spec fn faces_indices(faces: Seq<Face>, meshverts: Seq<i32>) -> Seq<int>
    decreases faces.len(),
{
    if faces.len() == 0 {
        Seq::empty()
    } else {
        faces_indices(faces.drop_last(), meshverts) + face_indices(faces.last(), meshverts)
    }
}

/// Every index that a face draws is a vertex: its mesh-vertex range lies
/// inside `meshverts`, and each mesh vertex plus its first vertex lies in
/// `[0, n_vertexes)`. Faces that are not meshed draw nothing.
pub open spec fn face_refs_ok(face: Face, meshverts: Seq<i32>, n_vertexes: int) -> bool {
    is_meshed(face) ==> {
        &&& range_ok(face.meshvert, face.n_meshverts, meshverts.len() as int)
        &&& forall|j: int|
            face.meshvert <= j < face.meshvert + face.n_meshverts ==> 0 <= #[trigger] meshverts[j]
                + face.vertex < n_vertexes
    }
}

/// A model's face range lies inside `faces`, and each of those faces draws
/// vertices only.
pub open spec fn model_refs_ok(
    model: Model,
    faces: Seq<Face>,
    meshverts: Seq<i32>,
    n_vertexes: int,
) -> bool {
    &&& range_ok(model.face, model.n_faces, faces.len() as int)
    &&& forall|i: int|
        model.face <= i < model.face + model.n_faces ==> face_refs_ok(
            #[trigger] faces[i],
            meshverts,
            n_vertexes,
        )
}

/// The triangle list of a model: for each face of its range, in order, the
/// absolute vertex indices of its triangles. Fails with `BadIndex` where a
/// range or an index does not lie inside the sequence it refers to.
pub fn triangle_indices(
    model: &Model,
    faces: &Vec<Face>,
    meshverts: &Vec<i32>,
    n_vertexes: usize,
) -> (r: Result<Vec<u32>, BspError>)
    ensures
        r is Ok <==> model_refs_ok(*model, faces@, meshverts@, n_vertexes as int),
        r is Err ==> r == Err::<Vec<u32>, BspError>(BspError::BadIndex),
        r is Ok ==> r->Ok_0@.map_values(|x: u32| x as int) == faces_indices(
            faces@.subrange(model.face as int, model.face + model.n_faces),
            meshverts@,
        ),
{
    if model.face < 0 || model.n_faces < 0 || model.face as usize > faces.len() || model.n_faces
        as usize > faces.len() - model.face as usize {
        return Err(BspError::BadIndex);
    }
    let first = model.face as usize;
    let count = model.n_faces as usize;
    let ghost fs = faces@.subrange(first as int, first + count);
    let mut out: Vec<u32> = Vec::new();
    let mut k: usize = 0;
    while k < count
        invariant
            first + count <= faces@.len(),
            first == model.face,
            count == model.n_faces,
            fs == faces@.subrange(first as int, first + count),
            k <= count,
            forall|i: int| first <= i < first + k ==> face_refs_ok(
                #[trigger] faces@[i],
                meshverts@,
                n_vertexes as int,
            ),
            out@.map_values(|x: u32| x as int) == faces_indices(fs.take(k as int), meshverts@),
        decreases count - k,
    {
        let face = &faces[first + k];
        let ghost before = out@.map_values(|x: u32| x as int);
        if face.f_type == 1 || face.f_type == 3 {
            if face.meshvert < 0 || face.n_meshverts < 0 || face.meshvert as usize
                > meshverts.len() || face.n_meshverts as usize > meshverts.len()
                - face.meshvert as usize {
                return Err(BspError::BadIndex);
            }
            let mv = face.meshvert as usize;
            let n = face.n_meshverts as usize;
            let mut j: usize = 0;
            while j < n
                invariant
                    first + count <= faces@.len(),
                    k < count,
                    first == model.face,
                    count == model.n_faces,
                    *face == faces@[first + k],
                    mv + n <= meshverts@.len(),
                    mv == face.meshvert,
                    n == face.n_meshverts,
                    is_meshed(*face),
                    j <= n,
                    forall|t: int|
                        mv <= t < mv + j ==> 0 <= #[trigger] meshverts@[t] + face.vertex
                            < n_vertexes,
                    out@.map_values(|x: u32| x as int) == before + face_indices(
                        *face,
                        meshverts@,
                    ).take(j as int),
                decreases n - j,
            {
                let rel = meshverts[mv + j];
                let abs: i64 = rel as i64 + face.vertex as i64;
                if abs < 0 || abs as u64 >= n_vertexes as u64 {
                    proof {
                        assert(!face_refs_ok(*face, meshverts@, n_vertexes as int));
                        assert(!model_refs_ok(*model, faces@, meshverts@, n_vertexes as int)) by {
                            assert(faces@[first + k] == *face);
                        }
                    }
                    return Err(BspError::BadIndex);
                }
                let ghost prev = out@;
                out.push(abs as u32);
                proof {
                    assert(out@ =~= prev.push(abs as u32));
                    assert(out@.map_values(|x: u32| x as int) =~= prev.map_values(|x: u32| x as int).push(abs as int));
                    assert(face_indices(*face, meshverts@).take(j + 1) =~= face_indices(*face, meshverts@).take(j as int).push(abs as int));
                }
                j = j + 1;
                assert(out@.map_values(|x: u32| x as int) =~= before + face_indices(
                    *face,
                    meshverts@,
                ).take(j as int));
            }
            assert(face_indices(*face, meshverts@).take(n as int) =~= face_indices(
                *face,
                meshverts@,
            ));
        } else {
            assert(out@.map_values(|x: u32| x as int) =~= before + face_indices(
                *face,
                meshverts@,
            ));
        }
        proof {
            assert(fs.take(k + 1).drop_last() =~= fs.take(k as int));
            assert(fs.take(k + 1).last() == *face);
        }
        k = k + 1;
    }
    assert(fs.take(count as int) =~= fs);
    Ok(out)
}

/// Whether every index that `face` draws is a vertex (see `face_refs_ok`).
pub fn face_refs_valid(face: &Face, meshverts: &Vec<i32>, n_vertexes: usize) -> (r: bool)
    ensures
        r == face_refs_ok(*face, meshverts@, n_vertexes as int),
{
    if !(face.f_type == 1 || face.f_type == 3) {
        return true;
    }
    if face.meshvert < 0 || face.n_meshverts < 0 || face.meshvert as usize > meshverts.len()
        || face.n_meshverts as usize > meshverts.len() - face.meshvert as usize {
        return false;
    }
    let mv = face.meshvert as usize;
    let n = face.n_meshverts as usize;
    let mut j: usize = 0;
    while j < n
        invariant
            mv + n <= meshverts@.len(),
            mv == face.meshvert,
            n == face.n_meshverts,
            is_meshed(*face),
            j <= n,
            forall|t: int|
                mv <= t < mv + j ==> 0 <= #[trigger] meshverts@[t] + face.vertex < n_vertexes,
        decreases n - j,
    {
        let abs: i64 = meshverts[mv + j] as i64 + face.vertex as i64;
        if abs < 0 || abs as u64 >= n_vertexes as u64 {
            assert(!(0 <= meshverts@[mv + j] + face.vertex < n_vertexes));
            return false;
        }
        j = j + 1;
    }
    true
}

/// Whether the cross-references of a decoded file hold: each model's face
/// range lies inside `faces`, and each face draws vertices only (see
/// `face_refs_ok`). The decoder does not enforce them; a renderer relies on
/// them.
pub fn references_valid(
    models: &Vec<Model>,
    faces: &Vec<Face>,
    meshverts: &Vec<i32>,
    n_vertexes: usize,
) -> (r: bool)
    ensures
        r == ((forall|i: int|
            0 <= i < models@.len() ==> range_ok(
                #[trigger] models@[i].face,
                models@[i].n_faces,
                faces@.len() as int,
            )) && (forall|i: int|
            0 <= i < faces@.len() ==> face_refs_ok(
                #[trigger] faces@[i],
                meshverts@,
                n_vertexes as int,
            ))),
{
    let mut i: usize = 0;
    while i < models.len()
        invariant
            i <= models@.len(),
            forall|t: int|
                0 <= t < i ==> range_ok(
                    #[trigger] models@[t].face,
                    models@[t].n_faces,
                    faces@.len() as int,
                ),
        decreases models@.len() - i,
    {
        let m = &models[i];
        if m.face < 0 || m.n_faces < 0 || m.face as usize > faces.len() || m.n_faces as usize
            > faces.len() - m.face as usize {
            return false;
        }
        i = i + 1;
    }
    let mut k: usize = 0;
    while k < faces.len()
        invariant
            k <= faces@.len(),
            forall|t: int|
                0 <= t < models@.len() ==> range_ok(
                    #[trigger] models@[t].face,
                    models@[t].n_faces,
                    faces@.len() as int,
                ),
            forall|t: int|
                0 <= t < k ==> face_refs_ok(#[trigger] faces@[t], meshverts@, n_vertexes as int),
        decreases faces@.len() - k,
    {
        if !face_refs_valid(&faces[k], meshverts, n_vertexes) {
            return false;
        }
        k = k + 1;
    }
    true
}

} // verus!
