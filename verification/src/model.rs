//! The loaded model as the renderer sees it: meshes, materials, and the
//! rules applied while they are assembled.
//!
//! Geometry and texels live in GPU buffers outside this model. What is
//! kept here is everything a draw call reads: how many indices each mesh
//! has, which material it uses — always a valid index, falling back to
//! the first material — and the names the materials' textures were
//! resolved from, including the two repairs applied to a material's
//! normal-texture entry: an empty entry falls back to a documented
//! default file, and an entry with embedded spaces is cut down to what
//! follows its last space.

use vstd::prelude::*;

verus! {

/// Everything after the last space of `s`; `s` itself when it has no
/// space. This is what repeatedly discarding the prefix up to and
/// including the first space leaves behind.
pub open spec fn after_last_space(s: Seq<char>) -> Seq<char>
    decreases s.len(),
{
    if s.len() == 0 {
        s
    } else if s.last() == ' ' {
        Seq::empty()
    } else {
        after_last_space(s.drop_last()).push(s.last())
    }
}

/// The normal-texture file a material entry resolves to: the default
/// file for an empty entry, otherwise the entry cut down to what follows
/// its last space.
pub open spec fn resolved_normal_name(s: Seq<char>) -> Seq<char> {
    if s.len() == 0 {
        "cube-normal.png"@
    } else {
        after_last_space(s)
    }
}

/// A string without spaces is already its own trimmed form.
proof fn lemma_after_last_space_no_space(s: Seq<char>)
    requires
        forall|j: int| 0 <= j < s.len() ==> s[j] != ' ',
    ensures
        after_last_space(s) == s,
    decreases s.len(),
{
    if s.len() > 0 {
        lemma_after_last_space_no_space(s.drop_last());
        assert(after_last_space(s.drop_last()).push(s.last()) =~= s);
    }
}

/// When the last space of `s` sits at `k`, the trimmed form is exactly
/// the tail beyond `k`.
proof fn lemma_after_last_space_at(s: Seq<char>, k: int)
    requires
        0 <= k < s.len(),
        s[k] == ' ',
        forall|j: int| k < j < s.len() ==> s[j] != ' ',
    ensures
        after_last_space(s) == s.subrange(k + 1, s.len() as int),
    decreases s.len(),
{
    if k == s.len() - 1 {
        assert(after_last_space(s) =~= s.subrange(k + 1, s.len() as int));
    } else {
        lemma_after_last_space_at(s.drop_last(), k);
        assert(after_last_space(s.drop_last()).push(s.last()) =~= s.subrange(
            k + 1,
            s.len() as int,
        ));
    }
}

/// Resolves a material's normal-texture entry to the file name that is
/// looked up: the default file when the entry is empty, otherwise the
/// entry with everything up to its last space discarded.
pub fn resolve_normal_texture_name(name: &str) -> (r: String)
    ensures
        r@ == resolved_normal_name(name@),
{
    let n = name.unicode_len();
    if n == 0 {
        return String::from_str("cube-normal.png");
    }
    let mut i: usize = n;
    while i > 0
        invariant
            0 <= i <= n,
            n == name@.len(),
            forall|j: int| i <= j < n ==> name@[j] != ' ',
        decreases i,
    {
        if name.get_char(i - 1) == ' ' {
            let r = String::from_str(name.substring_char(i, n));
            proof {
                lemma_after_last_space_at(name@, i - 1);
            }
            return r;
        }
        i = i - 1;
    }
    proof {
        lemma_after_last_space_no_space(name@);
    }
    String::from_str(name)
}

/// Which material index a mesh ends up with: the one the file names if
/// it is a valid index into the material list, the first material
/// otherwise.
pub open spec fn resolved_material_index(material_id: Option<usize>, n_materials: int) -> int {
    match material_id {
        Some(i) => if i < n_materials {
            i as int
        } else {
            0
        },
        None => 0,
    }
}

/// Resolves the material index a mesh names against the number of
/// materials actually loaded.
pub fn resolve_material_index(material_id: Option<usize>, n_materials: usize) -> (idx: usize)
    ensures
        idx == resolved_material_index(material_id, n_materials as int),
        n_materials > 0 ==> idx < n_materials,
        n_materials == 0 ==> idx == 0,
{
    match material_id {
        Some(i) => if i < n_materials {
            i
        } else {
            0
        },
        None => 0,
    }
}

/// One interleaved vertex record: a position, a texture coordinate and
/// a normal, in the order the vertex layout declares.
#[derive(Clone, Copy, Debug, PartialEq, Eq)]
pub struct VertexRecord<T> {
    pub position: [T; 3],
    pub tex_coords: [T; 2],
    pub normal: [T; 3],
}

/// Interleaves the loader's three flat attribute streams into one
/// record per vertex: record `i` takes positions `3i .. 3i + 3`,
/// texture coordinates `2i .. 2i + 2` and normals `3i .. 3i + 3`.
/// Streams longer than the vertices need are read only up to that.
pub fn interleave_vertices<T: Copy>(
    positions: &Vec<T>,
    texcoords: &Vec<T>,
    normals: &Vec<T>,
) -> (v: Vec<VertexRecord<T>>)
    requires
        positions.len() % 3 == 0,
        texcoords.len() * 3 >= positions.len() * 2,
        normals.len() >= positions.len(),
    ensures
        v.len() * 3 == positions.len(),
        forall|i: int|
            0 <= i < v.len() ==> {
                &&& (#[trigger] v[i]).position@ == seq![
                    positions[3 * i],
                    positions[3 * i + 1],
                    positions[3 * i + 2],
                ]
                &&& v[i].tex_coords@ == seq![texcoords[2 * i], texcoords[2 * i + 1]]
                &&& v[i].normal@ == seq![normals[3 * i], normals[3 * i + 1], normals[3 * i + 2]]
            },
{
    let n = positions.len() / 3;
    let mut v: Vec<VertexRecord<T>> = Vec::new();
    let mut i: usize = 0;
    while i < n
        invariant
            0 <= i <= n,
            n == positions.len() / 3,
            positions.len() % 3 == 0,
            texcoords.len() * 3 >= positions.len() * 2,
            normals.len() >= positions.len(),
            v.len() == i,
            forall|j: int|
                0 <= j < v.len() ==> {
                    &&& (#[trigger] v[j]).position@ == seq![
                        positions[3 * j],
                        positions[3 * j + 1],
                        positions[3 * j + 2],
                    ]
                    &&& v[j].tex_coords@ == seq![texcoords[2 * j], texcoords[2 * j + 1]]
                    &&& v[j].normal@ == seq![
                        normals[3 * j],
                        normals[3 * j + 1],
                        normals[3 * j + 2],
                    ]
                },
        decreases n - i,
    {
        proof {
            assert(3 * i + 2 < positions.len() && 2 * i + 1 < texcoords.len()) by (nonlinear_arith)
                requires
                    i < n,
                    n == positions.len() / 3,
                    positions.len() % 3 == 0,
                    texcoords.len() * 3 >= positions.len() * 2,
            ;
        }
        let record = VertexRecord {
            position: [positions[3 * i], positions[3 * i + 1], positions[3 * i + 2]],
            tex_coords: [texcoords[2 * i], texcoords[2 * i + 1]],
            normal: [normals[3 * i], normals[3 * i + 1], normals[3 * i + 2]],
        };
        proof {
            assert(record.position@ =~= seq![
                positions[3 * i as int],
                positions[3 * i as int + 1],
                positions[3 * i as int + 2],
            ]);
            assert(record.tex_coords@ =~= seq![texcoords[2 * i as int], texcoords[2 * i as int + 1]]);
            assert(record.normal@ =~= seq![
                normals[3 * i as int],
                normals[3 * i as int + 1],
                normals[3 * i as int + 2],
            ]);
        }
        v.push(record);
        i = i + 1;
    }
    proof {
        vstd::arithmetic::div_mod::lemma_fundamental_div_mod(positions.len() as int, 3);
    }
    v
}

/// One material: its name and the files its two textures were decoded
/// from, the normal texture already resolved.
#[derive(Debug)]
pub struct MaterialDesc {
    pub name: String,
    pub diffuse_texture: String,
    pub normal_texture: String,
}

/// Builds a material description, resolving the normal-texture entry.
pub fn make_material_desc(name: &str, diffuse_texture: &str, normal_texture_entry: &str) -> (m:
    MaterialDesc)
    ensures
        m.name@ == name@,
        m.diffuse_texture@ == diffuse_texture@,
        m.normal_texture@ == resolved_normal_name(normal_texture_entry@),
{
    MaterialDesc {
        name: String::from_str(name),
        diffuse_texture: String::from_str(diffuse_texture),
        normal_texture: resolve_normal_texture_name(normal_texture_entry),
    }
}

/// One mesh: its name, how many indices its index buffer holds, and the
/// material it is drawn with.
#[derive(Debug)]
pub struct MeshDesc {
    pub name: String,
    pub num_elements: u32,
    pub material: usize,
}

/// A loaded model: meshes and materials, immutable once assembled.
/// Every mesh's material is a valid index into `materials` whenever any
/// material was loaded, and the fallback index 0 otherwise.
#[derive(Debug)]
pub struct ModelDesc {
    pub meshes: Vec<MeshDesc>,
    pub materials: Vec<MaterialDesc>,
}

impl ModelDesc {
    pub open spec fn wf(self) -> bool {
        forall|i: int|
            0 <= i < self.meshes.len() ==> {
                if self.materials.len() > 0 {
                    (#[trigger] self.meshes[i]).material < self.materials.len()
                } else {
                    self.meshes[i].material == 0
                }
            }
    }

    /// An empty model, ready to take materials and then meshes.
    pub fn new() -> (m: ModelDesc)
        ensures
            m.meshes.len() == 0,
            m.materials.len() == 0,
            m.wf(),
    {
        ModelDesc { meshes: Vec::new(), materials: Vec::new() }
    }

    /// Adds a material. Meshes already added keep valid indices because
    /// the list only grows.
    pub fn push_material(&mut self, material: MaterialDesc)
        requires
            old(self).wf(),
            old(self).meshes.len() == 0,
        ensures
            final(self).materials.len() == old(self).materials.len() + 1,
            final(self).materials[old(self).materials.len() as int] == material,
            forall|i: int|
                0 <= i < old(self).materials.len() ==> final(self).materials[i] == old(
                    self,
                ).materials[i],
            final(self).meshes@ == old(self).meshes@,
            final(self).wf(),
    {
        self.materials.push(material);
    }

    /// Adds a mesh, resolving the material index it names against the
    /// materials present.
    pub fn push_mesh(&mut self, name: &str, num_elements: u32, material_id: Option<usize>)
        requires
            old(self).wf(),
        ensures
            final(self).meshes.len() == old(self).meshes.len() + 1,
            final(self).meshes[old(self).meshes.len() as int].name@ == name@,
            final(self).meshes[old(self).meshes.len() as int].num_elements == num_elements,
            final(self).meshes[old(self).meshes.len() as int].material
                == resolved_material_index(material_id, old(self).materials.len() as int),
            forall|i: int|
                0 <= i < old(self).meshes.len() ==> final(self).meshes[i] == old(self).meshes[i],
            final(self).materials@ == old(self).materials@,
            final(self).wf(),
    {
        let material = resolve_material_index(material_id, self.materials.len());
        self.meshes.push(MeshDesc { name: String::from_str(name), num_elements, material });
    }
}

} // verus!
