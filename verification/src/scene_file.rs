//! Index arithmetic and the string table of the scene asset file.
use vstd::prelude::*;

verus! {

/// A `u32` that is never `u32::MAX`, kept as its successor so that zero stays free.
#[derive(Debug, Copy, Clone, PartialEq, Eq, Hash)]
pub struct NonMaxU32(u32);

impl NonMaxU32 {
    #[verifier::type_invariant]
    spec fn nonzero(self) -> bool {
        self.0 != 0
    }

    /// The number that this value stands for.
    pub closed spec fn value(&self) -> u32 {
        (self.0 - 1) as u32
    }

    /// Wraps `val`; `u32::MAX` has no representation.
    pub fn new(val: u32) -> (wrapped: Option<Self>)
        ensures
            val == u32::MAX <==> wrapped is None,
            wrapped matches Some(number) ==> number.value() == val,
    {
        if val == u32::MAX {
            None
        } else {
            Some(NonMaxU32(val + 1))
        }
    }

    pub fn get(&self) -> (val: u32)
        ensures
            val == self.value(),
            val < u32::MAX,
    {
        proof {
            use_type_invariant(self);
        }
        self.0 - 1
    }
}

/// Number of indices per triangle.
pub const TRIANGLE_ELEMENT_COUNT: u32 = 3;

/// Byte size of one triangle: three 32-bit indices.
pub const TRIANGLE_BYTE_COUNT: usize = 12;

/// Where the triangles and vertices of one mesh lie in the shared buffers.
#[derive(Debug, Clone, Copy, PartialEq, Eq, Structural)]
pub struct MeshRange {
    pub triangle_offset: u32,
    pub triangle_count: u32,
    pub vertex_offset: u32,
    pub vertex_count: u32,
}

impl MeshRange {
    /// Index of the mesh's first element in the element buffer.
    pub fn element_offset(&self) -> (offset: u32)
        requires
            self.triangle_offset * TRIANGLE_ELEMENT_COUNT <= u32::MAX,
        ensures
            offset == self.triangle_offset * TRIANGLE_ELEMENT_COUNT,
    {
        self.triangle_offset * TRIANGLE_ELEMENT_COUNT
    }

    /// Byte offset of the mesh's first element in the element buffer.
    pub fn element_byte_offset(&self) -> (offset: usize)
        requires
            self.triangle_offset * TRIANGLE_BYTE_COUNT <= usize::MAX,
        ensures
            offset == self.triangle_offset * TRIANGLE_BYTE_COUNT,
    {
        self.triangle_offset as usize * TRIANGLE_BYTE_COUNT
    }

    /// Number of elements of the mesh.
    pub fn element_count(&self) -> (count: u32)
        requires
            self.triangle_count * TRIANGLE_ELEMENT_COUNT <= u32::MAX,
        ensures
            count == self.triangle_count * TRIANGLE_ELEMENT_COUNT,
    {
        self.triangle_count * TRIANGLE_ELEMENT_COUNT
    }
}

/// Place of one texture path in the string table.
#[derive(Debug, Clone, Copy, PartialEq, Eq, Structural)]
pub struct RawTexture {
    pub path_byte_offset: u64,
    pub path_byte_length: u64,
}

/// The first `n` paths, one after the other.
pub open spec fn joined(paths: Seq<Seq<u8>>, n: int) -> Seq<u8>
    decreases n,
{
    if n <= 0 {
        Seq::empty()
    } else {
        joined(paths, n - 1) + paths[n - 1]
    }
}

/// The bytes that `texture` points at in `string_bytes`, if it lies inside the table.
pub open spec fn path_of(texture: RawTexture, string_bytes: Seq<u8>) -> Option<Seq<u8>> {
    if texture.path_byte_offset + texture.path_byte_length <= string_bytes.len() {
        Some(
            string_bytes.subrange(
                texture.path_byte_offset as int,
                texture.path_byte_offset + texture.path_byte_length,
            ),
        )
    } else {
        None
    }
}

/// Lays the paths out one after the other. Returns the place of each path and the table;
/// every place points at its own path.
pub fn pack_texture_paths(paths: &Vec<Vec<u8>>) -> (packed: (Vec<RawTexture>, Vec<u8>))
    ensures
        packed.0@.len() == paths@.len(),
        packed.1@ == joined(paths.deep_view(), paths@.len() as int),
        forall|i: int|
            0 <= i < paths@.len() ==> (#[trigger] packed.0@[i]) == (RawTexture {
                path_byte_offset: joined(paths.deep_view(), i).len() as u64,
                path_byte_length: paths@[i]@.len() as u64,
            }),
        forall|i: int| 0 <= i < paths@.len() ==> path_of(#[trigger] packed.0@[i], packed.1@) == Some(paths@[i]@),
{
    let ghost all = paths.deep_view();
    let mut textures: Vec<RawTexture> = Vec::new();
    let mut string_bytes: Vec<u8> = Vec::new();
    let mut i: usize = 0;
    while i < paths.len()
        invariant
            i <= paths@.len(),
            all == paths.deep_view(),
            textures@.len() == i,
            string_bytes@ == joined(all, i as int),
            forall|k: int|
                0 <= k < i ==> (#[trigger] textures@[k]) == (RawTexture {
                    path_byte_offset: joined(all, k).len() as u64,
                    path_byte_length: paths@[k]@.len() as u64,
                }),
            forall|k: int| 0 <= k < i ==> path_of(#[trigger] textures@[k], string_bytes@) == Some(paths@[k]@),
        decreases paths@.len() - i,
    {
        let path = &paths[i];
        let ghost before = string_bytes@;
        proof {
            assert(all[i as int] == paths@[i as int]@);
        }
        let path_byte_offset: u64 = string_bytes.len() as u64;
        let mut j: usize = 0;
        while j < path.len()
            invariant
                j <= path@.len(),
                string_bytes@ == before + path@.subrange(0, j as int),
            decreases path@.len() - j,
        {
            string_bytes.push(path[j]);
            proof {
                assert(string_bytes@ =~= before + path@.subrange(0, j as int + 1));
            }
            j = j + 1;
        }
        textures.push(RawTexture { path_byte_offset, path_byte_length: path.len() as u64 });
        proof {
            assert(path@.subrange(0, path@.len() as int) =~= path@);
            assert(string_bytes@ == joined(all, i as int + 1));
            assert forall|k: int| 0 <= k < i + 1 implies path_of(#[trigger] textures@[k], string_bytes@)
                == Some(paths@[k]@) by {
                if k < i {
                    let texture = textures@[k];
                    assert(path_of(texture, before) == Some(paths@[k]@));
                    assert(string_bytes@.subrange(
                        texture.path_byte_offset as int,
                        texture.path_byte_offset + texture.path_byte_length,
                    ) =~= before.subrange(
                        texture.path_byte_offset as int,
                        texture.path_byte_offset + texture.path_byte_length,
                    ));
                } else {
                    assert(string_bytes@.subrange(before.len() as int, (before.len() + path@.len()) as int) =~= path@);
                }
            }
        }
        i = i + 1;
    }
    (textures, string_bytes)
}

/// The bytes of the path that `texture` points at; nothing where it reaches beyond the table.
pub fn texture_path(texture: &RawTexture, string_bytes: &Vec<u8>) -> (path: Option<Vec<u8>>)
    ensures
        path is Some <==> path_of(*texture, string_bytes@) is Some,
        path matches Some(bytes) ==> Some(bytes@) == path_of(*texture, string_bytes@),
{
    let length: u64 = string_bytes.len() as u64;
    if texture.path_byte_offset > length || texture.path_byte_length > length - texture.path_byte_offset {
        return None;
    }
    let begin: usize = texture.path_byte_offset as usize;
    let end: usize = begin + texture.path_byte_length as usize;
    let mut bytes: Vec<u8> = Vec::new();
    let mut i: usize = begin;
    while i < end
        invariant
            begin <= i <= end <= string_bytes@.len(),
            bytes@ == string_bytes@.subrange(begin as int, i as int),
        decreases end - i,
    {
        bytes.push(string_bytes[i]);
        proof {
            assert(bytes@ =~= string_bytes@.subrange(begin as int, i as int + 1));
        }
        i = i + 1;
    }
    Some(bytes)
}

} // verus!
