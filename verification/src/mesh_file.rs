//! Loading a mesh from the bytes of a wavefront OBJ file.
//!
//! The host shell reads the file; this module parses its bytes through the
//! `obj` crate and rebuilds the result as a library mesh, recolored by
//! position. Parsing is the one outside computation the library leans on
//! here, so its outcome is named rather than restated: `obj_parses` says
//! whether the bytes parse, `obj_vertex_bits` and `obj_face_indices` name
//! the vertex positions (as `f32` bit patterns) and the triangulated face
//! indices the parser produces. The parser aborts on the statements of the
//! format's free-form-geometry extension, which it recognizes but does not
//! implement, so the loader first runs a verified scan that turns such
//! inputs away.

use vstd::prelude::*;
use crate::bits::{Vec3Bits, F32_ZERO};
use crate::model::{Mesh, Vertex};

verus! {

/// Whether the `obj` crate parses these bytes as a well-formed OBJ model
/// with per-vertex normals and triangulated faces that fit `u16` indices.
pub uninterp spec fn obj_parses(bytes: Seq<u8>) -> bool;

/// The vertex positions the `obj` crate extracts from these bytes, each
/// coordinate an `f32` bit pattern.
pub uninterp spec fn obj_vertex_bits(bytes: Seq<u8>) -> Seq<(u32, u32, u32)>;

/// The triangulated face indices the `obj` crate extracts from these bytes.
pub uninterp spec fn obj_face_indices(bytes: Seq<u8>) -> Seq<u16>;

/// A coordinate triple reassembled as a vector of bit patterns.
pub open spec fn vec3_of_triple(t: (u32, u32, u32)) -> Vec3Bits {
    Vec3Bits { x: t.0, y: t.1, z: t.2 }
}

/// The `obj` crate's error type, declared so the parse wrapper can return
/// it; the library maps it to its own error right away.
#[verifier::external_type_specification]
#[verifier::external_body]
pub struct ExObjError(obj::ObjError);

/// Relies on obj::load_obj with the crate's own `Vertex` vertex type and
/// `u16` indices: the parse reads nothing but the input bytes, and every
/// index it emits is assigned from the length of the vertex list as that
/// list grows, so each index refers to a vertex it has produced. The parser
/// aborts on the free-form-geometry statements it recognizes but does not
/// implement; the precondition keeps such inputs out.
#[verifier::external_body]
fn parse_obj_bytes(bytes: &Vec<u8>) -> (r: Result<(Vec<Vec3Bits>, Vec<u16>), obj::ObjError>)
    requires
        obj_parser_safe(bytes@),
    ensures
        r is Ok <==> obj_parses(bytes@),
        r is Ok ==> r->Ok_0.0@.len() == obj_vertex_bits(bytes@).len(),
        r is Ok ==> forall|i: int| 0 <= i < obj_vertex_bits(bytes@).len()
            ==> #[trigger] r->Ok_0.0@[i] == vec3_of_triple(obj_vertex_bits(bytes@)[i]),
        r is Ok ==> r->Ok_0.1@ == obj_face_indices(bytes@),
        r is Ok ==> forall|i: int| 0 <= i < r->Ok_0.1@.len()
            ==> (#[trigger] r->Ok_0.1@[i] as int) < r->Ok_0.0@.len(),
{
    let parsed: obj::Obj<obj::Vertex, u16> = obj::load_obj(&bytes[..])?;
    let positions: Vec<Vec3Bits> = parsed
        .vertices
        .iter()
        .map(|v| Vec3Bits {
            x: v.position[0].to_bits(),
            y: v.position[1].to_bits(),
            z: v.position[2].to_bits(),
        })
        .collect();
    Ok((positions, parsed.indices))
}

/// Why a mesh file could not be turned into a mesh.
#[derive(Clone, Copy, PartialEq, Eq, Structural, Debug)]
pub enum MeshError {
    /// The bytes are not a well-formed OBJ model.
    Malformed,
    /// The bytes mention a statement of the free-form-geometry extension,
    /// which the parser does not implement.
    UnsupportedStatement,
}

/// The vertex rebuilt for parsed position `t`: recolored by its own
/// position, with no highlight.
pub open spec fn loaded_vertex(t: (u32, u32, u32)) -> Vertex {
    Vertex { position: vec3_of_triple(t), color: vec3_of_triple(t), index: F32_ZERO }
}

/// Builds a mesh from the bytes of an OBJ file: the parsed vertex positions,
/// each vertex recolored by its own position, and the parsed face indices.
/// Bytes that mention an unimplemented statement are turned away first;
/// anything else succeeds exactly when it parses.
pub fn load_mesh_from_file(bytes: &Vec<u8>) -> (r: Result<Mesh, MeshError>)
    ensures
        r is Ok <==> obj_parser_safe(bytes@) && obj_parses(bytes@),
        !obj_parser_safe(bytes@) ==> r is Err
            && r->Err_0 == MeshError::UnsupportedStatement,
        obj_parser_safe(bytes@) && !obj_parses(bytes@) ==> r is Err
            && r->Err_0 == MeshError::Malformed,
        r is Ok ==> {
            let m = r->Ok_0;
            &&& m.vertices@.len() == obj_vertex_bits(bytes@).len()
            &&& forall|i: int| 0 <= i < m.vertices@.len()
                ==> #[trigger] m.vertices@[i] == loaded_vertex(obj_vertex_bits(bytes@)[i])
            &&& m.indices@ == obj_face_indices(bytes@)
            &&& m.well_formed()
        },
{
    if !obj_statements_supported(bytes) {
        return Err(MeshError::UnsupportedStatement);
    }

    let (positions, indices) = match parse_obj_bytes(bytes) {
        Ok(parts) => parts,
        Err(_) => {
            return Err(MeshError::Malformed);
        },
    };

    let mut vertices: Vec<Vertex> = Vec::new();
    let mut i: usize = 0;
    while i < positions.len()
        invariant
            i <= positions@.len(),
            positions@.len() == obj_vertex_bits(bytes@).len(),
            forall|j: int| 0 <= j < positions@.len()
                ==> #[trigger] positions@[j] == vec3_of_triple(obj_vertex_bits(bytes@)[j]),
            vertices@.len() == i,
            forall|j: int| 0 <= j < i
                ==> #[trigger] vertices@[j] == loaded_vertex(obj_vertex_bits(bytes@)[j]),
        decreases positions@.len() - i,
    {
        let p = positions[i];
        vertices.push(Vertex { position: p, color: p, index: F32_ZERO });
        i = i + 1;
    }

    Ok(Mesh { vertices, indices })
}

} // verus!

verus! {

// ---------------------------------------------------------------------------
// Guarding the parser.
//
// The parser recognizes the statements of the OBJ free-form-geometry
// extension (`curv`, `surf`, `cstype` and their relatives) but does not
// implement them: it aborts on such a statement instead of returning an
// error. The loader therefore refuses any input that mentions one of those
// statement words before handing the bytes to the parser. The refusal is
// conservative: it looks for the word anywhere in the bytes, not only in
// statement position, so a file that merely names `end` in a group name is
// also turned away.

/// The ASCII bytes of a statement word.
pub open spec fn ascii(s: Seq<char>) -> Seq<u8> {
    Seq::new(s.len(), |i: int| s[i] as u8)
}

/// A byte that can sit inside a statement word. A word occurrence whose
/// neighbour is a word byte is part of a longer word, which the parser reads
/// as a different statement: letters, digits, and the punctuation that the
/// format writes inside words (`_`, `-`, `.`, `/`). Every word separator the
/// parser accepts — ASCII whitespace, a comment mark, a line break, the
/// bytes of wider whitespace characters — lies outside this set.
pub open spec fn word_byte(b: u8) -> bool {
    ||| 0x30 <= b <= 0x39
    ||| 0x41 <= b <= 0x5A
    ||| 0x61 <= b <= 0x7A
    ||| b == 0x5F
    ||| b == 0x2D
    ||| b == 0x2E
    ||| b == 0x2F
}

/// `word` occurs in `bytes` at position `i`, standing alone: its neighbours,
/// if any, are not word bytes.
pub open spec fn word_at(bytes: Seq<u8>, word: Seq<u8>, i: int) -> bool {
    &&& 0 <= i
    &&& i + word.len() <= bytes.len()
    &&& (forall|j: int| 0 <= j < word.len() ==> bytes[i + j] == word[j])
    &&& (i == 0 || !word_byte(bytes[i - 1]))
    &&& (i + word.len() == bytes.len() || !word_byte(bytes[i + word.len()]))
}

/// `word` occurs somewhere in `bytes`, standing alone.
pub open spec fn mentions_word(bytes: Seq<u8>, word: Seq<u8>) -> bool {
    exists|i: int| word_at(bytes, word, i)
}

/// The bytes mention none of the statement words the parser recognizes but
/// does not implement; on such inputs the parser returns instead of
/// aborting.
pub open spec fn obj_parser_safe(bytes: Seq<u8>) -> bool {
    &&& !mentions_word(bytes, ascii("cstype"@))
    &&& !mentions_word(bytes, ascii("deg"@))
    &&& !mentions_word(bytes, ascii("bmat"@))
    &&& !mentions_word(bytes, ascii("step"@))
    &&& !mentions_word(bytes, ascii("curv"@))
    &&& !mentions_word(bytes, ascii("curv2"@))
    &&& !mentions_word(bytes, ascii("surf"@))
    &&& !mentions_word(bytes, ascii("parm"@))
    &&& !mentions_word(bytes, ascii("trim"@))
    &&& !mentions_word(bytes, ascii("hole"@))
    &&& !mentions_word(bytes, ascii("scrv"@))
    &&& !mentions_word(bytes, ascii("sp"@))
    &&& !mentions_word(bytes, ascii("end"@))
    &&& !mentions_word(bytes, ascii("con"@))
    &&& !mentions_word(bytes, ascii("bevel"@))
    &&& !mentions_word(bytes, ascii("c_interp"@))
    &&& !mentions_word(bytes, ascii("d_interp"@))
    &&& !mentions_word(bytes, ascii("lod"@))
    &&& !mentions_word(bytes, ascii("shadow_obj"@))
    &&& !mentions_word(bytes, ascii("trace_obj"@))
    &&& !mentions_word(bytes, ascii("ctech"@))
    &&& !mentions_word(bytes, ascii("stech"@))
}

fn is_word_byte(b: u8) -> (r: bool)
    ensures
        r == word_byte(b),
{
    (0x30 <= b && b <= 0x39) || (0x41 <= b && b <= 0x5A) || (0x61 <= b && b <= 0x7A)
        || b == 0x5F || b == 0x2D || b == 0x2E || b == 0x2F
}

fn word_match_at(bytes: &Vec<u8>, word: &Vec<u8>, i: usize) -> (r: bool)
    requires
        i + word@.len() <= bytes@.len(),
    ensures
        r == word_at(bytes@, word@, i as int),
{
    let n = bytes.len();
    if i > 0 && is_word_byte(bytes[i - 1]) {
        return false;
    }
    let end = i + word.len();
    if end < bytes.len() && is_word_byte(bytes[end]) {
        return false;
    }
    let mut j: usize = 0;
    while j < word.len()
        invariant
            i + word@.len() <= bytes@.len(),
            end == i + word@.len(),
            j <= word@.len(),
            forall|t: int| 0 <= t < j ==> bytes@[i + t] == word@[t],
            i == 0 || !word_byte(bytes@[i as int - 1]),
            i + word@.len() == bytes@.len() || !word_byte(bytes@[i as int + word@.len()]),
        decreases word@.len() - j,
    {
        if bytes[i + j] != word[j] {
            return false;
        }
        j = j + 1;
    }
    true
}

fn mentions(bytes: &Vec<u8>, word: &Vec<u8>) -> (r: bool)
    requires
        word@.len() >= 1,
    ensures
        r == mentions_word(bytes@, word@),
{
    if word.len() > bytes.len() {
        proof {
            assert forall|t: int| !word_at(bytes@, word@, t) by {}
        }
        return false;
    }
    let last = bytes.len() - word.len();
    let mut i: usize = 0;
    while i <= last
        invariant
            1 <= word@.len() <= bytes@.len(),
            bytes@.len() <= usize::MAX,
            last == bytes@.len() - word@.len(),
            i <= last + 1,
            forall|t: int| 0 <= t < i ==> !word_at(bytes@, word@, t),
        decreases last + 1 - i,
    {
        if word_match_at(bytes, word, i) {
            proof {
                assert(word_at(bytes@, word@, i as int));
            }
            return true;
        }
        i = i + 1;
    }
    proof {
        assert forall|t: int| !word_at(bytes@, word@, t) by {
            assert(t < i ==> !word_at(bytes@, word@, t));
        }
    }
    false
}

/// Checks that the bytes mention none of the statement words the parser
/// does not implement, so that parsing them is safe.
pub fn obj_statements_supported(bytes: &Vec<u8>) -> (r: bool)
    ensures
        r == obj_parser_safe(bytes@),
{
    let mut word: Vec<u8> = Vec::new();
    word.push('c' as u8);
    word.push('s' as u8);
    word.push('t' as u8);
    word.push('y' as u8);
    word.push('p' as u8);
    word.push('e' as u8);
    proof {
        reveal_strlit("cstype");
        assert(word@ =~= ascii("cstype"@));
    }
    if mentions(bytes, &word) {
        return false;
    }

    let mut word: Vec<u8> = Vec::new();
    word.push('d' as u8);
    word.push('e' as u8);
    word.push('g' as u8);
    proof {
        reveal_strlit("deg");
        assert(word@ =~= ascii("deg"@));
    }
    if mentions(bytes, &word) {
        return false;
    }

    let mut word: Vec<u8> = Vec::new();
    word.push('b' as u8);
    word.push('m' as u8);
    word.push('a' as u8);
    word.push('t' as u8);
    proof {
        reveal_strlit("bmat");
        assert(word@ =~= ascii("bmat"@));
    }
    if mentions(bytes, &word) {
        return false;
    }

    let mut word: Vec<u8> = Vec::new();
    word.push('s' as u8);
    word.push('t' as u8);
    word.push('e' as u8);
    word.push('p' as u8);
    proof {
        reveal_strlit("step");
        assert(word@ =~= ascii("step"@));
    }
    if mentions(bytes, &word) {
        return false;
    }

    let mut word: Vec<u8> = Vec::new();
    word.push('c' as u8);
    word.push('u' as u8);
    word.push('r' as u8);
    word.push('v' as u8);
    proof {
        reveal_strlit("curv");
        assert(word@ =~= ascii("curv"@));
    }
    if mentions(bytes, &word) {
        return false;
    }

    let mut word: Vec<u8> = Vec::new();
    word.push('c' as u8);
    word.push('u' as u8);
    word.push('r' as u8);
    word.push('v' as u8);
    word.push('2' as u8);
    proof {
        reveal_strlit("curv2");
        assert(word@ =~= ascii("curv2"@));
    }
    if mentions(bytes, &word) {
        return false;
    }

    let mut word: Vec<u8> = Vec::new();
    word.push('s' as u8);
    word.push('u' as u8);
    word.push('r' as u8);
    word.push('f' as u8);
    proof {
        reveal_strlit("surf");
        assert(word@ =~= ascii("surf"@));
    }
    if mentions(bytes, &word) {
        return false;
    }

    let mut word: Vec<u8> = Vec::new();
    word.push('p' as u8);
    word.push('a' as u8);
    word.push('r' as u8);
    word.push('m' as u8);
    proof {
        reveal_strlit("parm");
        assert(word@ =~= ascii("parm"@));
    }
    if mentions(bytes, &word) {
        return false;
    }

    let mut word: Vec<u8> = Vec::new();
    word.push('t' as u8);
    word.push('r' as u8);
    word.push('i' as u8);
    word.push('m' as u8);
    proof {
        reveal_strlit("trim");
        assert(word@ =~= ascii("trim"@));
    }
    if mentions(bytes, &word) {
        return false;
    }

    let mut word: Vec<u8> = Vec::new();
    word.push('h' as u8);
    word.push('o' as u8);
    word.push('l' as u8);
    word.push('e' as u8);
    proof {
        reveal_strlit("hole");
        assert(word@ =~= ascii("hole"@));
    }
    if mentions(bytes, &word) {
        return false;
    }

    let mut word: Vec<u8> = Vec::new();
    word.push('s' as u8);
    word.push('c' as u8);
    word.push('r' as u8);
    word.push('v' as u8);
    proof {
        reveal_strlit("scrv");
        assert(word@ =~= ascii("scrv"@));
    }
    if mentions(bytes, &word) {
        return false;
    }

    let mut word: Vec<u8> = Vec::new();
    word.push('s' as u8);
    word.push('p' as u8);
    proof {
        reveal_strlit("sp");
        assert(word@ =~= ascii("sp"@));
    }
    if mentions(bytes, &word) {
        return false;
    }

    let mut word: Vec<u8> = Vec::new();
    word.push('e' as u8);
    word.push('n' as u8);
    word.push('d' as u8);
    proof {
        reveal_strlit("end");
        assert(word@ =~= ascii("end"@));
    }
    if mentions(bytes, &word) {
        return false;
    }

    let mut word: Vec<u8> = Vec::new();
    word.push('c' as u8);
    word.push('o' as u8);
    word.push('n' as u8);
    proof {
        reveal_strlit("con");
        assert(word@ =~= ascii("con"@));
    }
    if mentions(bytes, &word) {
        return false;
    }

    let mut word: Vec<u8> = Vec::new();
    word.push('b' as u8);
    word.push('e' as u8);
    word.push('v' as u8);
    word.push('e' as u8);
    word.push('l' as u8);
    proof {
        reveal_strlit("bevel");
        assert(word@ =~= ascii("bevel"@));
    }
    if mentions(bytes, &word) {
        return false;
    }

    let mut word: Vec<u8> = Vec::new();
    word.push('c' as u8);
    word.push('_' as u8);
    word.push('i' as u8);
    word.push('n' as u8);
    word.push('t' as u8);
    word.push('e' as u8);
    word.push('r' as u8);
    word.push('p' as u8);
    proof {
        reveal_strlit("c_interp");
        assert(word@ =~= ascii("c_interp"@));
    }
    if mentions(bytes, &word) {
        return false;
    }

    let mut word: Vec<u8> = Vec::new();
    word.push('d' as u8);
    word.push('_' as u8);
    word.push('i' as u8);
    word.push('n' as u8);
    word.push('t' as u8);
    word.push('e' as u8);
    word.push('r' as u8);
    word.push('p' as u8);
    proof {
        reveal_strlit("d_interp");
        assert(word@ =~= ascii("d_interp"@));
    }
    if mentions(bytes, &word) {
        return false;
    }

    let mut word: Vec<u8> = Vec::new();
    word.push('l' as u8);
    word.push('o' as u8);
    word.push('d' as u8);
    proof {
        reveal_strlit("lod");
        assert(word@ =~= ascii("lod"@));
    }
    if mentions(bytes, &word) {
        return false;
    }

    let mut word: Vec<u8> = Vec::new();
    word.push('s' as u8);
    word.push('h' as u8);
    word.push('a' as u8);
    word.push('d' as u8);
    word.push('o' as u8);
    word.push('w' as u8);
    word.push('_' as u8);
    word.push('o' as u8);
    word.push('b' as u8);
    word.push('j' as u8);
    proof {
        reveal_strlit("shadow_obj");
        assert(word@ =~= ascii("shadow_obj"@));
    }
    if mentions(bytes, &word) {
        return false;
    }

    let mut word: Vec<u8> = Vec::new();
    word.push('t' as u8);
    word.push('r' as u8);
    word.push('a' as u8);
    word.push('c' as u8);
    word.push('e' as u8);
    word.push('_' as u8);
    word.push('o' as u8);
    word.push('b' as u8);
    word.push('j' as u8);
    proof {
        reveal_strlit("trace_obj");
        assert(word@ =~= ascii("trace_obj"@));
    }
    if mentions(bytes, &word) {
        return false;
    }

    let mut word: Vec<u8> = Vec::new();
    word.push('c' as u8);
    word.push('t' as u8);
    word.push('e' as u8);
    word.push('c' as u8);
    word.push('h' as u8);
    proof {
        reveal_strlit("ctech");
        assert(word@ =~= ascii("ctech"@));
    }
    if mentions(bytes, &word) {
        return false;
    }

    let mut word: Vec<u8> = Vec::new();
    word.push('s' as u8);
    word.push('t' as u8);
    word.push('e' as u8);
    word.push('c' as u8);
    word.push('h' as u8);
    proof {
        reveal_strlit("stech");
        assert(word@ =~= ascii("stech"@));
    }
    if mentions(bytes, &word) {
        return false;
    }

    true
}

} // verus!
