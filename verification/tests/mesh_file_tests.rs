use avatar_pipeline::bits::Vec3Bits;
use avatar_pipeline::mesh_file::{load_mesh_from_file, obj_statements_supported, MeshError};

fn bits3(x: f32, y: f32, z: f32) -> Vec3Bits {
    Vec3Bits { x: x.to_bits(), y: y.to_bits(), z: z.to_bits() }
}

const TRIANGLE_OBJ: &str = "\
v 0.0 0.0 0.0
v 1.0 0.0 0.0
v 0.0 1.0 0.0
vn 0.0 0.0 1.0
f 1//1 2//1 3//1
";

#[test]
fn loads_a_triangle_from_obj_bytes() {
    let bytes: Vec<u8> = TRIANGLE_OBJ.as_bytes().to_vec();
    let mesh = load_mesh_from_file(&bytes).unwrap();
    assert_eq!(mesh.vertices.len(), 3);
    assert_eq!(mesh.indices, vec![0, 1, 2]);
    assert_eq!(mesh.vertices[0].position, bits3(0.0, 0.0, 0.0));
    assert_eq!(mesh.vertices[1].position, bits3(1.0, 0.0, 0.0));
    assert_eq!(mesh.vertices[2].position, bits3(0.0, 1.0, 0.0));
    // Recolored by position, with no highlight.
    for v in &mesh.vertices {
        assert_eq!(v.color, v.position);
        assert_eq!(v.index, 0.0f32.to_bits());
    }
    assert!(mesh.is_well_formed());
}

#[test]
fn shared_corners_are_deduplicated() {
    // Two triangles sharing an edge: four distinct (position, normal) pairs,
    // six indices.
    let quad = "\
v 0.0 0.0 0.0
v 1.0 0.0 0.0
v 1.0 1.0 0.0
v 0.0 1.0 0.0
vn 0.0 0.0 1.0
f 1//1 2//1 3//1
f 1//1 3//1 4//1
";
    let bytes: Vec<u8> = quad.as_bytes().to_vec();
    let mesh = load_mesh_from_file(&bytes).unwrap();
    assert_eq!(mesh.vertices.len(), 4);
    assert_eq!(mesh.indices, vec![0, 1, 2, 0, 2, 3]);
    assert!(mesh.is_well_formed());
}

#[test]
fn garbage_bytes_are_malformed() {
    let bytes: Vec<u8> = b"this is not a mesh file".to_vec();
    assert!(matches!(load_mesh_from_file(&bytes), Err(MeshError::Malformed)));
}

#[test]
fn faces_without_normals_are_malformed() {
    // The loader asks for position and normal data; a model without normals
    // cannot provide them.
    let no_normals = "\
v 0.0 0.0 0.0
v 1.0 0.0 0.0
v 0.0 1.0 0.0
f 1 2 3
";
    let bytes: Vec<u8> = no_normals.as_bytes().to_vec();
    assert!(matches!(load_mesh_from_file(&bytes), Err(MeshError::Malformed)));
}

#[test]
fn free_form_statements_are_turned_away() {
    // The parser recognizes free-form-geometry statements but does not
    // implement them; the loader refuses them instead of parsing.
    let curve = "\
v 0.0 0.0 0.0
v 1.0 0.0 0.0
v 0.0 1.0 0.0
curv 0.0 1.0 1 2 3
";
    let bytes: Vec<u8> = curve.as_bytes().to_vec();
    assert!(!obj_statements_supported(&bytes));
    assert!(matches!(load_mesh_from_file(&bytes), Err(MeshError::UnsupportedStatement)));

    let surface = "cstype bezier\n";
    let bytes: Vec<u8> = surface.as_bytes().to_vec();
    assert!(matches!(load_mesh_from_file(&bytes), Err(MeshError::UnsupportedStatement)));
}

#[test]
fn the_guard_is_conservative_about_word_position() {
    // The scan looks for the unimplemented statement words anywhere, so a
    // file that merely names one — even in a comment — is also turned away.
    let commented = "v 0.0 0.0 0.0 # end of vertices\n";
    let bytes: Vec<u8> = commented.as_bytes().to_vec();
    assert!(!obj_statements_supported(&bytes));
    assert!(matches!(load_mesh_from_file(&bytes), Err(MeshError::UnsupportedStatement)));

    // A longer word that contains a statement word is no statement.
    let harmless = "v 0.0 0.0 0.0 # curved ending\n";
    let bytes: Vec<u8> = harmless.as_bytes().to_vec();
    assert!(obj_statements_supported(&bytes));
}
