use terrain_fields::mesh::quad_indices;

#[test]
fn two_triangles_per_quad() {
    assert_eq!(quad_indices(2), vec![0, 1, 2, 0, 2, 3, 4, 5, 6, 4, 6, 7]);
    assert!(quad_indices(0).is_empty());
}

#[test]
fn indices_of_last_quad() {
    let r = quad_indices(100 * 100);
    assert_eq!(r.len(), 60000);
    assert_eq!(&r[59994..], &[39996, 39997, 39998, 39996, 39998, 39999]);
}

