use vec3::Scalar;

#[test]
fn scalar_new() {
    assert_eq!(Scalar::new(5), Scalar::new(5));
    assert_ne!(Scalar::new(5), Scalar::new(6));
}
