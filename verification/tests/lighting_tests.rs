use bulbtracer::lighting::Light8;

#[test]
fn default_light_is_all_zero() {
    let l = Light8::default();
    assert!(l.pos.iter().all(|&b| b == 0));
    assert!(l.color.iter().all(|&b| b == 0));
    assert_eq!(l.amplitude, 0);
    assert_eq!(l.func_type, 0);
    assert_eq!(l.lightmap, 0);
    assert_eq!(l.spec_size, 0);
    assert!(l.reserved.iter().all(|&b| b == 0));
}
