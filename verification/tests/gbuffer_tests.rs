use bulbtracer::gbuffer::SiLight5;
use bulbtracer::gbuffer::read_pixel;
use bulbtracer::gbuffer::write_pixel;
use bulbtracer::gbuffer::PIXEL_BYTES;

fn sample_pixel() -> SiLight5 {
    SiLight5 {
        sn_x: 12345,
        sn_y: -12345,
        sn_z: -1,
        z_pos: 40000,
        shadow: 7,
        ambient: 65535,
        color_gradient: 258,
        orbit_trap: 513,
        roughness: 2,
    }
}

#[test]
fn pixel_record_is_18_bytes() {
    assert_eq!(PIXEL_BYTES, 18);
}

#[test]
fn write_then_read_gives_same_record() {
    let mut buf = vec![0u8; 4 * PIXEL_BYTES];
    let p = sample_pixel();
    assert!(write_pixel(&mut buf, 2, &p));
    let q = read_pixel(&buf, 2).unwrap();
    assert_eq!(p, q);
}

#[test]
fn layout_is_little_endian_packed() {
    let mut buf = vec![0u8; PIXEL_BYTES];
    let p = SiLight5 {
        sn_x: 0x0102,
        sn_y: -2,
        sn_z: 0,
        z_pos: 0xABCD,
        shadow: 1,
        ambient: 0x8000,
        color_gradient: 0x00FF,
        orbit_trap: 0xFF00,
        roughness: 0xFFFF,
    };
    assert!(write_pixel(&mut buf, 0, &p));
    // sn_x = 0x0102 -> 02 01
    assert_eq!(&buf[0..2], &[0x02, 0x01]);
    // sn_y = -2 -> 0xFFFE -> FE FF
    assert_eq!(&buf[2..4], &[0xFE, 0xFF]);
    // sn_z = 0
    assert_eq!(&buf[4..6], &[0x00, 0x00]);
    // z_pos = 0xABCD -> CD AB
    assert_eq!(&buf[6..8], &[0xCD, 0xAB]);
    assert_eq!(&buf[8..10], &[0x01, 0x00]);
    assert_eq!(&buf[10..12], &[0x00, 0x80]);
    assert_eq!(&buf[12..14], &[0xFF, 0x00]);
    assert_eq!(&buf[14..16], &[0x00, 0xFF]);
    assert_eq!(&buf[16..18], &[0xFF, 0xFF]);
}

#[test]
fn out_of_range_write_is_dropped() {
    let mut buf = vec![9u8; 2 * PIXEL_BYTES];
    let before = buf.clone();
    let p = sample_pixel();
    assert!(!write_pixel(&mut buf, 2, &p));
    assert_eq!(buf, before);
}

#[test]
fn short_buffer_write_is_dropped() {
    let mut buf = vec![9u8; PIXEL_BYTES - 1];
    let before = buf.clone();
    assert!(!write_pixel(&mut buf, 0, &sample_pixel()));
    assert_eq!(buf, before);
}

#[test]
fn write_touches_only_its_own_record() {
    let mut buf = vec![0xAAu8; 3 * PIXEL_BYTES];
    assert!(write_pixel(&mut buf, 1, &sample_pixel()));
    for j in 0..PIXEL_BYTES {
        assert_eq!(buf[j], 0xAA);
        assert_eq!(buf[2 * PIXEL_BYTES + j], 0xAA);
    }
}

#[test]
fn out_of_range_read_is_none() {
    let buf = vec![0u8; PIXEL_BYTES];
    assert!(read_pixel(&buf, 0).is_some());
    assert!(read_pixel(&buf, 1).is_none());
}

#[test]
fn no_hit_record_is_background() {
    let p = SiLight5::no_hit();
    assert_eq!(p.z_pos, 65535);
    assert_eq!(p.sn_x, 0);
    assert!(p.is_background());
    let hit = SiLight5 { z_pos: 40000, ..SiLight5::default() };
    assert!(!hit.is_background());
    let edge = SiLight5 { z_pos: 65534, ..SiLight5::default() };
    assert!(edge.is_background());
}

#[test]
fn extreme_values_round_trip() {
    let mut buf = vec![0u8; PIXEL_BYTES];
    let p = SiLight5 {
        sn_x: i16::MIN,
        sn_y: i16::MAX,
        sn_z: -32767,
        z_pos: u16::MAX,
        shadow: 0,
        ambient: u16::MAX,
        color_gradient: 0,
        orbit_trap: u16::MAX,
        roughness: 0,
    };
    assert!(write_pixel(&mut buf, 0, &p));
    // i16::MIN has the sign-bit-only pattern
    assert_eq!(&buf[0..2], &[0x00, 0x80]);
    assert_eq!(read_pixel(&buf, 0).unwrap(), p);
}

#[test]
fn default_record_is_zero() {
    let p = SiLight5::default();
    assert_eq!(p.z_pos, 0);
    assert_eq!(p.sn_x, 0);
    assert_eq!(p.roughness, 0);
}
