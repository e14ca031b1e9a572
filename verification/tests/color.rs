use raytracer::color::{
    black, quantize, rgba, sky_blue, white, write_color, write_decimal, write_header,
};
use raytracer::scalar::Scalar;
use raytracer::vec3::Vec3;

fn s(x: f32) -> Scalar {
    Scalar::from_bits(x.to_bits())
}

fn level(x: f32) -> u8 {
    if x.is_nan() {
        return 0;
    }
    let c = if x < 0.0 {
        0.0
    } else if x > 0.999 {
        0.999
    } else {
        x
    };
    (256.0 * c) as i32 as u8
}

#[test]
fn quantize_gives_the_exact_levels() {
    assert_eq!(quantize(s(0.0)), 0);
    assert_eq!(quantize(s(-0.0)), 0);
    assert_eq!(quantize(s(0.5)), 128);
    assert_eq!(quantize(s(0.25)), 64);
    assert_eq!(quantize(s(0.999)), 255);
    assert_eq!(quantize(s(1.0)), 255);
    assert_eq!(quantize(s(7.5)), 255);
    assert_eq!(quantize(s(f32::INFINITY)), 255);
    assert_eq!(quantize(s(-0.3)), 0);
    assert_eq!(quantize(s(f32::NEG_INFINITY)), 0);
    assert_eq!(quantize(s(f32::NAN)), 0);
    assert_eq!(quantize(s(1.0 / 256.0)), 1);
    assert_eq!(quantize(s(0.00390624)), 0);
    assert_eq!(quantize(s(0.7)), 179);
    assert_eq!(quantize(s(0.99609375)), 255);
    assert_eq!(quantize(s(0.9960937)), 254);
}

#[test]
fn quantize_agrees_with_the_formula_on_a_sweep() {
    let mut bits: u32 = 0;
    let mut count = 0;
    while count < 200_000 {
        let x = f32::from_bits(bits);
        assert_eq!(quantize(s(x)), level(x), "{x:?}");
        bits = bits.wrapping_mul(1_664_525).wrapping_add(1_013_904_223);
        count += 1;
    }
    // every pattern between 1/512 and 1.01
    let mut b = (1.0f32 / 512.0).to_bits();
    let end = 1.01f32.to_bits();
    while b < end {
        let x = f32::from_bits(b);
        assert_eq!(quantize(s(x)), level(x), "{x:?}");
        b += 97;
    }
}

#[test]
fn quantize_never_falls_as_the_channel_rises() {
    let mut last = 0u8;
    let mut b = 0u32;
    while b < 0x7f80_0000 {
        let q = quantize(Scalar::from_bits(b));
        assert!(q >= last);
        last = q;
        b += 4099;
    }
    assert_eq!(last, 255);
}

#[test]
fn decimal_digits() {
    for (n, text) in [
        (0u32, "0"),
        (7, "7"),
        (10, "10"),
        (99, "99"),
        (100, "100"),
        (255, "255"),
        (4_294_967_295, "4294967295"),
    ] {
        let mut out = Vec::new();
        write_decimal(&mut out, n);
        assert_eq!(out, text.as_bytes());
    }
    let mut out = b"x=".to_vec();
    write_decimal(&mut out, 42);
    assert_eq!(out, b"x=42");
}

#[test]
fn a_pixel_is_one_line_of_three_levels() {
    let mut out = Vec::new();
    write_color(&mut out, Vec3::new(s(0.5), s(1.0), s(0.0)));
    assert_eq!(out, b"128 255 0\n");
    write_color(&mut out, Vec3::new(s(0.7), s(-1.0), s(f32::NAN)));
    assert_eq!(out, b"128 255 0\n179 0 0\n");
}

#[test]
fn the_header_has_three_lines() {
    let mut out = Vec::new();
    write_header(&mut out, 400, 225);
    let mut expected = vec![b'P', b'3', b'\n'];
    expected.extend_from_slice(b"400 225\n255\n");
    assert_eq!(out, expected);
}

#[test]
fn a_pixel_of_the_image_is_opaque() {
    assert_eq!(rgba(Vec3::new(s(0.5), s(0.25), s(2.0))), [128, 64, 255, 255]);
    assert_eq!(rgba(black()), [0, 0, 0, 255]);
    assert_eq!(rgba(white()), [255, 255, 255, 255]);
}

#[test]
fn the_colours_of_the_sky() {
    assert_eq!(white(), Vec3::new(s(1.0), s(1.0), s(1.0)));
    assert_eq!(sky_blue(), Vec3::new(s(0.5), s(0.7), s(1.0)));
    assert_eq!(black(), Vec3::new(s(0.0), s(0.0), s(0.0)));
}
