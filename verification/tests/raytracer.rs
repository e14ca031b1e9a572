use raytracer::camera::Camera;
use raytracer::material::{lambertian, metal};
use raytracer::raytracer::simple::{
    unpad_rows, workgroups, Readback, SimpleRayTracer, SimpleRayTracerConfig, MAX_DEPTH,
};
use raytracer::raytracer::{device_bytes, RenderError, RenderedImage};
use raytracer::scalar::Scalar;
use raytracer::sphere::Sphere;
use raytracer::vec3::Vec3;

fn s(x: f32) -> Scalar {
    Scalar::from_bits(x.to_bits())
}

fn v(x: f32, y: f32, z: f32) -> Vec3 {
    Vec3::new(s(x), s(y), s(z))
}

fn camera() -> Camera {
    Camera::new(v(0.0, 0.0, 0.0), v(-2.0, -1.0, -1.0), v(4.0, 0.0, 0.0), v(0.0, 2.0, 0.0))
}

fn scene() -> Vec<Sphere> {
    vec![
        Sphere::new(v(0.0, -100.5, -1.0), s(100.0), lambertian(v(0.8, 0.8, 0.0))),
        Sphere::new(v(1.0, 0.0, -1.0), s(-0.45), metal(v(0.5, 0.5, 0.5), s(0.25))),
    ]
}

fn words_to_bytes(words: &[u32]) -> Vec<u8> {
    let mut b = Vec::new();
    for w in words {
        b.extend_from_slice(&w.to_ne_bytes());
    }
    b
}

#[test]
fn workgroups_cover_the_pixels() {
    assert_eq!(workgroups(0), 0);
    assert_eq!(workgroups(1), 1);
    assert_eq!(workgroups(8), 1);
    assert_eq!(workgroups(9), 2);
    assert_eq!(workgroups(400), 50);
    assert_eq!(workgroups(225), 29);
    assert_eq!(workgroups(u32::MAX), 536_870_912);
    for n in 0u32..1000 {
        let g = workgroups(n);
        assert!(8 * g >= n);
        assert!(n == 0 || 8 * (g - 1) < n);
    }
}

#[test]
fn the_config_counts_the_objects_and_fixes_the_depth() {
    let t = SimpleRayTracer::new(400, 225, scene(), camera());
    assert_eq!(
        t.config(),
        SimpleRayTracerConfig { image_width: 400, image_height: 225, max_depth: 50, object_count: 2 }
    );
    assert_eq!(MAX_DEPTH, 50);
    assert_eq!(t.camera(), camera());
    assert_eq!(t.objects(), &scene());
    assert_eq!(t.dispatch_size(), (50, 29, 1));
    assert_eq!(t.config().to_words(), vec![400, 225, 50, 2]);
    let empty = SimpleRayTracer::new(1, 1, Vec::new(), camera());
    assert_eq!(empty.config().object_count, 0);
    assert_eq!(empty.dispatch_size(), (1, 1, 1));
    assert!(empty.object_bytes().is_empty());
}

#[test]
fn a_sphere_packs_into_eighteen_words() {
    let sphere = Sphere::new(v(1.0, 0.0, -1.0), s(-0.45), metal(v(0.5, 0.5, 0.5), s(0.25)));
    assert_eq!(sphere.center(), v(1.0, 0.0, -1.0));
    assert_eq!(sphere.radius(), s(-0.45));
    assert_eq!(sphere.material(), metal(v(0.5, 0.5, 0.5), s(0.25)));
    let mut out = Vec::new();
    sphere.pack(&mut out);
    let half = 0.5f32.to_bits();
    let unused = (-1.0f32).to_bits();
    assert_eq!(
        out,
        vec![
            1.0f32.to_bits(),
            0,
            (-1.0f32).to_bits(),
            (-0.45f32).to_bits(),
            0,
            0,
            0,
            1,
            0,
            0,
            0,
            half,
            half,
            half,
            unused,
            unused,
            0.25f32.to_bits(),
            0,
        ]
    );
}

#[test]
fn the_buffers_hold_the_packed_records() {
    let t = SimpleRayTracer::new(400, 225, scene(), camera());
    let words = t.object_words();
    assert_eq!(words.len(), 36);
    let mut expected = Vec::new();
    for sphere in scene() {
        sphere.pack(&mut expected);
    }
    assert_eq!(words, expected);
    assert_eq!(words[18], 1.0f32.to_bits());
    assert_eq!(words[18 + 7], 1);

    assert_eq!(t.object_bytes(), words_to_bytes(&words));
    assert_eq!(t.object_bytes().len(), 72 * 2);
    assert_eq!(t.parameter_bytes(), words_to_bytes(&[400, 225, 50, 2]));
    let cam = camera().to_words();
    assert_eq!(
        cam,
        vec![
            0,
            0,
            0,
            (-2.0f32).to_bits(),
            (-1.0f32).to_bits(),
            (-1.0f32).to_bits(),
            4.0f32.to_bits(),
            0,
            0,
            0,
            2.0f32.to_bits(),
            0,
        ]
    );
    assert_eq!(t.camera_bytes(), words_to_bytes(&cam));
    assert_eq!(t.camera_bytes().len(), 48);
}

#[test]
fn words_become_bytes_in_the_order_of_the_machine() {
    let bytes = device_bytes(&vec![0x0403_0201, 0xdead_beef]);
    assert_eq!(bytes.len(), 8);
    let little = 1u16.to_ne_bytes()[0] == 1;
    if little {
        assert_eq!(bytes, vec![1, 2, 3, 4, 0xef, 0xbe, 0xad, 0xde]);
    } else {
        assert_eq!(bytes, vec![4, 3, 2, 1, 0xde, 0xad, 0xbe, 0xef]);
    }
    assert!(device_bytes(&Vec::new()).is_empty());
}

#[test]
fn rows_are_padded_to_the_pitch_of_the_device() {
    assert_eq!(
        Readback::new(400, 225),
        Some(Readback { bytes_per_row: 1600, padded_bytes_per_row: 1792, rows: 225, size: 403_200 })
    );
    assert_eq!(
        Readback::new(64, 2),
        Some(Readback { bytes_per_row: 256, padded_bytes_per_row: 256, rows: 2, size: 512 })
    );
    assert_eq!(
        Readback::new(65, 2),
        Some(Readback { bytes_per_row: 260, padded_bytes_per_row: 512, rows: 2, size: 1024 })
    );
    assert_eq!(
        Readback::new(1, 1),
        Some(Readback { bytes_per_row: 4, padded_bytes_per_row: 256, rows: 1, size: 256 })
    );
    assert_eq!(
        Readback::new(0, 7),
        Some(Readback { bytes_per_row: 0, padded_bytes_per_row: 0, rows: 7, size: 0 })
    );
    assert_eq!(
        Readback::new(7, 0),
        Some(Readback { bytes_per_row: 28, padded_bytes_per_row: 256, rows: 0, size: 0 })
    );
    // the largest image of one row
    assert_eq!(
        Readback::new(1_073_741_760, 1),
        Some(Readback {
            bytes_per_row: 4_294_967_040,
            padded_bytes_per_row: 4_294_967_040,
            rows: 1,
            size: 4_294_967_040
        })
    );
    assert_eq!(Readback::new(1_073_741_761, 1), None);
    assert_eq!(Readback::new(1_073_741_761, 0), None);
    assert_eq!(Readback::new(u32::MAX, 1), None);
    assert_eq!(Readback::new(65_536, 16_384), None);
    assert!(Readback::new(65_536, 16_383).is_some());
}

#[test]
fn padding_is_cut_off_each_row() {
    let data: Vec<u8> = (0u8..24).collect();
    assert_eq!(unpad_rows(&data, 3, 8), vec![0, 1, 2, 8, 9, 10, 16, 17, 18]);
    assert_eq!(unpad_rows(&data, 8, 8), data);
    assert_eq!(unpad_rows(&data, 0, 8), Vec::<u8>::new());
    assert_eq!(unpad_rows(&[], 3, 8), Vec::<u8>::new());
    // a last row without its padding
    assert_eq!(unpad_rows(&data[..19], 3, 8), vec![0, 1, 2, 8, 9, 10, 16, 17, 18]);
    assert_eq!(unpad_rows(&data[..20], 4, 8), vec![0, 1, 2, 3, 8, 9, 10, 11, 16, 17, 18, 19]);
}

#[test]
fn the_readback_becomes_the_image() {
    let t = SimpleRayTracer::new(2, 3, scene(), camera());
    let layout = t.readback().unwrap();
    assert_eq!(layout, Readback { bytes_per_row: 8, padded_bytes_per_row: 256, rows: 3, size: 768 });
    let mut data = vec![0xaau8; 768];
    for row in 0..3usize {
        for k in 0..8usize {
            data[row * 256 + k] = (row * 8 + k) as u8;
        }
    }
    let img = t.finish(&data).expect("the bytes have the length of the layout");
    assert_eq!(img.dimensions(), (2, 3));
    assert_eq!(img.into_raw(), (0u8..24).collect::<Vec<u8>>());
}

#[test]
fn the_same_readback_gives_the_same_image() {
    let t = SimpleRayTracer::new(3, 2, scene(), camera());
    let data: Vec<u8> = (0..512u32).map(|k| (k * 7 % 251) as u8).collect();
    let a = t.finish(&data).unwrap();
    let b = t.finish(&data).unwrap();
    assert_eq!(a.dimensions(), b.dimensions());
    assert_eq!(a.into_raw(), b.into_raw());
}

#[test]
fn a_readback_of_the_wrong_length_is_an_error() {
    let t = SimpleRayTracer::new(2, 3, scene(), camera());
    assert_eq!(t.finish(&vec![0u8; 767]).err(), Some(RenderError::ReadbackSize));
    assert_eq!(t.finish(&vec![0u8; 769]).err(), Some(RenderError::ReadbackSize));
    assert_eq!(t.finish(&vec![0u8; 24]).err(), Some(RenderError::ReadbackSize));
    assert_eq!(t.finish(&[]).err(), Some(RenderError::ReadbackSize));
}

#[test]
fn an_image_too_large_for_its_layout_is_an_error() {
    let t = SimpleRayTracer::new(65_536, 16_384, Vec::new(), camera());
    assert_eq!(t.readback(), Err(RenderError::ImageTooLarge));
    assert_eq!(t.finish(&[]).err(), Some(RenderError::ImageTooLarge));
    let wide = SimpleRayTracer::new(u32::MAX, 0, Vec::new(), camera());
    assert_eq!(wide.finish(&[]).err(), Some(RenderError::ImageTooLarge));
}

#[test]
fn an_image_without_pixels_is_empty() {
    let flat = SimpleRayTracer::new(5, 0, Vec::new(), camera());
    let img = flat.finish(&[]).unwrap();
    assert_eq!(img.dimensions(), (5, 0));
    assert!(img.into_raw().is_empty());
    let thin = SimpleRayTracer::new(0, 5, Vec::new(), camera());
    let img = thin.finish(&[]).unwrap();
    assert_eq!(img.dimensions(), (0, 5));
    assert!(img.into_raw().is_empty());
}

#[test]
fn colours_become_the_samples_of_an_image() {
    let pixels = vec![v(0.5, 0.25, 2.0), v(0.0, 1.0, -1.0), v(0.7, 0.999, 0.1), v(1.0, 1.0, 1.0)];
    let expected = vec![128, 64, 255, 255, 0, 255, 0, 255, 179, 255, 25, 255, 255, 255, 255, 255];
    let img = RenderedImage::from_colors(2, 2, &pixels).expect("a colour for each pixel");
    assert_eq!(img.dimensions(), (2, 2));
    assert_eq!(img.into_raw(), expected);
    let row = RenderedImage::from_colors(4, 1, &pixels).unwrap();
    assert_eq!(row.dimensions(), (4, 1));
    assert_eq!(row.into_raw(), expected);
    assert!(RenderedImage::from_colors(2, 1, &pixels).is_none());
    assert!(RenderedImage::from_colors(3, 2, &pixels).is_none());
    assert!(RenderedImage::from_colors(65_536, 65_536, &pixels).is_none());
    assert!(RenderedImage::from_colors(0, 9, &Vec::new()).is_some());
}

#[test]
fn an_image_needs_four_samples_for_each_pixel() {
    let img = RenderedImage::from_raw(2, 2, (0u8..16).collect()).expect("sixteen samples suffice");
    assert_eq!(img.dimensions(), (2, 2));
    assert_eq!(img.into_raw(), (0u8..16).collect::<Vec<u8>>());
    assert!(RenderedImage::from_raw(2, 2, vec![0; 15]).is_none());
    assert!(RenderedImage::from_raw(u32::MAX, u32::MAX, vec![0; 16]).is_none());
    let roomy = RenderedImage::from_raw(1, 1, vec![9; 7]).expect("more samples than needed");
    assert_eq!(roomy.dimensions(), (1, 1));
    assert_eq!(roomy.into_raw(), vec![9; 7]);
    assert!(RenderedImage::from_raw(0, 0, Vec::new()).is_some());
}
