use raytracer::color::{black, white};
use raytracer::hit::Hit;
use raytracer::material::dielectric::{Bounce, Dielectric};
use raytracer::material::diffuse_light::DiffuseLight;
use raytracer::material::lambertian::Lambertian;
use raytracer::material::metal::Metal;
use raytracer::material::{
    dielectric, diffuse_light, lambertian, metal, Material, Surface, DIELECTRIC, DIFFUSE_LIGHT,
    LAMBERTIAN, METAL,
};
use raytracer::scalar::Scalar;
use raytracer::vec3::Vec3;

fn s(x: f32) -> Scalar {
    Scalar::from_bits(x.to_bits())
}

fn f(x: Scalar) -> f32 {
    f32::from_bits(x.to_bits())
}

fn v(x: f32, y: f32, z: f32) -> Vec3 {
    Vec3::new(s(x), s(y), s(z))
}

fn hit_at(p: Vec3, n: Vec3) -> Hit {
    let mut h = Hit::new();
    h.t = s(1.0);
    h.position = p;
    h.normal = n;
    h.front_face = true;
    h
}

#[test]
fn records_hold_minus_one_in_unused_fields() {
    let l = lambertian(v(0.8, 0.8, 0.0));
    assert_eq!(l.mat_type, LAMBERTIAN);
    assert_eq!(l.color, v(0.8, 0.8, 0.0));
    assert_eq!(f(l.emission_intensity), -1.0);
    assert_eq!(f(l.refractive_index), -1.0);
    assert_eq!(f(l.fuzz), -1.0);

    let m = metal(v(0.5, 0.5, 0.5), s(0.25));
    assert_eq!(m.mat_type, METAL);
    assert_eq!(f(m.fuzz), 0.25);
    assert_eq!(f(m.emission_intensity), -1.0);
    assert_eq!(f(m.refractive_index), -1.0);

    let d = dielectric(s(1.5));
    assert_eq!(d.mat_type, DIELECTRIC);
    assert_eq!(d.color, black());
    assert_eq!(f(d.refractive_index), 1.5);
    assert_eq!(f(d.fuzz), -1.0);

    let e = diffuse_light(v(0.9, 0.9, 0.1), s(1.5));
    assert_eq!(e.mat_type, DIFFUSE_LIGHT);
    assert_eq!(f(e.emission_intensity), 1.5);
    assert_eq!(f(e.refractive_index), -1.0);

    assert_eq!(
        Material::new(1, v(1.0, 2.0, 3.0), s(4.0), s(5.0), s(6.0)),
        Material {
            mat_type: 1,
            color: v(1.0, 2.0, 3.0),
            emission_intensity: s(4.0),
            refractive_index: s(5.0),
            fuzz: s(6.0)
        }
    );
}

#[test]
fn a_record_packs_into_eleven_words() {
    let m = metal(v(0.5, 0.25, 1.0), s(0.125));
    let mut out = vec![7u32];
    m.pack(&mut out);
    assert_eq!(
        out,
        vec![
            7,
            1,
            0,
            0,
            0,
            0.5f32.to_bits(),
            0.25f32.to_bits(),
            1.0f32.to_bits(),
            (-1.0f32).to_bits(),
            (-1.0f32).to_bits(),
            0.125f32.to_bits(),
            0,
        ]
    );
}

#[test]
fn a_record_reads_back_as_its_surface() {
    assert_eq!(
        lambertian(v(0.1, 0.2, 0.3)).surface(),
        Some(Surface::Lambertian(Lambertian::new(v(0.1, 0.2, 0.3))))
    );
    assert_eq!(
        metal(v(0.1, 0.2, 0.3), s(0.5)).surface(),
        Some(Surface::Metal(Metal::new(v(0.1, 0.2, 0.3), s(0.5))))
    );
    assert_eq!(dielectric(s(1.5)).surface(), Some(Surface::Dielectric(Dielectric::new(s(1.5)))));
    assert_eq!(
        diffuse_light(v(1.0, 1.0, 1.0), s(4.0)).surface(),
        Some(Surface::DiffuseLight(DiffuseLight::new(v(1.0, 1.0, 1.0), s(4.0))))
    );
    assert_eq!(Material::new(4, black(), s(0.0), s(0.0), s(0.0)).surface(), None);
    assert_eq!(Material::new(u32::MAX, black(), s(0.0), s(0.0), s(0.0)).surface(), None);
    assert_eq!(Material::default().surface(), Some(Surface::Lambertian(Lambertian::new(black()))));
}

#[test]
fn a_surface_survives_the_round_trip_through_its_record() {
    let surfaces = [
        Surface::Lambertian(Lambertian::new(v(0.8, 0.8, 0.0))),
        Surface::Metal(Metal::new(v(0.5, 0.5, 0.5), s(0.0))),
        Surface::Metal(Metal::new(v(0.5, 0.5, 0.5), s(3.0))),
        Surface::Metal(Metal::new(v(0.5, 0.5, 0.5), s(-3.0))),
        Surface::Dielectric(Dielectric::new(s(1.5))),
        Surface::DiffuseLight(DiffuseLight::new(v(0.9, 0.9, 0.1), s(1.5))),
    ];
    for surface in surfaces {
        assert_eq!(surface.material().surface(), Some(surface));
    }
}

#[test]
fn the_fuzz_of_a_metal_is_clamped() {
    assert_eq!(f(Metal::new(black(), s(0.3)).fuzz), 0.3);
    assert_eq!(f(Metal::new(black(), s(0.0)).fuzz), 0.0);
    assert_eq!(f(Metal::new(black(), s(1.0)).fuzz), 1.0);
    assert_eq!(f(Metal::new(black(), s(1.5)).fuzz), 1.0);
    assert_eq!(f(Metal::new(black(), s(f32::INFINITY)).fuzz), 1.0);
    assert_eq!(f(Metal::new(black(), s(-0.5)).fuzz), 0.0);
    assert_eq!(f(Metal::new(black(), s(f32::NAN)).fuzz), 1.0);
}

#[test]
fn lambertian_always_scatters_with_its_albedo() {
    let albedo = v(0.8, 0.3, 0.1);
    let l = Lambertian::new(albedo);
    let h = hit_at(v(1.0, 2.0, 3.0), v(0.0, 1.0, 0.0));
    for bounce in [v(0.3, 1.2, -0.4), v(0.0, 0.0, 0.0), v(f32::NAN, 0.0, 0.0), v(-1.0, -1.0, -1.0)] {
        let r = l.scatter(&h, bounce).expect("a diffuse surface always scatters");
        assert_eq!(r.attenuation, albedo);
        assert_eq!(r.ray.origin(), v(1.0, 2.0, 3.0));
    }
    assert_eq!(l.emit(), black());
}

#[test]
fn lambertian_falls_back_to_the_normal() {
    let l = Lambertian::new(v(0.5, 0.5, 0.5));
    let h = hit_at(v(0.0, 0.0, 0.0), v(0.0, 0.0, 1.0));
    let kept = l.scatter(&h, v(0.1, 0.2, 0.3)).unwrap();
    assert_eq!(kept.ray.direction(), v(0.1, 0.2, 0.3));
    let fell_back = l.scatter(&h, v(1.0e-9, -1.0e-9, 0.0)).unwrap();
    assert_eq!(fell_back.ray.direction(), v(0.0, 0.0, 1.0));
    let just_long_enough = l.scatter(&h, v(1.0e-8, 0.0, 0.0)).unwrap();
    assert_eq!(just_long_enough.ray.direction(), v(1.0e-8, 0.0, 0.0));
}

#[test]
fn metal_absorbs_what_points_into_the_surface() {
    let m = Metal::new(v(0.7, 0.6, 0.5), s(0.2));
    let h = hit_at(v(1.0, 0.0, 0.0), v(0.0, 1.0, 0.0));
    let out = m.scatter(&h, v(0.5, 0.5, 0.0), s(0.5)).expect("leaves the surface");
    assert_eq!(out.attenuation, v(0.7, 0.6, 0.5));
    assert_eq!(out.ray.origin(), v(1.0, 0.0, 0.0));
    assert_eq!(out.ray.direction(), v(0.5, 0.5, 0.0));
    assert_eq!(m.scatter(&h, v(0.5, -0.5, 0.0), s(-0.5)), None);
    assert_eq!(m.scatter(&h, v(0.5, 0.0, 0.0), s(0.0)), None);
    assert_eq!(m.scatter(&h, v(0.5, 0.0, 0.0), s(-0.0)), None);
    assert_eq!(m.scatter(&h, v(0.5, 0.0, 0.0), s(f32::NAN)), None);
    assert!(m.scatter(&h, v(0.5, 0.0, 0.0), s(f32::from_bits(1))).is_some());
    assert_eq!(m.emit(), black());
}

#[test]
fn dielectric_reflects_or_refracts() {
    assert_eq!(Dielectric::decide(s(0.5), s(0.1), s(0.7)), Bounce::Refract);
    assert_eq!(Dielectric::decide(s(1.0), s(0.1), s(0.1)), Bounce::Refract);
    assert_eq!(Dielectric::decide(s(1.0000001), s(0.0), s(0.9)), Bounce::Reflect);
    assert_eq!(Dielectric::decide(s(0.5), s(0.8), s(0.7)), Bounce::Reflect);
    assert_eq!(Dielectric::decide(s(f32::NAN), s(f32::NAN), s(0.5)), Bounce::Refract);

    let d = Dielectric::new(s(1.5));
    let h = hit_at(v(0.0, 0.0, -0.5), v(0.0, 0.0, 1.0));
    let reflected = v(0.0, 0.6, 0.8);
    let refracted = v(0.0, 0.3, -0.9);
    let a = d.scatter(&h, s(0.4), s(0.04), s(0.5), reflected, refracted).unwrap();
    assert_eq!(a.ray.direction(), refracted);
    assert_eq!(a.attenuation, white());
    assert_eq!(a.ray.origin(), v(0.0, 0.0, -0.5));
    let b = d.scatter(&h, s(0.4), s(0.6), s(0.5), reflected, refracted).unwrap();
    assert_eq!(b.ray.direction(), reflected);
    assert_eq!(b.attenuation, white());
    let c = d.scatter(&h, s(1.2), s(0.0), s(0.5), reflected, refracted).unwrap();
    assert_eq!(c.ray.direction(), reflected);
    assert_eq!(d.emit(), black());
}

#[test]
fn glass_of_index_one_lets_a_head_on_ray_through() {
    // at index 1 the refraction ratio is 1 on either side; head on, the
    // sine is 0 and the reflectance (1 - cos)^5 is 0
    let d = Dielectric::new(s(1.0));
    let h = hit_at(v(0.0, 0.0, -0.5), v(0.0, 0.0, 1.0));
    let incoming = v(0.0, 0.0, -1.0);
    for draw in [0.0f32, 0.25, 0.999] {
        let r = d.scatter(&h, s(0.0), s(0.0), s(draw), v(0.0, 0.0, 1.0), incoming).unwrap();
        assert_eq!(r.ray.direction(), incoming);
    }
}

#[test]
fn a_light_never_scatters() {
    let l = DiffuseLight::new(v(0.9, 0.9, 0.1), s(1.5));
    assert_eq!(l.scatter(), None);
    assert_eq!(l.color, v(0.9, 0.9, 0.1));
    assert_eq!(f(l.intensity), 1.5);
}
