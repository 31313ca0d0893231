use optical_path_mask::bundle::{axial_substitute, ray_bundle, Bearing, Launch};
use optical_path_mask::pipeline::{Action, TracingPipeline};
use optical_path_mask::ray::Ray;
use optical_path_mask::sampling::{sample_count, sample_turns};
use optical_path_mask::units::squared_radius;
use optical_path_mask::OpticalPathMaskSpecs;

/// A ray in metres, as a tracer holds it.
#[derive(Clone, Copy)]
struct Traced {
    p: [f64; 3],
    u: [f64; 3],
}

/// The mirror that stands in for the real one: the paraboloid
/// `z = k (x^2 + y^2)`, flat where `k` is zero.
#[derive(Clone, Copy)]
struct Mirror {
    k: f64,
}

fn dot(a: [f64; 3], b: [f64; 3]) -> f64 {
    a[0] * b[0] + a[1] * b[1] + a[2] * b[2]
}

fn advance(ray: &mut Traced, t: f64) {
    for k in 0..3 {
        ray.p[k] += t * ray.u[k];
    }
}

fn trace_to_plane(ray: &mut Traced, point: [f64; 3], normal: [f64; 3]) {
    let to_plane = [point[0] - ray.p[0], point[1] - ray.p[1], point[2] - ray.p[2]];
    let t = dot(to_plane, normal) / dot(ray.u, normal);
    advance(ray, t);
}

impl Mirror {
    fn trace(&self, ray: &mut Traced) {
        let (p, u) = (ray.p, ray.u);
        let a = self.k * (u[0] * u[0] + u[1] * u[1]);
        let b = 2.0 * self.k * (p[0] * u[0] + p[1] * u[1]) - u[2];
        let c = self.k * (p[0] * p[0] + p[1] * p[1]) - p[2];
        let t = if a.abs() < 1e-15 {
            -c / b
        } else {
            let root = (b * b - 4.0 * a * c).sqrt();
            let (t1, t2) = ((-b - root) / (2.0 * a), (-b + root) / (2.0 * a));
            if t1.abs() < t2.abs() {
                t1
            } else {
                t2
            }
        };
        advance(ray, t);
    }

    fn reflect(&self, ray: &mut Traced) {
        let g = [-2.0 * self.k * ray.p[0], -2.0 * self.k * ray.p[1], 1.0];
        let norm = dot(g, g).sqrt();
        let n = [g[0] / norm, g[1] / norm, g[2] / norm];
        let along = dot(ray.u, n);
        for k in 0..3 {
            ray.u[k] -= 2.0 * along * n[k];
        }
    }
}

fn nanometres(m: f64) -> i64 {
    (m * 1e9).round() as i64
}

fn metres(nm: i64) -> f64 {
    nm as f64 / 1e9
}

fn to_fixed(ray: &Traced) -> Ray {
    Ray {
        p: [nanometres(ray.p[0]), nanometres(ray.p[1]), nanometres(ray.p[2])],
        u: [
            (ray.u[0] * 1e12).round() as i64,
            (ray.u[1] * 1e12).round() as i64,
            (ray.u[2] * 1e12).round() as i64,
        ],
    }
}

fn to_traced(ray: &Ray) -> Traced {
    Traced {
        p: [metres(ray.p[0]), metres(ray.p[1]), metres(ray.p[2])],
        u: [ray.u[0] as f64 / 1e12, ray.u[1] as f64 / 1e12, ray.u[2] as f64 / 1e12],
    }
}

/// The contour as the library computes it, with the tracing done here.
fn contour_by_the_library(
    specs: OpticalPathMaskSpecs,
    step: Option<i64>,
    z0: i64,
    mirror: Mirror,
) -> Vec<(i64, i64)> {
    let steps = sample_count(&specs, step).unwrap();
    let bearings: Vec<Bearing> = sample_turns(steps)
        .iter()
        .map(|turn| {
            let angle = 2.0 * std::f64::consts::PI * (turn.index as f64 / turn.of as f64);
            let (s, c) = angle.sin_cos();
            Bearing { cos: (c * 1e12).round() as i64, sin: (s * 1e12).round() as i64 }
        })
        .collect();
    assert!(bearings.iter().all(|bearing| bearing.is_wf()));
    let mut rays: Vec<Traced> = ray_bundle(&specs, &bearings, z0)
        .iter()
        .map(|launch| match launch {
            Launch::Axial(ray) => to_traced(ray),
            Launch::ViaMirror(ray) => {
                let mut normal_ray = to_traced(ray);
                mirror.trace(&mut normal_ray);
                to_traced(&axial_substitute(&to_fixed(&normal_ray), z0))
            }
        })
        .collect();
    let plane = specs.mask_plane();
    let point = [metres(plane.point[0]), metres(plane.point[1]), metres(plane.point[2])];
    let normal = [
        plane.normal[0] as f64 / 1e12,
        plane.normal[1] as f64 / 1e12,
        plane.normal[2] as f64 / 1e12,
    ];
    let mut run = TracingPipeline::new(specs);
    let mut due = run.pending();
    while due != Action::Finished {
        for ray in rays.iter_mut() {
            match due {
                Action::TraceToMask => trace_to_plane(ray, point, normal),
                Action::TraceToMirror => mirror.trace(ray),
                Action::ReflectOffMirror => mirror.reflect(ray),
                Action::Finished => unreachable!(),
            }
        }
        let bundle: Vec<Ray> = rays.iter().map(to_fixed).collect();
        due = run.advance(&bundle).unwrap();
    }
    run.contour().unwrap()
}

/// The contour computed in floating point from start to end.
fn contour_in_floating_point(
    outer: bool,
    step: Option<f64>,
    z0: f64,
    mirror: Mirror,
) -> Vec<(f64, f64)> {
    let alpha = 13.522_f64.to_radians();
    let radius = if outer { 8.3544 * 0.5 } else { 8.3576 * 0.5 };
    let tilt = if outer { alpha } else { 0.0 };
    let origin = if outer {
        [8.848320 - 0.951 * alpha.sin(), 0.0, 0.478522 + 0.951 * alpha.cos()]
    } else {
        [0.0, 0.0, 0.938 - 0.572]
    };
    let n = match step {
        None => 4,
        Some(x) => (2.0 * std::f64::consts::PI * radius / x).ceil() as i32,
    };
    let mut rays: Vec<Traced> = (0..n + 1)
        .map(|i| {
            let (s, c) = (2.0 * std::f64::consts::PI * (i as f64 / n as f64)).sin_cos();
            let (x, y) = (c * radius, s * radius);
            if outer {
                let (s, c) = tilt.sin_cos();
                let mut ray = Traced {
                    p: [c * x + origin[0], y + origin[1], s * x + origin[2]],
                    u: [s, 0.0, -c],
                };
                mirror.trace(&mut ray);
                ray.u = [0.0, 0.0, -1.0];
                ray.p[2] = z0;
                ray
            } else {
                Traced { p: [x, y, z0], u: [0.0, 0.0, -1.0] }
            }
        })
        .collect();
    let normal = [-tilt.sin(), 0.0, tilt.cos()];
    let local = |ray: &Traced| {
        let u = [ray.p[0] - origin[0], ray.p[1] - origin[1], ray.p[2] - origin[2]];
        let (s, c) = tilt.sin_cos();
        (c * u[0] + s * u[2], u[1])
    };
    rays.iter_mut().for_each(|ray| trace_to_plane(ray, origin, normal));
    let inbound: Vec<(f64, f64)> = rays.iter().map(local).collect();
    rays.iter_mut().for_each(|ray| mirror.trace(ray));
    rays.iter_mut().for_each(|ray| mirror.reflect(ray));
    rays.iter_mut().for_each(|ray| trace_to_plane(ray, origin, normal));
    let outbound: Vec<(f64, f64)> = rays.iter().map(local).collect();
    inbound
        .iter()
        .zip(outbound.iter())
        .map(|(&(xi, yi), &(xo, yo))| {
            if xi.hypot(yi) >= xo.hypot(yo) {
                (xi, yi)
            } else {
                (xo, yo)
            }
        })
        .collect()
}

fn assert_close(fixed: &[(i64, i64)], floating: &[(f64, f64)]) {
    assert_eq!(fixed.len(), floating.len());
    for (a, b) in fixed.iter().zip(floating.iter()) {
        assert!((metres(a.0) - b.0).abs() < 2e-8, "{:?} against {:?}", a, b);
        assert!((metres(a.1) - b.1).abs() < 2e-8, "{:?} against {:?}", a, b);
    }
}

#[test]
fn center_mask_with_the_default_policy_and_a_flat_mirror() {
    let specs = OpticalPathMaskSpecs::Center;
    let contour = contour_by_the_library(specs, None, 3_000_000_000, Mirror { k: 0.0 });
    let r = specs.clear_radius();
    assert_eq!(contour, vec![(r, 0), (0, r), (-r, 0), (0, -r), (r, 0)]);
    for point in contour.iter() {
        assert_eq!(squared_radius(*point), (r as u128) * (r as u128));
    }
}

#[test]
fn center_mask_contour_has_one_radius_all_around() {
    let specs = OpticalPathMaskSpecs::Center;
    let mirror = Mirror { k: 1.0 / 144.0 };
    let contour = contour_by_the_library(specs, Some(500_000_000), 3_000_000_000, mirror);
    assert_eq!(contour.len(), 54);
    let first = (squared_radius(contour[0]) as f64).sqrt();
    for point in contour.iter() {
        let radius = (squared_radius(*point) as f64).sqrt();
        assert!((radius - first).abs() < 4.0, "{} against {}", radius, first);
    }
    assert_eq!(contour[0], contour[53]);
}

#[test]
fn center_mask_agrees_with_floating_point() {
    let mirror = Mirror { k: 1.0 / 144.0 };
    let fixed = contour_by_the_library(
        OpticalPathMaskSpecs::Center,
        Some(25_000_000),
        3_000_000_000,
        mirror,
    );
    let floating = contour_in_floating_point(false, Some(2.5e-2), 3.0, mirror);
    assert_eq!(fixed.len(), 1052);
    assert_close(&fixed, &floating);
}

#[test]
fn outer_mask_agrees_with_floating_point() {
    let mirror = Mirror { k: 1.0 / 144.0 };
    let fixed = contour_by_the_library(
        OpticalPathMaskSpecs::Outer,
        Some(25_000_000),
        3_000_000_000,
        mirror,
    );
    let floating = contour_in_floating_point(true, Some(2.5e-2), 3.0, mirror);
    assert_eq!(fixed.len(), 1051);
    assert_close(&fixed, &floating);
}

#[test]
fn outer_mask_with_the_default_policy_agrees_with_floating_point() {
    let mirror = Mirror { k: 1.0 / 144.0 };
    let fixed = contour_by_the_library(OpticalPathMaskSpecs::Outer, None, 3_000_000_000, mirror);
    let floating = contour_in_floating_point(true, None, 3.0, mirror);
    assert_eq!(fixed.len(), 5);
    assert_close(&fixed, &floating);
    assert_eq!(fixed[0], fixed[4]);
}

#[test]
fn outer_mask_with_a_flat_mirror_returns_on_its_way_in() {
    let specs = OpticalPathMaskSpecs::Outer;
    let mirror = Mirror { k: 0.0 };
    let fixed = contour_by_the_library(specs, Some(1_000_000_000), 3_000_000_000, mirror);
    let floating = contour_in_floating_point(true, Some(1.0), 3.0, mirror);
    assert_eq!(fixed.len(), 28);
    assert_close(&fixed, &floating);
}

#[test]
fn center_mask_with_the_default_policy_and_a_curved_mirror() {
    let specs = OpticalPathMaskSpecs::Center;
    let mirror = Mirror { k: 1.0 / 144.0 };
    let contour = contour_by_the_library(specs, None, 3_000_000_000, mirror);
    let r = specs.clear_radius();
    // The mirror sends the rays inwards, so the way in is the wider curve.
    assert_eq!(contour, vec![(r, 0), (0, r), (-r, 0), (0, -r), (r, 0)]);
    assert_close(&contour, &contour_in_floating_point(false, None, 3.0, mirror));
}

#[test]
fn a_mirror_that_spreads_the_rays_makes_the_way_back_the_contour() {
    let specs = OpticalPathMaskSpecs::Center;
    let mirror = Mirror { k: -1.0 / 144.0 };
    let contour = contour_by_the_library(specs, Some(1_000_000_000), 3_000_000_000, mirror);
    let floating = contour_in_floating_point(false, Some(1.0), 3.0, mirror);
    assert_eq!(contour.len(), 28);
    assert_close(&contour, &floating);
    let r = specs.clear_radius() as u128;
    for point in contour.iter() {
        assert!(squared_radius(*point) > (r + 1_000_000) * (r + 1_000_000));
    }
}
