use basic_portals::linalg::{Vec3, Mat3};
use basic_portals::pose::Pose;
use basic_portals::mirror::mirror_vector;
use basic_portals::solve::{solve_portal_camera_pose, MirrorSpec};

fn identity_m() -> Mat3 {
    Mat3 { m00: 1, m01: 0, m02: 0, m10: 0, m11: 1, m12: 0, m20: 0, m21: 0, m22: 1 }
}

fn pose_at(x: i128, y: i128, z: i128) -> Pose {
    Pose { m: identity_m(), t: Vec3 { x, y, z }, w: 1, s: 1 }
}

/// Rotation by half a turn about the vertical axis.
fn flip_y() -> Mat3 {
    Mat3 { m00: -1, m01: 0, m02: 0, m10: 0, m11: 1, m12: 0, m20: 0, m21: 0, m22: -1 }
}

#[test]
fn scenario_straight_portal() {
    // Main camera at (0,0,20) looking at the origin, portal at the origin,
    // destination at (20,0,0): the portal camera lands at (20,0,20).
    let cam = pose_at(0, 0, 20);
    let portal = pose_at(0, 0, 0);
    let dest = pose_at(20, 0, 0);
    let r = solve_portal_camera_pose(&cam, &portal, &dest, None);
    assert_eq!(r, pose_at(20, 0, 20));
}

#[test]
fn scenario_mirror() {
    // A mirror: the destination is the portal turned half a turn about the
    // vertical axis, mirrored across its local vertical plane. The main
    // camera faces the portal from (0,0,20); the portal camera ends up at
    // (0,0,-20) looking back with the horizontal axis flipped.
    let cam = pose_at(0, 0, 20);
    let portal = pose_at(0, 0, 0);
    let dest = Pose { m: flip_y(), t: Vec3 { x: 0, y: 0, z: 0 }, w: 1, s: 1 };
    let mirror = MirrorSpec {
        origin: Vec3 { x: 0, y: 0, z: 0 },
        origin_w: 1,
        normal: Vec3 { x: 1, y: 0, z: 0 },
        mirror_u: true,
        mirror_v: false,
    };
    let r = solve_portal_camera_pose(&cam, &portal, &dest, Some(&mirror));
    let expected = Pose {
        m: Mat3 { m00: -1, m01: 0, m02: 0, m10: 0, m11: 1, m12: 0, m20: 0, m21: 0, m22: -1 },
        t: Vec3 { x: 0, y: 0, z: -20 },
        w: 1,
        s: 1,
    };
    assert_eq!(r, expected);
}

#[test]
fn identity_mapping_exact() {
    // Destination equal to the portal: the solved pose is the camera pose,
    // up to the positive factor portal.w * portal.s^2 on all components.
    let cam = Pose { m: flip_y(), t: Vec3 { x: 3, y: -2, z: 7 }, w: 1, s: 1 };
    let portal = Pose { m: identity_m(), t: Vec3 { x: 1, y: 1, z: 1 }, w: 2, s: 1 };
    let r = solve_portal_camera_pose(&cam, &portal, &portal, None);
    // factor = portal.w * portal.s * portal.s = 2
    assert_eq!(r.w, 2 * cam.w);
    assert_eq!(r.s, 2 * cam.s);
    assert_eq!(r.t, Vec3 { x: 6, y: -4, z: 14 });
    assert_eq!(r.m.m00, -2);
    assert_eq!(r.m.m11, 2);
    assert_eq!(r.m.m22, -2);
}

#[test]
fn mirror_twice_restores_pose() {
    // Mirroring across the same plane twice scales every component by
    // (n.n)^2 * ow^2 and otherwise restores the pose.
    let p = Pose { m: flip_y(), t: Vec3 { x: 5, y: 1, z: -3 }, w: 1, s: 1 };
    let ov = Vec3 { x: 2, y: 0, z: 0 };
    let n = Vec3 { x: 1, y: 2, z: 2 }; // n.n = 9
    let q1 = basic_portals::mirror::mirror_pose(&p, &ov, 1, &n);
    // q1 is out of the public input range, so apply the spec factor check
    // through a plane with unit normal instead for the second reflection.
    let ov2 = Vec3 { x: 0, y: 0, z: 0 };
    let n2 = Vec3 { x: 1, y: 0, z: 0 }; // n.n = 1
    let r1 = basic_portals::mirror::mirror_pose(&p, &ov2, 1, &n2);
    let r2 = basic_portals::mirror::mirror_pose(&r1, &ov2, 1, &n2);
    // factor (n.n)^2 * ow^2 = 1: exact round trip.
    assert_eq!(r2, p);
    // and the first reflection across the skew plane did change the pose
    assert_ne!(q1.t.x * p.w, p.t.x * q1.w);
}

#[test]
fn mirror_vector_reflects() {
    // Reflecting the x axis across the plane with normal x negates it; the
    // result carries the factor n.n = 1.
    let v = Vec3 { x: 1, y: 0, z: 0 };
    let n = Vec3 { x: 1, y: 0, z: 0 };
    let r = mirror_vector(&v, &n);
    assert_eq!(r, Vec3 { x: -1, y: 0, z: 0 });
    // A vector in the plane is unchanged.
    let u = Vec3 { x: 0, y: 3, z: 4 };
    assert_eq!(mirror_vector(&u, &n), u);
}

#[test]
fn try_new_accepts_exact_similarities() {
    let ok = Pose::try_new(flip_y(), Vec3 { x: 1, y: 2, z: 3 }, 2, 1);
    assert!(ok.is_some());
    // A shear is not a similarity.
    let bad = Mat3 { m00: 1, m01: 1, m02: 0, m10: 0, m11: 1, m12: 0, m20: 0, m21: 0, m22: 1 };
    assert!(Pose::try_new(bad, Vec3 { x: 0, y: 0, z: 0 }, 1, 1).is_none());
    // A zero or negative denominator is rejected.
    assert!(Pose::try_new(identity_m(), Vec3 { x: 0, y: 0, z: 0 }, 0, 1).is_none());
    // Inputs over the external limit are rejected.
    assert!(Pose::try_new(identity_m(), Vec3 { x: 0, y: 0, z: 0 }, 300, 300).is_none());
}

#[test]
fn compose_and_inverse_cancel() {
    let p = Pose { m: flip_y(), t: Vec3 { x: 4, y: 5, z: 6 }, w: 2, s: 1 };
    let inv = p.inverse();
    let c = Pose::compose(&p, &inv);
    // The composition is the identity scaled by w * s^2 = 2.
    assert_eq!(c.t, Vec3 { x: 0, y: 0, z: 0 });
    assert_eq!(c.m.m00, 2);
    assert_eq!(c.m.m01, 0);
    assert_eq!(c.m.m11, 2);
    assert_eq!(c.m.m22, 2);
    assert_eq!(c.w, 2);
    assert_eq!(c.s, 2);
}
