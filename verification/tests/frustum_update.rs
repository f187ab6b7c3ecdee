use basic_portals::linalg::{Vec3, Mat3};
use basic_portals::pose::Pose;
use basic_portals::frustum::{ClipMat, PortalMode, HalfSpace, derive_frustum, EPS_DEN};
use basic_portals::lifecycle::{PartKind, PortalPartsDespawnStrategy, PortalPartDespawnStrategy};
use basic_portals::update::{PortalWorld, PortalParts, update_portal_unit, update_portal_cameras};
use basic_portals::solve::solve_portal_camera_pose;

fn identity_m() -> Mat3 {
    Mat3 { m00: 1, m01: 0, m02: 0, m10: 0, m11: 1, m12: 0, m20: 0, m21: 0, m22: 1 }
}

fn pose_at(x: i128, y: i128, z: i128) -> Pose {
    Pose { m: identity_m(), t: Vec3 { x, y, z }, w: 1, s: 1 }
}

fn identity_clip() -> ClipMat {
    ClipMat {
        m00: 1, m01: 0, m02: 0, m03: 0,
        m10: 0, m11: 1, m12: 0, m13: 0,
        m20: 0, m21: 0, m22: 1, m23: 0,
        m30: 0, m31: 0, m32: 0, m33: 1,
    }
}

#[test]
fn near_plane_touches_destination() {
    // Default half-space mode: the destination origin sits exactly the
    // epsilon margin behind the near plane.
    let cam = pose_at(0, 0, 20);
    let dest = pose_at(5, 0, 0);
    let mode = PortalMode::MaskedImageHalfSpaceFrustum { plane: None, switch_normal: false };
    let f = derive_frustum(&cam, &identity_clip(), 100, 1, &dest, &mode);
    // Normal faces the destination's backward axis; the scale factor of the
    // plane is dest.s * dest.w * EPS_DEN = EPS_DEN.
    assert_eq!(f.near, HalfSpace { a: 0, b: 0, c: -EPS_DEN, d: -1 });
    // Plane function at the destination origin (5, 0, 0), denominator 1:
    let eval = f.near.a * 5 + f.near.b * 0 + f.near.c * 0 + f.near.d * 1;
    assert_eq!(eval, -1);
    // Side planes come from the projection rows unchanged.
    assert_eq!(f.left, HalfSpace { a: 1, b: 0, c: 0, d: 1 });
    assert_eq!(f.right, HalfSpace { a: -1, b: 0, c: 0, d: 1 });
    // Far plane: backward (0,0,1) at distance 100 from z = 20.
    assert_eq!(f.far, HalfSpace { a: 0, b: 0, c: 1, d: 100 - 20 });
}

#[test]
fn no_frustum_mode_keeps_projection_near() {
    let cam = pose_at(0, 0, 0);
    let dest = pose_at(5, 0, 0);
    let f = derive_frustum(&cam, &identity_clip(), 100, 1, &dest,
        &PortalMode::MaskedImageNoFrustum);
    // near = row3 - row2 of the view-projection product.
    assert_eq!(f.near, HalfSpace { a: 0, b: 0, c: -1, d: 1 });
}

#[test]
fn sphere_mode_faces_camera() {
    // Camera on +z looking at the origin; destination at the origin;
    // sphere of radius 2 at the destination. The tangent plane faces the
    // camera at z = 2.
    let cam = pose_at(0, 0, 20);
    let dest = pose_at(0, 0, 0);
    let mode = PortalMode::MaskedImageSphereHalfSpaceFrustum {
        origin: Vec3 { x: 0, y: 0, z: 0 },
        origin_w: 1,
        radius_num: 2,
        radius_den: 1,
    };
    let f = derive_frustum(&cam, &identity_clip(), 100, 1, &dest, &mode);
    // normal = camera forward = (0,0,-1); tangent point (0,0,2);
    // d = -(tangent . normal) = 2, all scaled by the positive denominator.
    assert_eq!(f.near.a * 2, 0);
    assert!(f.near.c < 0);
    // Point (0,0,1) (inside, between plane and camera? plane holds z <= 2):
    assert!(f.near.a * 0 + f.near.b * 0 + f.near.c * 1 + f.near.d * 1 >= 0);
    // Point (0,0,3) is on the camera side of the tangent plane:
    assert!(f.near.a * 0 + f.near.b * 0 + f.near.c * 3 + f.near.d * 1 < 0);
}

fn build_unit(world: &mut PortalWorld) -> PortalParts {
    let cam = world.spawn_part(PartKind::MainCamera, &pose_at(0, 0, 20));
    let portal = world.spawn_part(PartKind::PortalSurface, &pose_at(0, 0, 0));
    let dest = world.spawn_part(PartKind::Destination, &pose_at(20, 0, 0));
    let pc = world.spawn_part(PartKind::PortalCamera, &pose_at(0, 0, 0));
    let image = world.create_image(800, 600);
    PortalParts {
        main_camera: cam,
        portal,
        destination: dest,
        portal_camera: pc,
        image,
        mirror: None,
        mode: PortalMode::MaskedImageHalfSpaceFrustum { plane: None, switch_normal: false },
        clip: identity_clip(),
        far_num: 1000,
        far_den: 1,
    }
}

#[test]
fn resize_is_idempotent() {
    let mut world = PortalWorld::new();
    let image = world.create_image(100, 100);
    let first = world.resize_image_if_needed(image, 640, 480);
    assert!(first);
    assert_eq!(world.images[image.idx].width, 640);
    assert_eq!(world.images[image.idx].height, 480);
    // Second resize with an unchanged viewport mutates nothing.
    let second = world.resize_image_if_needed(image, 640, 480);
    assert!(!second);
    assert_eq!(world.images[image.idx].width, 640);
    assert_eq!(world.images[image.idx].height, 480);
}

#[test]
fn scenario_camera_moved() {
    // Destination unchanged, main camera moved: the pose and frustum are
    // recomputed, the render target is untouched when the viewport size is
    // unchanged.
    let mut world = PortalWorld::new();
    let parts = build_unit(&mut world);
    let strategy = PortalPartsDespawnStrategy::default();
    world.set_part_pose(parts.main_camera, &pose_at(0, 0, 24));
    let o = update_portal_unit(&mut world, &parts, &strategy, 800, 600);
    assert_eq!(o.failed, None);
    assert!(!o.resized);
    assert!(o.pose_written);
    assert!(o.frustum_written);
    // The written pose is the exact solver result.
    let expected = solve_portal_camera_pose(
        &pose_at(0, 0, 24), &pose_at(0, 0, 0), &pose_at(20, 0, 0), None);
    let s = world.get_part(parts.portal_camera).unwrap();
    assert_eq!(s.pose, expected);
    assert_eq!(s.pose.t, Vec3 { x: 20, y: 0, z: 24 });
    assert!(s.frustum.is_some());
}

#[test]
fn scenario_nothing_changed() {
    let mut world = PortalWorld::new();
    let parts = build_unit(&mut world);
    let strategy = PortalPartsDespawnStrategy::default();
    let o = update_portal_unit(&mut world, &parts, &strategy, 800, 600);
    assert_eq!(o.failed, None);
    assert!(!o.resized);
    assert!(!o.pose_written);
    assert!(!o.frustum_written);
}

#[test]
fn scenario_part_deleted() {
    // One part deleted externally with the default warn-then-despawn
    // strategy: the remaining parts are removed (except the main camera,
    // whose strategy is to leave it), a warning is recorded, and other
    // units keep updating.
    let mut world = PortalWorld::new();
    let parts_a = build_unit(&mut world);
    let parts_b = build_unit(&mut world);
    let strategy = PortalPartsDespawnStrategy::default();
    world.despawn_part(parts_a.destination);
    world.set_part_pose(parts_b.main_camera, &pose_at(0, 0, 30));
    let units = vec![parts_a, parts_b];
    let outcomes = update_portal_cameras(&mut world, &units, &strategy, 800, 600);
    assert_eq!(outcomes.len(), 2);
    assert_eq!(outcomes[0].failed, Some(PartKind::Destination));
    assert!(outcomes[0].warned);
    assert!(!outcomes[0].panic_requested);
    // Remaining parts of unit A are gone; the main camera is left alone.
    assert!(world.get_part(parts_a.portal).is_none());
    assert!(world.get_part(parts_a.portal_camera).is_none());
    assert!(world.get_part(parts_a.main_camera).is_some());
    // Unit B still updated normally.
    assert_eq!(outcomes[1].failed, None);
    assert!(outcomes[1].pose_written);
}

#[test]
fn panic_strategy_is_reported_not_performed() {
    let mut world = PortalWorld::new();
    let parts = build_unit(&mut world);
    let strategy = PortalPartsDespawnStrategy::panic_on_failure();
    world.despawn_part(parts.portal);
    let o = update_portal_unit(&mut world, &parts, &strategy, 800, 600);
    assert_eq!(o.failed, Some(PartKind::PortalSurface));
    assert!(o.panic_requested);
    // Panic strategy never despawns.
    assert!(world.get_part(parts.portal_camera).is_some());
    assert!(world.get_part(parts.destination).is_some());
}

#[test]
fn despawn_strategy_flags() {
    assert!(PortalPartDespawnStrategy::Panic.should_panic());
    assert!(!PortalPartDespawnStrategy::Leave.should_despawn());
    assert!(!PortalPartDespawnStrategy::Panic.should_despawn());
    assert!(PortalPartDespawnStrategy::WarnThenDespawnEntity.should_despawn());
    assert!(PortalPartDespawnStrategy::WarnThenDespawnWithChildren.should_despawn_children());
    assert!(PortalPartDespawnStrategy::DespawnWithChildren.should_despawn_children());
    assert!(!PortalPartDespawnStrategy::DespawnEntity.should_despawn_children());
    assert!(PortalPartDespawnStrategy::WarnThenDespawnEntity.should_warn());
    assert!(!PortalPartDespawnStrategy::DespawnEntity.should_warn());
    assert_eq!(PortalPartDespawnStrategy::default(),
        PortalPartDespawnStrategy::WarnThenDespawnEntity);
}

#[test]
fn unit_creation_provisions_image_and_parts() {
    let mut world = PortalWorld::new();
    let cam = world.spawn_part(PartKind::MainCamera, &pose_at(0, 0, 20));
    let parts = basic_portals::update::create_portal_unit(
        &mut world, cam, &pose_at(0, 0, 0), &pose_at(20, 0, 0), None,
        PortalMode::MaskedImageHalfSpaceFrustum { plane: None, switch_normal: false },
        identity_clip(), 1000, 1, Some((800, 600)),
    ).unwrap();
    assert_eq!(world.images[parts.image.idx].width, 800);
    assert_eq!(world.images[parts.image.idx].height, 600);
    assert!(world.get_part(parts.portal).is_some());
    assert!(world.get_part(parts.destination).is_some());
    assert!(world.get_part(parts.portal_camera).is_some());
    // Unknown viewport falls back to a 100 by 100 render target.
    let parts2 = basic_portals::update::create_portal_unit(
        &mut world, cam, &pose_at(0, 0, 0), &pose_at(20, 0, 0), None,
        PortalMode::MaskedImageNoFrustum, identity_clip(), 1000, 1, None,
    ).unwrap();
    assert_eq!(world.images[parts2.image.idx].width, 100);
    assert_eq!(world.images[parts2.image.idx].height, 100);
    // A stale main camera yields no unit and leaves the world alone.
    let parts_before = world.parts.len();
    world.despawn_part(cam);
    let none = basic_portals::update::create_portal_unit(
        &mut world, cam, &pose_at(0, 0, 0), &pose_at(20, 0, 0), None,
        PortalMode::MaskedImageNoFrustum, identity_clip(), 1000, 1, None,
    );
    assert!(none.is_none());
    assert_eq!(world.parts.len(), parts_before);
}

#[test]
fn orphaned_back_references_are_despawned() {
    let mut world = PortalWorld::new();
    let cam = world.spawn_part(PartKind::MainCamera, &pose_at(0, 0, 20));
    let parts = basic_portals::update::create_portal_unit(
        &mut world, cam, &pose_at(0, 0, 0), &pose_at(20, 0, 0), None,
        PortalMode::MaskedImageNoFrustum, identity_clip(), 1000, 1, Some((64, 64)),
    ).unwrap();
    let strategy = PortalPartsDespawnStrategy::default();
    // With the unit still registered nothing is an orphan.
    let (warned0, panic0) =
        basic_portals::update::check_portal_parts_back_references(&mut world, &strategy);
    assert!(!warned0 && !panic0);
    assert!(world.get_part(parts.portal).is_some());
    // Remove the unit without its parts: the check tears the orphans down
    // with a warning, and the main camera (no back reference) stays.
    let unit = world.get_part(parts.portal).unwrap().unit.unwrap();
    world.remove_unit(unit);
    let (warned, panic_requested) =
        basic_portals::update::check_portal_parts_back_references(&mut world, &strategy);
    assert!(warned);
    assert!(!panic_requested);
    assert!(world.get_part(parts.portal).is_none());
    assert!(world.get_part(parts.destination).is_none());
    assert!(world.get_part(parts.portal_camera).is_none());
    assert!(world.get_part(cam).is_some());
}

#[test]
fn default_mode_and_mirror() {
    let mode = PortalMode::default();
    assert_eq!(mode, PortalMode::MaskedImageHalfSpaceFrustum {
        plane: None,
        switch_normal: false,
    });
    let mirror = basic_portals::solve::MirrorSpec::default();
    assert_eq!(mirror.origin, Vec3 { x: 0, y: 0, z: 0 });
    assert_eq!(mirror.origin_w, 1);
    assert_eq!(mirror.normal, Vec3 { x: 1, y: 0, z: 0 });
    assert!(mirror.mirror_u);
    assert!(!mirror.mirror_v);
    assert!(mirror.check_wf());
}

#[test]
fn validity_checkers_reject_bad_configurations() {
    let mut world = PortalWorld::new();
    let cam = world.spawn_part(PartKind::MainCamera, &pose_at(0, 0, 0));
    let parts = basic_portals::update::create_portal_unit(
        &mut world, cam, &pose_at(0, 0, 0), &pose_at(1, 0, 0), None,
        PortalMode::MaskedImageNoFrustum, identity_clip(), 1000, 1, None,
    ).unwrap();
    assert!(parts.check_wf());
    let bad = PortalParts { far_den: 0, ..parts };
    assert!(!bad.check_wf());
    let zero_normal = basic_portals::solve::MirrorSpec {
        normal: Vec3 { x: 0, y: 0, z: 0 },
        ..basic_portals::solve::MirrorSpec::default()
    };
    assert!(!zero_normal.check_wf());
}
