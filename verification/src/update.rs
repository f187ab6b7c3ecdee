//! Per-tick orchestration of portal cameras.
//!
//! The world model is an explicit resource manager handed in by the host: an
//! arena of portal parts (poses with change flags, by generation-checked
//! handle), an arena of render-target images, and a registry of portal
//! units. Each tick, for every portal unit: resolve the four parts (a
//! failure tears the unit down according to the despawn strategy and skips
//! it), resize the render target to the main camera's viewport if it
//! differs, re-solve the portal camera pose when any input pose changed, and
//! re-derive the frustum when the pose or the render target changed. The
//! whole tick is specified as a deterministic transition function
//! ([`sp_tick_unit`], folded by [`sp_tick_fold`]), so the contracts pin the
//! final world exactly.

use vstd::prelude::*;
use crate::linalg::{Vec3, Mat3};
use crate::pose::{Pose, SPose, sp_pose_of, POSE_MAT_LIMIT, POSE_T_LIMIT};
use crate::solve::{MirrorSpec, SMirror, sp_solve, solve_portal_camera_pose};
use crate::frustum::{ClipMat, Frustum, PortalMode, derive_frustum, sp_frustum, sp_frustum_of,
    CLIP_LIMIT, CAM_MAT_LIMIT, CAM_T_LIMIT};
use crate::lifecycle::{PartKind, PortalPartDespawnStrategy, PortalPartsDespawnStrategy,
    sp_for_kind};

verus! {

/// Generation-checked handle into one of the world's arenas.
#[derive(Clone, Copy, PartialEq, Eq, Structural, Debug)]
pub struct Handle {
    pub idx: usize,
    pub gen: u64,
}

/// One slot of the part arena. `unit` is the back reference to the portal
/// unit the part belongs to (absent for main cameras, which outlive their
/// portals).
#[derive(Clone, Copy, PartialEq, Eq, Structural, Debug)]
pub struct PartSlot {
    pub gen: u64,
    pub live: bool,
    pub kind: PartKind,
    pub pose: Pose,
    pub changed: bool,
    pub frustum: Option<Frustum>,
    pub unit: Option<Handle>,
}

/// One slot of the image arena.
#[derive(Clone, Copy, PartialEq, Eq, Structural, Debug)]
pub struct ImageSlot {
    pub gen: u64,
    pub live: bool,
    pub width: u32,
    pub height: u32,
}

/// One slot of the unit registry.
#[derive(Clone, Copy, PartialEq, Eq, Structural, Debug)]
pub struct UnitSlot {
    pub gen: u64,
    pub live: bool,
}

/// References and configuration of one portal unit: the four entities that
/// make the portal work, its render-target image, and how to solve and clip
/// its camera.
#[derive(Clone, Copy, PartialEq, Eq, Structural, Debug)]
pub struct PortalParts {
    pub main_camera: Handle,
    pub portal: Handle,
    pub destination: Handle,
    pub portal_camera: Handle,
    pub image: Handle,
    pub mirror: Option<MirrorSpec>,
    pub mode: PortalMode,
    pub clip: ClipMat,
    pub far_num: i128,
    pub far_den: i128,
}

/// The view of an optional mirror configuration.
pub open spec fn sp_mirror_opt(m: Option<MirrorSpec>) -> Option<SMirror> {
    match m {
        Option::Some(mi) => Option::Some(mi@),
        Option::None => Option::None,
    }
}

impl PortalParts {
    /// Valid unit configuration: mirror and mode parameters and the
    /// projection within the external input limits.
    pub open spec fn wf(self) -> bool {
        &&& match self.mirror {
            Option::Some(mi) => mi@.wf(),
            Option::None => true,
        }
        &&& self.mode.wf()
        &&& self.clip@.within(CLIP_LIMIT as int)
        &&& 0 < self.far_den <= CLIP_LIMIT
        &&& -CLIP_LIMIT <= self.far_num <= CLIP_LIMIT
    }

    /// Runtime check of [`PortalParts::wf`], for hosts that assemble units
    /// by hand.
    pub fn check_wf(&self) -> (r: bool)
        ensures
            r == self.wf(),
    {
        let mirror_ok = match &self.mirror {
            Option::Some(mi) => mi.check_wf(),
            Option::None => true,
        };
        mirror_ok && self.mode.check_wf() && clip_within(&self.clip, CLIP_LIMIT)
            && 0 < self.far_den && self.far_den <= CLIP_LIMIT
            && -CLIP_LIMIT <= self.far_num && self.far_num <= CLIP_LIMIT
    }
}

/// Runtime check that all clip matrix entries have magnitude at most `b`.
fn clip_within(c: &ClipMat, b: i128) -> (r: bool)
    requires
        0 <= b,
    ensures
        r == c@.within(b as int),
{
    -b <= c.m00 && c.m00 <= b && -b <= c.m01 && c.m01 <= b
        && -b <= c.m02 && c.m02 <= b && -b <= c.m03 && c.m03 <= b
        && -b <= c.m10 && c.m10 <= b && -b <= c.m11 && c.m11 <= b
        && -b <= c.m12 && c.m12 <= b && -b <= c.m13 && c.m13 <= b
        && -b <= c.m20 && c.m20 <= b && -b <= c.m21 && c.m21 <= b
        && -b <= c.m22 && c.m22 <= b && -b <= c.m23 && c.m23 <= b
        && -b <= c.m30 && c.m30 <= b && -b <= c.m31 && c.m31 <= b
        && -b <= c.m32 && c.m32 <= b && -b <= c.m33 && c.m33 <= b
}

/// What one unit's tick did.
#[derive(Clone, Copy, PartialEq, Eq, Structural, Debug)]
pub struct UnitOutcome {
    /// The first part that failed to resolve, if any; the unit was then
    /// torn down by strategy and nothing else was done.
    pub failed: Option<PartKind>,
    /// The render target was resized to the viewport.
    pub resized: bool,
    /// The portal camera pose was recomputed and written.
    pub pose_written: bool,
    /// The portal camera frustum was recomputed and written.
    pub frustum_written: bool,
    /// Some despawned part asked for a warning.
    pub warned: bool,
    /// Some part's strategy asked for a panic; the host must panic.
    pub panic_requested: bool,
}

/// The world state owned by this core: portal parts, render-target images
/// and the unit registry.
pub struct PortalWorld {
    pub parts: Vec<PartSlot>,
    pub images: Vec<ImageSlot>,
    pub units: Vec<UnitSlot>,
}

/// The part slot a handle resolves to in a part arena, if it is live and of
/// the right generation.
pub open spec fn sp_part_at(parts: Seq<PartSlot>, h: Handle) -> Option<PartSlot> {
    if h.idx < parts.len() && parts[h.idx as int].live && parts[h.idx as int].gen == h.gen {
        Option::Some(parts[h.idx as int])
    } else {
        Option::None
    }
}

/// The image slot a handle resolves to in an image arena.
pub open spec fn sp_image_at(images: Seq<ImageSlot>, h: Handle) -> Option<ImageSlot> {
    if h.idx < images.len() && images[h.idx as int].live && images[h.idx as int].gen == h.gen {
        Option::Some(images[h.idx as int])
    } else {
        Option::None
    }
}

/// The unit slot a handle resolves to in the unit registry.
pub open spec fn sp_unit_at(units: Seq<UnitSlot>, h: Handle) -> bool {
    h.idx < units.len() && units[h.idx as int].live && units[h.idx as int].gen == h.gen
}

/// The slot a handle resolves to, if it is live and of the right
/// generation.
pub open spec fn sp_part(w: PortalWorld, h: Handle) -> Option<PartSlot> {
    sp_part_at(w.parts@, h)
}

/// The image a handle resolves to, if it is live and of the right
/// generation.
pub open spec fn sp_image(w: PortalWorld, h: Handle) -> Option<ImageSlot> {
    sp_image_at(w.images@, h)
}

/// The part resolves in the arena and has the expected kind.
pub open spec fn sp_resolves_at(parts: Seq<PartSlot>, h: Handle, kind: PartKind) -> bool {
    match sp_part_at(parts, h) {
        Option::Some(s) => s.kind == kind,
        Option::None => false,
    }
}

/// The part resolves and has the expected kind.
pub open spec fn sp_resolves_as(w: PortalWorld, h: Handle, kind: PartKind) -> bool {
    sp_resolves_at(w.parts@, h, kind)
}

/// The generation a slot takes when it dies, so stale handles cannot
/// resolve again.
pub open spec fn sp_next_gen(g: u64) -> u64 {
    if g == u64::MAX { 0 } else { (g + 1) as u64 }
}

/// The part arena after despawning the part a handle refers to, if it
/// resolves.
pub open spec fn sp_despawn_at(parts: Seq<PartSlot>, h: Handle) -> Seq<PartSlot> {
    match sp_part_at(parts, h) {
        Option::Some(s) => parts.update(h.idx as int, PartSlot {
            gen: sp_next_gen(s.gen), live: false, ..s
        }),
        Option::None => parts,
    }
}

/// The strategy despawns the part.
pub open spec fn sp_despawns(s: PortalPartDespawnStrategy) -> bool {
    s != PortalPartDespawnStrategy::Leave && s != PortalPartDespawnStrategy::Panic
}

/// The strategy warns when despawning.
pub open spec fn sp_warns(s: PortalPartDespawnStrategy) -> bool {
    s == PortalPartDespawnStrategy::WarnThenDespawnWithChildren
        || s == PortalPartDespawnStrategy::WarnThenDespawnEntity
}

/// The strategy requests a panic.
pub open spec fn sp_panics(s: PortalPartDespawnStrategy) -> bool {
    s == PortalPartDespawnStrategy::Panic
}

/// The part arena after tearing one unit down: each part whose strategy
/// despawns is removed, in the fixed order portal camera, destination,
/// portal, main camera; parts whose strategy leaves or panics are untouched.
pub open spec fn sp_teardown(
    parts: Seq<PartSlot>, unit: PortalParts, strategy: PortalPartsDespawnStrategy,
) -> Seq<PartSlot> {
    let p1 = if sp_despawns(strategy.portal_camera) {
        sp_despawn_at(parts, unit.portal_camera)
    } else {
        parts
    };
    let p2 = if sp_despawns(strategy.destination) {
        sp_despawn_at(p1, unit.destination)
    } else {
        p1
    };
    let p3 = if sp_despawns(strategy.portal) {
        sp_despawn_at(p2, unit.portal)
    } else {
        p2
    };
    if sp_despawns(strategy.main_camera) {
        sp_despawn_at(p3, unit.main_camera)
    } else {
        p3
    }
}

/// A teardown records a warning exactly when some part that was still
/// resolvable is despawned under a warning strategy.
pub open spec fn sp_teardown_warned(
    parts: Seq<PartSlot>, unit: PortalParts, strategy: PortalPartsDespawnStrategy,
) -> bool {
    ||| (sp_despawns(strategy.portal_camera) && sp_warns(strategy.portal_camera)
        && sp_part_at(parts, unit.portal_camera) is Some)
    ||| (sp_despawns(strategy.destination) && sp_warns(strategy.destination)
        && sp_part_at(parts, unit.destination) is Some)
    ||| (sp_despawns(strategy.portal) && sp_warns(strategy.portal)
        && sp_part_at(parts, unit.portal) is Some)
    ||| (sp_despawns(strategy.main_camera) && sp_warns(strategy.main_camera)
        && sp_part_at(parts, unit.main_camera) is Some)
}

/// A teardown requests a panic exactly when some part's strategy is the
/// panic strategy.
pub open spec fn sp_teardown_panics(strategy: PortalPartsDespawnStrategy) -> bool {
    ||| sp_panics(strategy.portal_camera)
    ||| sp_panics(strategy.destination)
    ||| sp_panics(strategy.portal)
    ||| sp_panics(strategy.main_camera)
}

/// Whether the render target differs from the viewport and must be resized.
pub open spec fn sp_resized_at(images: Seq<ImageSlot>, h: Handle, vw: u32, vh: u32) -> bool {
    match sp_image_at(images, h) {
        Option::Some(s) => !(s.width == vw && s.height == vh),
        Option::None => false,
    }
}

/// The image arena after resizing the render target to the viewport, when
/// it resolves and differs.
pub open spec fn sp_resize_at(images: Seq<ImageSlot>, h: Handle, vw: u32, vh: u32) -> Seq<ImageSlot> {
    if sp_resized_at(images, h, vw, vh) {
        images.update(h.idx as int, ImageSlot {
            gen: sp_image_at(images, h).unwrap().gen, live: true, width: vw, height: vh,
        })
    } else {
        images
    }
}

/// The first of the four parts that fails to resolve with its kind, in the
/// order the tick checks them.
pub open spec fn sp_first_failure(parts: Seq<PartSlot>, unit: PortalParts) -> Option<PartKind> {
    if !sp_resolves_at(parts, unit.portal_camera, PartKind::PortalCamera) {
        Option::Some(PartKind::PortalCamera)
    } else if !sp_resolves_at(parts, unit.main_camera, PartKind::MainCamera) {
        Option::Some(PartKind::MainCamera)
    } else if !sp_resolves_at(parts, unit.portal, PartKind::PortalSurface) {
        Option::Some(PartKind::PortalSurface)
    } else if !sp_resolves_at(parts, unit.destination, PartKind::Destination) {
        Option::Some(PartKind::Destination)
    } else {
        Option::None
    }
}

/// The transition one unit's tick makes: the part arena, the image arena
/// and the reported outcome. This is the specification of
/// [`update_portal_unit`], and [`sp_tick_fold`] chains it over all units.
pub open spec fn sp_tick_unit(
    parts: Seq<PartSlot>, images: Seq<ImageSlot>, unit: PortalParts,
    strategy: PortalPartsDespawnStrategy, vw: u32, vh: u32,
) -> (Seq<PartSlot>, Seq<ImageSlot>, UnitOutcome) {
    match sp_first_failure(parts, unit) {
        Option::Some(k) => (
            sp_teardown(parts, unit, strategy),
            images,
            UnitOutcome {
                failed: Option::Some(k),
                resized: false,
                pose_written: false,
                frustum_written: false,
                warned: sp_teardown_warned(parts, unit, strategy),
                panic_requested: sp_teardown_panics(strategy),
            },
        ),
        Option::None => {
            let pc = sp_part_at(parts, unit.portal_camera).unwrap();
            let cam = sp_part_at(parts, unit.main_camera).unwrap();
            let por = sp_part_at(parts, unit.portal).unwrap();
            let dst = sp_part_at(parts, unit.destination).unwrap();
            let resized = sp_resized_at(images, unit.image, vw, vh);
            let images1 = sp_resize_at(images, unit.image, vw, vh);
            let pose_written = por.changed || dst.changed || cam.changed;
            let new_pose = if pose_written {
                sp_pose_of(sp_solve(cam.pose@, por.pose@, dst.pose@, sp_mirror_opt(unit.mirror)))
            } else {
                pc.pose
            };
            let frustum_written = (pose_written || resized)
                && new_pose@.within(CAM_MAT_LIMIT as int, CAM_T_LIMIT as int);
            let new_frustum = if frustum_written {
                Option::Some(sp_frustum_of(sp_frustum(new_pose@, unit.clip@,
                    unit.far_num as int, unit.far_den as int, dst.pose@, unit.mode)))
            } else {
                pc.frustum
            };
            let parts1 = if pose_written || frustum_written {
                parts.update(unit.portal_camera.idx as int, PartSlot {
                    gen: pc.gen, live: true, kind: pc.kind, pose: new_pose, changed: true,
                    frustum: new_frustum, unit: pc.unit,
                })
            } else {
                parts
            };
            (parts1, images1, UnitOutcome {
                failed: Option::None,
                resized,
                pose_written,
                frustum_written,
                warned: false,
                panic_requested: false,
            })
        },
    }
}

/// The tick transition folded over a sequence of units, in order.
pub open spec fn sp_tick_fold(
    parts: Seq<PartSlot>, images: Seq<ImageSlot>, units: Seq<PortalParts>,
    strategy: PortalPartsDespawnStrategy, vw: u32, vh: u32,
) -> (Seq<PartSlot>, Seq<ImageSlot>, Seq<UnitOutcome>)
    decreases units.len(),
{
    if units.len() == 0 {
        (parts, images, Seq::empty())
    } else {
        let prev = sp_tick_fold(parts, images, units.drop_last(), strategy, vw, vh);
        let step = sp_tick_unit(prev.0, prev.1, units.last(), strategy, vw, vh);
        (step.0, step.1, prev.2.push(step.2))
    }
}

impl PortalWorld {
    /// Every stored pose is well-formed, and the poses of parts other than
    /// portal cameras lie within the external input limits.
    pub open spec fn wf(self) -> bool {
        forall |i: int| 0 <= i < self.parts@.len() ==> {
            &&& (#[trigger] self.parts@[i]).pose@.wf()
            &&& (self.parts@[i].kind != PartKind::PortalCamera
                ==> self.parts@[i].pose@.within(POSE_MAT_LIMIT as int, POSE_T_LIMIT as int))
        }
    }

    /// An empty world.
    pub fn new() -> (r: PortalWorld)
        ensures
            r.wf(),
            r.parts@.len() == 0,
            r.images@.len() == 0,
            r.units@.len() == 0,
    {
        PortalWorld { parts: Vec::new(), images: Vec::new(), units: Vec::new() }
    }

    /// Spawns a part with the given kind and pose and returns its handle.
    pub fn spawn_part(&mut self, kind: PartKind, pose: &Pose) -> (h: Handle)
        requires
            old(self).wf(),
            pose@.wf(),
            pose@.within(POSE_MAT_LIMIT as int, POSE_T_LIMIT as int),
        ensures
            final(self).wf(),
            h.idx == old(self).parts@.len(),
            h.gen == 0,
            final(self).parts@ == old(self).parts@.push(PartSlot {
                gen: 0u64, live: true, kind, pose: *pose, changed: false,
                frustum: Option::<Frustum>::None, unit: Option::<Handle>::None,
            }),
            final(self).images@ == old(self).images@,
            final(self).units@ == old(self).units@,
            sp_resolves_as(*final(self), h, kind),
    {
        let h = Handle { idx: self.parts.len(), gen: 0 };
        self.parts.push(PartSlot {
            gen: 0, live: true, kind, pose: *pose, changed: false, frustum: Option::None,
            unit: Option::None,
        });
        h
    }

    /// Records which unit a part belongs to; leaves everything else of the
    /// slot and the world unchanged. Does nothing for a stale handle.
    pub fn set_part_unit(&mut self, h: Handle, unit: Handle)
        requires
            old(self).wf(),
        ensures
            final(self).wf(),
            final(self).images@ == old(self).images@,
            final(self).units@ == old(self).units@,
            final(self).parts@ == match sp_part_at(old(self).parts@, h) {
                Option::Some(s) => old(self).parts@.update(h.idx as int, PartSlot {
                    unit: Option::Some(unit), ..s
                }),
                Option::None => old(self).parts@,
            },
    {
        if h.idx < self.parts.len() {
            let s = self.parts[h.idx];
            if s.live && s.gen == h.gen {
                self.parts.set(h.idx, PartSlot { unit: Option::Some(unit), ..s });
            }
        }
    }

    /// Registers a portal unit in the registry and returns its handle.
    pub fn register_unit(&mut self) -> (h: Handle)
        requires
            old(self).wf(),
        ensures
            final(self).wf(),
            final(self).parts@ == old(self).parts@,
            final(self).images@ == old(self).images@,
            final(self).units@ == old(self).units@.push(UnitSlot { gen: 0u64, live: true }),
            h.idx == old(self).units@.len(),
            h.gen == 0,
            sp_unit_at(final(self).units@, h),
    {
        let h = Handle { idx: self.units.len(), gen: 0 };
        self.units.push(UnitSlot { gen: 0, live: true });
        h
    }

    /// Removes a portal unit from the registry; parts that still carry a
    /// back reference to it become orphans for
    /// [`check_portal_parts_back_references`].
    pub fn remove_unit(&mut self, h: Handle)
        requires
            old(self).wf(),
        ensures
            final(self).wf(),
            final(self).parts@ == old(self).parts@,
            final(self).images@ == old(self).images@,
            !sp_unit_at(final(self).units@, h),
            final(self).units@ == if sp_unit_at(old(self).units@, h) {
                old(self).units@.update(h.idx as int, UnitSlot {
                    gen: sp_next_gen(old(self).units@[h.idx as int].gen), live: false,
                })
            } else {
                old(self).units@
            },
    {
        if h.idx < self.units.len() {
            let s = self.units[h.idx];
            if s.live && s.gen == h.gen {
                let ng = if s.gen == u64::MAX { 0 } else { s.gen + 1 };
                self.units.set(h.idx, UnitSlot { gen: ng, live: false });
            }
        }
    }

    /// Despawns the part a handle refers to, if it still resolves; bumps
    /// the generation so stale handles cannot resolve again.
    pub fn despawn_part(&mut self, h: Handle)
        requires
            old(self).wf(),
        ensures
            final(self).wf(),
            final(self).parts@ == sp_despawn_at(old(self).parts@, h),
            final(self).images@ == old(self).images@,
            final(self).units@ == old(self).units@,
            sp_part(*final(self), h) is None,
    {
        if h.idx < self.parts.len() {
            let s = self.parts[h.idx];
            if s.live && s.gen == h.gen {
                let ng = if s.gen == u64::MAX { 0 } else { s.gen + 1 };
                self.parts.set(h.idx, PartSlot { gen: ng, live: false, ..s });
            }
        }
    }

    /// Writes a new pose to a part and marks it changed; does nothing for a
    /// stale handle.
    pub fn set_part_pose(&mut self, h: Handle, pose: &Pose)
        requires
            old(self).wf(),
            pose@.wf(),
            pose@.within(POSE_MAT_LIMIT as int, POSE_T_LIMIT as int),
        ensures
            final(self).wf(),
            final(self).images@ == old(self).images@,
            final(self).units@ == old(self).units@,
            final(self).parts@ == match sp_part_at(old(self).parts@, h) {
                Option::Some(s) => old(self).parts@.update(h.idx as int, PartSlot {
                    pose: *pose, changed: true, ..s
                }),
                Option::None => old(self).parts@,
            },
    {
        if h.idx < self.parts.len() {
            let s = self.parts[h.idx];
            if s.live && s.gen == h.gen {
                self.parts.set(h.idx, PartSlot { pose: *pose, changed: true, ..s });
            }
        }
    }

    /// Clears every part's change flag, leaving everything else of every
    /// slot unchanged; run at the end of a tick.
    pub fn clear_changed(&mut self)
        requires
            old(self).wf(),
        ensures
            final(self).wf(),
            final(self).parts@.len() == old(self).parts@.len(),
            final(self).images@ == old(self).images@,
            final(self).units@ == old(self).units@,
            forall |j: int| 0 <= j < old(self).parts@.len()
                ==> #[trigger] final(self).parts@[j]
                    == (PartSlot { changed: false, ..old(self).parts@[j] }),
    {
        let mut i: usize = 0;
        while i < self.parts.len()
            invariant
                self.wf(),
                self.parts@.len() == old(self).parts@.len(),
                self.images@ == old(self).images@,
                self.units@ == old(self).units@,
                i <= self.parts@.len(),
                forall |j: int| 0 <= j < i
                    ==> #[trigger] self.parts@[j]
                        == (PartSlot { changed: false, ..old(self).parts@[j] }),
                forall |j: int| i <= j < self.parts@.len()
                    ==> #[trigger] self.parts@[j] == old(self).parts@[j],
            decreases self.parts@.len() - i,
        {
            let s = self.parts[i];
            self.parts.set(i, PartSlot { changed: false, ..s });
            i = i + 1;
        }
    }

    /// Creates a render-target image of the given pixel size.
    pub fn create_image(&mut self, width: u32, height: u32) -> (h: Handle)
        requires
            old(self).wf(),
        ensures
            final(self).wf(),
            final(self).parts@ == old(self).parts@,
            final(self).units@ == old(self).units@,
            h.idx == old(self).images@.len(),
            h.gen == 0,
            final(self).images@ == old(self).images@.push(ImageSlot {
                gen: 0u64, live: true, width, height,
            }),
            sp_image(*final(self), h) == Option::Some(ImageSlot {
                gen: 0u64, live: true, width, height,
            }),
    {
        let h = Handle { idx: self.images.len(), gen: 0 };
        self.images.push(ImageSlot { gen: 0, live: true, width, height });
        h
    }

    /// Resizes the render target to the viewport if its size differs;
    /// returns whether anything was mutated. Calling it again with the same
    /// viewport mutates nothing.
    pub fn resize_image_if_needed(&mut self, image: Handle, vw: u32, vh: u32) -> (resized: bool)
        requires
            old(self).wf(),
        ensures
            final(self).wf(),
            final(self).parts@ == old(self).parts@,
            final(self).units@ == old(self).units@,
            resized == sp_resized_at(old(self).images@, image, vw, vh),
            final(self).images@ == sp_resize_at(old(self).images@, image, vw, vh),
            !resized ==> *final(self) == *old(self),
    {
        if image.idx < self.images.len() {
            let s = self.images[image.idx];
            if s.live && s.gen == image.gen {
                if s.width == vw && s.height == vh {
                    return false;
                }
                self.images.set(image.idx, ImageSlot {
                    gen: s.gen, live: true, width: vw, height: vh,
                });
                return true;
            }
        }
        false
    }

    /// Reads the slot a handle resolves to.
    pub fn get_part(&self, h: Handle) -> (r: Option<PartSlot>)
        ensures
            r == sp_part(*self, h),
    {
        if h.idx < self.parts.len() {
            let s = self.parts[h.idx];
            if s.live && s.gen == h.gen {
                return Option::Some(s);
            }
        }
        Option::None
    }
}

/// Tears the parts of one portal unit down according to the strategy.
/// Returns whether any despawned part asked for a warning and whether any
/// part's strategy asked for a panic (which the host must then perform).
#[verifier::spinoff_prover]
pub fn despawn_portal_parts(
    world: &mut PortalWorld, parts: &PortalParts, strategy: &PortalPartsDespawnStrategy,
) -> (o: (bool, bool))
    requires
        old(world).wf(),
    ensures
        final(world).wf(),
        final(world).parts@ == sp_teardown(old(world).parts@, *parts, *strategy),
        final(world).images@ == old(world).images@,
        final(world).units@ == old(world).units@,
        o.0 == sp_teardown_warned(old(world).parts@, *parts, *strategy),
        o.1 == sp_teardown_panics(*strategy),
{
    // Resolvability is read before anything is despawned, so the warning
    // report is about the state the failure was observed in.
    let pc_there = world.get_part(parts.portal_camera).is_some();
    let dst_there = world.get_part(parts.destination).is_some();
    let por_there = world.get_part(parts.portal).is_some();
    let cam_there = world.get_part(parts.main_camera).is_some();
    let mut warned = false;
    if strategy.portal_camera.should_despawn() {
        world.despawn_part(parts.portal_camera);
        warned = warned || (pc_there && strategy.portal_camera.should_warn());
    }
    if strategy.destination.should_despawn() {
        world.despawn_part(parts.destination);
        warned = warned || (dst_there && strategy.destination.should_warn());
    }
    if strategy.portal.should_despawn() {
        world.despawn_part(parts.portal);
        warned = warned || (por_there && strategy.portal.should_warn());
    }
    if strategy.main_camera.should_despawn() {
        world.despawn_part(parts.main_camera);
        warned = warned || (cam_there && strategy.main_camera.should_warn());
    }
    let panic_requested = strategy.portal_camera.should_panic()
        || strategy.destination.should_panic() || strategy.portal.should_panic()
        || strategy.main_camera.should_panic();
    (warned, panic_requested)
}

/// Runs one tick for one portal unit: exactly the transition
/// [`sp_tick_unit`] describes. Resolves the four parts, tearing the unit
/// down by strategy when one is missing; otherwise resizes the render
/// target to the main camera's viewport when it differs, re-solves the
/// portal camera pose exactly when one of the main camera, portal or
/// destination poses changed, and re-derives the frustum when the pose was
/// rewritten or the target was resized (and the pose lies within the
/// frustum input range, which an unmirrored solve always does).
#[verifier::spinoff_prover]
pub fn update_portal_unit(
    world: &mut PortalWorld, parts: &PortalParts, strategy: &PortalPartsDespawnStrategy,
    viewport_w: u32, viewport_h: u32,
) -> (o: UnitOutcome)
    requires
        old(world).wf(),
        parts.wf(),
    ensures
        final(world).wf(),
        final(world).units@ == old(world).units@,
        ({
            let step = sp_tick_unit(old(world).parts@, old(world).images@, *parts, *strategy,
                viewport_w, viewport_h);
            &&& final(world).parts@ == step.0
            &&& final(world).images@ == step.1
            &&& o == step.2
        }),
{
    let pc = match world.get_part(parts.portal_camera) {
        Option::Some(s) if matches!(s.kind, PartKind::PortalCamera) => s,
        _ => {
            let (warned, panic_requested) = despawn_portal_parts(world, parts, strategy);
            return UnitOutcome {
                failed: Option::Some(PartKind::PortalCamera), resized: false,
                pose_written: false, frustum_written: false, warned, panic_requested,
            };
        },
    };
    let cam = match world.get_part(parts.main_camera) {
        Option::Some(s) if matches!(s.kind, PartKind::MainCamera) => s,
        _ => {
            let (warned, panic_requested) = despawn_portal_parts(world, parts, strategy);
            return UnitOutcome {
                failed: Option::Some(PartKind::MainCamera), resized: false,
                pose_written: false, frustum_written: false, warned, panic_requested,
            };
        },
    };
    let por = match world.get_part(parts.portal) {
        Option::Some(s) if matches!(s.kind, PartKind::PortalSurface) => s,
        _ => {
            let (warned, panic_requested) = despawn_portal_parts(world, parts, strategy);
            return UnitOutcome {
                failed: Option::Some(PartKind::PortalSurface), resized: false,
                pose_written: false, frustum_written: false, warned, panic_requested,
            };
        },
    };
    let dst = match world.get_part(parts.destination) {
        Option::Some(s) if matches!(s.kind, PartKind::Destination) => s,
        _ => {
            let (warned, panic_requested) = despawn_portal_parts(world, parts, strategy);
            return UnitOutcome {
                failed: Option::Some(PartKind::Destination), resized: false,
                pose_written: false, frustum_written: false, warned, panic_requested,
            };
        },
    };

    let resized = world.resize_image_if_needed(parts.image, viewport_w, viewport_h);

    let pose_written = por.changed || dst.changed || cam.changed;
    let mut cam_pose = pc.pose;
    if pose_written {
        let mirror_ref = match &parts.mirror {
            Option::Some(mi) => Option::Some(mi),
            Option::None => Option::None,
        };
        cam_pose = solve_portal_camera_pose(&cam.pose, &por.pose, &dst.pose, mirror_ref);
        proof {
            assert(cam_pose == sp_pose_of(sp_solve(cam.pose@, por.pose@, dst.pose@,
                sp_mirror_opt(parts.mirror))));
        }
    }

    let mut frustum_written = false;
    let mut new_frustum = pc.frustum;
    if (pose_written || resized) && cam_pose.within_limits(CAM_MAT_LIMIT, CAM_T_LIMIT) {
        let fr = derive_frustum(&cam_pose, &parts.clip, parts.far_num, parts.far_den,
            &dst.pose, &parts.mode);
        proof {
            assert(fr == sp_frustum_of(sp_frustum(cam_pose@, parts.clip@,
                parts.far_num as int, parts.far_den as int, dst.pose@, parts.mode)));
        }
        new_frustum = Option::Some(fr);
        frustum_written = true;
    }

    if pose_written || frustum_written {
        world.parts.set(parts.portal_camera.idx, PartSlot {
            gen: pc.gen, live: true, kind: pc.kind, pose: cam_pose, changed: true,
            frustum: new_frustum, unit: pc.unit,
        });
    }

    UnitOutcome {
        failed: Option::None, resized, pose_written, frustum_written,
        warned: false, panic_requested: false,
    }
}

/// A live part claims membership in a unit that no longer exists.
pub open spec fn sp_orphaned(parts: Seq<PartSlot>, units: Seq<UnitSlot>, j: int) -> bool {
    &&& 0 <= j < parts.len()
    &&& parts[j].live
    &&& match parts[j].unit {
        Option::Some(u) => !sp_unit_at(units, u),
        Option::None => false,
    }
}

/// Despawns every part whose back reference points to a unit that no longer
/// exists, each according to its kind's strategy; catches units removed
/// without their parts. Returns whether any despawned orphan asked for a
/// warning and whether any orphan's strategy asked for a panic.
#[verifier::spinoff_prover]
pub fn check_portal_parts_back_references(
    world: &mut PortalWorld, strategy: &PortalPartsDespawnStrategy,
) -> (o: (bool, bool))
    requires
        old(world).wf(),
    ensures
        final(world).wf(),
        final(world).images@ == old(world).images@,
        final(world).units@ == old(world).units@,
        final(world).parts@.len() == old(world).parts@.len(),
        forall |j: int| 0 <= j < old(world).parts@.len()
            && !(sp_orphaned(old(world).parts@, old(world).units@, j)
                && sp_despawns(sp_for_kind(*strategy, old(world).parts@[j].kind)))
            ==> final(world).parts@[j] == old(world).parts@[j],
        forall |j: int| sp_orphaned(old(world).parts@, old(world).units@, j)
            && sp_despawns(sp_for_kind(*strategy, (#[trigger] old(world).parts@[j]).kind))
            ==> final(world).parts@[j] == (PartSlot {
                gen: sp_next_gen(old(world).parts@[j].gen), live: false,
                ..old(world).parts@[j]
            }),
        o.0 == exists |j: int| sp_orphaned(old(world).parts@, old(world).units@, j)
            && sp_despawns(sp_for_kind(*strategy, (#[trigger] old(world).parts@[j]).kind))
            && sp_warns(sp_for_kind(*strategy, old(world).parts@[j].kind)),
        o.1 == exists |j: int| sp_orphaned(old(world).parts@, old(world).units@, j)
            && sp_panics(sp_for_kind(*strategy, (#[trigger] old(world).parts@[j]).kind)),
{
    let mut warned = false;
    let mut panic_requested = false;
    let mut i: usize = 0;
    while i < world.parts.len()
        invariant
            world.wf(),
            world.images@ == old(world).images@,
            world.units@ == old(world).units@,
            world.parts@.len() == old(world).parts@.len(),
            i <= world.parts@.len(),
            forall |j: int| i <= j < world.parts@.len()
                ==> #[trigger] world.parts@[j] == old(world).parts@[j],
            forall |j: int| 0 <= j < i
                && !(sp_orphaned(old(world).parts@, old(world).units@, j)
                    && sp_despawns(sp_for_kind(*strategy, old(world).parts@[j].kind)))
                ==> world.parts@[j] == old(world).parts@[j],
            forall |j: int| 0 <= j < i
                && sp_orphaned(old(world).parts@, old(world).units@, j)
                && sp_despawns(sp_for_kind(*strategy, (#[trigger] old(world).parts@[j]).kind))
                ==> world.parts@[j] == (PartSlot {
                    gen: sp_next_gen(old(world).parts@[j].gen), live: false,
                    ..old(world).parts@[j]
                }),
            warned == exists |j: int| 0 <= j < i
                && sp_orphaned(old(world).parts@, old(world).units@, j)
                && sp_despawns(sp_for_kind(*strategy, (#[trigger] old(world).parts@[j]).kind))
                && sp_warns(sp_for_kind(*strategy, old(world).parts@[j].kind)),
            panic_requested == exists |j: int| 0 <= j < i
                && sp_orphaned(old(world).parts@, old(world).units@, j)
                && sp_panics(sp_for_kind(*strategy, (#[trigger] old(world).parts@[j]).kind)),
        decreases world.parts@.len() - i,
    {
        let s = world.parts[i];
        let orphaned = s.live && match s.unit {
            Option::Some(u) => {
                !(u.idx < world.units.len() && world.units[u.idx].live
                    && world.units[u.idx].gen == u.gen)
            },
            Option::None => false,
        };
        if orphaned {
            let strat = strategy.for_kind(s.kind);
            if strat.should_despawn() {
                let ng = if s.gen == u64::MAX { 0 } else { s.gen + 1 };
                world.parts.set(i, PartSlot { gen: ng, live: false, ..s });
                warned = warned || strat.should_warn();
            } else if strat.should_panic() {
                panic_requested = true;
            }
        }
        i = i + 1;
    }
    (warned, panic_requested)
}

/// Creates one portal unit against an existing main camera: spawns the
/// portal surface, the destination and the portal camera, provisions the
/// render target at the viewport size (or a default of 100 by 100 pixels
/// when the viewport is unknown), registers the unit and back-references
/// the spawned parts to it. Returns the unit's references and
/// configuration, or nothing when the main camera does not resolve.
#[verifier::spinoff_prover]
pub fn create_portal_unit(
    world: &mut PortalWorld, main_camera: Handle, portal_pose: &Pose, dest_pose: &Pose,
    mirror: Option<MirrorSpec>, mode: PortalMode, clip: ClipMat, far_num: i128, far_den: i128,
    viewport: Option<(u32, u32)>,
) -> (r: Option<PortalParts>)
    requires
        old(world).wf(),
        portal_pose@.wf(),
        portal_pose@.within(POSE_MAT_LIMIT as int, POSE_T_LIMIT as int),
        dest_pose@.wf(),
        dest_pose@.within(POSE_MAT_LIMIT as int, POSE_T_LIMIT as int),
        match mirror {
            Option::Some(mi) => mi@.wf(),
            Option::None => true,
        },
        mode.wf(),
        clip@.within(CLIP_LIMIT as int),
        0 < far_den <= CLIP_LIMIT,
        -CLIP_LIMIT <= far_num <= CLIP_LIMIT,
    ensures
        final(world).wf(),
        r is None ==> {
            &&& !sp_resolves_as(*old(world), main_camera, PartKind::MainCamera)
            &&& *final(world) == *old(world)
        },
        r matches Some(u) ==> {
            &&& sp_resolves_as(*old(world), main_camera, PartKind::MainCamera)
            &&& u.wf()
            &&& u.main_camera == main_camera
            &&& u.mirror == mirror && u.mode == mode && u.clip == clip
            &&& u.far_num == far_num && u.far_den == far_den
            &&& sp_resolves_as(*final(world), u.main_camera, PartKind::MainCamera)
            &&& sp_resolves_as(*final(world), u.portal, PartKind::PortalSurface)
            &&& sp_resolves_as(*final(world), u.destination, PartKind::Destination)
            &&& sp_resolves_as(*final(world), u.portal_camera, PartKind::PortalCamera)
            &&& match sp_part(*final(world), u.portal) {
                Option::Some(s) => s.pose == *portal_pose,
                Option::None => false,
            }
            &&& match sp_part(*final(world), u.destination) {
                Option::Some(s) => s.pose == *dest_pose,
                Option::None => false,
            }
            &&& match sp_image(*final(world), u.image) {
                Option::Some(s) => match viewport {
                    Option::Some(v) => s.width == v.0 && s.height == v.1,
                    Option::None => s.width == 100 && s.height == 100,
                },
                Option::None => false,
            }
            &&& forall |j: int| 0 <= j < old(world).parts@.len()
                ==> final(world).parts@[j] == old(world).parts@[j]
            &&& forall |j: int| 0 <= j < old(world).images@.len()
                ==> final(world).images@[j] == old(world).images@[j]
        },
{
    let cam_ok = match world.get_part(main_camera) {
        Option::Some(s) => s.kind == PartKind::MainCamera,
        Option::None => false,
    };
    if !cam_ok {
        return Option::None;
    }
    let (vw, vh) = match viewport {
        Option::Some(v) => v,
        Option::None => (100, 100),
    };
    let unit = world.register_unit();
    let portal = world.spawn_part(PartKind::PortalSurface, portal_pose);
    let ghost pslot = world.parts@[portal.idx as int];
    let destination = world.spawn_part(PartKind::Destination, dest_pose);
    let ghost dslot = world.parts@[destination.idx as int];
    proof {
        assert(world.parts@[portal.idx as int] == pslot);
    }
    let camera_pose = Pose::identity();
    let portal_camera = world.spawn_part(PartKind::PortalCamera, &camera_pose);
    let ghost cslot = world.parts@[portal_camera.idx as int];
    proof {
        assert(world.parts@[portal.idx as int] == pslot);
        assert(world.parts@[destination.idx as int] == dslot);
    }
    let image = world.create_image(vw, vh);
    world.set_part_unit(portal, unit);
    proof {
        assert(world.parts@[portal.idx as int] == (PartSlot {
            unit: Option::Some(unit), ..pslot
        }));
        assert(world.parts@[destination.idx as int] == dslot);
        assert(world.parts@[portal_camera.idx as int] == cslot);
    }
    world.set_part_unit(destination, unit);
    proof {
        assert(world.parts@[destination.idx as int] == (PartSlot {
            unit: Option::Some(unit), ..dslot
        }));
        assert(world.parts@[portal_camera.idx as int] == cslot);
    }
    world.set_part_unit(portal_camera, unit);
    proof {
        assert(world.parts@[portal_camera.idx as int] == (PartSlot {
            unit: Option::Some(unit), ..cslot
        }));
        assert(main_camera.idx < old(world).parts@.len());
        assert(sp_resolves_as(*world, main_camera, PartKind::MainCamera));
        assert(sp_resolves_as(*world, portal, PartKind::PortalSurface));
        assert(sp_resolves_as(*world, destination, PartKind::Destination));
        assert(sp_resolves_as(*world, portal_camera, PartKind::PortalCamera));
        assert(sp_image(*world, image) == Option::Some(ImageSlot {
            gen: 0u64, live: true, width: vw, height: vh,
        }));
        assert(portal.idx == old(world).parts@.len());
        assert(destination.idx == old(world).parts@.len() + 1);
        assert(portal_camera.idx == old(world).parts@.len() + 2);
        assert forall |j: int| 0 <= j < old(world).parts@.len()
            implies world.parts@[j] == old(world).parts@[j] by {
            assert(j != portal.idx as int && j != destination.idx as int
                && j != portal_camera.idx as int);
        }
        assert(forall |j: int| 0 <= j < old(world).images@.len()
            ==> #[trigger] world.images@[j] == old(world).images@[j]);
    }
    Option::Some(PortalParts {
        main_camera, portal, destination, portal_camera, image, mirror, mode, clip,
        far_num, far_den,
    })
}

/// Runs one tick for every portal unit, in order: exactly the fold of
/// [`sp_tick_unit`] over the unit list. A failure in one unit never stops
/// the others from being processed.
#[verifier::spinoff_prover]
pub fn update_portal_cameras(
    world: &mut PortalWorld, units: &Vec<PortalParts>, strategy: &PortalPartsDespawnStrategy,
    viewport_w: u32, viewport_h: u32,
) -> (outcomes: Vec<UnitOutcome>)
    requires
        old(world).wf(),
        forall |i: int| 0 <= i < units@.len() ==> (#[trigger] units@[i]).wf(),
    ensures
        final(world).wf(),
        final(world).units@ == old(world).units@,
        ({
            let whole = sp_tick_fold(old(world).parts@, old(world).images@, units@, *strategy,
                viewport_w, viewport_h);
            &&& final(world).parts@ == whole.0
            &&& final(world).images@ == whole.1
            &&& outcomes@ == whole.2
        }),
{
    let mut outcomes: Vec<UnitOutcome> = Vec::new();
    let mut i: usize = 0;
    proof {
        assert(units@.subrange(0, 0) =~= Seq::<PortalParts>::empty());
    }
    while i < units.len()
        invariant
            world.wf(),
            world.units@ == old(world).units@,
            outcomes@.len() == i,
            i <= units@.len(),
            forall |k: int| 0 <= k < units@.len() ==> (#[trigger] units@[k]).wf(),
            ({
                let sofar = sp_tick_fold(old(world).parts@, old(world).images@,
                    units@.subrange(0, i as int), *strategy, viewport_w, viewport_h);
                &&& world.parts@ == sofar.0
                &&& world.images@ == sofar.1
                &&& outcomes@ == sofar.2
            }),
        decreases units@.len() - i,
    {
        let ghost prefix = units@.subrange(0, i as int);
        let o = update_portal_unit(world, &units[i], strategy, viewport_w, viewport_h);
        outcomes.push(o);
        proof {
            let next = units@.subrange(0, i as int + 1);
            assert(next.drop_last() =~= prefix);
            assert(next.last() == units@[i as int]);
        }
        i = i + 1;
    }
    proof {
        assert(units@.subrange(0, units@.len() as int) =~= units@);
    }
    outcomes
}

} // verus!
