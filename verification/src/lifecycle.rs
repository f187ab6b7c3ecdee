//! Despawn policies for portal parts.
//!
//! When one of the four parts of a portal stops resolving, the remaining
//! parts are torn down according to a per-part-kind strategy: leave the
//! entity alone, despawn it (with or without its children, with or without a
//! warning), or request a panic (used by strict test configurations; the
//! host performs the panic, the library only reports it).

use vstd::prelude::*;

verus! {

/// Strategy to despawn one portal part.
#[derive(Clone, Copy, PartialEq, Eq, Structural, Debug)]
pub enum PortalPartDespawnStrategy {
    /// Despawn the entity and all of its children with a warning.
    WarnThenDespawnWithChildren,
    /// Despawn the entity and all of its children.
    DespawnWithChildren,
    /// Despawn only the entity with a warning.
    WarnThenDespawnEntity,
    /// Despawn only the entity.
    DespawnEntity,
    /// Don't despawn.
    Leave,
    /// Request a panic.
    Panic,
}

impl PortalPartDespawnStrategy {
    /// True exactly for the panic strategy.
    #[verifier::spinoff_prover]
    pub fn should_panic(&self) -> (r: bool)
        ensures
            r == (*self == PortalPartDespawnStrategy::Panic),
    {
        *self == PortalPartDespawnStrategy::Panic
    }

    /// True exactly when the entity is despawned.
    #[verifier::spinoff_prover]
    pub fn should_despawn(&self) -> (r: bool)
        ensures
            r == (*self != PortalPartDespawnStrategy::Leave
                && *self != PortalPartDespawnStrategy::Panic),
    {
        *self != PortalPartDespawnStrategy::Leave && *self != PortalPartDespawnStrategy::Panic
    }

    /// True exactly when the entity's children are despawned with it.
    #[verifier::spinoff_prover]
    pub fn should_despawn_children(&self) -> (r: bool)
        ensures
            r == (*self == PortalPartDespawnStrategy::WarnThenDespawnWithChildren
                || *self == PortalPartDespawnStrategy::DespawnWithChildren),
    {
        *self == PortalPartDespawnStrategy::WarnThenDespawnWithChildren
            || *self == PortalPartDespawnStrategy::DespawnWithChildren
    }

    /// True exactly when a warning is recorded.
    #[verifier::spinoff_prover]
    pub fn should_warn(&self) -> (r: bool)
        ensures
            r == (*self == PortalPartDespawnStrategy::WarnThenDespawnWithChildren
                || *self == PortalPartDespawnStrategy::WarnThenDespawnEntity),
    {
        *self == PortalPartDespawnStrategy::WarnThenDespawnWithChildren
            || *self == PortalPartDespawnStrategy::WarnThenDespawnEntity
    }
}

impl Default for PortalPartDespawnStrategy {
    /// The default strategy despawns only the entity, with a warning.
    #[verifier::spinoff_prover]
    fn default() -> (r: Self)
        ensures
            r == PortalPartDespawnStrategy::WarnThenDespawnEntity,
    {
        PortalPartDespawnStrategy::WarnThenDespawnEntity
    }
}

/// Strategy to despawn the parts of a portal, one entry per part kind.
#[derive(Clone, Copy, PartialEq, Eq, Structural, Debug)]
pub struct PortalPartsDespawnStrategy {
    pub main_camera: PortalPartDespawnStrategy,
    pub portal: PortalPartDespawnStrategy,
    pub destination: PortalPartDespawnStrategy,
    pub portal_camera: PortalPartDespawnStrategy,
}

impl PortalPartsDespawnStrategy {
    /// Despawn all parts with a warning, except the main camera.
    #[verifier::spinoff_prover]
    pub fn despawn_and_warn() -> (r: Self)
        ensures
            r.main_camera == PortalPartDespawnStrategy::Leave,
            r.portal == PortalPartDespawnStrategy::WarnThenDespawnEntity,
            r.destination == PortalPartDespawnStrategy::WarnThenDespawnEntity,
            r.portal_camera == PortalPartDespawnStrategy::WarnThenDespawnEntity,
    {
        PortalPartsDespawnStrategy {
            main_camera: PortalPartDespawnStrategy::Leave,
            portal: PortalPartDespawnStrategy::WarnThenDespawnEntity,
            destination: PortalPartDespawnStrategy::WarnThenDespawnEntity,
            portal_camera: PortalPartDespawnStrategy::WarnThenDespawnEntity,
        }
    }

    /// Request a panic for every part but the main camera.
    #[verifier::spinoff_prover]
    pub fn panic_on_failure() -> (r: Self)
        ensures
            r.main_camera == PortalPartDespawnStrategy::Leave,
            r.portal == PortalPartDespawnStrategy::Panic,
            r.destination == PortalPartDespawnStrategy::Panic,
            r.portal_camera == PortalPartDespawnStrategy::Panic,
    {
        PortalPartsDespawnStrategy {
            main_camera: PortalPartDespawnStrategy::Leave,
            portal: PortalPartDespawnStrategy::Panic,
            destination: PortalPartDespawnStrategy::Panic,
            portal_camera: PortalPartDespawnStrategy::Panic,
        }
    }

    /// Despawn all parts silently, except the main camera.
    #[verifier::spinoff_prover]
    pub fn despawn_silently() -> (r: Self)
        ensures
            r.main_camera == PortalPartDespawnStrategy::Leave,
            r.portal == PortalPartDespawnStrategy::DespawnEntity,
            r.destination == PortalPartDespawnStrategy::DespawnEntity,
            r.portal_camera == PortalPartDespawnStrategy::DespawnEntity,
    {
        PortalPartsDespawnStrategy {
            main_camera: PortalPartDespawnStrategy::Leave,
            portal: PortalPartDespawnStrategy::DespawnEntity,
            destination: PortalPartDespawnStrategy::DespawnEntity,
            portal_camera: PortalPartDespawnStrategy::DespawnEntity,
        }
    }

    /// Despawn all parts and their children silently, except the main
    /// camera.
    #[verifier::spinoff_prover]
    pub fn despawn_with_children_silently() -> (r: Self)
        ensures
            r.main_camera == PortalPartDespawnStrategy::Leave,
            r.portal == PortalPartDespawnStrategy::DespawnWithChildren,
            r.destination == PortalPartDespawnStrategy::DespawnWithChildren,
            r.portal_camera == PortalPartDespawnStrategy::DespawnWithChildren,
    {
        PortalPartsDespawnStrategy {
            main_camera: PortalPartDespawnStrategy::Leave,
            portal: PortalPartDespawnStrategy::DespawnWithChildren,
            destination: PortalPartDespawnStrategy::DespawnWithChildren,
            portal_camera: PortalPartDespawnStrategy::DespawnWithChildren,
        }
    }

    /// The strategy entry for one part kind.
    #[verifier::spinoff_prover]
    pub fn for_kind(&self, kind: PartKind) -> (r: PortalPartDespawnStrategy)
        ensures
            r == sp_for_kind(*self, kind),
    {
        match kind {
            PartKind::MainCamera => self.main_camera,
            PartKind::PortalSurface => self.portal,
            PartKind::Destination => self.destination,
            PartKind::PortalCamera => self.portal_camera,
        }
    }
}

impl Default for PortalPartsDespawnStrategy {
    /// Defaults to despawning all parts but the main camera, with a warning.
    #[verifier::spinoff_prover]
    fn default() -> (r: Self)
        ensures
            r.main_camera == PortalPartDespawnStrategy::Leave,
            r.portal == PortalPartDespawnStrategy::WarnThenDespawnEntity,
            r.destination == PortalPartDespawnStrategy::WarnThenDespawnEntity,
            r.portal_camera == PortalPartDespawnStrategy::WarnThenDespawnEntity,
    {
        PortalPartsDespawnStrategy::despawn_and_warn()
    }
}

/// The four kinds of portal parts.
#[derive(Clone, Copy, PartialEq, Eq, Structural, Debug)]
pub enum PartKind {
    MainCamera,
    PortalSurface,
    Destination,
    PortalCamera,
}

/// The strategy entry for one part kind.
pub open spec fn sp_for_kind(s: PortalPartsDespawnStrategy, kind: PartKind) -> PortalPartDespawnStrategy {
    match kind {
        PartKind::MainCamera => s.main_camera,
        PartKind::PortalSurface => s.portal,
        PartKind::Destination => s.destination,
        PartKind::PortalCamera => s.portal_camera,
    }
}

} // verus!
