//! Entity records: what an entity is, where it stands, and which
//! capabilities it opts into.

use vstd::prelude::*;
use crate::geometry::{Point3, Rgb};
use crate::orbit::CameraController;

verus! {

/// The four kinds of entity that a scene is made of.
#[derive(Clone, Copy, Debug, PartialEq, Eq, Structural)]
pub enum EntityKind {
    Plane,
    Cube,
    Light,
    Camera,
}

/// What an entity is, with the attributes particular to its kind. Lengths are
/// in tenths of a unit, the light's intensity in tenths of the renderer's
/// photometric unit.
#[derive(Clone, Copy, Debug, PartialEq, Eq, Structural)]
pub enum Body {
    /// A flat square mesh lying in the horizontal plane.
    Plane { side: i32 },
    /// A cube mesh.
    Cube { size: i32 },
    /// A light that shines in all directions from one point.
    PointLight { intensity: i32, shadows_enabled: bool },
    /// A perspective camera that looks at `look_at` with `up` upright.
    Camera { look_at: Point3, up: Point3 },
}

/// The capabilities by which an entity opts into selection and dragging.
/// Each flag is a marker that the respective collaborator looks for.
#[derive(Clone, Copy, Debug, PartialEq, Eq, Structural)]
pub struct Tags {
    /// The entity can be selected with the pointer.
    pub pickable: bool,
    /// The entity can be dragged with the transform gizmo.
    pub gizmo_transformable: bool,
    /// Pick rays are cast from this entity.
    pub picking_source: bool,
    /// The gizmo casts its own pick rays from this entity.
    pub gizmo_pick_source: bool,
}

impl Tags {
    /// No capability at all.
    pub open spec fn spec_none() -> Tags {
        Tags {
            pickable: false,
            gizmo_transformable: false,
            picking_source: false,
            gizmo_pick_source: false,
        }
    }

    /// The capabilities of an object that can be selected and dragged.
    pub open spec fn spec_interactive() -> Tags {
        Tags {
            pickable: true,
            gizmo_transformable: true,
            picking_source: false,
            gizmo_pick_source: false,
        }
    }

    /// The capabilities of the camera through which objects are selected.
    pub open spec fn spec_viewpoint() -> Tags {
        Tags {
            pickable: false,
            gizmo_transformable: false,
            picking_source: true,
            gizmo_pick_source: true,
        }
    }

    /// Whether any capability is set.
    pub open spec fn any(self) -> bool {
        self.pickable || self.gizmo_transformable || self.picking_source || self.gizmo_pick_source
    }

    /// No capability at all.
    pub fn none() -> (t: Tags)
        ensures
            t == Tags::spec_none(),
    {
        Tags {
            pickable: false,
            gizmo_transformable: false,
            picking_source: false,
            gizmo_pick_source: false,
        }
    }

    /// The capabilities of an object that can be selected and dragged.
    pub fn interactive() -> (t: Tags)
        ensures
            t == Tags::spec_interactive(),
    {
        Tags {
            pickable: true,
            gizmo_transformable: true,
            picking_source: false,
            gizmo_pick_source: false,
        }
    }

    /// The capabilities of the camera through which objects are selected.
    pub fn viewpoint() -> (t: Tags)
        ensures
            t == Tags::spec_viewpoint(),
    {
        Tags {
            pickable: false,
            gizmo_transformable: false,
            picking_source: true,
            gizmo_pick_source: true,
        }
    }

    /// Whether any capability is set.
    pub fn is_tagged(&self) -> (b: bool)
        ensures
            b == self.any(),
    {
        self.pickable || self.gizmo_transformable || self.picking_source || self.gizmo_pick_source
    }
}

/// One entity of the world, every attribute spelled out.
#[derive(Clone, Copy, Debug, PartialEq, Eq, Structural)]
pub struct Entity {
    /// What the entity is.
    pub body: Body,
    /// The surface colour, for the entities that have a surface.
    pub color: Option<Rgb>,
    /// Where the entity stands, as an offset from the origin. An entity at
    /// the origin has the identity transform.
    pub position: Point3,
    /// The capabilities it opts into.
    pub tags: Tags,
    /// The camera controller, on the entity that carries one.
    pub controller: Option<CameraController>,
}

impl Entity {
    /// The kind of this entity.
    pub open spec fn spec_kind(self) -> EntityKind {
        match self.body {
            Body::Plane { .. } => EntityKind::Plane,
            Body::Cube { .. } => EntityKind::Cube,
            Body::PointLight { .. } => EntityKind::Light,
            Body::Camera { .. } => EntityKind::Camera,
        }
    }

    /// Whether the entity carries a camera controller.
    pub open spec fn spec_has_controller(self) -> bool {
        self.controller is Some
    }

    /// The entity with the flag of its controller inverted. An entity
    /// without a controller is left as it is.
    pub open spec fn with_flipped_controller(self) -> Entity {
        match self.controller {
            Some(c) => Entity { controller: Some(c.flipped()), ..self },
            None => self,
        }
    }

    /// The kind of this entity.
    pub fn kind(&self) -> (k: EntityKind)
        ensures
            k == self.spec_kind(),
    {
        match self.body {
            Body::Plane { .. } => EntityKind::Plane,
            Body::Cube { .. } => EntityKind::Cube,
            Body::PointLight { .. } => EntityKind::Light,
            Body::Camera { .. } => EntityKind::Camera,
        }
    }

    /// Whether the entity carries a camera controller.
    pub fn has_controller(&self) -> (b: bool)
        ensures
            b == self.spec_has_controller(),
    {
        self.controller.is_some()
    }
}

} // verus!
