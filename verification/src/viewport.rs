//! The window through which the document is seen.
use crate::geometry::Point;
use crate::scalar::{add_sat, diff, div_fixed, mul_fixed, prod, quot, sub_sat, sum, Scalar};
use vstd::prelude::*;

verus! {

/// The visible part of the document: its top-left corner in world
/// coordinates, the zoom factor and the size of the screen area.
#[derive(Clone, Copy, Debug, PartialEq, Eq, Structural)]
pub struct Viewport {
    pub x: Scalar,
    pub y: Scalar,
    pub zoom: Scalar,
    pub width: Scalar,
    pub height: Scalar,
}

impl Viewport {
    /// The viewport moved by `(dx, dy)`.
    pub open spec fn panned(self, dx: Scalar, dy: Scalar) -> Viewport {
        Viewport { x: sum(self.x, dx), y: sum(self.y, dy), ..self }
    }

    /// The viewport zoomed by `zoom_factor`, keeping `center` where it is on
    /// screen.
    pub open spec fn zoomed_at(self, zoom_factor: Scalar, center: Point) -> Viewport {
        let zoom = prod(self.zoom, zoom_factor);
        let ratio = quot(zoom, self.zoom);
        Viewport {
            x: diff(center.x, prod(diff(center.x, self.x), ratio)),
            y: diff(center.y, prod(diff(center.y, self.y), ratio)),
            zoom,
            ..self
        }
    }

    /// The world point shown at `screen_point`.
    pub open spec fn to_world(self, screen_point: Point) -> Point {
        Point {
            x: sum(quot(screen_point.x, self.zoom), self.x),
            y: sum(quot(screen_point.y, self.zoom), self.y),
        }
    }

    /// The screen point at which `world_point` shows.
    pub open spec fn to_screen(self, world_point: Point) -> Point {
        Point {
            x: prod(diff(world_point.x, self.x), self.zoom),
            y: prod(diff(world_point.y, self.y), self.zoom),
        }
    }

    pub fn new(x: Scalar, y: Scalar, zoom: Scalar, width: Scalar, height: Scalar) -> (v: Viewport)
        ensures
            v == (Viewport { x, y, zoom, width, height }),
    {
        Viewport { x, y, zoom, width, height }
    }

    /// Moves the viewport by `(dx, dy)`.
    pub fn pan(&mut self, dx: Scalar, dy: Scalar)
        ensures
            *final(self) == old(self).panned(dx, dy),
    {
        self.x = add_sat(self.x, dx);
        self.y = add_sat(self.y, dy);
    }

    /// Zooms by `zoom_factor`, keeping `center` where it is on screen.
    pub fn zoom_at(&mut self, zoom_factor: Scalar, center: &Point)
        ensures
            *final(self) == old(self).zoomed_at(zoom_factor, *center),
    {
        let old_zoom = self.zoom;
        self.zoom = mul_fixed(self.zoom, zoom_factor);
        let ratio = div_fixed(self.zoom, old_zoom);
        self.x = sub_sat(center.x, mul_fixed(sub_sat(center.x, self.x), ratio));
        self.y = sub_sat(center.y, mul_fixed(sub_sat(center.y, self.y), ratio));
    }

    /// The world point shown at `screen_point`.
    pub fn screen_to_world(&self, screen_point: &Point) -> (p: Point)
        ensures
            p == self.to_world(*screen_point),
    {
        Point {
            x: add_sat(div_fixed(screen_point.x, self.zoom), self.x),
            y: add_sat(div_fixed(screen_point.y, self.zoom), self.y),
        }
    }

    /// The screen point at which `world_point` shows.
    pub fn world_to_screen(&self, world_point: &Point) -> (p: Point)
        ensures
            p == self.to_screen(*world_point),
    {
        Point {
            x: mul_fixed(sub_sat(world_point.x, self.x), self.zoom),
            y: mul_fixed(sub_sat(world_point.y, self.y), self.zoom),
        }
    }
}

} // verus!
