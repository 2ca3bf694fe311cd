//! A small sample host: a circle bouncing inside the unit square,
//! drawn once per frame through the engine's update hook.

use vstd::prelude::*;

use crate::context::GraphicsContext;
use crate::error::PumiceResult;
use crate::fixed::Point;
use crate::geometry::Color;
use crate::scheduler::App;
use crate::scheduler::Event;

verus! {

/// The bouncing-circle demo state, in Q16.16 units: position,
/// velocity per frame, and the circle's radius.
pub struct DemoApp {
    pub x: i32,
    pub y: i32,
    pub dx: i32,
    pub dy: i32,
    pub radius: i32,
}

impl DemoApp {
    /// The demo's starting state: a circle of radius 0.175 at the
    /// origin, drifting right and slightly down.
    pub fn new() -> (d: DemoApp)
        ensures
            d == (DemoApp { x: 0, y: 0, dx: 1638, dy: -655i32, radius: 11469 }),
    {
        DemoApp { x: 0, y: 0, dx: 1638, dy: -655, radius: 11469 }
    }
}

impl App for DemoApp {
    /// Draws the circle at its current position, then advances it and
    /// bounces off the vertical extent `[-1, 1]`.  The state is first
    /// clamped into the engine's coordinate limits, so the hook is
    /// total in the stored values.
    fn on_update(&mut self, ctx: &mut GraphicsContext) -> (r: PumiceResult<()>) {
        if self.radius < 1 {
            self.radius = 1;
        }
        if self.radius > 65536 {
            self.radius = 65536;
        }
        if self.x < -65536 {
            self.x = -65536;
        }
        if self.x > 65536 {
            self.x = 65536;
        }
        if self.y < -65536 {
            self.y = -65536;
        }
        if self.y > 65536 {
            self.y = 65536;
        }
        if self.dx < -6553 {
            self.dx = -6553;
        }
        if self.dx > 6553 {
            self.dx = 6553;
        }
        if self.dy < -6553 {
            self.dy = -6553;
        }
        if self.dy > 6553 {
            self.dy = 6553;
        }
        let res: PumiceResult<()> = ctx.new_circle(
            Point { x: self.x, y: self.y },
            self.radius,
            Color { r: 0, g: 32768, b: 65536, a: 65536 },
        );
        self.x = self.x + self.dx;
        self.y = self.y + self.dy;
        if self.x + self.radius >= 65536 || self.x - self.radius <= -65536 {
            self.dx = -self.dx;
        }
        if self.y + self.radius >= 65536 || self.y - self.radius <= -65536 {
            self.dy = -self.dy;
        }
        res
    }

    /// The demo reacts to no events of its own.
    fn on_event(&mut self, _event: &Event) -> (r: PumiceResult<()>) {
        Ok(())
    }
}

} // verus!
