use vstd::prelude::*;

use crate::geometry::Rect;
use crate::system::System;

verus! {

/// The frame and the red filling of a health bar, with the bar's size.
pub struct HealthBar<T> {
    pub bar: T,
    pub fill_bar: T,
    pub width: u32,
    pub height: u32,
}

impl<T> HealthBar<T> {
    /// A bar of `width` x `height` pixels; the filling is 2 pixels smaller each way,
    /// so both sides must be at least 2.
    pub fn new(bar: T, fill_bar: T, width: u32, height: u32) -> (r: HealthBar<T>)
        requires
            width >= 2,
            height >= 2,
        ensures
            r.bar == bar,
            r.fill_bar == fill_bar,
            r.width == width,
            r.height == height,
    {
        HealthBar { bar, fill_bar, width, height }
    }

    /// How many pixels of the filling show for `pourcent` percent of health.
    pub fn fill_width(&self, pourcent: u32) -> (r: u32)
        requires
            self.width >= 2,
            (self.width - 2) * pourcent <= u32::MAX,
        ensures
            r == (self.width - 2) * pourcent / 100,
    {
        (self.width - 2) * pourcent / 100
    }

    /// What drawing the bar at world position `x` / `y` with `pourcent` percent of
    /// health takes: where the frame goes, and, when some filling shows, the part of the
    /// filling texture and where it goes; nothing when the bar is out of sight.
    pub fn draw<C, F>(&self, x: i64, y: i64, pourcent: u32, system: &System<C, F>) -> (r: Option<(Rect, Option<(Rect, Rect)>)>)
        requires
            self.width >= 2,
            self.height >= 2,
            (self.width - 2) * pourcent <= u32::MAX,
            i64::MIN <= x - system.x <= i64::MAX,
            i64::MIN <= y - system.y <= i64::MAX,
            i32::MIN <= ((x - system.x) as i32) + (self.width as i32) <= i32::MAX,
            i32::MIN <= ((y - system.y) as i32) + (self.height as i32) <= i32::MAX,
            ((x - system.x) as i32) < i32::MAX,
            ((y - system.y) as i32) < i32::MAX,
        ensures
            ({
                let sx = (x - system.x) as i32;
                let sy = (y - system.y) as i32;
                let fill = (self.width - 2) * pourcent / 100;
                if sx + (self.width as i32) >= 0 && sx < (system.width as i32) && sy + (self.height as i32) >= 0
                    && sy < (system.height as i32) {
                    r == Some(
                        (
                            Rect { x: sx, y: sy, width: self.width, height: self.height },
                            if fill > 0 {
                                Some(
                                    (
                                        Rect { x: 0, y: 0, width: fill as u32, height: (self.height - 2) as u32 },
                                        Rect {
                                            x: (sx + 1) as i32,
                                            y: (sy + 1) as i32,
                                            width: fill as u32,
                                            height: (self.height - 2) as u32,
                                        },
                                    ),
                                )
                            } else {
                                None
                            },
                        ),
                    )
                } else {
                    r is None
                }
            }),
    {
        let sx = (x - system.x()) as i32;
        let sy = (y - system.y()) as i32;
        if sx + self.width as i32 >= 0 && sx < system.width() && sy + self.height as i32 >= 0 && sy
            < system.height() {
            let frame = Rect::new(sx, sy, self.width, self.height);
            let width = self.fill_width(pourcent);
            if width > 0 {
                Some(
                    (
                        frame,
                        Some(
                            (
                                Rect::new(0, 0, width, self.height - 2),
                                Rect::new(sx + 1, sy + 1, width, self.height - 2),
                            ),
                        ),
                    ),
                )
            } else {
                Some((frame, None))
            }
        } else {
            None
        }
    }
}

} // verus!
