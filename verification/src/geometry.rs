//! The triangle's geometry in exact rational coordinates.
//!
//! The GPU wants floating-point clip coordinates; the core computes them as
//! fractions of integer pixel positions, exactly, and the outer shell turns
//! a fraction into a float only at the device boundary.

use vstd::prelude::*;
use crate::input::LocalState;

verus! {

/// An exact fraction. The denominator is kept positive.
#[derive(Clone, Copy, Debug, PartialEq, Eq, Structural)]
pub struct Frac {
    pub num: i64,
    pub den: u64,
}

/// A well-formed fraction has a positive denominator.
pub open spec fn frac_wf(f: Frac) -> bool {
    f.den > 0
}

/// Equality of fractions as rational numbers, by cross-multiplication.
pub open spec fn frac_eq(a: Frac, b: Frac) -> bool {
    a.num * b.den == b.num * a.den
}

impl Frac {
    /// Whether `self` and `other` denote the same rational number.
    pub fn same_value(&self, other: &Frac) -> (r: bool)
        ensures
            r == frac_eq(*self, *other),
    {
        let lhs_num = self.num as i128;
        let lhs_den = self.den as i128;
        let rhs_num = other.num as i128;
        let rhs_den = other.den as i128;
        proof {
            assert(-0x8000_0000_0000_0000_0000_0000_0000_0000 <= lhs_num * rhs_den
                < 0x8000_0000_0000_0000_0000_0000_0000_0000) by (nonlinear_arith)
                requires
                    -0x8000_0000_0000_0000 <= lhs_num <= 0x7fff_ffff_ffff_ffff,
                    0 <= rhs_den <= 0xffff_ffff_ffff_ffff,
            ;
            assert(-0x8000_0000_0000_0000_0000_0000_0000_0000 <= rhs_num * lhs_den
                < 0x8000_0000_0000_0000_0000_0000_0000_0000) by (nonlinear_arith)
                requires
                    -0x8000_0000_0000_0000 <= rhs_num <= 0x7fff_ffff_ffff_ffff,
                    0 <= lhs_den <= 0xffff_ffff_ffff_ffff,
            ;
        }
        lhs_num * rhs_den == rhs_num * lhs_den
    }
}

/// One vertex position.
#[derive(Clone, Copy, Debug, PartialEq, Eq, Structural)]
pub struct Vertex {
    pub x: Frac,
    pub y: Frac,
}

/// The triangle handed to the recorder: three vertices.
#[derive(Clone, Copy, Debug, PartialEq)]
pub struct Triangle {
    pub points: [Vertex; 3],
}

/// The six coordinates of a triangle in vertex order, x before y, as the
/// vertex buffer lays them out.
pub open spec fn spec_points_flat(t: Triangle) -> Seq<Frac> {
    seq![
        t.points@[0].x,
        t.points@[0].y,
        t.points@[1].x,
        t.points@[1].y,
        t.points@[2].x,
        t.points@[2].y,
    ]
}

impl Triangle {
    /// The six coordinates in vertex order, x before y, as the vertex
    /// buffer lays them out.
    pub fn points_flat(self) -> (r: [Frac; 6])
        ensures
            r@ == spec_points_flat(self),
    {
        let a = self.points[0];
        let b = self.points[1];
        let c = self.points[2];
        [a.x, a.y, b.x, b.y, c.x, c.y]
    }
}

/// The triangle for a local state: two fixed vertices at (-1/2, 1/2) and
/// (-1/2, -1/2), and a third at the pointer's position as a fraction of the
/// frame size.
pub open spec fn spec_triangle_for(local: LocalState) -> Triangle {
    Triangle {
        points: [
            Vertex { x: Frac { num: -1i64, den: 2u64 }, y: Frac { num: 1i64, den: 2u64 } },
            Vertex { x: Frac { num: -1i64, den: 2u64 }, y: Frac { num: -1i64, den: 2u64 } },
            Vertex {
                x: Frac { num: local.mouse_x as i64, den: local.frame_width as u64 },
                y: Frac { num: local.mouse_y as i64, den: local.frame_height as u64 },
            },
        ],
    }
}

/// Build the triangle for the current local state.
pub fn triangle_for(local: &LocalState) -> (t: Triangle)
    requires
        local.frame_width > 0,
        local.frame_height > 0,
    ensures
        t == spec_triangle_for(*local),
        frac_wf(t.points@[2].x) && frac_wf(t.points@[2].y),
{
    Triangle {
        points: [
            Vertex { x: Frac { num: -1i64, den: 2u64 }, y: Frac { num: 1i64, den: 2u64 } },
            Vertex { x: Frac { num: -1i64, den: 2u64 }, y: Frac { num: -1i64, den: 2u64 } },
            Vertex {
                x: Frac { num: local.mouse_x as i64, den: local.frame_width as u64 },
                y: Frac { num: local.mouse_y as i64, den: local.frame_height as u64 },
            },
        ],
    }
}

} // verus!
