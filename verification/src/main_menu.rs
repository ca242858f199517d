//! The main menu's start button and its gear-shaped vertex pattern.
//!
//! A gear vertex is described exactly, without trigonometry: its polar
//! angle is a whole number of radians plus a signed fraction of the gear's
//! central angle (in thousandths), and its radius is in thousandths of a
//! world unit. The shell evaluates sine and cosine when it fills the GPU
//! buffer.

use vstd::prelude::*;

verus! {

/// One vertex of the gear pattern, in polar form: the angle is
/// `whole_radians + central_thousandths/1000 * (2*pi/teeth)` radians, the
/// radius is in thousandths.
#[derive(Clone, Copy, Debug, PartialEq, Eq, Structural)]
pub struct GearVertex {
    pub whole_radians: u32,
    pub central_thousandths: i32,
    pub radius_thousandths: u32,
}

/// The three vertices of tooth `i`: inner rim just before the tooth, tip
/// at half a central angle, inner rim just after it.
pub open spec fn tooth_verts(i: int, ir: int, or_: int, overlap: int) -> Seq<GearVertex> {
    seq![
        (GearVertex {
            whole_radians: (i - 1) as u32,
            central_thousandths: (-overlap) as i32,
            radius_thousandths: ir as u32,
        }),
        (GearVertex {
            whole_radians: 0u32,
            central_thousandths: (1000 * i - 500) as i32,
            radius_thousandths: or_ as u32,
        }),
        (GearVertex {
            whole_radians: i as u32,
            central_thousandths: overlap as i32,
            radius_thousandths: ir as u32,
        }),
    ]
}

/// The vertices of teeth `1 .. n`.
pub open spec fn gear_verts_up_to(n: int, ir: int, or_: int, overlap: int) -> Seq<GearVertex>
    decreases n,
{
    if n <= 1 {
        Seq::empty()
    } else {
        gear_verts_up_to(n - 1, ir, or_, overlap) + tooth_verts(n - 1, ir, or_, overlap)
    }
}

/// The whole gear pattern: one triangle of vertices per tooth drawn.
pub open spec fn gear_verts(teeth: int, ir: int, or_: int, overlap: int) -> Seq<GearVertex> {
    gear_verts_up_to(teeth, ir, or_, overlap)
}

/// Generate the vertices of a gear pattern with `teeth` teeth, inner and
/// outer radii and tooth overlap in thousandths.
pub fn gen_gear_vertexes(teeth: u32, inner_radius: u32, outer_radius: u32, overlap: u32) -> (r:
    Vec<GearVertex>)
    requires
        1 <= teeth <= 100000,
        inner_radius <= 1000000,
        outer_radius <= 1000000,
        overlap <= 1000000,
    ensures
        r@ == gear_verts(teeth as int, inner_radius as int, outer_radius as int, overlap as int),
        r@.len() == 3 * (teeth - 1),
{
    let mut r: Vec<GearVertex> = Vec::new();
    for i in 1..teeth
        invariant
            teeth <= 100000,
            inner_radius <= 1000000,
            outer_radius <= 1000000,
            overlap <= 1000000,
            r@ == gear_verts_up_to(
                i as int,
                inner_radius as int,
                outer_radius as int,
                overlap as int,
            ),
            r@.len() == 3 * (i - 1),
    {
        r.push(
            GearVertex {
                whole_radians: i - 1,
                central_thousandths: -(overlap as i32),
                radius_thousandths: inner_radius,
            },
        );
        r.push(
            GearVertex {
                whole_radians: 0,
                central_thousandths: 1000 * (i as i32) - 500,
                radius_thousandths: outer_radius,
            },
        );
        r.push(
            GearVertex {
                whole_radians: i,
                central_thousandths: overlap as i32,
                radius_thousandths: inner_radius,
            },
        );
        proof {
            assert(r@ =~= gear_verts_up_to(
                i + 1,
                inner_radius as int,
                outer_radius as int,
                overlap as int,
            ));
        }
    }
    r
}

/// The menu's start button: its gear-patterned vertex list, ready for the
/// shell to turn into a GPU buffer.
pub struct StartButton {
    pub vertexes: Vec<GearVertex>,
}

impl StartButton {
    /// Build the start button: a 12-tooth gear with inner radius 0.1,
    /// outer radius 0.12 and tooth overlap 0.2.
    pub fn new() -> (r: StartButton)
        ensures
            r.vertexes@ == gear_verts(12, 100, 120, 200),
            r.vertexes@.len() == 33,
    {
        StartButton { vertexes: gen_gear_vertexes(12, 100, 120, 200) }
    }
}

} // verus!
