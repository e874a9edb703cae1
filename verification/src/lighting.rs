//! Packed records of the lighting parameter block.

use vstd::prelude::*;

verus! {

/// One packed light source definition (32 bytes in the scene parameter block).
#[derive(Clone, Copy)]
pub struct Light8 {
    /// Position, three 7-byte packed doubles.
    pub pos: [u8; 21],
    /// Light color as RGB bytes.
    pub color: [u8; 3],
    /// Diffuse amplitude.
    pub amplitude: u16,
    /// Light function type.
    pub func_type: u8,
    /// Lightmap number.
    pub lightmap: u8,
    /// Specular size.
    pub spec_size: u8,
    /// Reserved trailing bytes.
    pub reserved: [u8; 3],
}

impl Default for Light8 {
    /// The all-zero light record.
    fn default() -> (r: Self)
        ensures
            forall|i: int| 0 <= i < 21 ==> r.pos@[i] == 0,
            forall|i: int| 0 <= i < 3 ==> r.color@[i] == 0,
            r.amplitude == 0,
            r.func_type == 0,
            r.lightmap == 0,
            r.spec_size == 0,
            forall|i: int| 0 <= i < 3 ==> r.reserved@[i] == 0,
    {
        Light8 {
            pos: [0u8; 21],
            color: [0u8; 3],
            amplitude: 0,
            func_type: 0,
            lightmap: 0,
            spec_size: 0,
            reserved: [0u8; 3],
        }
    }
}

} // verus!
