//! Formula identifiers and the parameterless formula markers.
//!
//! Every fractal formula the renderer knows is named by a [`FormulaId`].
//! The identifier arrives either as a UI name string or as a numeric code
//! inside the formula-configuration buffer; both decoders live here with
//! exact contracts.  The formulas that carry no parameters of their own
//! are represented by marker types whose display names are pinned down.

use vstd::prelude::*;
use crate::utils::str_eq;

verus! {

/// Identifier for each built-in fractal formula.
#[derive(Clone, Copy, Debug, PartialEq, Eq, Structural)]
pub enum FormulaId {
    Empty,
    MandelbulbPower2,
    MandelbulbPower8,
    AmazingBox,
    AmazingSurf,
    QuaternionJulia,
    Tricorn,
    Bulbox,
    FoldingIntPow,
    RealPower,
    AexionC,
}

/// The formula that a UI name string selects; unknown names select no formula.
pub open spec fn formula_id_of_name(s: Seq<char>) -> FormulaId {
    if s == "Mandelbulb Power 2"@ {
        FormulaId::MandelbulbPower2
    } else if s == "Mandelbulb Power 8"@ {
        FormulaId::MandelbulbPower8
    } else if s == "Amazing Box"@ {
        FormulaId::AmazingBox
    } else if s == "Amazing Surf"@ {
        FormulaId::AmazingSurf
    } else if s == "Quaternion Julia"@ {
        FormulaId::QuaternionJulia
    } else if s == "Tricorn"@ {
        FormulaId::Tricorn
    } else if s == "Bulbox"@ {
        FormulaId::Bulbox
    } else if s == "Folding IntPow"@ {
        FormulaId::FoldingIntPow
    } else if s == "Real Power"@ {
        FormulaId::RealPower
    } else if s == "Aexion C"@ {
        FormulaId::AexionC
    } else {
        FormulaId::Empty
    }
}

/// The formula that a numeric code in the configuration buffer selects;
/// codes outside the table select no formula.
pub open spec fn spec_formula_id_from_u32(id: u32) -> FormulaId {
    if id == 1 {
        FormulaId::MandelbulbPower2
    } else if id == 2 {
        FormulaId::MandelbulbPower8
    } else if id == 3 {
        FormulaId::AmazingBox
    } else if id == 4 {
        FormulaId::AmazingSurf
    } else if id == 5 {
        FormulaId::QuaternionJulia
    } else if id == 6 {
        FormulaId::Tricorn
    } else if id == 7 {
        FormulaId::Bulbox
    } else if id == 8 {
        FormulaId::FoldingIntPow
    } else if id == 9 {
        FormulaId::RealPower
    } else if id == 10 {
        FormulaId::AexionC
    } else {
        FormulaId::Empty
    }
}

impl FormulaId {
    /// Parse a formula from its UI dropdown name.
    pub fn from_name(name: &str) -> (r: FormulaId)
        ensures
            r == formula_id_of_name(name@),
    {
        if str_eq(name, "Mandelbulb Power 2") {
            FormulaId::MandelbulbPower2
        } else if str_eq(name, "Mandelbulb Power 8") {
            FormulaId::MandelbulbPower8
        } else if str_eq(name, "Amazing Box") {
            FormulaId::AmazingBox
        } else if str_eq(name, "Amazing Surf") {
            FormulaId::AmazingSurf
        } else if str_eq(name, "Quaternion Julia") {
            FormulaId::QuaternionJulia
        } else if str_eq(name, "Tricorn") {
            FormulaId::Tricorn
        } else if str_eq(name, "Bulbox") {
            FormulaId::Bulbox
        } else if str_eq(name, "Folding IntPow") {
            FormulaId::FoldingIntPow
        } else if str_eq(name, "Real Power") {
            FormulaId::RealPower
        } else if str_eq(name, "Aexion C") {
            FormulaId::AexionC
        } else {
            FormulaId::Empty
        }
    }
}

/// Map a numeric formula code from the configuration buffer to its identifier.
pub fn formula_id_from_u32(id: u32) -> (r: FormulaId)
    ensures
        r == spec_formula_id_from_u32(id),
{
    if id == 1 {
        FormulaId::MandelbulbPower2
    } else if id == 2 {
        FormulaId::MandelbulbPower8
    } else if id == 3 {
        FormulaId::AmazingBox
    } else if id == 4 {
        FormulaId::AmazingSurf
    } else if id == 5 {
        FormulaId::QuaternionJulia
    } else if id == 6 {
        FormulaId::Tricorn
    } else if id == 7 {
        FormulaId::Bulbox
    } else if id == 8 {
        FormulaId::FoldingIntPow
    } else if id == 9 {
        FormulaId::RealPower
    } else if id == 10 {
        FormulaId::AexionC
    } else {
        FormulaId::Empty
    }
}

/// Placeholder formula for a slot that is not in use.
pub struct EmptyFormula;

/// The degree-2 spherical-power formula.
pub struct MandelbulbPower2;

/// The classic degree-8 spherical-power formula.
pub struct MandelbulbPower8;

/// Quaternion squaring in four dimensions.
pub struct QuaternionJulia;

/// The conjugated degree-2 spherical-power formula.
pub struct Tricorn;

/// Box fold followed by a degree-2 spherical-power step.
pub struct Bulbox;

/// Bicomplex squaring in four dimensions.
pub struct AexionC;

impl EmptyFormula {
    /// Human-readable name of this formula.
    pub fn name(&self) -> (r: &'static str)
        ensures
            r@ == "(none)"@,
    {
        "(none)"
    }
}

impl MandelbulbPower2 {
    /// Human-readable name of this formula.
    pub fn name(&self) -> (r: &'static str)
        ensures
            r@ == "Mandelbulb Power 2"@,
    {
        "Mandelbulb Power 2"
    }
}

impl MandelbulbPower8 {
    /// Human-readable name of this formula.
    pub fn name(&self) -> (r: &'static str)
        ensures
            r@ == "Mandelbulb Power 8"@,
    {
        "Mandelbulb Power 8"
    }
}

impl QuaternionJulia {
    /// Human-readable name of this formula.
    pub fn name(&self) -> (r: &'static str)
        ensures
            r@ == "Quaternion Julia"@,
    {
        "Quaternion Julia"
    }
}

impl Tricorn {
    /// Human-readable name of this formula.
    pub fn name(&self) -> (r: &'static str)
        ensures
            r@ == "Tricorn"@,
    {
        "Tricorn"
    }
}

impl Bulbox {
    /// Human-readable name of this formula.
    pub fn name(&self) -> (r: &'static str)
        ensures
            r@ == "Bulbox"@,
    {
        "Bulbox"
    }
}

impl AexionC {
    /// Human-readable name of this formula.
    pub fn name(&self) -> (r: &'static str)
        ensures
            r@ == "Aexion C"@,
    {
        "Aexion C"
    }
}

} // verus!
