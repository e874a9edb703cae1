use bulbtracer::formulas::AexionC;
use bulbtracer::formulas::Bulbox;
use bulbtracer::formulas::EmptyFormula;
use bulbtracer::formulas::FormulaId;
use bulbtracer::formulas::MandelbulbPower2;
use bulbtracer::formulas::MandelbulbPower8;
use bulbtracer::formulas::QuaternionJulia;
use bulbtracer::formulas::Tricorn;
use bulbtracer::formulas::formula_id_from_u32;

#[test]
fn from_name_knows_every_formula() {
    assert_eq!(FormulaId::from_name("Mandelbulb Power 2"), FormulaId::MandelbulbPower2);
    assert_eq!(FormulaId::from_name("Mandelbulb Power 8"), FormulaId::MandelbulbPower8);
    assert_eq!(FormulaId::from_name("Amazing Box"), FormulaId::AmazingBox);
    assert_eq!(FormulaId::from_name("Amazing Surf"), FormulaId::AmazingSurf);
    assert_eq!(FormulaId::from_name("Quaternion Julia"), FormulaId::QuaternionJulia);
    assert_eq!(FormulaId::from_name("Tricorn"), FormulaId::Tricorn);
    assert_eq!(FormulaId::from_name("Bulbox"), FormulaId::Bulbox);
    assert_eq!(FormulaId::from_name("Folding IntPow"), FormulaId::FoldingIntPow);
    assert_eq!(FormulaId::from_name("Real Power"), FormulaId::RealPower);
    assert_eq!(FormulaId::from_name("Aexion C"), FormulaId::AexionC);
}

#[test]
fn from_name_rejects_unknown_names() {
    assert_eq!(FormulaId::from_name(""), FormulaId::Empty);
    assert_eq!(FormulaId::from_name("Mandelbulb Power 3"), FormulaId::Empty);
    assert_eq!(FormulaId::from_name("mandelbulb power 8"), FormulaId::Empty);
}

#[test]
fn numeric_codes_match_the_table() {
    assert_eq!(formula_id_from_u32(0), FormulaId::Empty);
    assert_eq!(formula_id_from_u32(1), FormulaId::MandelbulbPower2);
    assert_eq!(formula_id_from_u32(2), FormulaId::MandelbulbPower8);
    assert_eq!(formula_id_from_u32(3), FormulaId::AmazingBox);
    assert_eq!(formula_id_from_u32(4), FormulaId::AmazingSurf);
    assert_eq!(formula_id_from_u32(5), FormulaId::QuaternionJulia);
    assert_eq!(formula_id_from_u32(6), FormulaId::Tricorn);
    assert_eq!(formula_id_from_u32(7), FormulaId::Bulbox);
    assert_eq!(formula_id_from_u32(8), FormulaId::FoldingIntPow);
    assert_eq!(formula_id_from_u32(9), FormulaId::RealPower);
    assert_eq!(formula_id_from_u32(10), FormulaId::AexionC);
    assert_eq!(formula_id_from_u32(11), FormulaId::Empty);
    assert_eq!(formula_id_from_u32(u32::MAX), FormulaId::Empty);
}

#[test]
fn marker_names_round_trip_through_from_name() {
    assert_eq!(FormulaId::from_name(MandelbulbPower2.name()), FormulaId::MandelbulbPower2);
    assert_eq!(FormulaId::from_name(MandelbulbPower8.name()), FormulaId::MandelbulbPower8);
    assert_eq!(FormulaId::from_name(QuaternionJulia.name()), FormulaId::QuaternionJulia);
    assert_eq!(FormulaId::from_name(Tricorn.name()), FormulaId::Tricorn);
    assert_eq!(FormulaId::from_name(Bulbox.name()), FormulaId::Bulbox);
    assert_eq!(FormulaId::from_name(AexionC.name()), FormulaId::AexionC);
    assert_eq!(EmptyFormula.name(), "(none)");
}
