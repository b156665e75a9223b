#![allow(unused_imports)]
use gerber_types::{Aperture, ApertureAttribute, ApertureBlock, ApertureDefinition, ApertureFunction,
    AttributeDeletionCriterion, AxisSelect, Circle, Command, CommentContent, ComponentCharacteristics,
    ComponentDrill, ComponentMounting, ComponentOutline, CoordinateFormat, CoordinateNumber,
    CoordinateOffset, Coordinates, CopperType, DCode, Decimal, DrillFunction, DrillRouteType,
    ExtendedCode, ExtendedPosition, FiducialScope, FileAttribute, FileFunction, FilePolarity,
    FunctionCode, GCode, GenerationSoftware, GerberCode, GerberDate, GerberError,
    IPC4761ViaProtection, Ident, ImageMirroring, ImageName, ImageOffset, ImagePolarity,
    ImageRotation, ImageScaling, InterpolationMode, MCode, MacroDecimal, Mirroring, Net,
    NonPlatedDrill, ObjectAttribute, Operation, PartialGerberCode, Part, Pin, PlatedDrill,
    Polarity, Polygon, Position, Profile, QuadrantMode, Rectangular, Rotation, Scaling,
    SmdPadType, StandardComment, StepAndRepeat, SupplierPart, TextMirroring, TextMode, Unit, Uuid};



fn code<G: GerberCode>(g: &G) -> String {
    let mut out = String::new();
    g.serialize(&mut out).unwrap();
    out
}

fn partial<G: PartialGerberCode>(g: &G) -> String {
    let mut out = String::new();
    g.serialize_partial(&mut out).unwrap();
    out
}

/// The decimal with the value of `v`, to six places.
fn dec(v: f64) -> Decimal {
    Decimal::new((v * 1_000_000.0).round() as i64)
}

#[test]
fn test_debug() {
        //! The debug representation should work properly.
        let c = Command::FunctionCode(FunctionCode::GCode(GCode::Comment(CommentContent::String(
            "test".to_string(),
        ))));
        let debug = format!("{:?}", c);
        assert_eq!(debug, "FunctionCode(GCode(Comment(String(\"test\"))))");
    }

#[test]
fn test_function_code_serialize() {
        //! A `FunctionCode` should implement `GerberCode`
        let c = FunctionCode::GCode(GCode::Comment(CommentContent::String(
            "comment".to_string(),
        )));
        assert_eq!(code(&c), "G04 comment*\n");
    }

#[test]
fn test_function_code_from_gcode() {
        let comment = GCode::Comment(CommentContent::String("hello".into()));
        let f1: FunctionCode = FunctionCode::GCode(comment.clone());
        let f2: FunctionCode = comment.into();
        assert_eq!(f1, f2);
    }

#[test]
fn test_command_from_function_code() {
        let comment = FunctionCode::GCode(GCode::Comment(CommentContent::String("hello".into())));
        let c1: Command = Command::FunctionCode(comment.clone());
        let c2: Command = comment.into();
        assert_eq!(c1, c2);
    }

#[test]
fn test_command_from_extended_code() {
        let delete_attr = ExtendedCode::DeleteAttribute(
            AttributeDeletionCriterion::SingleApertureAttribute("test".to_string()),
        );
        let c1: Command = Command::ExtendedCode(delete_attr.clone());
        let c2: Command = delete_attr.into();
        assert_eq!(c1, c2);
    }

#[test]
fn test_extended_code_from_step_and_repeat() {
        let e1: ExtendedCode = ExtendedCode::StepAndRepeat(StepAndRepeat::Close);
        let e2: ExtendedCode = StepAndRepeat::Close.into();
        assert_eq!(e1, e2);
    }

#[test]
fn test_extended_code_from_aperture_block() {
        let e1: ExtendedCode = ExtendedCode::ApertureBlock(ApertureBlock::Open { code: 102 });
        let e2: ExtendedCode = ApertureBlock::Open { code: 102 }.into();
        assert_eq!(e1, e2);
    }

#[test]
fn test_extended_code_from_polarity() {
        let e1: ExtendedCode = ExtendedCode::LoadPolarity(Polarity::Dark);
        let e2: ExtendedCode = Polarity::Dark.into();
        assert_eq!(e1, e2);
    }

#[test]
fn test_extended_code_from_mirroring() {
        let e1: ExtendedCode = ExtendedCode::LoadMirroring(Mirroring::XY);
        let e2: ExtendedCode = Mirroring::XY.into();
        assert_eq!(e1, e2);
    }

#[test]
fn test_extended_code_from_scaling() {
        let e1: ExtendedCode = ExtendedCode::LoadScaling(Scaling { scale: dec(50.0) });
        let e2: ExtendedCode = Scaling { scale: dec(50.0) }.into();
        assert_eq!(e1, e2);
    }

#[test]
fn test_extended_code_from_rotation() {
        let e1: ExtendedCode = ExtendedCode::LoadRotation(Rotation { rotation: dec(90.0) });
        let e2: ExtendedCode = Rotation { rotation: dec(90.0) }.into();
        assert_eq!(e1, e2);
    }
