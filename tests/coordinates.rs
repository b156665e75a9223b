#![allow(unused_imports)]
use gerber_types::{FloatClass, Aperture, ApertureAttribute, ApertureBlock, ApertureDefinition, ApertureFunction,
    AttributeDeletionCriterion, AxisSelect, Circle, Command, CommentContent, ComponentCharacteristics,
    ComponentDrill, ComponentMounting, ComponentOutline, CoordinateFormat, CoordinateNumber,
    CoordinateOffset, Coordinates, CopperType, DCode, Decimal, DrillFunction, DrillRouteType,
    ExtendedCode, ExtendedPosition, FiducialScope, FileAttribute, FileFunction, FilePolarity,
    FunctionCode, GCode, GenerationSoftware, GerberCode, GerberDate, GerberError,
    IPC4761ViaProtection, Ident, ImageMirroring, ImageName, ImageOffset, ImagePolarity,
    ImageRotation, ImageScaling, InterpolationMode, MCode, MacroDecimal, Mirroring, Net,
    NonPlatedDrill, ObjectAttribute, Operation, PartialGerberCode, Part, Pin, PlatedDrill,
    Polarity, Polygon, Position, Profile, QuadrantMode, Rectangular, Rotation, Scaling,
    SmdPadType, StandardComment, StepAndRepeat, SupplierPart, TextMirroring, TextMode, Unit, Uuid};


/// A float as a coordinate number: the float's class and its truncated
/// millionths, handed to the library.
fn from_f64(val: f64) -> Result<CoordinateNumber, GerberError> {
    let class = match val.classify() {
        std::num::FpCategory::Nan => FloatClass::Nan,
        std::num::FpCategory::Infinite => FloatClass::Infinite,
        std::num::FpCategory::Zero => FloatClass::Zero,
        std::num::FpCategory::Subnormal => FloatClass::Subnormal,
        std::num::FpCategory::Normal => FloatClass::Normal,
    };
    let multiplied = val * 1_000_000.0;
    let scaled = if multiplied > i64::MAX as f64 || multiplied < i64::MIN as f64 || multiplied.is_nan() {
        None
    } else {
        Some(multiplied as i64)
    };
    CoordinateNumber::from_float_parts(class, scaled)
}

/// A coordinate number as a float: its millionths divided by a million.
fn to_f64(c: CoordinateNumber) -> f64 {
    c.nano as f64 / 1_000_000.0
}


fn code<G: GerberCode>(g: &G) -> String {
    let mut out = String::new();
    g.serialize(&mut out).unwrap();
    out
}

fn partial<G: PartialGerberCode>(g: &G) -> String {
    let mut out = String::new();
    g.serialize_partial(&mut out).unwrap();
    out
}

/// The decimal with the value of `v`, to six places.
fn dec(v: f64) -> Decimal {
    Decimal::new((v * 1_000_000.0).round() as i64)
}

#[test]
fn test_from_i8() {
        let a = CoordinateNumber { nano: 13000000 };
        let b = CoordinateNumber::from(13i8);
        assert_eq!(a, b);

        let c = CoordinateNumber { nano: -99000000 };
        let d = CoordinateNumber::from(-99i8);
        assert_eq!(c, d);
    }

#[test]
fn test_from_i32() {
        let a = CoordinateNumber { nano: 13000000 };
        let b = CoordinateNumber::from(13);
        assert_eq!(a, b);

        let c = CoordinateNumber { nano: -998000000 };
        let d = CoordinateNumber::from(-998);
        assert_eq!(c, d);
    }

#[test]
fn test_into_f64() {
        let a: f64 = to_f64(CoordinateNumber { nano: 1375000i64 });
        let b = 1.375f64;
        assert_eq!(a, b);

        let c: f64 = to_f64(CoordinateNumber {
            nano: 123456888888i64,
        });
        let d = 123456.888888f64;
        assert_eq!(c, d);

        let e: f64 = to_f64(CoordinateNumber { nano: 0i64 });
        let f = 0f64;
        assert_eq!(e, f);
    }

#[test]
fn test_coordinate_number_new() {
        let nano = 5;
        let cn1 = CoordinateNumber::new(nano);
        assert_eq!(cn1.nano, nano);
    }

#[test]
fn test_formatted_zero() {
        let cf1 = CoordinateFormat::new(6, 6);
        let cf2 = CoordinateFormat::new(2, 4);

        let a = CoordinateNumber { nano: 0 }.gerber(&cf1).unwrap();
        let b = CoordinateNumber { nano: 0 }.gerber(&cf2).unwrap();
        assert_eq!(a, "0".to_string());
        assert_eq!(b, "0".to_string());
    }

#[test]
fn test_formatted_decimal_zero() {
        let cf1 = CoordinateFormat::new(6, 6);
        let cf2 = CoordinateFormat::new(2, 4);

        let a = CoordinateNumber { nano: 10000000 }.gerber(&cf1).unwrap();
        let b = CoordinateNumber { nano: 20000000 }.gerber(&cf2).unwrap();
        assert_eq!(a, "10000000".to_string());
        assert_eq!(b, "200000".to_string());
    }

#[test]
fn test_formatted_65() {
        let cf = CoordinateFormat::new(6, 5);
        let d = CoordinateNumber { nano: 123456789012 }.gerber(&cf).unwrap();
        assert_eq!(d, "12345678901".to_string());
    }

#[test]
fn test_formatted_54() {
        let cf = CoordinateFormat::new(5, 4);
        let d = CoordinateNumber { nano: 12345678901 }.gerber(&cf).unwrap();
        assert_eq!(d, "123456789".to_string());
    }

#[test]
fn test_formatted_number_too_large() {
        let cf = CoordinateFormat::new(4, 5);
        let d = CoordinateNumber { nano: 12345000000 }.gerber(&cf);
        assert!(d.is_err());
    }

#[test]
fn test_formatted_negative_number_too_large() {
        let cf = CoordinateFormat::new(4, 5);
        let d = CoordinateNumber { nano: -12345000000 }.gerber(&cf);
        assert!(d.is_err());
    }

#[test]
fn test_formatted_44_rounding() {
        let cf = CoordinateFormat::new(4, 4);
        let d = CoordinateNumber { nano: 1234432199 }.gerber(&cf).unwrap();
        assert_eq!(d, "12344322".to_string());
    }

#[test]
fn test_formatted_negative_rounding() {
        let cf = CoordinateFormat::new(6, 4);
        let d = CoordinateNumber {
            nano: -123456789099,
        }
        .gerber(&cf)
        .unwrap();
        assert_eq!(d, "-1234567891".to_string());
    }

#[test]
fn test_coordinates_into() {
        let cf = CoordinateFormat::new(2, 4);
        let c1 = Coordinates::new(CoordinateNumber::from(1), CoordinateNumber::from(2), cf);
        let c2 = Coordinates::new(1, 2, cf);
        assert_eq!(c1, c2);
    }

#[test]
fn test_coordinates_into_option_some() {
        let cf = CoordinateFormat::new(2, 4);
        let c1 = Coordinates::new(CoordinateNumber::from(1), CoordinateNumber::from(2), cf);
        let c2 = Coordinates::new(Some(1), Some(2), cf);
        assert_eq!(c1, c2);
    }

#[test]
fn test_coordinates_into_option_none() {
        let cf = CoordinateFormat::new(2, 4);
        let c1 = Coordinates {
            x: None,
            y: None,
            format: cf,
        };
        let c2 = Coordinates::new::<Option<i8>, Option<i8>>(None, None, cf);
        assert_eq!(c1, c2);
    }

#[test]
fn test_coordinates_into_option_partial() {
        let cf = CoordinateFormat::new(2, 4);
        let c1 = Coordinates {
            x: Some(CoordinateNumber::from(1_i32)),
            y: None,
            format: cf,
        };
        let c2 = Coordinates::new::<Option<i32>, Option<i32>>(Some(1_i32), None, cf);
        assert_eq!(c1, c2);
    }

#[test]
fn test_coordinates_into_mixed() {
        let cf = CoordinateFormat::new(2, 4);
        let c1 = Coordinates::new(CoordinateNumber::from(1), 2, cf);
        let c2 = Coordinates::new(1, 2, cf);
        assert_eq!(c1, c2);
    }

#[test]
fn test_coordinates() {
        
        let cf44 = CoordinateFormat::new(4, 4);
        let cf46 = CoordinateFormat::new(4, 6);
        assert_eq!(partial(&Coordinates::new(10, 20, cf44)), "X100000Y200000");
        assert!(Coordinates::new(10, 20, cf44).validate().is_ok());
        assert_eq!(partial(&Coordinates::at_x(10, cf44)), "X100000");
        assert!(Coordinates::at_x(10, cf44).validate().is_ok());
        assert_eq!(partial(&Coordinates::at_x(Some(10), cf44)), "X100000");
        assert!(Coordinates::at_x(Some(10), cf44).validate().is_ok());
        assert_eq!(partial(&Coordinates::at_y(20, cf46)), "Y20000000");
        assert!(Coordinates::at_y(20, cf46).validate().is_ok());
        assert_eq!(partial(&Coordinates::at_y(Some(20), cf46)), "Y20000000");
        assert!(Coordinates::at_y(Some(20), cf46).validate().is_ok());
        assert_eq!(partial(&Coordinates::new(0, -400, cf44)), "X0Y-4000000");
        assert!(Coordinates::new(0, -400, cf44).validate().is_ok());
        assert_eq!(partial(&Coordinates::new(Some(0), Some(-400), cf44)), "X0Y-4000000");
        assert!(Coordinates::new(Some(0), Some(-400), cf44).validate().is_ok());
    }

#[test]
fn invalid_coordinates() {
        let cf44 = CoordinateFormat::new(4, 4);
        let coordinates = Coordinates {
            x: None,
            y: None,
            format: cf44,
        };

        assert!(matches!(
            coordinates.validate(),
            Err(GerberError::EmptyCoordinates)
        ));

        let cf23 = CoordinateFormat::new(2, 3);
        let bad = CoordinateNumber::new(100_001_000);
        let good = CoordinateNumber::new(99_999_000);

        assert!(bad.validate(&cf23).is_err());

        let coordinates = Coordinates {
            x: Some(bad),
            y: Some(good),
            format: cf23,
        };
        assert!(matches!(
            coordinates.validate(),
            Err(GerberError::CoordinateFormatError(_))
        ));
        let coordinates = Coordinates {
            x: Some(good),
            y: Some(bad),
            format: cf23,
        };
        assert!(matches!(
            coordinates.validate(),
            Err(GerberError::CoordinateFormatError(_))
        ));
        let coordinates = Coordinates {
            x: Some(bad),
            y: Some(bad),
            format: cf23,
        };
        assert!(matches!(
            coordinates.validate(),
            Err(GerberError::CoordinateFormatError(_))
        ));
    }

#[test]
fn test_offset() {
        
        let cf44 = CoordinateFormat::new(4, 4);
        let cf55 = CoordinateFormat::new(5, 5);
        let cf66 = CoordinateFormat::new(6, 6);
        assert_eq!(partial(&CoordinateOffset::new(10, 20, cf44)), "I100000J200000");
        assert!(CoordinateOffset::new(10, 20, cf44).validate().is_ok());
        assert_eq!(partial(&CoordinateOffset::at_x(Some(10), cf66)), "I10000000");
        assert!(CoordinateOffset::at_x(Some(10), cf66).validate().is_ok());
        assert_eq!(partial(&CoordinateOffset::at_x(10, cf66)), "I10000000");
        assert!(CoordinateOffset::at_x(10, cf66).validate().is_ok());
        assert_eq!(partial(&CoordinateOffset::at_y(Some(20), cf55)), "J2000000");
        assert!(CoordinateOffset::at_y(Some(20), cf55).validate().is_ok());
        assert_eq!(partial(&CoordinateOffset::at_y(20, cf55)), "J2000000");
        assert!(CoordinateOffset::at_y(20, cf55).validate().is_ok());
        assert_eq!(partial(&CoordinateOffset::new(0, -400, cf44)), "I0J-4000000");
        assert!(CoordinateOffset::new(0, -400, cf44).validate().is_ok());
        assert_eq!(partial(&CoordinateOffset::new(Some(0), Some(-400), cf44)), "I0J-4000000");
        assert!(CoordinateOffset::new(Some(0), Some(-400), cf44).validate().is_ok());
    }

#[test]
fn invalid_offset() {
        let cf44 = CoordinateFormat::new(4, 4);
        let coordinates = CoordinateOffset {
            x: None,
            y: None,
            format: cf44,
        };

        assert!(matches!(
            coordinates.validate(),
            Err(GerberError::EmptyCoordinates)
        ));

        let cf23 = CoordinateFormat::new(2, 3);
        let bad = CoordinateNumber::new(100_001_000);
        let good = CoordinateNumber::new(99_999_000);

        assert!(bad.validate(&cf23).is_err());

        let coordinates = CoordinateOffset {
            x: Some(bad),
            y: Some(good),
            format: cf23,
        };
        assert!(matches!(
            coordinates.validate(),
            Err(GerberError::CoordinateFormatError(_))
        ));
        let coordinates = CoordinateOffset {
            x: Some(good),
            y: Some(bad),
            format: cf23,
        };
        assert!(matches!(
            coordinates.validate(),
            Err(GerberError::CoordinateFormatError(_))
        ));
        let coordinates = CoordinateOffset {
            x: Some(bad),
            y: Some(bad),
            format: cf23,
        };
        assert!(matches!(
            coordinates.validate(),
            Err(GerberError::CoordinateFormatError(_))
        ));
    }

#[test]
fn test_validate_too_large_for_format() {
        // %FSLAX23Y23*%
        let cf23 = CoordinateFormat::new(2, 3);
        let number = CoordinateNumber::new(100_001_000);

        println!("{:?}", number);
        // 100_001000 = 100.001 = 2,3
        // '100' is too large for 2 digits before the decimal point
        assert!(number.nano == 100_001000);

        let result = number.validate(&cf23);
        println!("{:?}", result);
        assert!(matches!(
            result,
            Err(GerberError::CoordinateFormatError(str)) if str.eq("Number is too large for the chosen format!")
        ));
    }

#[test]
fn test_try_from_f64_success() {
        let a = CoordinateNumber { nano: 1375000i64 };
        let b = from_f64(1.375f64).unwrap();
        assert_eq!(a, b);

        let c = CoordinateNumber {
            nano: 123456888888i64,
        };
        let d = from_f64(123456.888888f64).unwrap();
        assert_eq!(c, d);

        let e = CoordinateNumber { nano: 0i64 };
        let f = from_f64(0f64).unwrap();
        assert_eq!(e, f);

        let g = CoordinateNumber { nano: -12345678 };
        let h = from_f64(-12.345678).unwrap();
        assert_eq!(g, h);
    }

#[test]
fn test_try_from_f64_fail() {
        let cn1 = from_f64(f64::NAN);
        assert!(cn1.is_err());

        let cn2 = from_f64(f64::INFINITY);
        assert!(cn2.is_err());

        let cn3 = from_f64(f64::MAX - 1.0);
        assert!(cn3.is_err());

        let cn4 = from_f64(f64::MIN + 1.0);
        assert!(cn4.is_err());
    }
