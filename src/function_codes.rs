//! Function codes: D codes (operations, aperture selection), G codes (modes,
//! comments) and M codes (end of file).
use vstd::prelude::*;

use crate::attributes::{
    date_message, ApertureAttribute, FileAttribute, ObjectAttribute,
};
use crate::coordinates::{CoordinateOffset, Coordinates};
use crate::errors::{GerberError, is_conversion_error};
use crate::extended_codes::Unit;
use crate::text::{int_text, push_int};
use crate::traits::{GerberCode, PartialGerberCode};

verus! {

/// `1` for true, `0` for false.
impl PartialGerberCode for bool {
    open spec fn partial_ok(&self) -> bool {
        true
    }

    open spec fn partial_code(&self) -> Seq<char> {
        if *self {
            "1"@
        } else {
            "0"@
        }
    }

    open spec fn is_partial_error(&self, e: GerberError) -> bool {
        false
    }

    fn serialize_partial(&self, out: &mut String) -> (r: Result<(), GerberError>) {
        if *self {
            out.append("1");
        } else {
            out.append("0");
        }
        Ok(())
    }
}

/// Whether coordinates are absolute or relative to the current point.
#[derive(Debug, Clone, Copy, PartialEq, Eq, Structural)]
pub enum CoordinateMode {
    Absolute,
    Incremental,
}

/// A D code: an operation, or the selection of an aperture by its number.
#[derive(Debug, Clone, PartialEq, Eq)]
pub enum DCode {
    Operation(Operation),
    SelectAperture(i32),
}

impl GerberCode for DCode {
    open spec fn code_ok(&self) -> bool {
        match self {
            DCode::Operation(op) => op.code_ok(),
            DCode::SelectAperture(_) => true,
        }
    }

    open spec fn code(&self) -> Seq<char> {
        match self {
            DCode::Operation(op) => op.code(),
            DCode::SelectAperture(code) => "D"@ + int_text(*code as int) + "*\n"@,
        }
    }

    open spec fn is_code_error(&self, e: GerberError) -> bool {
        match self {
            DCode::Operation(op) => op.is_code_error(e),
            DCode::SelectAperture(_) => false,
        }
    }

    fn serialize(&self, out: &mut String) -> (r: Result<(), GerberError>) {
        match self {
            DCode::Operation(op) => op.serialize(out),
            DCode::SelectAperture(code) => {
                out.append("D");
                push_int(out, *code as i64);
                out.append("*\n");
                proof {
                    assert(out@ =~= old(out)@ + self.code());
                }
                Ok(())
            },
        }
    }
}

/// A G code: a mode change or a comment.
#[derive(Debug, Clone, PartialEq)]
pub enum GCode {
    InterpolationMode(InterpolationMode),
    RegionMode(bool),
    QuadrantMode(QuadrantMode),
    Comment(CommentContent),
    /// Deprecated since December 2012, but still in use
    Unit(Unit),
    /// Deprecated since December 2012, but still in use
    CoordinateMode(CoordinateMode),
    /// Deprecated since December 2012, but still in use
    SelectAperture,
}

impl GerberCode for GCode {
    open spec fn code_ok(&self) -> bool {
        match self {
            GCode::Comment(c) => c.partial_ok(),
            _ => true,
        }
    }

    open spec fn code(&self) -> Seq<char> {
        match self {
            GCode::InterpolationMode(mode) => mode.code(),
            GCode::RegionMode(enabled) => if *enabled {
                "G36*\n"@
            } else {
                "G37*\n"@
            },
            GCode::QuadrantMode(mode) => mode.code(),
            GCode::Comment(c) => "G04 "@ + c.partial_code() + "*\n"@,
            GCode::Unit(unit) => match unit {
                Unit::Inches => "G70*\n"@,
                Unit::Millimeters => "G71*\n"@,
            },
            GCode::CoordinateMode(mode) => match mode {
                CoordinateMode::Absolute => "G90*\n"@,
                CoordinateMode::Incremental => "G91*\n"@,
            },
            GCode::SelectAperture => "G54*\n"@,
        }
    }

    open spec fn is_code_error(&self, e: GerberError) -> bool {
        match self {
            GCode::Comment(c) => c.is_partial_error(e),
            _ => false,
        }
    }

    fn serialize(&self, out: &mut String) -> (r: Result<(), GerberError>) {
        match self {
            GCode::InterpolationMode(mode) => mode.serialize(out),
            GCode::RegionMode(enabled) => {
                if *enabled {
                    out.append("G36*\n");
                } else {
                    out.append("G37*\n");
                }
                Ok(())
            },
            GCode::QuadrantMode(mode) => mode.serialize(out),
            GCode::Comment(c) => {
                out.append("G04 ");
                match c.serialize_partial(out) {
                    Err(e) => Err(e),
                    Ok(()) => {
                        out.append("*\n");
                        proof {
                            assert(out@ =~= old(out)@ + self.code());
                        }
                        Ok(())
                    },
                }
            },
            GCode::Unit(unit) => {
                match unit {
                    Unit::Inches => out.append("G70*\n"),
                    Unit::Millimeters => out.append("G71*\n"),
                }
                Ok(())
            },
            GCode::CoordinateMode(mode) => {
                match mode {
                    CoordinateMode::Absolute => out.append("G90*\n"),
                    CoordinateMode::Incremental => out.append("G91*\n"),
                }
                Ok(())
            },
            GCode::SelectAperture => {
                out.append("G54*\n");
                Ok(())
            },
        }
    }
}

/// The content of a comment (G04): free text, or a standard comment that
/// carries an attribute.
#[derive(Debug, Clone, PartialEq)]
pub enum CommentContent {
    String(String),
    /// Content starting with `#@!` is reserved for standard comments, which
    /// add meta-information in a formally defined manner without affecting
    /// the image.
    Standard(StandardComment),
}

impl PartialGerberCode for CommentContent {
    open spec fn partial_ok(&self) -> bool {
        match self {
            CommentContent::String(_) => true,
            CommentContent::Standard(s) => s.partial_ok(),
        }
    }

    open spec fn partial_code(&self) -> Seq<char> {
        match self {
            CommentContent::String(s) => s@,
            CommentContent::Standard(s) => s.partial_code(),
        }
    }

    open spec fn is_partial_error(&self, e: GerberError) -> bool {
        match self {
            CommentContent::String(_) => false,
            CommentContent::Standard(s) => s.is_partial_error(e),
        }
    }

    fn serialize_partial(&self, out: &mut String) -> (r: Result<(), GerberError>) {
        match self {
            CommentContent::String(s) => {
                out.append(s.as_str());
                Ok(())
            },
            CommentContent::Standard(s) => s.serialize_partial(out),
        }
    }
}

/// A standard comment: `#@! ` followed by an attribute command without its
/// `%` delimiters.
#[derive(Debug, Clone, PartialEq)]
pub enum StandardComment {
    /// TF
    FileAttribute(FileAttribute),
    /// TO
    ObjectAttribute(ObjectAttribute),
    /// TA
    ApertureAttribute(ApertureAttribute),
    /// TD, with the name of the attribute to delete, or empty for all
    DeleteAttribute(String),
}

impl PartialGerberCode for StandardComment {
    open spec fn partial_ok(&self) -> bool {
        match self {
            StandardComment::FileAttribute(fa) => fa.partial_ok(),
            _ => true,
        }
    }

    open spec fn partial_code(&self) -> Seq<char> {
        "#@! "@ + match self {
            StandardComment::FileAttribute(fa) => "TF"@ + fa.partial_code(),
            StandardComment::ObjectAttribute(oa) => "TO"@ + oa.partial_code(),
            StandardComment::ApertureAttribute(aa) => "TA"@ + aa.partial_code(),
            StandardComment::DeleteAttribute(name) => "TD"@ + if name@.len() == 0 {
                Seq::empty()
            } else {
                "."@ + name@
            },
        }
    }

    open spec fn is_partial_error(&self, e: GerberError) -> bool {
        is_conversion_error(e, date_message())
    }

    fn serialize_partial(&self, out: &mut String) -> (r: Result<(), GerberError>) {
        out.append("#@! ");
        match self {
            StandardComment::FileAttribute(fa) => {
                out.append("TF");
                if let Err(e) = fa.serialize_partial(out) {
                    return Err(e);
                }
            },
            StandardComment::ObjectAttribute(oa) => {
                out.append("TO");
                let _ = oa.serialize_partial(out);
            },
            StandardComment::ApertureAttribute(aa) => {
                out.append("TA");
                let _ = aa.serialize_partial(out);
            },
            StandardComment::DeleteAttribute(name) => {
                out.append("TD");
                if !name.as_str().is_empty() {
                    out.append(".");
                    out.append(name.as_str());
                }
            },
        }
        proof {
            assert(out@ =~= old(out)@ + self.partial_code());
        }
        Ok(())
    }
}

/// An M code.
#[derive(Debug, Clone, PartialEq, Eq, Structural)]
pub enum MCode {
    EndOfFile,
}

impl GerberCode for MCode {
    open spec fn code_ok(&self) -> bool {
        true
    }

    open spec fn code(&self) -> Seq<char> {
        "M02*\n"@
    }

    open spec fn is_code_error(&self, e: GerberError) -> bool {
        false
    }

    fn serialize(&self, out: &mut String) -> (r: Result<(), GerberError>) {
        out.append("M02*\n");
        Ok(())
    }
}

/// A drawing operation.
#[derive(Debug, Clone, PartialEq, Eq)]
pub enum Operation {
    /// D01: `['X' integer] ['Y' integer] ['I' integer 'J' integer] 'D01*'`
    Interpolate(Option<Coordinates>, Option<CoordinateOffset>),
    /// D02: `['X' integer] ['Y' integer] 'D02*'`
    Move(Option<Coordinates>),
    /// D03: `['X' integer] ['Y' integer] 'D03*'`
    Flash(Option<Coordinates>),
}

impl GerberCode for Operation {
    open spec fn code_ok(&self) -> bool {
        match self {
            Operation::Interpolate(c, o) => c.partial_ok() && o.partial_ok(),
            Operation::Move(c) => c.partial_ok(),
            Operation::Flash(c) => c.partial_ok(),
        }
    }

    open spec fn code(&self) -> Seq<char> {
        match self {
            Operation::Interpolate(c, o) => c.partial_code() + o.partial_code() + "D01*\n"@,
            Operation::Move(c) => c.partial_code() + "D02*\n"@,
            Operation::Flash(c) => c.partial_code() + "D03*\n"@,
        }
    }

    /// The error of the coordinates, or else of the offset.
    open spec fn is_code_error(&self, e: GerberError) -> bool {
        match self {
            Operation::Interpolate(c, o) => if !c.partial_ok() {
                c.is_partial_error(e)
            } else {
                o.is_partial_error(e)
            },
            Operation::Move(c) => c.is_partial_error(e),
            Operation::Flash(c) => c.is_partial_error(e),
        }
    }

    fn serialize(&self, out: &mut String) -> (r: Result<(), GerberError>) {
        match self {
            Operation::Interpolate(c, o) => {
                if let Err(e) = c.serialize_partial(out) {
                    return Err(e);
                }
                if let Err(e) = o.serialize_partial(out) {
                    return Err(e);
                }
                out.append("D01*\n");
            },
            Operation::Move(c) => {
                if let Err(e) = c.serialize_partial(out) {
                    return Err(e);
                }
                out.append("D02*\n");
            },
            Operation::Flash(c) => {
                if let Err(e) = c.serialize_partial(out) {
                    return Err(e);
                }
                out.append("D03*\n");
            },
        }
        proof {
            assert(out@ =~= old(out)@ + self.code());
        }
        Ok(())
    }
}

/// How the segments of a contour or a draw are interpolated.
#[derive(Debug, Clone, Copy, PartialEq, Eq, Structural)]
pub enum InterpolationMode {
    Linear,
    ClockwiseCircular,
    CounterclockwiseCircular,
}

impl GerberCode for InterpolationMode {
    open spec fn code_ok(&self) -> bool {
        true
    }

    open spec fn code(&self) -> Seq<char> {
        match self {
            InterpolationMode::Linear => "G01*\n"@,
            InterpolationMode::ClockwiseCircular => "G02*\n"@,
            InterpolationMode::CounterclockwiseCircular => "G03*\n"@,
        }
    }

    open spec fn is_code_error(&self, e: GerberError) -> bool {
        false
    }

    fn serialize(&self, out: &mut String) -> (r: Result<(), GerberError>) {
        match self {
            InterpolationMode::Linear => out.append("G01*\n"),
            InterpolationMode::ClockwiseCircular => out.append("G02*\n"),
            InterpolationMode::CounterclockwiseCircular => out.append("G03*\n"),
        }
        Ok(())
    }
}

/// Whether circular arcs may span one quadrant or several.
#[derive(Debug, Clone, Copy, PartialEq, Eq, Structural)]
pub enum QuadrantMode {
    Single,
    Multi,
}

impl GerberCode for QuadrantMode {
    open spec fn code_ok(&self) -> bool {
        true
    }

    open spec fn code(&self) -> Seq<char> {
        match self {
            QuadrantMode::Single => "G74*\n"@,
            QuadrantMode::Multi => "G75*\n"@,
        }
    }

    open spec fn is_code_error(&self, e: GerberError) -> bool {
        false
    }

    fn serialize(&self, out: &mut String) -> (r: Result<(), GerberError>) {
        match self {
            QuadrantMode::Single => out.append("G74*\n"),
            QuadrantMode::Multi => out.append("G75*\n"),
        }
        Ok(())
    }
}

} // verus!
