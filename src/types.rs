//! The command tree: a command is a function code or an extended code.
//!
//! All types are stateless: each holds everything it needs to render
//! itself, so for example every `Coordinates` value carries its format.
use vstd::prelude::*;

use crate::attributes::{
    date_message, ApertureAttribute, AttributeDeletionCriterion, FileAttribute, ObjectAttribute,
};
use crate::coordinates::CoordinateFormat;
use crate::errors::{GerberError, is_conversion_error};
use crate::extended_codes::{
    ApertureBlock, ApertureDefinition, AxisSelect, ImageMirroring, ImageName, ImageOffset,
    ImagePolarity, ImageRotation, ImageScaling, Mirroring, Polarity, Rotation, Scaling,
    StepAndRepeat, Unit,
};
use crate::function_codes::{DCode, GCode, MCode};
use crate::text::{nat_text, push_nat};
use crate::traits::{GerberCode, PartialGerberCode};

verus! {

/// A complete Gerber command.
#[derive(Debug, Clone, PartialEq)]
pub enum Command {
    FunctionCode(FunctionCode),
    ExtendedCode(ExtendedCode),
}

impl GerberCode for Command {
    open spec fn code_ok(&self) -> bool {
        match self {
            Command::FunctionCode(c) => c.code_ok(),
            Command::ExtendedCode(c) => c.code_ok(),
        }
    }

    open spec fn code(&self) -> Seq<char> {
        match self {
            Command::FunctionCode(c) => c.code(),
            Command::ExtendedCode(c) => c.code(),
        }
    }

    open spec fn is_code_error(&self, e: GerberError) -> bool {
        match self {
            Command::FunctionCode(c) => c.is_code_error(e),
            Command::ExtendedCode(c) => c.is_code_error(e),
        }
    }

    fn serialize(&self, out: &mut String) -> (r: Result<(), GerberError>) {
        match self {
            Command::FunctionCode(c) => c.serialize(out),
            Command::ExtendedCode(c) => c.serialize(out),
        }
    }
}

/// A D, G or M code.
#[derive(Debug, Clone, PartialEq)]
pub enum FunctionCode {
    DCode(DCode),
    GCode(GCode),
    MCode(MCode),
}

impl GerberCode for FunctionCode {
    open spec fn code_ok(&self) -> bool {
        match self {
            FunctionCode::DCode(c) => c.code_ok(),
            FunctionCode::GCode(c) => c.code_ok(),
            FunctionCode::MCode(c) => c.code_ok(),
        }
    }

    open spec fn code(&self) -> Seq<char> {
        match self {
            FunctionCode::DCode(c) => c.code(),
            FunctionCode::GCode(c) => c.code(),
            FunctionCode::MCode(c) => c.code(),
        }
    }

    open spec fn is_code_error(&self, e: GerberError) -> bool {
        match self {
            FunctionCode::DCode(c) => c.is_code_error(e),
            FunctionCode::GCode(c) => c.is_code_error(e),
            FunctionCode::MCode(c) => c.is_code_error(e),
        }
    }

    fn serialize(&self, out: &mut String) -> (r: Result<(), GerberError>) {
        match self {
            FunctionCode::DCode(c) => c.serialize(out),
            FunctionCode::GCode(c) => c.serialize(out),
            FunctionCode::MCode(c) => c.serialize(out),
        }
    }
}

/// The `X<i><d>Y<i><d>` body of a format statement.
pub open spec fn format_body(f: CoordinateFormat) -> Seq<char> {
    "X"@ + nat_text(f.integer as nat) + nat_text(f.decimal as nat) + "Y"@ + nat_text(
        f.integer as nat,
    ) + nat_text(f.decimal as nat)
}

fn push_format_body(out: &mut String, f: &CoordinateFormat)
    ensures
        final(out)@ == old(out)@ + format_body(*f),
{
    out.append("X");
    push_nat(out, f.integer as u64);
    push_nat(out, f.decimal as u64);
    out.append("Y");
    push_nat(out, f.integer as u64);
    push_nat(out, f.decimal as u64);
    proof {
        assert(out@ =~= old(out)@ + format_body(*f));
    }
}

/// An extended code: a `%`-delimited statement.
#[derive(Debug, Clone, PartialEq)]
pub enum ExtendedCode {
    /// FS
    CoordinateFormat(CoordinateFormat),
    /// MO
    Unit(Unit),
    /// AD
    ApertureDefinition(ApertureDefinition),
    /// LP
    LoadPolarity(Polarity),
    /// LM
    LoadMirroring(Mirroring),
    /// LR
    LoadRotation(Rotation),
    /// LS
    LoadScaling(Scaling),
    /// SR
    StepAndRepeat(StepAndRepeat),
    /// AB
    ApertureBlock(ApertureBlock),
    /// TF
    FileAttribute(FileAttribute),
    /// TO
    ObjectAttribute(ObjectAttribute),
    /// TA
    ApertureAttribute(ApertureAttribute),
    /// TD
    DeleteAttribute(AttributeDeletionCriterion),
    /// MI (deprecated since December 2012)
    MirrorImage(ImageMirroring),
    /// OF (deprecated since December 2012)
    OffsetImage(ImageOffset),
    /// SF (deprecated since December 2012)
    ScaleImage(ImageScaling),
    /// IR (deprecated since December 2012)
    RotateImage(ImageRotation),
    /// IP (deprecated since December 2012)
    ImagePolarity(ImagePolarity),
    /// AS (deprecated since December 2012)
    AxisSelect(AxisSelect),
    /// IN (deprecated since October 2013)
    ImageName(ImageName),
}

impl ExtendedCode {
    /// `%` and the statement's letters; a format statement always declares
    /// leading zero omission (`L`) and absolute coordinates (`A`).
    pub open spec fn spec_prefix(&self) -> Seq<char> {
        match self {
            ExtendedCode::CoordinateFormat(_) => "%FSLA"@,
            ExtendedCode::Unit(_) => "%MO"@,
            ExtendedCode::ApertureDefinition(_) => "%ADD"@,
            ExtendedCode::LoadPolarity(_) => "%LP"@,
            ExtendedCode::LoadMirroring(_) => "%LM"@,
            ExtendedCode::LoadRotation(_) => "%LR"@,
            ExtendedCode::LoadScaling(_) => "%LS"@,
            ExtendedCode::StepAndRepeat(_) => "%SR"@,
            ExtendedCode::ApertureBlock(_) => "%AB"@,
            ExtendedCode::FileAttribute(_) => "%TF"@,
            ExtendedCode::ObjectAttribute(_) => "%TO"@,
            ExtendedCode::ApertureAttribute(_) => "%TA"@,
            ExtendedCode::DeleteAttribute(_) => "%TD"@,
            ExtendedCode::MirrorImage(_) => "%MI"@,
            ExtendedCode::OffsetImage(_) => "%OF"@,
            ExtendedCode::ScaleImage(_) => "%SF"@,
            ExtendedCode::RotateImage(_) => "%IR"@,
            ExtendedCode::ImagePolarity(_) => "%IP"@,
            ExtendedCode::AxisSelect(_) => "%AS"@,
            ExtendedCode::ImageName(_) => "%IN"@,
        }
    }

    fn prefix(&self) -> (r: &'static str)
        ensures
            r@ == self.spec_prefix(),
    {
        match self {
            ExtendedCode::CoordinateFormat(_) => "%FSLA",
            ExtendedCode::Unit(_) => "%MO",
            ExtendedCode::ApertureDefinition(_) => "%ADD",
            ExtendedCode::LoadPolarity(_) => "%LP",
            ExtendedCode::LoadMirroring(_) => "%LM",
            ExtendedCode::LoadRotation(_) => "%LR",
            ExtendedCode::LoadScaling(_) => "%LS",
            ExtendedCode::StepAndRepeat(_) => "%SR",
            ExtendedCode::ApertureBlock(_) => "%AB",
            ExtendedCode::FileAttribute(_) => "%TF",
            ExtendedCode::ObjectAttribute(_) => "%TO",
            ExtendedCode::ApertureAttribute(_) => "%TA",
            ExtendedCode::DeleteAttribute(_) => "%TD",
            ExtendedCode::MirrorImage(_) => "%MI",
            ExtendedCode::OffsetImage(_) => "%OF",
            ExtendedCode::ScaleImage(_) => "%SF",
            ExtendedCode::RotateImage(_) => "%IR",
            ExtendedCode::ImagePolarity(_) => "%IP",
            ExtendedCode::AxisSelect(_) => "%AS",
            ExtendedCode::ImageName(_) => "%IN",
        }
    }

    /// The statement's data, between its letters and `*%`.
    pub open spec fn spec_body(&self) -> Seq<char> {
        match self {
            ExtendedCode::CoordinateFormat(f) => format_body(*f),
            ExtendedCode::Unit(x) => x.partial_code(),
            ExtendedCode::ApertureDefinition(x) => x.partial_code(),
            ExtendedCode::LoadPolarity(x) => x.partial_code(),
            ExtendedCode::LoadMirroring(x) => x.partial_code(),
            ExtendedCode::LoadRotation(x) => x.partial_code(),
            ExtendedCode::LoadScaling(x) => x.partial_code(),
            ExtendedCode::StepAndRepeat(x) => x.partial_code(),
            ExtendedCode::ApertureBlock(x) => x.partial_code(),
            ExtendedCode::FileAttribute(x) => x.partial_code(),
            ExtendedCode::ObjectAttribute(x) => x.partial_code(),
            ExtendedCode::ApertureAttribute(x) => x.partial_code(),
            ExtendedCode::DeleteAttribute(x) => x.partial_code(),
            ExtendedCode::MirrorImage(x) => x.partial_code(),
            ExtendedCode::OffsetImage(x) => x.partial_code(),
            ExtendedCode::ScaleImage(x) => x.partial_code(),
            ExtendedCode::RotateImage(x) => x.partial_code(),
            ExtendedCode::ImagePolarity(x) => x.partial_code(),
            ExtendedCode::AxisSelect(x) => x.partial_code(),
            ExtendedCode::ImageName(x) => x.partial_code(),
        }
    }

    fn push_body(&self, out: &mut String) -> (r: Result<(), GerberError>)
        ensures
            r is Ok <==> self.code_ok(),
            r is Ok ==> final(out)@ == old(out)@ + self.spec_body(),
            r is Err ==> self.is_code_error(r->Err_0),
    {
        match self {
            ExtendedCode::CoordinateFormat(f) => {
                push_format_body(out, f);
                Ok(())
            },
            ExtendedCode::Unit(x) => x.serialize_partial(out),
            ExtendedCode::ApertureDefinition(x) => x.serialize_partial(out),
            ExtendedCode::LoadPolarity(x) => x.serialize_partial(out),
            ExtendedCode::LoadMirroring(x) => x.serialize_partial(out),
            ExtendedCode::LoadRotation(x) => x.serialize_partial(out),
            ExtendedCode::LoadScaling(x) => x.serialize_partial(out),
            ExtendedCode::StepAndRepeat(x) => x.serialize_partial(out),
            ExtendedCode::ApertureBlock(x) => x.serialize_partial(out),
            ExtendedCode::FileAttribute(x) => x.serialize_partial(out),
            ExtendedCode::ObjectAttribute(x) => x.serialize_partial(out),
            ExtendedCode::ApertureAttribute(x) => x.serialize_partial(out),
            ExtendedCode::DeleteAttribute(x) => x.serialize_partial(out),
            ExtendedCode::MirrorImage(x) => x.serialize_partial(out),
            ExtendedCode::OffsetImage(x) => x.serialize_partial(out),
            ExtendedCode::ScaleImage(x) => x.serialize_partial(out),
            ExtendedCode::RotateImage(x) => x.serialize_partial(out),
            ExtendedCode::ImagePolarity(x) => x.serialize_partial(out),
            ExtendedCode::AxisSelect(x) => x.serialize_partial(out),
            ExtendedCode::ImageName(x) => x.serialize_partial(out),
        }
    }
}

/// `<prefix><body>*%` and a newline.
impl GerberCode for ExtendedCode {
    /// Only a file attribute with a creation date can fail to render.
    open spec fn code_ok(&self) -> bool {
        match self {
            ExtendedCode::FileAttribute(fa) => fa.partial_ok(),
            _ => true,
        }
    }

    open spec fn code(&self) -> Seq<char> {
        self.spec_prefix() + self.spec_body() + "*%\n"@
    }

    open spec fn is_code_error(&self, e: GerberError) -> bool {
        is_conversion_error(e, date_message())
    }

    fn serialize(&self, out: &mut String) -> (r: Result<(), GerberError>) {
        out.append(self.prefix());
        match self.push_body(out) {
            Err(e) => Err(e),
            Ok(()) => {
                out.append("*%\n");
                proof {
                    assert(out@ =~= old(out)@ + self.code());
                }
                Ok(())
            },
        }
    }
}

impl From<FunctionCode> for Command {
    fn from(val: FunctionCode) -> Self {
        Command::FunctionCode(val)
    }
}

impl vstd::std_specs::convert::FromSpecImpl<FunctionCode> for Command {
    open spec fn obeys_from_spec() -> bool {
        true
    }

    open spec fn from_spec(val: FunctionCode) -> Self {
        Command::FunctionCode(val)
    }
}

impl From<ExtendedCode> for Command {
    fn from(val: ExtendedCode) -> Self {
        Command::ExtendedCode(val)
    }
}

impl vstd::std_specs::convert::FromSpecImpl<ExtendedCode> for Command {
    open spec fn obeys_from_spec() -> bool {
        true
    }

    open spec fn from_spec(val: ExtendedCode) -> Self {
        Command::ExtendedCode(val)
    }
}

impl From<DCode> for FunctionCode {
    fn from(val: DCode) -> Self {
        FunctionCode::DCode(val)
    }
}

impl vstd::std_specs::convert::FromSpecImpl<DCode> for FunctionCode {
    open spec fn obeys_from_spec() -> bool {
        true
    }

    open spec fn from_spec(val: DCode) -> Self {
        FunctionCode::DCode(val)
    }
}

impl From<DCode> for Command {
    fn from(val: DCode) -> Self {
        Command::FunctionCode(FunctionCode::DCode(val))
    }
}

impl vstd::std_specs::convert::FromSpecImpl<DCode> for Command {
    open spec fn obeys_from_spec() -> bool {
        true
    }

    open spec fn from_spec(val: DCode) -> Self {
        Command::FunctionCode(FunctionCode::DCode(val))
    }
}

impl From<GCode> for FunctionCode {
    fn from(val: GCode) -> Self {
        FunctionCode::GCode(val)
    }
}

impl vstd::std_specs::convert::FromSpecImpl<GCode> for FunctionCode {
    open spec fn obeys_from_spec() -> bool {
        true
    }

    open spec fn from_spec(val: GCode) -> Self {
        FunctionCode::GCode(val)
    }
}

impl From<GCode> for Command {
    fn from(val: GCode) -> Self {
        Command::FunctionCode(FunctionCode::GCode(val))
    }
}

impl vstd::std_specs::convert::FromSpecImpl<GCode> for Command {
    open spec fn obeys_from_spec() -> bool {
        true
    }

    open spec fn from_spec(val: GCode) -> Self {
        Command::FunctionCode(FunctionCode::GCode(val))
    }
}

impl From<MCode> for FunctionCode {
    fn from(val: MCode) -> Self {
        FunctionCode::MCode(val)
    }
}

impl vstd::std_specs::convert::FromSpecImpl<MCode> for FunctionCode {
    open spec fn obeys_from_spec() -> bool {
        true
    }

    open spec fn from_spec(val: MCode) -> Self {
        FunctionCode::MCode(val)
    }
}

impl From<MCode> for Command {
    fn from(val: MCode) -> Self {
        Command::FunctionCode(FunctionCode::MCode(val))
    }
}

impl vstd::std_specs::convert::FromSpecImpl<MCode> for Command {
    open spec fn obeys_from_spec() -> bool {
        true
    }

    open spec fn from_spec(val: MCode) -> Self {
        Command::FunctionCode(FunctionCode::MCode(val))
    }
}

impl From<CoordinateFormat> for ExtendedCode {
    fn from(val: CoordinateFormat) -> Self {
        ExtendedCode::CoordinateFormat(val)
    }
}

impl vstd::std_specs::convert::FromSpecImpl<CoordinateFormat> for ExtendedCode {
    open spec fn obeys_from_spec() -> bool {
        true
    }

    open spec fn from_spec(val: CoordinateFormat) -> Self {
        ExtendedCode::CoordinateFormat(val)
    }
}

impl From<CoordinateFormat> for Command {
    fn from(val: CoordinateFormat) -> Self {
        Command::ExtendedCode(ExtendedCode::CoordinateFormat(val))
    }
}

impl vstd::std_specs::convert::FromSpecImpl<CoordinateFormat> for Command {
    open spec fn obeys_from_spec() -> bool {
        true
    }

    open spec fn from_spec(val: CoordinateFormat) -> Self {
        Command::ExtendedCode(ExtendedCode::CoordinateFormat(val))
    }
}

impl From<Unit> for ExtendedCode {
    fn from(val: Unit) -> Self {
        ExtendedCode::Unit(val)
    }
}

impl vstd::std_specs::convert::FromSpecImpl<Unit> for ExtendedCode {
    open spec fn obeys_from_spec() -> bool {
        true
    }

    open spec fn from_spec(val: Unit) -> Self {
        ExtendedCode::Unit(val)
    }
}

impl From<Unit> for Command {
    fn from(val: Unit) -> Self {
        Command::ExtendedCode(ExtendedCode::Unit(val))
    }
}

impl vstd::std_specs::convert::FromSpecImpl<Unit> for Command {
    open spec fn obeys_from_spec() -> bool {
        true
    }

    open spec fn from_spec(val: Unit) -> Self {
        Command::ExtendedCode(ExtendedCode::Unit(val))
    }
}

impl From<ApertureDefinition> for ExtendedCode {
    fn from(val: ApertureDefinition) -> Self {
        ExtendedCode::ApertureDefinition(val)
    }
}

impl vstd::std_specs::convert::FromSpecImpl<ApertureDefinition> for ExtendedCode {
    open spec fn obeys_from_spec() -> bool {
        true
    }

    open spec fn from_spec(val: ApertureDefinition) -> Self {
        ExtendedCode::ApertureDefinition(val)
    }
}

impl From<ApertureDefinition> for Command {
    fn from(val: ApertureDefinition) -> Self {
        Command::ExtendedCode(ExtendedCode::ApertureDefinition(val))
    }
}

impl vstd::std_specs::convert::FromSpecImpl<ApertureDefinition> for Command {
    open spec fn obeys_from_spec() -> bool {
        true
    }

    open spec fn from_spec(val: ApertureDefinition) -> Self {
        Command::ExtendedCode(ExtendedCode::ApertureDefinition(val))
    }
}

impl From<Polarity> for ExtendedCode {
    fn from(val: Polarity) -> Self {
        ExtendedCode::LoadPolarity(val)
    }
}

impl vstd::std_specs::convert::FromSpecImpl<Polarity> for ExtendedCode {
    open spec fn obeys_from_spec() -> bool {
        true
    }

    open spec fn from_spec(val: Polarity) -> Self {
        ExtendedCode::LoadPolarity(val)
    }
}

impl From<Polarity> for Command {
    fn from(val: Polarity) -> Self {
        Command::ExtendedCode(ExtendedCode::LoadPolarity(val))
    }
}

impl vstd::std_specs::convert::FromSpecImpl<Polarity> for Command {
    open spec fn obeys_from_spec() -> bool {
        true
    }

    open spec fn from_spec(val: Polarity) -> Self {
        Command::ExtendedCode(ExtendedCode::LoadPolarity(val))
    }
}

impl From<Mirroring> for ExtendedCode {
    fn from(val: Mirroring) -> Self {
        ExtendedCode::LoadMirroring(val)
    }
}

impl vstd::std_specs::convert::FromSpecImpl<Mirroring> for ExtendedCode {
    open spec fn obeys_from_spec() -> bool {
        true
    }

    open spec fn from_spec(val: Mirroring) -> Self {
        ExtendedCode::LoadMirroring(val)
    }
}

impl From<Mirroring> for Command {
    fn from(val: Mirroring) -> Self {
        Command::ExtendedCode(ExtendedCode::LoadMirroring(val))
    }
}

impl vstd::std_specs::convert::FromSpecImpl<Mirroring> for Command {
    open spec fn obeys_from_spec() -> bool {
        true
    }

    open spec fn from_spec(val: Mirroring) -> Self {
        Command::ExtendedCode(ExtendedCode::LoadMirroring(val))
    }
}

impl From<Rotation> for ExtendedCode {
    fn from(val: Rotation) -> Self {
        ExtendedCode::LoadRotation(val)
    }
}

impl vstd::std_specs::convert::FromSpecImpl<Rotation> for ExtendedCode {
    open spec fn obeys_from_spec() -> bool {
        true
    }

    open spec fn from_spec(val: Rotation) -> Self {
        ExtendedCode::LoadRotation(val)
    }
}

impl From<Rotation> for Command {
    fn from(val: Rotation) -> Self {
        Command::ExtendedCode(ExtendedCode::LoadRotation(val))
    }
}

impl vstd::std_specs::convert::FromSpecImpl<Rotation> for Command {
    open spec fn obeys_from_spec() -> bool {
        true
    }

    open spec fn from_spec(val: Rotation) -> Self {
        Command::ExtendedCode(ExtendedCode::LoadRotation(val))
    }
}

impl From<Scaling> for ExtendedCode {
    fn from(val: Scaling) -> Self {
        ExtendedCode::LoadScaling(val)
    }
}

impl vstd::std_specs::convert::FromSpecImpl<Scaling> for ExtendedCode {
    open spec fn obeys_from_spec() -> bool {
        true
    }

    open spec fn from_spec(val: Scaling) -> Self {
        ExtendedCode::LoadScaling(val)
    }
}

impl From<Scaling> for Command {
    fn from(val: Scaling) -> Self {
        Command::ExtendedCode(ExtendedCode::LoadScaling(val))
    }
}

impl vstd::std_specs::convert::FromSpecImpl<Scaling> for Command {
    open spec fn obeys_from_spec() -> bool {
        true
    }

    open spec fn from_spec(val: Scaling) -> Self {
        Command::ExtendedCode(ExtendedCode::LoadScaling(val))
    }
}

impl From<StepAndRepeat> for ExtendedCode {
    fn from(val: StepAndRepeat) -> Self {
        ExtendedCode::StepAndRepeat(val)
    }
}

impl vstd::std_specs::convert::FromSpecImpl<StepAndRepeat> for ExtendedCode {
    open spec fn obeys_from_spec() -> bool {
        true
    }

    open spec fn from_spec(val: StepAndRepeat) -> Self {
        ExtendedCode::StepAndRepeat(val)
    }
}

impl From<StepAndRepeat> for Command {
    fn from(val: StepAndRepeat) -> Self {
        Command::ExtendedCode(ExtendedCode::StepAndRepeat(val))
    }
}

impl vstd::std_specs::convert::FromSpecImpl<StepAndRepeat> for Command {
    open spec fn obeys_from_spec() -> bool {
        true
    }

    open spec fn from_spec(val: StepAndRepeat) -> Self {
        Command::ExtendedCode(ExtendedCode::StepAndRepeat(val))
    }
}

impl From<ApertureBlock> for ExtendedCode {
    fn from(val: ApertureBlock) -> Self {
        ExtendedCode::ApertureBlock(val)
    }
}

impl vstd::std_specs::convert::FromSpecImpl<ApertureBlock> for ExtendedCode {
    open spec fn obeys_from_spec() -> bool {
        true
    }

    open spec fn from_spec(val: ApertureBlock) -> Self {
        ExtendedCode::ApertureBlock(val)
    }
}

impl From<ApertureBlock> for Command {
    fn from(val: ApertureBlock) -> Self {
        Command::ExtendedCode(ExtendedCode::ApertureBlock(val))
    }
}

impl vstd::std_specs::convert::FromSpecImpl<ApertureBlock> for Command {
    open spec fn obeys_from_spec() -> bool {
        true
    }

    open spec fn from_spec(val: ApertureBlock) -> Self {
        Command::ExtendedCode(ExtendedCode::ApertureBlock(val))
    }
}

impl From<FileAttribute> for ExtendedCode {
    fn from(val: FileAttribute) -> Self {
        ExtendedCode::FileAttribute(val)
    }
}

impl vstd::std_specs::convert::FromSpecImpl<FileAttribute> for ExtendedCode {
    open spec fn obeys_from_spec() -> bool {
        true
    }

    open spec fn from_spec(val: FileAttribute) -> Self {
        ExtendedCode::FileAttribute(val)
    }
}

impl From<FileAttribute> for Command {
    fn from(val: FileAttribute) -> Self {
        Command::ExtendedCode(ExtendedCode::FileAttribute(val))
    }
}

impl vstd::std_specs::convert::FromSpecImpl<FileAttribute> for Command {
    open spec fn obeys_from_spec() -> bool {
        true
    }

    open spec fn from_spec(val: FileAttribute) -> Self {
        Command::ExtendedCode(ExtendedCode::FileAttribute(val))
    }
}

impl From<ApertureAttribute> for ExtendedCode {
    fn from(val: ApertureAttribute) -> Self {
        ExtendedCode::ApertureAttribute(val)
    }
}

impl vstd::std_specs::convert::FromSpecImpl<ApertureAttribute> for ExtendedCode {
    open spec fn obeys_from_spec() -> bool {
        true
    }

    open spec fn from_spec(val: ApertureAttribute) -> Self {
        ExtendedCode::ApertureAttribute(val)
    }
}

impl From<ApertureAttribute> for Command {
    fn from(val: ApertureAttribute) -> Self {
        Command::ExtendedCode(ExtendedCode::ApertureAttribute(val))
    }
}

impl vstd::std_specs::convert::FromSpecImpl<ApertureAttribute> for Command {
    open spec fn obeys_from_spec() -> bool {
        true
    }

    open spec fn from_spec(val: ApertureAttribute) -> Self {
        Command::ExtendedCode(ExtendedCode::ApertureAttribute(val))
    }
}

} // verus!
