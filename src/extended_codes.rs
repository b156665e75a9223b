//! Extended code values: units, apertures, transformations, image directives.
use vstd::prelude::*;

use crate::decimal::Decimal;
use crate::errors::GerberError;
use crate::text::{int_text, nat_text, push_int, push_nat};
use crate::traits::PartialGerberCode;

verus! {

/// Unit of all coordinates and sizes (MO).
#[derive(Debug, Copy, Clone, PartialEq, Eq, Hash, Structural)]
pub enum Unit {
    Inches,
    Millimeters,
}

impl Unit {
    /// The token that stands for the value.
    pub open spec fn spec_token(&self) -> Seq<char> {
        match self {
            Unit::Inches => "IN"@,
            Unit::Millimeters => "MM"@,
        }
    }

    /// The token that stands for the value.
    pub fn token(&self) -> (r: &'static str)
        ensures
            r@ == self.spec_token(),
    {
        match self {
            Unit::Inches => "IN",
            Unit::Millimeters => "MM",
        }
    }
}

impl PartialGerberCode for Unit {
    open spec fn partial_ok(&self) -> bool {
        true
    }

    open spec fn partial_code(&self) -> Seq<char> {
        self.spec_token()
    }

    open spec fn is_partial_error(&self, e: GerberError) -> bool {
        false
    }

    fn serialize_partial(&self, out: &mut String) -> (r: Result<(), GerberError>) {
        out.append(self.token());
        Ok(())
    }
}

/// A parameter of an aperture macro: a variable, a value or an expression,
/// each already in its final textual form.
#[derive(Debug, Clone, PartialEq)]
pub enum MacroDecimal {
    /// `$<n>`
    Variable(u32),
    Value(Decimal),
    Expression(String),
}

impl MacroDecimal {
    pub open spec fn spec_text(&self) -> Seq<char> {
        match self {
            MacroDecimal::Variable(n) => seq!['$'] + nat_text(*n as nat),
            MacroDecimal::Value(d) => d.spec_text(),
            MacroDecimal::Expression(e) => e@,
        }
    }
}

impl PartialGerberCode for MacroDecimal {
    open spec fn partial_ok(&self) -> bool {
        true
    }

    open spec fn partial_code(&self) -> Seq<char> {
        self.spec_text()
    }

    open spec fn is_partial_error(&self, e: GerberError) -> bool {
        false
    }

    fn serialize_partial(&self, out: &mut String) -> (r: Result<(), GerberError>) {
        match self {
            MacroDecimal::Variable(n) => {
                out.append("$");
                push_nat(out, *n as u64);
                proof {
                    reveal_strlit("$");
                    assert(out@ =~= old(out)@ + self.spec_text());
                }
            },
            MacroDecimal::Value(d) => d.push_text(out),
            MacroDecimal::Expression(e) => out.append(e.as_str()),
        }
        Ok(())
    }
}

/// The texts of `args`, separated by `X`.
pub open spec fn macro_args_text(args: Seq<MacroDecimal>) -> Seq<char>
    decreases args.len(),
{
    if args.len() == 0 {
        Seq::empty()
    } else if args.len() == 1 {
        args[0].spec_text()
    } else {
        macro_args_text(args.drop_last()) + "X"@ + args.last().spec_text()
    }
}

/// Appends the texts of `args`, separated by `X`.
fn push_macro_args(out: &mut String, args: &Vec<MacroDecimal>)
    ensures
        final(out)@ == old(out)@ + macro_args_text(args@),
{
    let mut i: usize = 0;
    while i < args.len()
        invariant
            i <= args@.len(),
            out@ == old(out)@ + macro_args_text(args@.take(i as int)),
        decreases args@.len() - i,
    {
        let ghost before = out@;
        if i > 0 {
            out.append("X");
        }
        let _ = args[i].serialize_partial(out);
        proof {
            let t = args@.take(i as int + 1);
            assert(t.drop_last() =~= args@.take(i as int));
            assert(t.last() == args@[i as int]);
            if i == 0 {
                assert(out@ =~= old(out)@ + macro_args_text(t));
            } else {
                assert(out@ =~= old(out)@ + macro_args_text(t));
            }
        }
        i = i + 1;
    }
    proof {
        assert(args@.take(i as int) =~= args@);
    }
}

/// An aperture definition (AD): a D code number and the aperture's shape.
#[derive(Debug, Clone, PartialEq)]
pub struct ApertureDefinition {
    pub code: i32,
    pub aperture: Aperture,
}

impl ApertureDefinition {
    pub fn new(code: i32, aperture: Aperture) -> (r: Self)
        ensures
            r.code == code,
            r.aperture == aperture,
    {
        ApertureDefinition { code, aperture }
    }
}

/// `<code><aperture>`
impl PartialGerberCode for ApertureDefinition {
    open spec fn partial_ok(&self) -> bool {
        true
    }

    open spec fn partial_code(&self) -> Seq<char> {
        int_text(self.code as int) + self.aperture.partial_code()
    }

    open spec fn is_partial_error(&self, e: GerberError) -> bool {
        false
    }

    fn serialize_partial(&self, out: &mut String) -> (r: Result<(), GerberError>) {
        push_int(out, self.code as i64);
        let _ = self.aperture.serialize_partial(out);
        proof {
            assert(out@ =~= old(out)@ + self.partial_code());
        }
        Ok(())
    }
}

/// The shape of an aperture: a standard template or a named macro with its
/// optional parameters.
#[derive(Debug, Clone, PartialEq)]
pub enum Aperture {
    Circle(Circle),
    Rectangle(Rectangular),
    Obround(Rectangular),
    Polygon(Polygon),
    Macro(String, Option<Vec<MacroDecimal>>),
}

impl PartialGerberCode for Aperture {
    open spec fn partial_ok(&self) -> bool {
        true
    }

    open spec fn partial_code(&self) -> Seq<char> {
        match self {
            Aperture::Circle(c) => "C,"@ + c.spec_text(),
            Aperture::Rectangle(r) => "R,"@ + r.spec_text(),
            Aperture::Obround(r) => "O,"@ + r.spec_text(),
            Aperture::Polygon(p) => "P,"@ + p.spec_text(),
            Aperture::Macro(name, args) => name@ + match args {
                Some(a) => ","@ + macro_args_text(a@),
                None => Seq::empty(),
            },
        }
    }

    open spec fn is_partial_error(&self, e: GerberError) -> bool {
        false
    }

    fn serialize_partial(&self, out: &mut String) -> (r: Result<(), GerberError>) {
        match self {
            Aperture::Circle(c) => {
                out.append("C,");
                c.push_text(out);
            },
            Aperture::Rectangle(r) => {
                out.append("R,");
                r.push_text(out);
            },
            Aperture::Obround(r) => {
                out.append("O,");
                r.push_text(out);
            },
            Aperture::Polygon(p) => {
                out.append("P,");
                p.push_text(out);
            },
            Aperture::Macro(name, args) => {
                out.append(name.as_str());
                if let Some(a) = args {
                    out.append(",");
                    push_macro_args(out, a);
                }
            },
        }
        proof {
            assert(out@ =~= old(out)@ + self.partial_code());
        }
        Ok(())
    }
}

/// `X<value>` for a present value, nothing otherwise.
pub open spec fn optional_part(value: Option<Decimal>) -> Seq<char> {
    match value {
        Some(v) => "X"@ + v.spec_text(),
        None => Seq::empty(),
    }
}

fn push_optional_part(out: &mut String, value: Option<Decimal>)
    ensures
        final(out)@ == old(out)@ + optional_part(value),
{
    if let Some(v) = value {
        out.append("X");
        v.push_text(out);
    }
    proof {
        assert(out@ =~= old(out)@ + optional_part(value));
    }
}

/// Circle template: diameter and optional hole diameter.
#[derive(Debug, Clone, PartialEq, Eq, Structural)]
pub struct Circle {
    pub diameter: Decimal,
    pub hole_diameter: Option<Decimal>,
}

impl Circle {
    pub fn new(diameter: Decimal) -> (r: Self)
        ensures
            r == (Circle { diameter, hole_diameter: None }),
    {
        Circle { diameter, hole_diameter: None }
    }

    pub fn with_hole(diameter: Decimal, hole_diameter: Decimal) -> (r: Self)
        ensures
            r == (Circle { diameter, hole_diameter: Some(hole_diameter) }),
    {
        Circle { diameter, hole_diameter: Some(hole_diameter) }
    }

    /// `<diameter>[X<hole>]`
    pub open spec fn spec_text(&self) -> Seq<char> {
        self.diameter.spec_text() + optional_part(self.hole_diameter)
    }

    pub fn push_text(&self, out: &mut String)
        ensures
            final(out)@ == old(out)@ + self.spec_text(),
    {
        self.diameter.push_text(out);
        push_optional_part(out, self.hole_diameter);
        proof {
            assert(out@ =~= old(out)@ + self.spec_text());
        }
    }
}

/// Rectangle and obround templates: sizes and optional hole diameter.
#[derive(Debug, Clone, PartialEq, Eq, Structural)]
pub struct Rectangular {
    pub x: Decimal,
    pub y: Decimal,
    pub hole_diameter: Option<Decimal>,
}

impl Rectangular {
    pub fn new(x: Decimal, y: Decimal) -> (r: Self)
        ensures
            r == (Rectangular { x, y, hole_diameter: None }),
    {
        Rectangular { x, y, hole_diameter: None }
    }

    pub fn with_hole(x: Decimal, y: Decimal, hole_diameter: Decimal) -> (r: Self)
        ensures
            r == (Rectangular { x, y, hole_diameter: Some(hole_diameter) }),
    {
        Rectangular { x, y, hole_diameter: Some(hole_diameter) }
    }

    /// `<x>X<y>[X<hole>]`
    pub open spec fn spec_text(&self) -> Seq<char> {
        self.x.spec_text() + "X"@ + self.y.spec_text() + optional_part(self.hole_diameter)
    }

    pub fn push_text(&self, out: &mut String)
        ensures
            final(out)@ == old(out)@ + self.spec_text(),
    {
        self.x.push_text(out);
        out.append("X");
        self.y.push_text(out);
        push_optional_part(out, self.hole_diameter);
        proof {
            assert(out@ =~= old(out)@ + self.spec_text());
        }
    }
}

/// Regular polygon template: outer diameter, number of vertices (3 to 12),
/// optional rotation and optional hole diameter.
#[derive(Debug, Clone, PartialEq, Eq, Structural)]
pub struct Polygon {
    pub diameter: Decimal,
    pub vertices: u8,
    pub rotation: Option<Decimal>,
    pub hole_diameter: Option<Decimal>,
}

impl Polygon {
    pub fn new(diameter: Decimal, vertices: u8) -> (r: Self)
        ensures
            r == (Polygon { diameter, vertices, rotation: None, hole_diameter: None }),
    {
        Polygon { diameter, vertices, rotation: None, hole_diameter: None }
    }

    pub fn with_rotation(self, angle: Decimal) -> (r: Self)
        ensures
            r == (Polygon { rotation: Some(angle), ..self }),
    {
        Polygon { rotation: Some(angle), ..self }
    }

    pub fn with_diameter(self, diameter: Decimal) -> (r: Self)
        ensures
            r == (Polygon { diameter, ..self }),
    {
        Polygon { diameter, ..self }
    }

    /// `<diameter>X<vertices>[X<rotation>][X<hole>]`; the rotation is written
    /// as `0` when only the hole is given, since fields are positional.
    pub open spec fn spec_text(&self) -> Seq<char> {
        let rotation = match (self.rotation, self.hole_diameter) {
            (Some(r), _) => "X"@ + r.spec_text(),
            (None, Some(_)) => "X0"@,
            (None, None) => Seq::empty(),
        };
        self.diameter.spec_text() + "X"@ + nat_text(self.vertices as nat) + rotation
            + optional_part(self.hole_diameter)
    }

    pub fn push_text(&self, out: &mut String)
        ensures
            final(out)@ == old(out)@ + self.spec_text(),
    {
        self.diameter.push_text(out);
        out.append("X");
        push_nat(out, self.vertices as u64);
        match self.rotation {
            Some(r) => {
                out.append("X");
                r.push_text(out);
            },
            None => {
                if self.hole_diameter.is_some() {
                    out.append("X0");
                }
            },
        }
        push_optional_part(out, self.hole_diameter);
        proof {
            assert(out@ =~= old(out)@ + self.spec_text());
        }
    }
}

/// Polarity of the objects that follow (LP).
#[derive(Debug, Copy, Clone, PartialEq, Eq, Hash, Structural)]
pub enum Polarity {
    Clear,
    Dark,
}

impl Polarity {
    /// The token that stands for the value.
    pub open spec fn spec_token(&self) -> Seq<char> {
        match self {
            Polarity::Clear => "C"@,
            Polarity::Dark => "D"@,
        }
    }

    /// The token that stands for the value.
    pub fn token(&self) -> (r: &'static str)
        ensures
            r@ == self.spec_token(),
    {
        match self {
            Polarity::Clear => "C",
            Polarity::Dark => "D",
        }
    }
}

impl PartialGerberCode for Polarity {
    open spec fn partial_ok(&self) -> bool {
        true
    }

    open spec fn partial_code(&self) -> Seq<char> {
        self.spec_token()
    }

    open spec fn is_partial_error(&self, e: GerberError) -> bool {
        false
    }

    fn serialize_partial(&self, out: &mut String) -> (r: Result<(), GerberError>) {
        out.append(self.token());
        Ok(())
    }
}

/// Mirroring of the objects that follow (LM).
#[derive(Debug, Copy, Clone, PartialEq, Eq, Hash, Structural)]
pub enum Mirroring {
    NoMirroring,
    X,
    Y,
    XY,
}

impl Mirroring {
    /// The token that stands for the value.
    pub open spec fn spec_token(&self) -> Seq<char> {
        match self {
            Mirroring::NoMirroring => "N"@,
            Mirroring::X => "X"@,
            Mirroring::Y => "Y"@,
            Mirroring::XY => "XY"@,
        }
    }

    /// The token that stands for the value.
    pub fn token(&self) -> (r: &'static str)
        ensures
            r@ == self.spec_token(),
    {
        match self {
            Mirroring::NoMirroring => "N",
            Mirroring::X => "X",
            Mirroring::Y => "Y",
            Mirroring::XY => "XY",
        }
    }
}

impl PartialGerberCode for Mirroring {
    open spec fn partial_ok(&self) -> bool {
        true
    }

    open spec fn partial_code(&self) -> Seq<char> {
        self.spec_token()
    }

    open spec fn is_partial_error(&self, e: GerberError) -> bool {
        false
    }

    fn serialize_partial(&self, out: &mut String) -> (r: Result<(), GerberError>) {
        out.append(self.token());
        Ok(())
    }
}

/// Scale factor of the objects that follow (LS).
#[derive(Debug, Clone, Copy, PartialEq, Eq, Structural)]
pub struct Scaling {
    pub scale: Decimal,
}

impl PartialGerberCode for Scaling {
    open spec fn partial_ok(&self) -> bool {
        true
    }

    open spec fn partial_code(&self) -> Seq<char> {
        self.scale.spec_text()
    }

    open spec fn is_partial_error(&self, e: GerberError) -> bool {
        false
    }

    fn serialize_partial(&self, out: &mut String) -> (r: Result<(), GerberError>) {
        self.scale.push_text(out);
        Ok(())
    }
}

/// Rotation of the objects that follow (LR), in degrees counter-clockwise.
#[derive(Debug, Clone, Copy, PartialEq, Eq, Structural)]
pub struct Rotation {
    pub rotation: Decimal,
}

impl PartialGerberCode for Rotation {
    open spec fn partial_ok(&self) -> bool {
        true
    }

    open spec fn partial_code(&self) -> Seq<char> {
        self.rotation.spec_text()
    }

    open spec fn is_partial_error(&self, e: GerberError) -> bool {
        false
    }

    fn serialize_partial(&self, out: &mut String) -> (r: Result<(), GerberError>) {
        self.rotation.push_text(out);
        Ok(())
    }
}

/// Opens or closes a step-and-repeat block (SR).
#[derive(Debug, Clone, PartialEq, Eq, Structural)]
pub enum StepAndRepeat {
    Open { repeat_x: u32, repeat_y: u32, distance_x: Decimal, distance_y: Decimal },
    Close,
}

impl PartialGerberCode for StepAndRepeat {
    open spec fn partial_ok(&self) -> bool {
        true
    }

    /// `X<rx>Y<ry>I<dx>J<dy>` when opening, nothing when closing.
    open spec fn partial_code(&self) -> Seq<char> {
        match self {
            StepAndRepeat::Open { repeat_x, repeat_y, distance_x, distance_y } => "X"@ + nat_text(
                *repeat_x as nat,
            ) + "Y"@ + nat_text(*repeat_y as nat) + "I"@ + distance_x.spec_text() + "J"@
                + distance_y.spec_text(),
            StepAndRepeat::Close => Seq::empty(),
        }
    }

    open spec fn is_partial_error(&self, e: GerberError) -> bool {
        false
    }

    fn serialize_partial(&self, out: &mut String) -> (r: Result<(), GerberError>) {
        match self {
            StepAndRepeat::Open { repeat_x, repeat_y, distance_x, distance_y } => {
                out.append("X");
                push_nat(out, *repeat_x as u64);
                out.append("Y");
                push_nat(out, *repeat_y as u64);
                out.append("I");
                distance_x.push_text(out);
                out.append("J");
                distance_y.push_text(out);
            },
            StepAndRepeat::Close => {},
        }
        proof {
            assert(out@ =~= old(out)@ + self.partial_code());
        }
        Ok(())
    }
}

/// Opens or closes a block aperture definition (AB).
#[derive(Debug, Clone, PartialEq, Eq, Structural)]
pub enum ApertureBlock {
    Open { code: i32 },
    Close,
}

impl PartialGerberCode for ApertureBlock {
    open spec fn partial_ok(&self) -> bool {
        true
    }

    /// `<code>` when opening, nothing when closing.
    open spec fn partial_code(&self) -> Seq<char> {
        match self {
            ApertureBlock::Open { code } => int_text(*code as int),
            ApertureBlock::Close => Seq::empty(),
        }
    }

    open spec fn is_partial_error(&self, e: GerberError) -> bool {
        false
    }

    fn serialize_partial(&self, out: &mut String) -> (r: Result<(), GerberError>) {
        match self {
            ApertureBlock::Open { code } => push_int(out, *code as i64),
            ApertureBlock::Close => {
                proof {
                    assert(out@ =~= old(out)@ + self.partial_code());
                }
            },
        }
        Ok(())
    }
}

/// Mirroring of the image (MI, deprecated).
#[derive(Debug, Clone, Copy, PartialEq, Eq, Structural)]
pub enum ImageMirroring {
    NoMirroring,
    A,
    B,
    AB,
}

impl ImageMirroring {
    /// The token that stands for the value.
    pub open spec fn spec_token(&self) -> Seq<char> {
        match self {
            ImageMirroring::NoMirroring => ""@,
            ImageMirroring::A => "A1"@,
            ImageMirroring::B => "B1"@,
            ImageMirroring::AB => "A1B1"@,
        }
    }

    /// The token that stands for the value.
    pub fn token(&self) -> (r: &'static str)
        ensures
            r@ == self.spec_token(),
    {
        match self {
            ImageMirroring::NoMirroring => "",
            ImageMirroring::A => "A1",
            ImageMirroring::B => "B1",
            ImageMirroring::AB => "A1B1",
        }
    }
}

impl PartialGerberCode for ImageMirroring {
    open spec fn partial_ok(&self) -> bool {
        true
    }

    open spec fn partial_code(&self) -> Seq<char> {
        self.spec_token()
    }

    open spec fn is_partial_error(&self, e: GerberError) -> bool {
        false
    }

    fn serialize_partial(&self, out: &mut String) -> (r: Result<(), GerberError>) {
        out.append(self.token());
        Ok(())
    }
}

impl Default for ImageMirroring {
    fn default() -> (r: Self)
        ensures
            r == ImageMirroring::NoMirroring,
    {
        ImageMirroring::NoMirroring
    }
}

/// Rotation of the image (IR, deprecated).
#[allow(non_camel_case_types)]
#[derive(Debug, Clone, Copy, PartialEq, Eq, Structural)]
pub enum ImageRotation {
    NoRotation,
    CCW_90,
    CCW_180,
    CCW_270,
}

impl ImageRotation {
    /// The token that stands for the value.
    pub open spec fn spec_token(&self) -> Seq<char> {
        match self {
            ImageRotation::NoRotation => "0"@,
            ImageRotation::CCW_90 => "90"@,
            ImageRotation::CCW_180 => "180"@,
            ImageRotation::CCW_270 => "270"@,
        }
    }

    /// The token that stands for the value.
    pub fn token(&self) -> (r: &'static str)
        ensures
            r@ == self.spec_token(),
    {
        match self {
            ImageRotation::NoRotation => "0",
            ImageRotation::CCW_90 => "90",
            ImageRotation::CCW_180 => "180",
            ImageRotation::CCW_270 => "270",
        }
    }
}

impl PartialGerberCode for ImageRotation {
    open spec fn partial_ok(&self) -> bool {
        true
    }

    open spec fn partial_code(&self) -> Seq<char> {
        self.spec_token()
    }

    open spec fn is_partial_error(&self, e: GerberError) -> bool {
        false
    }

    fn serialize_partial(&self, out: &mut String) -> (r: Result<(), GerberError>) {
        out.append(self.token());
        Ok(())
    }
}

impl Default for ImageRotation {
    fn default() -> (r: Self)
        ensures
            r == ImageRotation::NoRotation,
    {
        ImageRotation::NoRotation
    }
}

/// Scale factors of the image along the A and B axes (SF, deprecated).
/// By default A is X and B is Y; the axis select command (AS) swaps them.
#[derive(Debug, Clone, Copy, PartialEq, Eq, Structural)]
pub struct ImageScaling {
    /// along the A axis
    pub a: Decimal,
    /// along the B axis
    pub b: Decimal,
}

impl PartialGerberCode for ImageScaling {
    open spec fn partial_ok(&self) -> bool {
        true
    }

    /// `A<a>B<b>`, each part left out where its value is zero.
    open spec fn partial_code(&self) -> Seq<char> {
        (if self.a.micros != 0 {
            "A"@ + self.a.spec_text()
        } else {
            Seq::empty()
        }) + (if self.b.micros != 0 {
            "B"@ + self.b.spec_text()
        } else {
            Seq::empty()
        })
    }

    open spec fn is_partial_error(&self, e: GerberError) -> bool {
        false
    }

    fn serialize_partial(&self, out: &mut String) -> (r: Result<(), GerberError>) {
        if self.a.micros != 0 {
            out.append("A");
            self.a.push_text(out);
        }
        if self.b.micros != 0 {
            out.append("B");
            self.b.push_text(out);
        }
        proof {
            assert(out@ =~= old(out)@ + self.partial_code());
        }
        Ok(())
    }
}

impl Default for ImageScaling {
    fn default() -> (r: Self)
        ensures
            r.a.micros == 1_000_000,
            r.b.micros == 1_000_000,
    {
        ImageScaling { a: Decimal::from_int(1), b: Decimal::from_int(1) }
    }
}

/// Offset of the image along the A and B axes (OF, deprecated).
/// By default A is X and B is Y; the axis select command (AS) swaps them.
#[derive(Debug, Clone, Copy, PartialEq, Eq, Structural)]
pub struct ImageOffset {
    /// along the A axis
    pub a: Decimal,
    /// along the B axis
    pub b: Decimal,
}

impl PartialGerberCode for ImageOffset {
    open spec fn partial_ok(&self) -> bool {
        true
    }

    /// `A<a>B<b>`, each part left out where its value is zero.
    open spec fn partial_code(&self) -> Seq<char> {
        (if self.a.micros != 0 {
            "A"@ + self.a.spec_text()
        } else {
            Seq::empty()
        }) + (if self.b.micros != 0 {
            "B"@ + self.b.spec_text()
        } else {
            Seq::empty()
        })
    }

    open spec fn is_partial_error(&self, e: GerberError) -> bool {
        false
    }

    fn serialize_partial(&self, out: &mut String) -> (r: Result<(), GerberError>) {
        if self.a.micros != 0 {
            out.append("A");
            self.a.push_text(out);
        }
        if self.b.micros != 0 {
            out.append("B");
            self.b.push_text(out);
        }
        proof {
            assert(out@ =~= old(out)@ + self.partial_code());
        }
        Ok(())
    }
}

impl Default for ImageOffset {
    fn default() -> (r: Self)
        ensures
            r.a.micros == 0,
            r.b.micros == 0,
    {
        ImageOffset { a: Decimal::from_int(0), b: Decimal::from_int(0) }
    }
}

/// Which axes A and B correspond to (AS, deprecated).
#[derive(Debug, Clone, Copy, PartialEq, Eq, Structural)]
pub enum AxisSelect {
    AXBY,
    AYBX,
}

impl AxisSelect {
    /// The token that stands for the value.
    pub open spec fn spec_token(&self) -> Seq<char> {
        match self {
            AxisSelect::AXBY => "AXBY"@,
            AxisSelect::AYBX => "AYBX"@,
        }
    }

    /// The token that stands for the value.
    pub fn token(&self) -> (r: &'static str)
        ensures
            r@ == self.spec_token(),
    {
        match self {
            AxisSelect::AXBY => "AXBY",
            AxisSelect::AYBX => "AYBX",
        }
    }
}

impl PartialGerberCode for AxisSelect {
    open spec fn partial_ok(&self) -> bool {
        true
    }

    open spec fn partial_code(&self) -> Seq<char> {
        self.spec_token()
    }

    open spec fn is_partial_error(&self, e: GerberError) -> bool {
        false
    }

    fn serialize_partial(&self, out: &mut String) -> (r: Result<(), GerberError>) {
        out.append(self.token());
        Ok(())
    }
}

impl Default for AxisSelect {
    fn default() -> (r: Self)
        ensures
            r == AxisSelect::AXBY,
    {
        AxisSelect::AXBY
    }
}

/// Polarity of the whole image (IP, deprecated).
#[derive(Debug, Clone, Copy, PartialEq, Eq, Structural)]
pub enum ImagePolarity {
    Positive,
    Negative,
}

impl ImagePolarity {
    /// The token that stands for the value.
    pub open spec fn spec_token(&self) -> Seq<char> {
        match self {
            ImagePolarity::Positive => "POS"@,
            ImagePolarity::Negative => "NEG"@,
        }
    }

    /// The token that stands for the value.
    pub fn token(&self) -> (r: &'static str)
        ensures
            r@ == self.spec_token(),
    {
        match self {
            ImagePolarity::Positive => "POS",
            ImagePolarity::Negative => "NEG",
        }
    }
}

impl PartialGerberCode for ImagePolarity {
    open spec fn partial_ok(&self) -> bool {
        true
    }

    open spec fn partial_code(&self) -> Seq<char> {
        self.spec_token()
    }

    open spec fn is_partial_error(&self, e: GerberError) -> bool {
        false
    }

    fn serialize_partial(&self, out: &mut String) -> (r: Result<(), GerberError>) {
        out.append(self.token());
        Ok(())
    }
}

impl Default for ImagePolarity {
    fn default() -> (r: Self)
        ensures
            r == ImagePolarity::Positive,
    {
        ImagePolarity::Positive
    }
}

/// Name of the image (IN, deprecated).
#[derive(Debug, Clone, PartialEq)]
pub struct ImageName {
    pub name: String,
}

impl PartialGerberCode for ImageName {
    open spec fn partial_ok(&self) -> bool {
        true
    }

    open spec fn partial_code(&self) -> Seq<char> {
        self.name@
    }

    open spec fn is_partial_error(&self, e: GerberError) -> bool {
        false
    }

    fn serialize_partial(&self, out: &mut String) -> (r: Result<(), GerberError>) {
        out.append(self.name.as_str());
        Ok(())
    }
}

} // verus!
