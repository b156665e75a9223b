//! Attributes: file (TF), aperture (TA) and object (TO) attributes.
use vstd::prelude::*;

use crate::decimal::Decimal;
use crate::errors::{GerberError, is_conversion_error};
use crate::text::{int_text, push_int};
use crate::traits::PartialGerberCode;

verus! {

/// `,` and the decimal text of a present value, nothing otherwise.
pub open spec fn comma_int(value: Option<i32>) -> Seq<char> {
    match value {
        Some(v) => ","@ + int_text(v as int),
        None => Seq::empty(),
    }
}

fn push_comma_int(out: &mut String, value: Option<i32>)
    ensures
        final(out)@ == old(out)@ + comma_int(value),
{
    if let Some(v) = value {
        out.append(",");
        push_int(out, v as i64);
    }
    proof {
        assert(out@ =~= old(out)@ + comma_int(value));
    }
}

/// Each of `values`, preceded by `,`.
pub open spec fn comma_list(values: Seq<String>) -> Seq<char>
    decreases values.len(),
{
    if values.len() == 0 {
        Seq::empty()
    } else {
        comma_list(values.drop_last()) + ","@ + values.last()@
    }
}

fn push_comma_list(out: &mut String, values: &Vec<String>)
    ensures
        final(out)@ == old(out)@ + comma_list(values@),
{
    let mut i: usize = 0;
    while i < values.len()
        invariant
            i <= values@.len(),
            out@ == old(out)@ + comma_list(values@.take(i as int)),
        decreases values@.len() - i,
    {
        out.append(",");
        out.append(values[i].as_str());
        proof {
            let t = values@.take(i as int + 1);
            assert(t.drop_last() =~= values@.take(i as int));
            assert(out@ =~= old(out)@ + comma_list(t));
        }
        i = i + 1;
    }
    proof {
        assert(values@.take(i as int) =~= values@);
    }
}

/// `values` joined by `,`.
pub open spec fn join_text(values: Seq<String>) -> Seq<char>
    decreases values.len(),
{
    if values.len() == 0 {
        Seq::empty()
    } else if values.len() == 1 {
        values[0]@
    } else {
        join_text(values.drop_last()) + ","@ + values.last()@
    }
}

fn push_join(out: &mut String, values: &Vec<String>)
    ensures
        final(out)@ == old(out)@ + join_text(values@),
{
    let mut i: usize = 0;
    while i < values.len()
        invariant
            i <= values@.len(),
            out@ == old(out)@ + join_text(values@.take(i as int)),
        decreases values@.len() - i,
    {
        if i > 0 {
            out.append(",");
        }
        out.append(values[i].as_str());
        proof {
            let t = values@.take(i as int + 1);
            assert(t.drop_last() =~= values@.take(i as int));
            assert(out@ =~= old(out)@ + join_text(t));
        }
        i = i + 1;
    }
    proof {
        assert(values@.take(i as int) =~= values@);
    }
}

/// The lower-case hexadecimal digit of `d` (for `0 <= d < 16`).
pub open spec fn hex_digit(d: int) -> char {
    if d < 10 {
        crate::text::digit_char(d)
    } else if d == 10 {
        'a'
    } else if d == 11 {
        'b'
    } else if d == 12 {
        'c'
    } else if d == 13 {
        'd'
    } else if d == 14 {
        'e'
    } else {
        'f'
    }
}

/// `16^e`.
pub open spec fn pow16(e: nat) -> int
    decreases e,
{
    if e == 0 {
        1
    } else {
        16 * pow16((e - 1) as nat)
    }
}

/// The hyphenated lower-case form of a UUID with value `v`: its 32
/// hexadecimal digits, most significant first, in groups of 8-4-4-4-12
/// separated by `-`.
pub open spec fn uuid_text(v: u128) -> Seq<char> {
    Seq::new(
        36,
        |i: int|
            if i == 8 || i == 13 || i == 18 || i == 23 {
                '-'
            } else {
                let k = if i < 8 {
                    i
                } else if i < 13 {
                    i - 1
                } else if i < 18 {
                    i - 2
                } else if i < 23 {
                    i - 3
                } else {
                    i - 4
                };
                hex_digit((v as int / pow16((31 - k) as nat)) % 16)
            },
    )
}

/// Relies on uuid's `Uuid::from_u128` (the big-endian bytes of the value) and
/// its `Display` impl, which writes the lower-case hyphenated form.
#[verifier::external_body]
fn hyphenated(v: u128) -> (r: String)
    ensures
        r@ == uuid_text(v),
{
    uuid::Uuid::from_u128(v).to_string()
}

/// A universally unique identifier, held as its 128 bit value.
#[derive(Debug, Copy, Clone, PartialEq, Eq, Hash, Structural)]
pub struct Uuid {
    pub value: u128,
}

impl Uuid {
    pub fn from_u128(value: u128) -> (r: Self)
        ensures
            r.value == value,
    {
        Uuid { value }
    }

    /// The nil UUID (all zeros).
    pub fn nil() -> (r: Self)
        ensures
            r.value == 0,
    {
        Uuid { value: 0 }
    }

    /// The max UUID (all ones).
    pub fn max() -> (r: Self)
        ensures
            r.value == u128::MAX,
    {
        Uuid { value: u128::MAX }
    }

    pub fn as_u128(&self) -> (r: u128)
        ensures
            r == self.value,
    {
        self.value
    }

    /// Appends the hyphenated lower-case form.
    pub fn push_text(&self, out: &mut String)
        ensures
            final(out)@ == old(out)@ + uuid_text(self.value),
    {
        let s = hyphenated(self.value);
        out.append(s.as_str());
    }
}

/// The RFC 3339 text that chrono gives for the instant `timestamp` seconds
/// and `nanos` nanoseconds after the Unix epoch, shown at `offset_seconds`
/// east of UTC; `None` where chrono has no such date or offset.
pub uninterp spec fn rfc3339_text(timestamp: int, nanos: int, offset_seconds: int) -> Option<Seq<char>>;

/// The instant and offset that chrono reads from the RFC 3339 text `s`, as
/// `(timestamp, nanos, offset_seconds)`; `None` where chrono rejects it.
pub uninterp spec fn rfc3339_parsed(s: Seq<char>) -> Option<(int, int, int)>;

/// Relies on chrono's `DateTime::from_timestamp`, `FixedOffset::east_opt`,
/// `DateTime::with_timezone` and `DateTime::to_rfc3339`.
#[verifier::external_body]
fn rfc3339(timestamp: i64, nanos: u32, offset_seconds: i32) -> (r: Option<String>)
    ensures
        r is Some <==> rfc3339_text(timestamp as int, nanos as int, offset_seconds as int) is Some,
        r is Some ==> r->Some_0@ == rfc3339_text(timestamp as int, nanos as int, offset_seconds as int)->Some_0,
{
    let offset = chrono::FixedOffset::east_opt(offset_seconds)?;
    let utc = chrono::DateTime::from_timestamp(timestamp, nanos)?;
    Some(utc.with_timezone(&offset).to_rfc3339())
}

/// Relies on chrono's `DateTime::parse_from_rfc3339`, reading back the
/// instant (`timestamp`, `timestamp_subsec_nanos`) and the offset
/// (`local_minus_utc`).
#[verifier::external_body]
fn parse_rfc3339(s: &str) -> (r: Option<(i64, u32, i32)>)
    ensures
        r is Some <==> rfc3339_parsed(s@) is Some,
        r is Some ==> rfc3339_parsed(s@)->Some_0 == (r->Some_0.0 as int, r->Some_0.1 as int, r->Some_0.2 as int),
{
    match chrono::DateTime::parse_from_rfc3339(s) {
        Ok(d) => Some((d.timestamp(), d.timestamp_subsec_nanos(), d.offset().local_minus_utc())),
        Err(_) => None,
    }
}

/// Message of the error for a date that has no RFC 3339 form.
pub open spec fn date_message() -> Seq<char> {
    "Date is out of range"@
}

/// Message of the error for text that is not an RFC 3339 date.
pub open spec fn parse_message() -> Seq<char> {
    "Not an RFC 3339 date"@
}

/// A date and time with a fixed offset from UTC: the instant, as seconds and
/// nanoseconds after the Unix epoch, and the offset in seconds east of UTC.
#[derive(Debug, Copy, Clone, PartialEq, Eq, Hash, Structural)]
pub struct GerberDate {
    pub timestamp: i64,
    pub nanos: u32,
    pub offset_seconds: i32,
}

impl GerberDate {
    pub fn new(timestamp: i64, nanos: u32, offset_seconds: i32) -> (r: Self)
        ensures
            r == (GerberDate { timestamp, nanos, offset_seconds }),
    {
        GerberDate { timestamp, nanos, offset_seconds }
    }

    /// Reads a date such as `2025-06-10T16:25:00+02:00`.
    pub fn parse_from_rfc3339(s: &str) -> (r: Result<Self, GerberError>)
        ensures
            r is Ok <==> rfc3339_parsed(s@) is Some,
            r is Ok ==> rfc3339_parsed(s@)->Some_0 == (
                r->Ok_0.timestamp as int,
                r->Ok_0.nanos as int,
                r->Ok_0.offset_seconds as int,
            ),
            r is Err ==> is_conversion_error(r->Err_0, parse_message()),
    {
        match parse_rfc3339(s) {
            Some((timestamp, nanos, offset_seconds)) => Ok(GerberDate { timestamp, nanos, offset_seconds }),
            None => Err(GerberError::ConversionError(String::from_str("Not an RFC 3339 date"))),
        }
    }

    pub open spec fn spec_text(&self) -> Option<Seq<char>> {
        rfc3339_text(self.timestamp as int, self.nanos as int, self.offset_seconds as int)
    }

    /// Appends the RFC 3339 form, e.g. `2025-06-10T16:25:00+02:00`.
    pub fn push_text(&self, out: &mut String) -> (r: Result<(), GerberError>)
        ensures
            r is Ok <==> self.spec_text() is Some,
            r is Ok ==> final(out)@ == old(out)@ + self.spec_text()->Some_0,
            r is Err ==> is_conversion_error(r->Err_0, date_message()),
    {
        match rfc3339(self.timestamp, self.nanos, self.offset_seconds) {
            Some(s) => {
                out.append(s.as_str());
                Ok(())
            },
            None => Err(GerberError::ConversionError(String::from_str("Date is out of range"))),
        }
    }
}

/// Identifies a file: by UUID or by name.
#[derive(Debug, Clone, PartialEq, Eq, Hash)]
pub enum Ident {
    Uuid(Uuid),
    Name(String),
}

impl PartialGerberCode for Ident {
    open spec fn partial_ok(&self) -> bool {
        true
    }

    open spec fn partial_code(&self) -> Seq<char> {
        match self {
            Ident::Uuid(u) => uuid_text(u.value),
            Ident::Name(n) => n@,
        }
    }

    open spec fn is_partial_error(&self, e: GerberError) -> bool {
        false
    }

    fn serialize_partial(&self, out: &mut String) -> (r: Result<(), GerberError>) {
        match self {
            Ident::Uuid(u) => u.push_text(out),
            Ident::Name(n) => out.append(n.as_str()),
        }
        Ok(())
    }
}

/// How a flashed text is drawn.
#[derive(Debug, Copy, Clone, PartialEq, Eq, Hash, Structural)]
pub enum TextMode {
    BarCode,
    Characters,
}

impl TextMode {
    /// The token that stands for the value.
    pub open spec fn spec_token(&self) -> Seq<char> {
        match self {
            TextMode::BarCode => "B"@,
            TextMode::Characters => "C"@,
        }
    }

    /// The token that stands for the value.
    pub fn token(&self) -> (r: &'static str)
        ensures
            r@ == self.spec_token(),
    {
        match self {
            TextMode::BarCode => "B",
            TextMode::Characters => "C",
        }
    }
}

impl PartialGerberCode for TextMode {
    open spec fn partial_ok(&self) -> bool {
        true
    }

    open spec fn partial_code(&self) -> Seq<char> {
        self.spec_token()
    }

    open spec fn is_partial_error(&self, e: GerberError) -> bool {
        false
    }

    fn serialize_partial(&self, out: &mut String) -> (r: Result<(), GerberError>) {
        out.append(self.token());
        Ok(())
    }
}

/// Whether a flashed text reads normally or mirrored.
#[derive(Debug, Copy, Clone, PartialEq, Eq, Hash, Structural)]
pub enum TextMirroring {
    Readable,
    Mirrored,
}

impl TextMirroring {
    /// The token that stands for the value.
    pub open spec fn spec_token(&self) -> Seq<char> {
        match self {
            TextMirroring::Readable => "R"@,
            TextMirroring::Mirrored => "M"@,
        }
    }

    /// The token that stands for the value.
    pub fn token(&self) -> (r: &'static str)
        ensures
            r@ == self.spec_token(),
    {
        match self {
            TextMirroring::Readable => "R",
            TextMirroring::Mirrored => "M",
        }
    }
}

impl PartialGerberCode for TextMirroring {
    open spec fn partial_ok(&self) -> bool {
        true
    }

    open spec fn partial_code(&self) -> Seq<char> {
        self.spec_token()
    }

    open spec fn is_partial_error(&self, e: GerberError) -> bool {
        false
    }

    fn serialize_partial(&self, out: &mut String) -> (r: Result<(), GerberError>) {
        out.append(self.token());
        Ok(())
    }
}

/// What the file represents (`.Part`).
#[derive(Debug, Clone, PartialEq, Eq, Hash)]
pub enum Part {
    /// Single PCB
    Single,
    /// A.k.a. customer panel, assembly panel, shipping panel, biscuit
    Array,
    /// A.k.a. working panel, production panel
    FabricationPanel,
    /// A test coupon
    Coupon,
    /// None of the above
    Other(String),
}

impl Part {
    /// The literal text that starts the rendering.
    pub open spec fn spec_head(&self) -> Seq<char> {
        match self {
            Part::Single => "Single"@,
            Part::Array => "Array"@,
            Part::FabricationPanel => "FabricationPanel"@,
            Part::Coupon => "Coupon"@,
            Part::Other(_) => "Other,"@,
        }
    }

    /// What follows the head: the variant's data.
    pub open spec fn spec_tail(&self) -> Seq<char> {
        match self {
            Part::Other(description) => description@,
            _ => Seq::empty(),
        }
    }

    fn head(&self) -> (r: &'static str)
        ensures
            r@ == self.spec_head(),
    {
        match self {
            Part::Single => "Single",
            Part::Array => "Array",
            Part::FabricationPanel => "FabricationPanel",
            Part::Coupon => "Coupon",
            Part::Other(_) => "Other,",
        }
    }

    fn push_tail(&self, out: &mut String)
        ensures
            final(out)@ == old(out)@ + self.spec_tail(),
    {
        match self {
            Part::Other(description) => {
                out.append(description.as_str());
                proof {
                    assert(out@ =~= old(out)@ + (description@));
                }
            },
            _ => {
                proof {
                    assert(out@ =~= old(out)@ + self.spec_tail());
                }
            },
        }
    }
}

impl PartialGerberCode for Part {
    open spec fn partial_ok(&self) -> bool {
        true
    }

    open spec fn partial_code(&self) -> Seq<char> {
        self.spec_head() + self.spec_tail()
    }

    open spec fn is_partial_error(&self, e: GerberError) -> bool {
        false
    }

    fn serialize_partial(&self, out: &mut String) -> (r: Result<(), GerberError>) {
        out.append(self.head());
        self.push_tail(out);
        proof {
            assert(out@ =~= old(out)@ + self.partial_code());
        }
        Ok(())
    }
}

/// Top or bottom side.
#[derive(Debug, Copy, Clone, PartialEq, Eq, Hash, Structural)]
pub enum Position {
    Top,
    Bottom,
}

impl Position {
    /// The token that stands for the value.
    pub open spec fn spec_token(&self) -> Seq<char> {
        match self {
            Position::Top => "Top"@,
            Position::Bottom => "Bot"@,
        }
    }

    /// The token that stands for the value.
    pub fn token(&self) -> (r: &'static str)
        ensures
            r@ == self.spec_token(),
    {
        match self {
            Position::Top => "Top",
            Position::Bottom => "Bot",
        }
    }
}

impl PartialGerberCode for Position {
    open spec fn partial_ok(&self) -> bool {
        true
    }

    open spec fn partial_code(&self) -> Seq<char> {
        self.spec_token()
    }

    open spec fn is_partial_error(&self, e: GerberError) -> bool {
        false
    }

    fn serialize_partial(&self, out: &mut String) -> (r: Result<(), GerberError>) {
        out.append(self.token());
        Ok(())
    }
}

/// Top, inner or bottom layer.
#[derive(Debug, Copy, Clone, PartialEq, Eq, Hash, Structural)]
pub enum ExtendedPosition {
    Top,
    Inner,
    Bottom,
}

impl ExtendedPosition {
    /// The token that stands for the value.
    pub open spec fn spec_token(&self) -> Seq<char> {
        match self {
            ExtendedPosition::Top => "Top"@,
            ExtendedPosition::Inner => "Inr"@,
            ExtendedPosition::Bottom => "Bot"@,
        }
    }

    /// The token that stands for the value.
    pub fn token(&self) -> (r: &'static str)
        ensures
            r@ == self.spec_token(),
    {
        match self {
            ExtendedPosition::Top => "Top",
            ExtendedPosition::Inner => "Inr",
            ExtendedPosition::Bottom => "Bot",
        }
    }
}

impl PartialGerberCode for ExtendedPosition {
    open spec fn partial_ok(&self) -> bool {
        true
    }

    open spec fn partial_code(&self) -> Seq<char> {
        self.spec_token()
    }

    open spec fn is_partial_error(&self, e: GerberError) -> bool {
        false
    }

    fn serialize_partial(&self, out: &mut String) -> (r: Result<(), GerberError>) {
        out.append(self.token());
        Ok(())
    }
}

/// Kind of copper layer.
#[derive(Debug, Copy, Clone, PartialEq, Eq, Hash, Structural)]
pub enum CopperType {
    Plane,
    Signal,
    Mixed,
    Hatched,
}

impl CopperType {
    /// The token that stands for the value.
    pub open spec fn spec_token(&self) -> Seq<char> {
        match self {
            CopperType::Plane => "Plane"@,
            CopperType::Signal => "Signal"@,
            CopperType::Mixed => "Mixed"@,
            CopperType::Hatched => "Hatched"@,
        }
    }

    /// The token that stands for the value.
    pub fn token(&self) -> (r: &'static str)
        ensures
            r@ == self.spec_token(),
    {
        match self {
            CopperType::Plane => "Plane",
            CopperType::Signal => "Signal",
            CopperType::Mixed => "Mixed",
            CopperType::Hatched => "Hatched",
        }
    }
}

impl PartialGerberCode for CopperType {
    open spec fn partial_ok(&self) -> bool {
        true
    }

    open spec fn partial_code(&self) -> Seq<char> {
        self.spec_token()
    }

    open spec fn is_partial_error(&self, e: GerberError) -> bool {
        false
    }

    fn serialize_partial(&self, out: &mut String) -> (r: Result<(), GerberError>) {
        out.append(self.token());
        Ok(())
    }
}

/// Kind of plated drill span.
#[derive(Debug, Copy, Clone, PartialEq, Eq, Hash, Structural)]
pub enum PlatedDrill {
    PlatedThroughHole,
    Blind,
    Buried,
}

impl PlatedDrill {
    /// The token that stands for the value.
    pub open spec fn spec_token(&self) -> Seq<char> {
        match self {
            PlatedDrill::PlatedThroughHole => "PTH"@,
            PlatedDrill::Blind => "Blind"@,
            PlatedDrill::Buried => "Buried"@,
        }
    }

    /// The token that stands for the value.
    pub fn token(&self) -> (r: &'static str)
        ensures
            r@ == self.spec_token(),
    {
        match self {
            PlatedDrill::PlatedThroughHole => "PTH",
            PlatedDrill::Blind => "Blind",
            PlatedDrill::Buried => "Buried",
        }
    }
}

impl PartialGerberCode for PlatedDrill {
    open spec fn partial_ok(&self) -> bool {
        true
    }

    open spec fn partial_code(&self) -> Seq<char> {
        self.spec_token()
    }

    open spec fn is_partial_error(&self, e: GerberError) -> bool {
        false
    }

    fn serialize_partial(&self, out: &mut String) -> (r: Result<(), GerberError>) {
        out.append(self.token());
        Ok(())
    }
}

/// Kind of non-plated drill span.
#[derive(Debug, Copy, Clone, PartialEq, Eq, Hash, Structural)]
pub enum NonPlatedDrill {
    NonPlatedThroughHole,
    Blind,
    Buried,
}

impl NonPlatedDrill {
    /// The token that stands for the value.
    pub open spec fn spec_token(&self) -> Seq<char> {
        match self {
            NonPlatedDrill::NonPlatedThroughHole => "NPTH"@,
            NonPlatedDrill::Blind => "Blind"@,
            NonPlatedDrill::Buried => "Buried"@,
        }
    }

    /// The token that stands for the value.
    pub fn token(&self) -> (r: &'static str)
        ensures
            r@ == self.spec_token(),
    {
        match self {
            NonPlatedDrill::NonPlatedThroughHole => "NPTH",
            NonPlatedDrill::Blind => "Blind",
            NonPlatedDrill::Buried => "Buried",
        }
    }
}

impl PartialGerberCode for NonPlatedDrill {
    open spec fn partial_ok(&self) -> bool {
        true
    }

    open spec fn partial_code(&self) -> Seq<char> {
        self.spec_token()
    }

    open spec fn is_partial_error(&self, e: GerberError) -> bool {
        false
    }

    fn serialize_partial(&self, out: &mut String) -> (r: Result<(), GerberError>) {
        out.append(self.token());
        Ok(())
    }
}

/// Whether holes are drilled, routed or both.
#[derive(Debug, Copy, Clone, PartialEq, Eq, Hash, Structural)]
pub enum DrillRouteType {
    Drill,
    Route,
    Mixed,
}

impl DrillRouteType {
    /// The token that stands for the value.
    pub open spec fn spec_token(&self) -> Seq<char> {
        match self {
            DrillRouteType::Drill => "Drill"@,
            DrillRouteType::Route => "Rout"@,
            DrillRouteType::Mixed => "Mixed"@,
        }
    }

    /// The token that stands for the value.
    pub fn token(&self) -> (r: &'static str)
        ensures
            r@ == self.spec_token(),
    {
        match self {
            DrillRouteType::Drill => "Drill",
            DrillRouteType::Route => "Rout",
            DrillRouteType::Mixed => "Mixed",
        }
    }
}

impl PartialGerberCode for DrillRouteType {
    open spec fn partial_ok(&self) -> bool {
        true
    }

    open spec fn partial_code(&self) -> Seq<char> {
        self.spec_token()
    }

    open spec fn is_partial_error(&self, e: GerberError) -> bool {
        false
    }

    fn serialize_partial(&self, out: &mut String) -> (r: Result<(), GerberError>) {
        out.append(self.token());
        Ok(())
    }
}

/// Plating of the board profile.
#[derive(Debug, Copy, Clone, PartialEq, Eq, Hash, Structural)]
pub enum Profile {
    Plated,
    NonPlated,
}

impl Profile {
    /// The token that stands for the value.
    pub open spec fn spec_token(&self) -> Seq<char> {
        match self {
            Profile::Plated => "P"@,
            Profile::NonPlated => "NP"@,
        }
    }

    /// The token that stands for the value.
    pub fn token(&self) -> (r: &'static str)
        ensures
            r@ == self.spec_token(),
    {
        match self {
            Profile::Plated => "P",
            Profile::NonPlated => "NP",
        }
    }
}

impl PartialGerberCode for Profile {
    open spec fn partial_ok(&self) -> bool {
        true
    }

    open spec fn partial_code(&self) -> Seq<char> {
        self.spec_token()
    }

    open spec fn is_partial_error(&self, e: GerberError) -> bool {
        false
    }

    fn serialize_partial(&self, out: &mut String) -> (r: Result<(), GerberError>) {
        out.append(self.token());
        Ok(())
    }
}

/// The function of the file (`.FileFunction`): data layers, then drawing layers.
#[derive(Debug, Clone, PartialEq, Eq, Hash)]
pub enum FileFunction {
    Copper { layer: i32, pos: ExtendedPosition, copper_type: Option<CopperType> },
    Plated { from_layer: i32, to_layer: i32, drill: PlatedDrill, label: Option<DrillRouteType> },
    NonPlated { from_layer: i32, to_layer: i32, drill: NonPlatedDrill, label: Option<DrillRouteType> },
    /// Where DipTrace writes `%TF.FileFunction,Profile*%`, the plating is absent.
    Profile(Option<Profile>),
    KeepOut(Position),
    SolderMask { pos: Position, index: Option<i32> },
    Legend { pos: Position, index: Option<i32> },
    Component { layer: i32, pos: Position },
    Paste(Position),
    Glue(Position),
    CarbonMask { pos: Position, index: Option<i32> },
    GoldMask { pos: Position, index: Option<i32> },
    HeatsinkMask { pos: Position, index: Option<i32> },
    PeelableMask { pos: Position, index: Option<i32> },
    SilverMask { pos: Position, index: Option<i32> },
    TinMask { pos: Position, index: Option<i32> },
    DepthRoute(Position),
    VCut(Option<Position>),
    /// The vias that must be filled (usually with some form of epoxy).
    ViaFill,
    Pads(Position),
    Other(String),
    DrillMap,
    FabricationDrawing,
    VCutMap,
    AssemblyDrawing(Position),
    ArrayDrawing,
    OtherDrawing(String),
}

impl FileFunction {
    /// The literal text that starts the rendering.
    pub open spec fn spec_head(&self) -> Seq<char> {
        match self {
            FileFunction::Copper { .. } => "Copper,L"@,
            FileFunction::Plated { .. } => "Plated,"@,
            FileFunction::NonPlated { .. } => "NonPlated,"@,
            FileFunction::Profile(_) => "Profile"@,
            FileFunction::KeepOut(_) => "Keepout,"@,
            FileFunction::SolderMask { .. } => "Soldermask,"@,
            FileFunction::Legend { .. } => "Legend,"@,
            FileFunction::Component { .. } => "Component,L"@,
            FileFunction::Paste(_) => "Paste,"@,
            FileFunction::Glue(_) => "Glue,"@,
            FileFunction::CarbonMask { .. } => "Carbonmask,"@,
            FileFunction::GoldMask { .. } => "Goldmask,"@,
            FileFunction::HeatsinkMask { .. } => "Heatsinkmask,"@,
            FileFunction::PeelableMask { .. } => "Peelablemask,"@,
            FileFunction::SilverMask { .. } => "Silvermask,"@,
            FileFunction::TinMask { .. } => "Tinmask,"@,
            FileFunction::DepthRoute(_) => "Depthrout,"@,
            FileFunction::VCut(_) => "Vcut"@,
            FileFunction::ViaFill => "Viafill"@,
            FileFunction::Pads(_) => "Pads,"@,
            FileFunction::Other(_) => "Other,"@,
            FileFunction::DrillMap => "Drillmap"@,
            FileFunction::FabricationDrawing => "FabricationDrawing"@,
            FileFunction::VCutMap => "Vcutmap"@,
            FileFunction::AssemblyDrawing(_) => "AssemblyDrawing,"@,
            FileFunction::ArrayDrawing => "ArrayDrawing"@,
            FileFunction::OtherDrawing(_) => "OtherDrawing,"@,
        }
    }

    fn head(&self) -> (r: &'static str)
        ensures
            r@ == self.spec_head(),
    {
        match self {
            FileFunction::Copper { .. } => "Copper,L",
            FileFunction::Plated { .. } => "Plated,",
            FileFunction::NonPlated { .. } => "NonPlated,",
            FileFunction::Profile(_) => "Profile",
            FileFunction::KeepOut(_) => "Keepout,",
            FileFunction::SolderMask { .. } => "Soldermask,",
            FileFunction::Legend { .. } => "Legend,",
            FileFunction::Component { .. } => "Component,L",
            FileFunction::Paste(_) => "Paste,",
            FileFunction::Glue(_) => "Glue,",
            FileFunction::CarbonMask { .. } => "Carbonmask,",
            FileFunction::GoldMask { .. } => "Goldmask,",
            FileFunction::HeatsinkMask { .. } => "Heatsinkmask,",
            FileFunction::PeelableMask { .. } => "Peelablemask,",
            FileFunction::SilverMask { .. } => "Silvermask,",
            FileFunction::TinMask { .. } => "Tinmask,",
            FileFunction::DepthRoute(_) => "Depthrout,",
            FileFunction::VCut(_) => "Vcut",
            FileFunction::ViaFill => "Viafill",
            FileFunction::Pads(_) => "Pads,",
            FileFunction::Other(_) => "Other,",
            FileFunction::DrillMap => "Drillmap",
            FileFunction::FabricationDrawing => "FabricationDrawing",
            FileFunction::VCutMap => "Vcutmap",
            FileFunction::AssemblyDrawing(_) => "AssemblyDrawing,",
            FileFunction::ArrayDrawing => "ArrayDrawing",
            FileFunction::OtherDrawing(_) => "OtherDrawing,",
        }
    }


    /// The side of a variant whose data is only a side.
    pub open spec fn spec_side_only(&self) -> Option<Position> {
        match self {
            FileFunction::KeepOut(pos) => Some(*pos),
            FileFunction::Paste(pos) => Some(*pos),
            FileFunction::Glue(pos) => Some(*pos),
            FileFunction::DepthRoute(pos) => Some(*pos),
            FileFunction::Pads(pos) => Some(*pos),
            FileFunction::AssemblyDrawing(pos) => Some(*pos),
            _ => None,
        }
    }

    fn side_only(&self) -> (r: Option<Position>)
        ensures
            r == self.spec_side_only(),
    {
        match self {
            FileFunction::KeepOut(pos) => Some(*pos),
            FileFunction::Paste(pos) => Some(*pos),
            FileFunction::Glue(pos) => Some(*pos),
            FileFunction::DepthRoute(pos) => Some(*pos),
            FileFunction::Pads(pos) => Some(*pos),
            FileFunction::AssemblyDrawing(pos) => Some(*pos),
            _ => None,
        }
    }

    /// The side and optional index of a mask or legend layer.
    pub open spec fn spec_mask(&self) -> Option<(Position, Option<i32>)> {
        match self {
            FileFunction::SolderMask { pos, index } => Some((*pos, *index)),
            FileFunction::Legend { pos, index } => Some((*pos, *index)),
            FileFunction::CarbonMask { pos, index } => Some((*pos, *index)),
            FileFunction::GoldMask { pos, index } => Some((*pos, *index)),
            FileFunction::HeatsinkMask { pos, index } => Some((*pos, *index)),
            FileFunction::PeelableMask { pos, index } => Some((*pos, *index)),
            FileFunction::SilverMask { pos, index } => Some((*pos, *index)),
            FileFunction::TinMask { pos, index } => Some((*pos, *index)),
            _ => None,
        }
    }

    fn mask(&self) -> (r: Option<(Position, Option<i32>)>)
        ensures
            r == self.spec_mask(),
    {
        match self {
            FileFunction::SolderMask { pos, index } => Some((*pos, *index)),
            FileFunction::Legend { pos, index } => Some((*pos, *index)),
            FileFunction::CarbonMask { pos, index } => Some((*pos, *index)),
            FileFunction::GoldMask { pos, index } => Some((*pos, *index)),
            FileFunction::HeatsinkMask { pos, index } => Some((*pos, *index)),
            FileFunction::PeelableMask { pos, index } => Some((*pos, *index)),
            FileFunction::SilverMask { pos, index } => Some((*pos, *index)),
            FileFunction::TinMask { pos, index } => Some((*pos, *index)),
            _ => None,
        }
    }

    /// The data of the remaining variants.
    pub open spec fn spec_other_tail(&self) -> Seq<char> {
        match self {
            FileFunction::Copper { layer, pos, copper_type } => int_text(*layer as int) + ","@
                + pos.spec_token() + match copper_type {
                Some(t) => ","@ + t.spec_token(),
                None => Seq::empty(),
            },
            FileFunction::Plated { from_layer, to_layer, drill, label } => int_text(
                *from_layer as int,
            ) + ","@ + int_text(*to_layer as int) + ","@ + drill.spec_token() + match label {
                Some(t) => ","@ + t.spec_token(),
                None => Seq::empty(),
            },
            FileFunction::NonPlated { from_layer, to_layer, drill, label } => int_text(
                *from_layer as int,
            ) + ","@ + int_text(*to_layer as int) + ","@ + drill.spec_token() + match label {
                Some(t) => ","@ + t.spec_token(),
                None => Seq::empty(),
            },
            FileFunction::Profile(plating) => match plating {
                Some(t) => ","@ + t.spec_token(),
                None => Seq::empty(),
            },
            FileFunction::Component { layer, pos } => int_text(*layer as int) + ","@
                + pos.spec_token(),
            FileFunction::VCut(pos) => match pos {
                Some(t) => ","@ + t.spec_token(),
                None => Seq::empty(),
            },
            FileFunction::Other(value) => value@,
            FileFunction::OtherDrawing(value) => value@,
            _ => Seq::empty(),
        }
    }

    /// What follows the head: the variant's data.
    pub open spec fn spec_tail(&self) -> Seq<char> {
        match self.spec_side_only() {
            Some(pos) => pos.spec_token(),
            None => match self.spec_mask() {
                Some((pos, index)) => pos.spec_token() + comma_int(index),
                None => self.spec_other_tail(),
            },
        }
    }

    fn push_other_tail(&self, out: &mut String)
        ensures
            final(out)@ == old(out)@ + self.spec_other_tail(),
    {
        match self {
            FileFunction::Copper { layer, pos, copper_type } => {
                push_int(out, *layer as i64);
                out.append(",");
                out.append(pos.token());
                if let Some(t) = copper_type {
                    out.append(",");
                    out.append(t.token());
                }
            },
            FileFunction::Plated { from_layer, to_layer, drill, label } => {
                push_int(out, *from_layer as i64);
                out.append(",");
                push_int(out, *to_layer as i64);
                out.append(",");
                out.append(drill.token());
                if let Some(t) = label {
                    out.append(",");
                    out.append(t.token());
                }
            },
            FileFunction::NonPlated { from_layer, to_layer, drill, label } => {
                push_int(out, *from_layer as i64);
                out.append(",");
                push_int(out, *to_layer as i64);
                out.append(",");
                out.append(drill.token());
                if let Some(t) = label {
                    out.append(",");
                    out.append(t.token());
                }
            },
            FileFunction::Profile(plating) => {
                if let Some(t) = plating {
                    out.append(",");
                    out.append(t.token());
                }
            },
            FileFunction::Component { layer, pos } => {
                push_int(out, *layer as i64);
                out.append(",");
                out.append(pos.token());
            },
            FileFunction::VCut(pos) => {
                if let Some(t) = pos {
                    out.append(",");
                    out.append(t.token());
                }
            },
            FileFunction::Other(value) => out.append(value.as_str()),
            FileFunction::OtherDrawing(value) => out.append(value.as_str()),
            _ => {},
        }
        proof {
            assert(out@ =~= old(out)@ + self.spec_other_tail());
        }
    }

    fn push_tail(&self, out: &mut String)
        ensures
            final(out)@ == old(out)@ + self.spec_tail(),
    {
        match self.side_only() {
            Some(pos) => out.append(pos.token()),
            None => match self.mask() {
                Some((pos, index)) => {
                    out.append(pos.token());
                    push_comma_int(out, index);
                    proof {
                        assert(out@ =~= old(out)@ + self.spec_tail());
                    }
                },
                None => self.push_other_tail(out),
            },
        }
    }
}

impl PartialGerberCode for FileFunction {
    open spec fn partial_ok(&self) -> bool {
        true
    }

    open spec fn partial_code(&self) -> Seq<char> {
        self.spec_head() + self.spec_tail()
    }

    open spec fn is_partial_error(&self, e: GerberError) -> bool {
        false
    }

    fn serialize_partial(&self, out: &mut String) -> (r: Result<(), GerberError>) {
        out.append(self.head());
        self.push_tail(out);
        proof {
            assert(out@ =~= old(out)@ + self.partial_code());
        }
        Ok(())
    }
}

/// Whether the image is positive or negative (`.FilePolarity`).
#[derive(Debug, Copy, Clone, PartialEq, Eq, Hash, Structural)]
pub enum FilePolarity {
    Positive,
    Negative,
}

impl FilePolarity {
    /// The token that stands for the value.
    pub open spec fn spec_token(&self) -> Seq<char> {
        match self {
            FilePolarity::Positive => "Positive"@,
            FilePolarity::Negative => "Negative"@,
        }
    }

    /// The token that stands for the value.
    pub fn token(&self) -> (r: &'static str)
        ensures
            r@ == self.spec_token(),
    {
        match self {
            FilePolarity::Positive => "Positive",
            FilePolarity::Negative => "Negative",
        }
    }
}

impl PartialGerberCode for FilePolarity {
    open spec fn partial_ok(&self) -> bool {
        true
    }

    open spec fn partial_code(&self) -> Seq<char> {
        self.spec_token()
    }

    open spec fn is_partial_error(&self, e: GerberError) -> bool {
        false
    }

    fn serialize_partial(&self, out: &mut String) -> (r: Result<(), GerberError>) {
        out.append(self.token());
        Ok(())
    }
}

/// The software that wrote the file (`.GenerationSoftware`).
#[derive(Debug, Clone, PartialEq, Eq, Hash)]
pub struct GenerationSoftware {
    pub vendor: String,
    pub application: String,
    pub version: Option<String>,
}

impl GenerationSoftware {
    pub fn new(vendor: &str, application: &str, version: Option<&str>) -> (r: Self)
        ensures
            r.vendor@ == vendor@,
            r.application@ == application@,
            r.version is Some <==> version is Some,
            r.version is Some ==> r.version->Some_0@ == version->Some_0@,
    {
        GenerationSoftware {
            vendor: String::from_str(vendor),
            application: String::from_str(application),
            version: match version {
                Some(v) => Some(String::from_str(v)),
                None => None,
            },
        }
    }
}

/// `<vendor>,<application>[,<version>]`
impl PartialGerberCode for GenerationSoftware {
    open spec fn partial_ok(&self) -> bool {
        true
    }

    open spec fn partial_code(&self) -> Seq<char> {
        self.vendor@ + ","@ + self.application@ + match self.version {
            Some(v) => ","@ + v@,
            None => Seq::empty(),
        }
    }

    open spec fn is_partial_error(&self, e: GerberError) -> bool {
        false
    }

    fn serialize_partial(&self, out: &mut String) -> (r: Result<(), GerberError>) {
        out.append(self.vendor.as_str());
        out.append(",");
        out.append(self.application.as_str());
        if let Some(v) = &self.version {
            out.append(",");
            out.append(v.as_str());
        }
        proof {
            assert(out@ =~= old(out)@ + self.partial_code());
        }
        Ok(())
    }
}

/// A file attribute (TF): standard ones start with `.`, user-defined ones
/// carry their own name.
#[derive(Debug, Clone, PartialEq, Eq, Hash)]
pub enum FileAttribute {
    /// `.Part,<part>`
    Part(Part),
    /// `.FileFunction,<function>`
    FileFunction(FileFunction),
    /// `.FilePolarity,(Positive|Negative)`
    FilePolarity(FilePolarity),
    /// `.SameCoordinates[,<ident>]`
    SameCoordinates(Option<Ident>),
    /// `.CreationDate,<RFC 3339 date>`
    CreationDate(GerberDate),
    /// `.GenerationSoftware,<vendor>,<application>[,<version>]`
    GenerationSoftware(GenerationSoftware),
    /// `.ProjectId,<name>,<uuid>,<revision>`
    ProjectId { id: String, uuid: Uuid, revision: String },
    /// `.MD5,<checksum>`
    Md5(String),
    /// `<name>,<value>,...`
    UserDefined { name: String, values: Vec<String> },
}

impl PartialGerberCode for FileAttribute {
    /// Only a creation date can fail to render.
    open spec fn partial_ok(&self) -> bool {
        match self {
            FileAttribute::CreationDate(d) => d.spec_text() is Some,
            _ => true,
        }
    }

    open spec fn partial_code(&self) -> Seq<char> {
        match self {
            FileAttribute::Part(p) => ".Part,"@ + p.partial_code(),
            FileAttribute::FileFunction(f) => ".FileFunction,"@ + f.partial_code(),
            FileAttribute::FilePolarity(p) => ".FilePolarity,"@ + p.spec_token(),
            FileAttribute::SameCoordinates(ident) => ".SameCoordinates"@ + match ident {
                Some(i) => ","@ + i.partial_code(),
                None => Seq::empty(),
            },
            FileAttribute::CreationDate(d) => ".CreationDate,"@ + d.spec_text()->Some_0,
            FileAttribute::GenerationSoftware(g) => ".GenerationSoftware,"@ + g.partial_code(),
            FileAttribute::ProjectId { id, uuid, revision } => ".ProjectId,"@ + id@ + ","@
                + uuid_text(uuid.value) + ","@ + revision@,
            FileAttribute::Md5(hash) => ".MD5,"@ + hash@,
            FileAttribute::UserDefined { name, values } => name@ + comma_list(values@),
        }
    }

    open spec fn is_partial_error(&self, e: GerberError) -> bool {
        is_conversion_error(e, date_message())
    }

    fn serialize_partial(&self, out: &mut String) -> (r: Result<(), GerberError>) {
        match self {
            FileAttribute::Part(p) => {
                out.append(".Part,");
                let _ = p.serialize_partial(out);
            },
            FileAttribute::FileFunction(f) => {
                out.append(".FileFunction,");
                let _ = f.serialize_partial(out);
            },
            FileAttribute::FilePolarity(p) => {
                out.append(".FilePolarity,");
                out.append(p.token());
            },
            FileAttribute::SameCoordinates(ident) => {
                out.append(".SameCoordinates");
                if let Some(i) = ident {
                    out.append(",");
                    let _ = i.serialize_partial(out);
                }
            },
            FileAttribute::CreationDate(d) => {
                out.append(".CreationDate,");
                if let Err(e) = d.push_text(out) {
                    return Err(e);
                }
            },
            FileAttribute::GenerationSoftware(g) => {
                out.append(".GenerationSoftware,");
                let _ = g.serialize_partial(out);
            },
            FileAttribute::ProjectId { id, uuid, revision } => {
                out.append(".ProjectId,");
                out.append(id.as_str());
                out.append(",");
                uuid.push_text(out);
                out.append(",");
                out.append(revision.as_str());
            },
            FileAttribute::Md5(hash) => {
                out.append(".MD5,");
                out.append(hash.as_str());
            },
            FileAttribute::UserDefined { name, values } => {
                out.append(name.as_str());
                push_comma_list(out, values);
            },
        }
        proof {
            assert(out@ =~= old(out)@ + self.partial_code());
        }
        Ok(())
    }
}

/// An aperture attribute (TA).
#[derive(Debug, Clone, PartialEq)]
pub enum ApertureAttribute {
    /// `.AperFunction,<function>`
    ApertureFunction(ApertureFunction),
    /// `.DrillTolerance,<plus>,<minus>`
    DrillTolerance { plus: Decimal, minus: Decimal },
    /// `.FlashText,<text>,<mode>,[<mirroring>],[<font>],[<size>],[<comment>]`:
    /// the optional fields keep their slots, since fields are positional.
    FlashText {
        text: String,
        mode: TextMode,
        mirroring: Option<TextMirroring>,
        font: Option<String>,
        size: Option<i32>,
        comment: Option<String>,
    },
    /// `<name>,<value>,...`
    UserDefined { name: String, values: Vec<String> },
}

/// The fields of a `.FlashText` attribute after its name.
pub open spec fn flash_text(
    text: Seq<char>,
    mode: TextMode,
    mirroring: Option<TextMirroring>,
    font: Option<String>,
    size: Option<i32>,
    comment: Option<String>,
) -> Seq<char> {
    text + ","@ + mode.spec_token() + ","@ + match mirroring {
        Some(m) => m.spec_token(),
        None => Seq::empty(),
    } + ","@ + optional_text(font) + ","@ + match size {
        Some(s) => int_text(s as int),
        None => Seq::empty(),
    } + ","@ + optional_text(comment)
}

fn push_flash_text(
    out: &mut String,
    text: &String,
    mode: TextMode,
    mirroring: Option<TextMirroring>,
    font: &Option<String>,
    size: Option<i32>,
    comment: &Option<String>,
)
    ensures
        final(out)@ == old(out)@ + ".FlashText,"@ + flash_text(text@, mode, mirroring, *font, size, *comment),
{
    out.append(".FlashText,");
    out.append(text.as_str());
    out.append(",");
    out.append(mode.token());
    out.append(",");
    let m: &str = match mirroring {
        Some(m) => m.token(),
        None => "",
    };
    out.append(m);
    out.append(",");
    push_optional_text(out, font);
    out.append(",");
    push_optional_int(out, size);
    out.append(",");
    push_optional_text(out, comment);
    proof {
        reveal_strlit("");
        assert(m@ == match mirroring {
            Some(m) => m.spec_token(),
            None => Seq::<char>::empty(),
        });
        assert(out@ =~= old(out)@ + ".FlashText,"@ + flash_text(text@, mode, mirroring, *font, size, *comment));
    }
}

fn push_optional_text(out: &mut String, value: &Option<String>)
    ensures
        final(out)@ == old(out)@ + optional_text(*value),
{
    if let Some(s) = value {
        out.append(s.as_str());
    }
    proof {
        assert(out@ =~= old(out)@ + optional_text(*value));
    }
}

fn push_optional_int(out: &mut String, value: Option<i32>)
    ensures
        final(out)@ == old(out)@ + match value {
            Some(v) => int_text(v as int),
            None => Seq::empty(),
        },
{
    if let Some(v) = value {
        push_int(out, v as i64);
    }
    proof {
        assert(out@ =~= old(out)@ + match value {
            Some(v) => int_text(v as int),
            None => Seq::<char>::empty(),
        });
    }
}

/// The text of a present value, nothing otherwise.
pub open spec fn optional_text(value: Option<String>) -> Seq<char> {
    match value {
        Some(s) => s@,
        None => Seq::empty(),
    }
}

impl PartialGerberCode for ApertureAttribute {
    open spec fn partial_ok(&self) -> bool {
        true
    }

    open spec fn partial_code(&self) -> Seq<char> {
        match self {
            ApertureAttribute::ApertureFunction(f) => ".AperFunction,"@ + f.partial_code(),
            ApertureAttribute::DrillTolerance { plus, minus } => ".DrillTolerance,"@
                + plus.spec_text() + ","@ + minus.spec_text(),
            ApertureAttribute::FlashText { text, mode, mirroring, font, size, comment } =>
                ".FlashText,"@ + flash_text(text@, *mode, *mirroring, *font, *size, *comment),
            ApertureAttribute::UserDefined { name, values } => name@ + comma_list(values@),
        }
    }

    open spec fn is_partial_error(&self, e: GerberError) -> bool {
        false
    }

    fn serialize_partial(&self, out: &mut String) -> (r: Result<(), GerberError>) {
        match self {
            ApertureAttribute::ApertureFunction(f) => {
                out.append(".AperFunction,");
                let _ = f.serialize_partial(out);
            },
            ApertureAttribute::DrillTolerance { plus, minus } => {
                out.append(".DrillTolerance,");
                plus.push_text(out);
                out.append(",");
                minus.push_text(out);
            },
            ApertureAttribute::FlashText { text, mode, mirroring, font, size, comment } => {
                push_flash_text(out, text, *mode, *mirroring, font, *size, comment);
            },
            ApertureAttribute::UserDefined { name, values } => {
                out.append(name.as_str());
                push_comma_list(out, values);
            },
        }
        proof {
            assert(out@ =~= old(out)@ + self.partial_code());
        }
        Ok(())
    }
}

/// The function of an aperture (`.AperFunction`): drill and rout layers, copper layers, all data layers, component layers, and the deprecated values.
#[derive(Debug, Clone, PartialEq, Eq, Hash)]
pub enum ApertureFunction {
    ViaDrill(Option<IPC4761ViaProtection>),
    BackDrill,
    ComponentDrill { function: Option<ComponentDrill> },
    MechanicalDrill { function: Option<DrillFunction> },
    CastellatedDrill,
    OtherDrill(String),
    ComponentPad,
    SmdPad(SmdPadType),
    BgaPad(SmdPadType),
    ConnectorPad,
    HeatsinkPad,
    ViaPad,
    TestPad,
    CastellatedPad,
    FiducialPad(FiducialScope),
    ThermalReliefPad,
    WasherPad,
    AntiPad,
    OtherPad(String),
    Conductor,
    EtchedComponent,
    NonConductor,
    CopperBalancing,
    Border,
    OtherCopper(String),
    Profile,
    Material,
    NonMaterial,
    Other(String),
    ComponentMain,
    ComponentOutline(ComponentOutline),
    ComponentPin,
    Slot,
    CutOut,
    Cavity,
    Drawing,
}

impl ApertureFunction {
    /// The literal text that starts the rendering.
    pub open spec fn spec_head(&self) -> Seq<char> {
        match self {
            ApertureFunction::ViaDrill(_) => "ViaDrill"@,
            ApertureFunction::BackDrill => "BackDrill"@,
            ApertureFunction::ComponentDrill { .. } => "ComponentDrill"@,
            ApertureFunction::MechanicalDrill { .. } => "MechanicalDrill"@,
            ApertureFunction::CastellatedDrill => "CastellatedDrill"@,
            ApertureFunction::OtherDrill(_) => "OtherDrill,"@,
            ApertureFunction::ComponentPad => "ComponentPad"@,
            ApertureFunction::SmdPad(_) => "SMDPad,"@,
            ApertureFunction::BgaPad(_) => "BGAPad,"@,
            ApertureFunction::ConnectorPad => "ConnectorPad"@,
            ApertureFunction::HeatsinkPad => "HeatsinkPad"@,
            ApertureFunction::ViaPad => "ViaPad"@,
            ApertureFunction::TestPad => "TestPad"@,
            ApertureFunction::CastellatedPad => "CastellatedPad"@,
            ApertureFunction::FiducialPad(_) => "FiducialPad,"@,
            ApertureFunction::ThermalReliefPad => "ThermalReliefPad"@,
            ApertureFunction::WasherPad => "WasherPad"@,
            ApertureFunction::AntiPad => "AntiPad"@,
            ApertureFunction::OtherPad(_) => "OtherPad,"@,
            ApertureFunction::Conductor => "Conductor"@,
            ApertureFunction::EtchedComponent => "EtchedComponent"@,
            ApertureFunction::NonConductor => "NonConductor"@,
            ApertureFunction::CopperBalancing => "CopperBalancing"@,
            ApertureFunction::Border => "Border"@,
            ApertureFunction::OtherCopper(_) => "OtherCopper,"@,
            ApertureFunction::Profile => "Profile"@,
            ApertureFunction::Material => "Material"@,
            ApertureFunction::NonMaterial => "NonMaterial"@,
            ApertureFunction::Other(_) => "Other,"@,
            ApertureFunction::ComponentMain => "ComponentMain"@,
            ApertureFunction::ComponentOutline(_) => "ComponentOutline,"@,
            ApertureFunction::ComponentPin => "ComponentPin"@,
            ApertureFunction::Slot => "Slot"@,
            ApertureFunction::CutOut => "CutOut"@,
            ApertureFunction::Cavity => "Cavity"@,
            ApertureFunction::Drawing => "Drawing"@,
        }
    }

    /// What follows the head: the variant's data.
    pub open spec fn spec_tail(&self) -> Seq<char> {
        match self {
            ApertureFunction::ViaDrill(value) => (match value { Some(t) => ","@ + t.spec_token(), None => Seq::empty() }),
            ApertureFunction::ComponentDrill { function } => (match function { Some(t) => ","@ + t.spec_token(), None => Seq::empty() }),
            ApertureFunction::MechanicalDrill { function } => (match function { Some(t) => ","@ + t.spec_token(), None => Seq::empty() }),
            ApertureFunction::OtherDrill(value) => value@,
            ApertureFunction::SmdPad(value) => value.spec_token(),
            ApertureFunction::BgaPad(value) => value.spec_token(),
            ApertureFunction::FiducialPad(value) => value.spec_token(),
            ApertureFunction::OtherPad(value) => value@,
            ApertureFunction::OtherCopper(value) => value@,
            ApertureFunction::Other(value) => value@,
            ApertureFunction::ComponentOutline(value) => value.spec_token(),
            _ => Seq::empty(),
        }
    }

    fn head(&self) -> (r: &'static str)
        ensures
            r@ == self.spec_head(),
    {
        match self {
            ApertureFunction::ViaDrill(_) => "ViaDrill",
            ApertureFunction::BackDrill => "BackDrill",
            ApertureFunction::ComponentDrill { .. } => "ComponentDrill",
            ApertureFunction::MechanicalDrill { .. } => "MechanicalDrill",
            ApertureFunction::CastellatedDrill => "CastellatedDrill",
            ApertureFunction::OtherDrill(_) => "OtherDrill,",
            ApertureFunction::ComponentPad => "ComponentPad",
            ApertureFunction::SmdPad(_) => "SMDPad,",
            ApertureFunction::BgaPad(_) => "BGAPad,",
            ApertureFunction::ConnectorPad => "ConnectorPad",
            ApertureFunction::HeatsinkPad => "HeatsinkPad",
            ApertureFunction::ViaPad => "ViaPad",
            ApertureFunction::TestPad => "TestPad",
            ApertureFunction::CastellatedPad => "CastellatedPad",
            ApertureFunction::FiducialPad(_) => "FiducialPad,",
            ApertureFunction::ThermalReliefPad => "ThermalReliefPad",
            ApertureFunction::WasherPad => "WasherPad",
            ApertureFunction::AntiPad => "AntiPad",
            ApertureFunction::OtherPad(_) => "OtherPad,",
            ApertureFunction::Conductor => "Conductor",
            ApertureFunction::EtchedComponent => "EtchedComponent",
            ApertureFunction::NonConductor => "NonConductor",
            ApertureFunction::CopperBalancing => "CopperBalancing",
            ApertureFunction::Border => "Border",
            ApertureFunction::OtherCopper(_) => "OtherCopper,",
            ApertureFunction::Profile => "Profile",
            ApertureFunction::Material => "Material",
            ApertureFunction::NonMaterial => "NonMaterial",
            ApertureFunction::Other(_) => "Other,",
            ApertureFunction::ComponentMain => "ComponentMain",
            ApertureFunction::ComponentOutline(_) => "ComponentOutline,",
            ApertureFunction::ComponentPin => "ComponentPin",
            ApertureFunction::Slot => "Slot",
            ApertureFunction::CutOut => "CutOut",
            ApertureFunction::Cavity => "Cavity",
            ApertureFunction::Drawing => "Drawing",
        }
    }

    fn push_tail(&self, out: &mut String)
        ensures
            final(out)@ == old(out)@ + self.spec_tail(),
    {
        match self {
            ApertureFunction::ViaDrill(value) => {
                if let Some(t) = value {
                    out.append(",");
                    out.append(t.token());
                }
                proof {
                    assert(out@ =~= old(out)@ + ((match value { Some(t) => ","@ + t.spec_token(), None => Seq::empty() })));
                }
            },
            ApertureFunction::ComponentDrill { function } => {
                if let Some(t) = function {
                    out.append(",");
                    out.append(t.token());
                }
                proof {
                    assert(out@ =~= old(out)@ + ((match function { Some(t) => ","@ + t.spec_token(), None => Seq::empty() })));
                }
            },
            ApertureFunction::MechanicalDrill { function } => {
                if let Some(t) = function {
                    out.append(",");
                    out.append(t.token());
                }
                proof {
                    assert(out@ =~= old(out)@ + ((match function { Some(t) => ","@ + t.spec_token(), None => Seq::empty() })));
                }
            },
            ApertureFunction::OtherDrill(value) => {
                out.append(value.as_str());
                proof {
                    assert(out@ =~= old(out)@ + (value@));
                }
            },
            ApertureFunction::SmdPad(value) => {
                out.append(value.token());
                proof {
                    assert(out@ =~= old(out)@ + (value.spec_token()));
                }
            },
            ApertureFunction::BgaPad(value) => {
                out.append(value.token());
                proof {
                    assert(out@ =~= old(out)@ + (value.spec_token()));
                }
            },
            ApertureFunction::FiducialPad(value) => {
                out.append(value.token());
                proof {
                    assert(out@ =~= old(out)@ + (value.spec_token()));
                }
            },
            ApertureFunction::OtherPad(value) => {
                out.append(value.as_str());
                proof {
                    assert(out@ =~= old(out)@ + (value@));
                }
            },
            ApertureFunction::OtherCopper(value) => {
                out.append(value.as_str());
                proof {
                    assert(out@ =~= old(out)@ + (value@));
                }
            },
            ApertureFunction::Other(value) => {
                out.append(value.as_str());
                proof {
                    assert(out@ =~= old(out)@ + (value@));
                }
            },
            ApertureFunction::ComponentOutline(value) => {
                out.append(value.token());
                proof {
                    assert(out@ =~= old(out)@ + (value.spec_token()));
                }
            },
            _ => {
                proof {
                    assert(out@ =~= old(out)@ + self.spec_tail());
                }
            },
        }
    }
}

impl PartialGerberCode for ApertureFunction {
    open spec fn partial_ok(&self) -> bool {
        true
    }

    open spec fn partial_code(&self) -> Seq<char> {
        self.spec_head() + self.spec_tail()
    }

    open spec fn is_partial_error(&self, e: GerberError) -> bool {
        false
    }

    fn serialize_partial(&self, out: &mut String) -> (r: Result<(), GerberError>) {
        out.append(self.head());
        self.push_tail(out);
        proof {
            assert(out@ =~= old(out)@ + self.partial_code());
        }
        Ok(())
    }
}

/// Via protection type after IPC-4761.
#[derive(Debug, Copy, Clone, PartialEq, Eq, Hash, Structural)]
pub enum IPC4761ViaProtection {
    Ia,
    Ib,
    IIa,
    IIb,
    IIIa,
    IIIb,
    IVa,
    IVb,
    V,
    VI,
    VII,
    NoProtection,
}

impl IPC4761ViaProtection {
    /// The token that stands for the value.
    pub open spec fn spec_token(&self) -> Seq<char> {
        match self {
            IPC4761ViaProtection::Ia => "Ia"@,
            IPC4761ViaProtection::Ib => "Ib"@,
            IPC4761ViaProtection::IIa => "IIa"@,
            IPC4761ViaProtection::IIb => "IIb"@,
            IPC4761ViaProtection::IIIa => "IIIa"@,
            IPC4761ViaProtection::IIIb => "IIIb"@,
            IPC4761ViaProtection::IVa => "IVa"@,
            IPC4761ViaProtection::IVb => "IVb"@,
            IPC4761ViaProtection::V => "V"@,
            IPC4761ViaProtection::VI => "VI"@,
            IPC4761ViaProtection::VII => "VII"@,
            IPC4761ViaProtection::NoProtection => "None"@,
        }
    }

    /// The token that stands for the value.
    pub fn token(&self) -> (r: &'static str)
        ensures
            r@ == self.spec_token(),
    {
        match self {
            IPC4761ViaProtection::Ia => "Ia",
            IPC4761ViaProtection::Ib => "Ib",
            IPC4761ViaProtection::IIa => "IIa",
            IPC4761ViaProtection::IIb => "IIb",
            IPC4761ViaProtection::IIIa => "IIIa",
            IPC4761ViaProtection::IIIb => "IIIb",
            IPC4761ViaProtection::IVa => "IVa",
            IPC4761ViaProtection::IVb => "IVb",
            IPC4761ViaProtection::V => "V",
            IPC4761ViaProtection::VI => "VI",
            IPC4761ViaProtection::VII => "VII",
            IPC4761ViaProtection::NoProtection => "None",
        }
    }
}

impl PartialGerberCode for IPC4761ViaProtection {
    open spec fn partial_ok(&self) -> bool {
        true
    }

    open spec fn partial_code(&self) -> Seq<char> {
        self.spec_token()
    }

    open spec fn is_partial_error(&self, e: GerberError) -> bool {
        false
    }

    fn serialize_partial(&self, out: &mut String) -> (r: Result<(), GerberError>) {
        out.append(self.token());
        Ok(())
    }
}

/// Which outline of a component is drawn.
#[derive(Debug, Copy, Clone, PartialEq, Eq, Hash, Structural)]
pub enum ComponentOutline {
    Body,
    Lead2Lead,
    Footprint,
    Courtyard,
}

impl ComponentOutline {
    /// The token that stands for the value.
    pub open spec fn spec_token(&self) -> Seq<char> {
        match self {
            ComponentOutline::Body => "Body"@,
            ComponentOutline::Lead2Lead => "Lead2Lead"@,
            ComponentOutline::Footprint => "Footprint"@,
            ComponentOutline::Courtyard => "Courtyard"@,
        }
    }

    /// The token that stands for the value.
    pub fn token(&self) -> (r: &'static str)
        ensures
            r@ == self.spec_token(),
    {
        match self {
            ComponentOutline::Body => "Body",
            ComponentOutline::Lead2Lead => "Lead2Lead",
            ComponentOutline::Footprint => "Footprint",
            ComponentOutline::Courtyard => "Courtyard",
        }
    }
}

impl PartialGerberCode for ComponentOutline {
    open spec fn partial_ok(&self) -> bool {
        true
    }

    open spec fn partial_code(&self) -> Seq<char> {
        self.spec_token()
    }

    open spec fn is_partial_error(&self, e: GerberError) -> bool {
        false
    }

    fn serialize_partial(&self, out: &mut String) -> (r: Result<(), GerberError>) {
        out.append(self.token());
        Ok(())
    }
}

/// Purpose of a mechanical drill.
#[derive(Debug, Copy, Clone, PartialEq, Eq, Hash, Structural)]
pub enum DrillFunction {
    BreakOut,
    Tooling,
    Other,
}

impl DrillFunction {
    /// The token that stands for the value.
    pub open spec fn spec_token(&self) -> Seq<char> {
        match self {
            DrillFunction::BreakOut => "Breakout"@,
            DrillFunction::Tooling => "Tooling"@,
            DrillFunction::Other => "Other"@,
        }
    }

    /// The token that stands for the value.
    pub fn token(&self) -> (r: &'static str)
        ensures
            r@ == self.spec_token(),
    {
        match self {
            DrillFunction::BreakOut => "Breakout",
            DrillFunction::Tooling => "Tooling",
            DrillFunction::Other => "Other",
        }
    }
}

impl PartialGerberCode for DrillFunction {
    open spec fn partial_ok(&self) -> bool {
        true
    }

    open spec fn partial_code(&self) -> Seq<char> {
        self.spec_token()
    }

    open spec fn is_partial_error(&self, e: GerberError) -> bool {
        false
    }

    fn serialize_partial(&self, out: &mut String) -> (r: Result<(), GerberError>) {
        out.append(self.token());
        Ok(())
    }
}

/// Kind of component drill. The aperture function writes `PressFit`, while the mounting characteristic writes `Pressfit`.
#[derive(Debug, Copy, Clone, PartialEq, Eq, Hash, Structural)]
pub enum ComponentDrill {
    PressFit,
}

impl ComponentDrill {
    /// The token that stands for the value.
    pub open spec fn spec_token(&self) -> Seq<char> {
        match self {
            ComponentDrill::PressFit => "PressFit"@,
        }
    }

    /// The token that stands for the value.
    pub fn token(&self) -> (r: &'static str)
        ensures
            r@ == self.spec_token(),
    {
        match self {
            ComponentDrill::PressFit => "PressFit",
        }
    }
}

impl PartialGerberCode for ComponentDrill {
    open spec fn partial_ok(&self) -> bool {
        true
    }

    open spec fn partial_code(&self) -> Seq<char> {
        self.spec_token()
    }

    open spec fn is_partial_error(&self, e: GerberError) -> bool {
        false
    }

    fn serialize_partial(&self, out: &mut String) -> (r: Result<(), GerberError>) {
        out.append(self.token());
        Ok(())
    }
}

/// Whether an SMD pad is copper or solder mask defined.
#[derive(Debug, Copy, Clone, PartialEq, Eq, Hash, Structural)]
pub enum SmdPadType {
    CopperDefined,
    SoldermaskDefined,
}

impl SmdPadType {
    /// The token that stands for the value.
    pub open spec fn spec_token(&self) -> Seq<char> {
        match self {
            SmdPadType::CopperDefined => "CuDef"@,
            SmdPadType::SoldermaskDefined => "SMDef"@,
        }
    }

    /// The token that stands for the value.
    pub fn token(&self) -> (r: &'static str)
        ensures
            r@ == self.spec_token(),
    {
        match self {
            SmdPadType::CopperDefined => "CuDef",
            SmdPadType::SoldermaskDefined => "SMDef",
        }
    }
}

impl PartialGerberCode for SmdPadType {
    open spec fn partial_ok(&self) -> bool {
        true
    }

    open spec fn partial_code(&self) -> Seq<char> {
        self.spec_token()
    }

    open spec fn is_partial_error(&self, e: GerberError) -> bool {
        false
    }

    fn serialize_partial(&self, out: &mut String) -> (r: Result<(), GerberError>) {
        out.append(self.token());
        Ok(())
    }
}

/// Scope of a fiducial pad.
#[derive(Debug, Copy, Clone, PartialEq, Eq, Hash, Structural)]
pub enum FiducialScope {
    Local,
    Global,
    Panel,
}

impl FiducialScope {
    /// The token that stands for the value.
    pub open spec fn spec_token(&self) -> Seq<char> {
        match self {
            FiducialScope::Local => "Local"@,
            FiducialScope::Global => "Global"@,
            FiducialScope::Panel => "Panel"@,
        }
    }

    /// The token that stands for the value.
    pub fn token(&self) -> (r: &'static str)
        ensures
            r@ == self.spec_token(),
    {
        match self {
            FiducialScope::Local => "Local",
            FiducialScope::Global => "Global",
            FiducialScope::Panel => "Panel",
        }
    }
}

impl PartialGerberCode for FiducialScope {
    open spec fn partial_ok(&self) -> bool {
        true
    }

    open spec fn partial_code(&self) -> Seq<char> {
        self.spec_token()
    }

    open spec fn is_partial_error(&self, e: GerberError) -> bool {
        false
    }

    fn serialize_partial(&self, out: &mut String) -> (r: Result<(), GerberError>) {
        out.append(self.token());
        Ok(())
    }
}

/// An object attribute (TO).
#[derive(Debug, Clone, PartialEq)]
pub enum ObjectAttribute {
    Net(Net),
    Pin(Pin),
    /// The reference designator of a component: `.C,<refdes>`
    Component(String),
    ComponentCharacteristics(ComponentCharacteristics),
    /// `<name>,<value>,...`
    UserDefined { name: String, values: Vec<String> },
}

impl PartialGerberCode for ObjectAttribute {
    open spec fn partial_ok(&self) -> bool {
        true
    }

    open spec fn partial_code(&self) -> Seq<char> {
        match self {
            ObjectAttribute::Net(n) => n.partial_code(),
            ObjectAttribute::Pin(p) => p.partial_code(),
            ObjectAttribute::Component(r) => ".C,"@ + r@,
            ObjectAttribute::ComponentCharacteristics(c) => c.partial_code(),
            ObjectAttribute::UserDefined { name, values } => name@ + comma_list(values@),
        }
    }

    open spec fn is_partial_error(&self, e: GerberError) -> bool {
        false
    }

    fn serialize_partial(&self, out: &mut String) -> (r: Result<(), GerberError>) {
        match self {
            ObjectAttribute::Net(n) => {
                let _ = n.serialize_partial(out);
            },
            ObjectAttribute::Pin(p) => {
                let _ = p.serialize_partial(out);
            },
            ObjectAttribute::Component(r) => {
                out.append(".C,");
                out.append(r.as_str());
            },
            ObjectAttribute::ComponentCharacteristics(c) => {
                let _ = c.serialize_partial(out);
            },
            ObjectAttribute::UserDefined { name, values } => {
                out.append(name.as_str());
                push_comma_list(out, values);
            },
        }
        proof {
            assert(out@ =~= old(out)@ + self.partial_code());
        }
        Ok(())
    }
}

/// Each supplier part, preceded by `,`.
pub open spec fn suppliers_text(parts: Seq<SupplierPart>) -> Seq<char>
    decreases parts.len(),
{
    if parts.len() == 0 {
        Seq::empty()
    } else {
        suppliers_text(parts.drop_last()) + ","@ + parts.last().partial_code()
    }
}

fn push_suppliers(out: &mut String, parts: &Vec<SupplierPart>)
    ensures
        final(out)@ == old(out)@ + suppliers_text(parts@),
{
    let mut i: usize = 0;
    while i < parts.len()
        invariant
            i <= parts@.len(),
            out@ == old(out)@ + suppliers_text(parts@.take(i as int)),
        decreases parts@.len() - i,
    {
        out.append(",");
        let _ = parts[i].serialize_partial(out);
        proof {
            let t = parts@.take(i as int + 1);
            assert(t.drop_last() =~= parts@.take(i as int));
            assert(out@ =~= old(out)@ + suppliers_text(t));
        }
        i = i + 1;
    }
    proof {
        assert(parts@.take(i as int) =~= parts@);
    }
}

/// Characteristics of a component (`.Cxxx`).
#[derive(Debug, Clone, PartialEq)]
pub enum ComponentCharacteristics {
    Rotation(Decimal),
    Manufacturer(String),
    MPN(String),
    Value(String),
    Mount(ComponentMounting),
    Footprint(String),
    PackageName(String),
    PackageDescription(String),
    Height(Decimal),
    LibraryName(String),
    LibraryDescription(String),
    /// At least one supplier part is required; leave the attribute out where there is none.
    Supplier(Vec<SupplierPart>),
}

impl ComponentCharacteristics {
    /// The literal text that starts the rendering.
    pub open spec fn spec_head(&self) -> Seq<char> {
        match self {
            ComponentCharacteristics::Rotation(_) => ".CRot,"@,
            ComponentCharacteristics::Manufacturer(_) => ".CMfr,"@,
            ComponentCharacteristics::MPN(_) => ".CMPN,"@,
            ComponentCharacteristics::Value(_) => ".CVal,"@,
            ComponentCharacteristics::Mount(_) => ".CMnt,"@,
            ComponentCharacteristics::Footprint(_) => ".CFtp,"@,
            ComponentCharacteristics::PackageName(_) => ".CPgN,"@,
            ComponentCharacteristics::PackageDescription(_) => ".CPgD,"@,
            ComponentCharacteristics::Height(_) => ".CHgt,"@,
            ComponentCharacteristics::LibraryName(_) => ".CLbN,"@,
            ComponentCharacteristics::LibraryDescription(_) => ".CLbD,"@,
            ComponentCharacteristics::Supplier(_) => ".CSup"@,
        }
    }

    /// What follows the head: the variant's data.
    pub open spec fn spec_tail(&self) -> Seq<char> {
        match self {
            ComponentCharacteristics::Rotation(rotation) => rotation.spec_text(),
            ComponentCharacteristics::Manufacturer(value) => value@,
            ComponentCharacteristics::MPN(value) => value@,
            ComponentCharacteristics::Value(value) => value@,
            ComponentCharacteristics::Mount(mount) => mount.spec_token(),
            ComponentCharacteristics::Footprint(value) => value@,
            ComponentCharacteristics::PackageName(value) => value@,
            ComponentCharacteristics::PackageDescription(value) => value@,
            ComponentCharacteristics::Height(height) => height.spec_text(),
            ComponentCharacteristics::LibraryName(value) => value@,
            ComponentCharacteristics::LibraryDescription(value) => value@,
            ComponentCharacteristics::Supplier(parts) => suppliers_text(parts@),
            _ => Seq::empty(),
        }
    }

    fn head(&self) -> (r: &'static str)
        ensures
            r@ == self.spec_head(),
    {
        match self {
            ComponentCharacteristics::Rotation(_) => ".CRot,",
            ComponentCharacteristics::Manufacturer(_) => ".CMfr,",
            ComponentCharacteristics::MPN(_) => ".CMPN,",
            ComponentCharacteristics::Value(_) => ".CVal,",
            ComponentCharacteristics::Mount(_) => ".CMnt,",
            ComponentCharacteristics::Footprint(_) => ".CFtp,",
            ComponentCharacteristics::PackageName(_) => ".CPgN,",
            ComponentCharacteristics::PackageDescription(_) => ".CPgD,",
            ComponentCharacteristics::Height(_) => ".CHgt,",
            ComponentCharacteristics::LibraryName(_) => ".CLbN,",
            ComponentCharacteristics::LibraryDescription(_) => ".CLbD,",
            ComponentCharacteristics::Supplier(_) => ".CSup",
        }
    }

    fn push_tail(&self, out: &mut String)
        ensures
            final(out)@ == old(out)@ + self.spec_tail(),
    {
        match self {
            ComponentCharacteristics::Rotation(rotation) => {
                rotation.push_text(out);
                proof {
                    assert(out@ =~= old(out)@ + (rotation.spec_text()));
                }
            },
            ComponentCharacteristics::Manufacturer(value) => {
                out.append(value.as_str());
                proof {
                    assert(out@ =~= old(out)@ + (value@));
                }
            },
            ComponentCharacteristics::MPN(value) => {
                out.append(value.as_str());
                proof {
                    assert(out@ =~= old(out)@ + (value@));
                }
            },
            ComponentCharacteristics::Value(value) => {
                out.append(value.as_str());
                proof {
                    assert(out@ =~= old(out)@ + (value@));
                }
            },
            ComponentCharacteristics::Mount(mount) => {
                out.append(mount.token());
                proof {
                    assert(out@ =~= old(out)@ + (mount.spec_token()));
                }
            },
            ComponentCharacteristics::Footprint(value) => {
                out.append(value.as_str());
                proof {
                    assert(out@ =~= old(out)@ + (value@));
                }
            },
            ComponentCharacteristics::PackageName(value) => {
                out.append(value.as_str());
                proof {
                    assert(out@ =~= old(out)@ + (value@));
                }
            },
            ComponentCharacteristics::PackageDescription(value) => {
                out.append(value.as_str());
                proof {
                    assert(out@ =~= old(out)@ + (value@));
                }
            },
            ComponentCharacteristics::Height(height) => {
                height.push_text(out);
                proof {
                    assert(out@ =~= old(out)@ + (height.spec_text()));
                }
            },
            ComponentCharacteristics::LibraryName(value) => {
                out.append(value.as_str());
                proof {
                    assert(out@ =~= old(out)@ + (value@));
                }
            },
            ComponentCharacteristics::LibraryDescription(value) => {
                out.append(value.as_str());
                proof {
                    assert(out@ =~= old(out)@ + (value@));
                }
            },
            ComponentCharacteristics::Supplier(parts) => {
                push_suppliers(out, parts);
                proof {
                    assert(out@ =~= old(out)@ + (suppliers_text(parts@)));
                }
            },
            _ => {
                proof {
                    assert(out@ =~= old(out)@ + self.spec_tail());
                }
            },
        }
    }
}

impl PartialGerberCode for ComponentCharacteristics {
    open spec fn partial_ok(&self) -> bool {
        true
    }

    open spec fn partial_code(&self) -> Seq<char> {
        self.spec_head() + self.spec_tail()
    }

    open spec fn is_partial_error(&self, e: GerberError) -> bool {
        false
    }

    fn serialize_partial(&self, out: &mut String) -> (r: Result<(), GerberError>) {
        out.append(self.head());
        self.push_tail(out);
        proof {
            assert(out@ =~= old(out)@ + self.partial_code());
        }
        Ok(())
    }
}

/// How a component is mounted.
#[derive(Debug, Copy, Clone, PartialEq, Eq, Hash, Structural)]
pub enum ComponentMounting {
    ThroughHole,
    SMD,
    PressFit,
    Other,
}

impl ComponentMounting {
    /// The token that stands for the value.
    pub open spec fn spec_token(&self) -> Seq<char> {
        match self {
            ComponentMounting::ThroughHole => "TH"@,
            ComponentMounting::SMD => "SMD"@,
            ComponentMounting::PressFit => "Pressfit"@,
            ComponentMounting::Other => "Other"@,
        }
    }

    /// The token that stands for the value.
    pub fn token(&self) -> (r: &'static str)
        ensures
            r@ == self.spec_token(),
    {
        match self {
            ComponentMounting::ThroughHole => "TH",
            ComponentMounting::SMD => "SMD",
            ComponentMounting::PressFit => "Pressfit",
            ComponentMounting::Other => "Other",
        }
    }
}

impl PartialGerberCode for ComponentMounting {
    open spec fn partial_ok(&self) -> bool {
        true
    }

    open spec fn partial_code(&self) -> Seq<char> {
        self.spec_token()
    }

    open spec fn is_partial_error(&self, e: GerberError) -> bool {
        false
    }

    fn serialize_partial(&self, out: &mut String) -> (r: Result<(), GerberError>) {
        out.append(self.token());
        Ok(())
    }
}

/// A supplier and the part reference that the supplier uses.
#[derive(Debug, Clone, PartialEq, Eq, Hash)]
pub struct SupplierPart {
    /// The name of the supplier, e.g. 'Mouser', 'Digikey', 'LCSC'.
    pub supplier_name: String,
    /// The reference that the supplier looks the part up by.
    pub supplier_part_reference: String,
}

/// `<supplier>,<reference>`
impl PartialGerberCode for SupplierPart {
    open spec fn partial_ok(&self) -> bool {
        true
    }

    open spec fn partial_code(&self) -> Seq<char> {
        self.supplier_name@ + ","@ + self.supplier_part_reference@
    }

    open spec fn is_partial_error(&self, e: GerberError) -> bool {
        false
    }

    fn serialize_partial(&self, out: &mut String) -> (r: Result<(), GerberError>) {
        out.append(self.supplier_name.as_str());
        out.append(",");
        out.append(self.supplier_part_reference.as_str());
        proof {
            assert(out@ =~= old(out)@ + self.partial_code());
        }
        Ok(())
    }
}

/// The net of an object (`.N`): the empty net, not connected, or named nets.
#[derive(Debug, Clone, PartialEq, Eq)]
pub enum Net {
    NoNet,
    NotConnected,
    Connected(Vec<String>),
}

impl Net {
    /// The literal text that starts the rendering.
    pub open spec fn spec_head(&self) -> Seq<char> {
        match self {
            Net::NoNet => ".N,"@,
            Net::NotConnected => ".N,N/C"@,
            Net::Connected(_) => ".N,"@,
        }
    }

    /// What follows the head: the variant's data.
    pub open spec fn spec_tail(&self) -> Seq<char> {
        match self {
            Net::Connected(nets) => join_text(nets@),
            _ => Seq::empty(),
        }
    }

    fn head(&self) -> (r: &'static str)
        ensures
            r@ == self.spec_head(),
    {
        match self {
            Net::NoNet => ".N,",
            Net::NotConnected => ".N,N/C",
            Net::Connected(_) => ".N,",
        }
    }

    fn push_tail(&self, out: &mut String)
        ensures
            final(out)@ == old(out)@ + self.spec_tail(),
    {
        match self {
            Net::Connected(nets) => {
                push_join(out, nets);
                proof {
                    assert(out@ =~= old(out)@ + (join_text(nets@)));
                }
            },
            _ => {
                proof {
                    assert(out@ =~= old(out)@ + self.spec_tail());
                }
            },
        }
    }
}

impl PartialGerberCode for Net {
    open spec fn partial_ok(&self) -> bool {
        true
    }

    open spec fn partial_code(&self) -> Seq<char> {
        self.spec_head() + self.spec_tail()
    }

    open spec fn is_partial_error(&self, e: GerberError) -> bool {
        false
    }

    fn serialize_partial(&self, out: &mut String) -> (r: Result<(), GerberError>) {
        out.append(self.head());
        self.push_tail(out);
        proof {
            assert(out@ =~= old(out)@ + self.partial_code());
        }
        Ok(())
    }
}

/// A component pin (`.P,<refdes>,<name>[,<function>]`).
#[derive(Debug, Clone, PartialEq, Eq)]
pub struct Pin {
    pub refdes: String,
    /// Called a number, but pins such as `EP` (exposed pad) are names.
    pub name: String,
    pub function: Option<String>,
}

impl PartialGerberCode for Pin {
    open spec fn partial_ok(&self) -> bool {
        true
    }

    open spec fn partial_code(&self) -> Seq<char> {
        ".P,"@ + self.refdes@ + ","@ + self.name@ + match self.function {
            Some(f) => ","@ + f@,
            None => Seq::empty(),
        }
    }

    open spec fn is_partial_error(&self, e: GerberError) -> bool {
        false
    }

    fn serialize_partial(&self, out: &mut String) -> (r: Result<(), GerberError>) {
        out.append(".P,");
        out.append(self.refdes.as_str());
        out.append(",");
        out.append(self.name.as_str());
        if let Some(f) = &self.function {
            out.append(",");
            out.append(f.as_str());
        }
        proof {
            assert(out@ =~= old(out)@ + self.partial_code());
        }
        Ok(())
    }
}

/// Which attributes a TD command deletes: all of them, or the one named.
#[derive(Debug, Clone, PartialEq, Eq)]
pub enum AttributeDeletionCriterion {
    AllAttributes,
    SingleApertureAttribute(String),
    SingleObjectAttribute(String),
}

/// Nothing for all attributes, otherwise the attribute's name.
impl PartialGerberCode for AttributeDeletionCriterion {
    open spec fn partial_ok(&self) -> bool {
        true
    }

    open spec fn partial_code(&self) -> Seq<char> {
        match self {
            AttributeDeletionCriterion::AllAttributes => Seq::empty(),
            AttributeDeletionCriterion::SingleApertureAttribute(n) => n@,
            AttributeDeletionCriterion::SingleObjectAttribute(n) => n@,
        }
    }

    open spec fn is_partial_error(&self, e: GerberError) -> bool {
        false
    }

    fn serialize_partial(&self, out: &mut String) -> (r: Result<(), GerberError>) {
        match self {
            AttributeDeletionCriterion::AllAttributes => {
                proof {
                    assert(out@ =~= old(out)@ + self.partial_code());
                }
            },
            AttributeDeletionCriterion::SingleApertureAttribute(n) => out.append(n.as_str()),
            AttributeDeletionCriterion::SingleObjectAttribute(n) => out.append(n.as_str()),
        }
        Ok(())
    }
}

/// A name deletes that single attribute.
impl From<&str> for AttributeDeletionCriterion {
    fn from(name: &str) -> Self {
        AttributeDeletionCriterion::SingleApertureAttribute(String::from_str(name))
    }
}

impl vstd::std_specs::convert::FromSpecImpl<&str> for AttributeDeletionCriterion {
    /// A `String` cannot be written in a specification, so the result is not
    /// described here.
    open spec fn obeys_from_spec() -> bool {
        false
    }

    open spec fn from_spec(name: &str) -> Self {
        AttributeDeletionCriterion::AllAttributes
    }
}

/// The via drill function renders as one fragment: `ViaDrill` alone when the
/// protection class is absent, and followed by `,` and the class when present.
pub proof fn lemma_via_drill_fragment(protection: Option<IPC4761ViaProtection>)
    ensures
        ApertureAttribute::ApertureFunction(ApertureFunction::ViaDrill(protection)).partial_code()
            == match protection {
            None => ".AperFunction,ViaDrill"@,
            Some(p) => ".AperFunction,ViaDrill,"@ + p.spec_token(),
        },
{
    reveal_strlit(".AperFunction,");
    reveal_strlit("ViaDrill");
    reveal_strlit(",");
    reveal_strlit(".AperFunction,ViaDrill");
    reveal_strlit(".AperFunction,ViaDrill,");
    let a = ApertureAttribute::ApertureFunction(ApertureFunction::ViaDrill(protection));
    match protection {
        None => {
            assert(a.partial_code() =~= ".AperFunction,ViaDrill"@);
        },
        Some(p) => {
            assert(a.partial_code() =~= ".AperFunction,ViaDrill,"@ + p.spec_token());
        },
    }
}

} // verus!
