//! Coordinate formats, fixed-point coordinate numbers and coordinate pairs.
use vstd::prelude::*;

use crate::errors::{GerberError, is_conversion_error, is_format_error};
use crate::text::{int_text, int_to_string};
use crate::traits::PartialGerberCode;

verus! {

/// Number of decimal places stored in a coordinate number.
pub const DECIMAL_PLACES_CHARS: u8 = 6;

/// Scale factor between a unit and the stored value (`10^6`).
pub const DECIMAL_PLACES_FACTOR: i64 = 1_000_000;

/// `10^e`.
pub open spec fn pow10(e: nat) -> int
    decreases e,
{
    if e == 0 {
        1
    } else {
        10 * pow10((e - 1) as nat)
    }
}

/// `|v|`.
pub open spec fn abs(v: int) -> int {
    if v < 0 {
        -v
    } else {
        v
    }
}

/// `n / d` rounded to the nearest integer, halves away from zero (`d > 0`).
pub open spec fn round_half_away(n: int, d: int) -> int {
    let q = abs(n) / d;
    let r = abs(n) % d;
    let m = if 2 * r >= d {
        q + 1
    } else {
        q
    };
    if n < 0 {
        -m
    } else {
        m
    }
}

/// Relies on num_rational's `Ratio::new`, `Ratio::round` and
/// `Ratio::to_integer`: the quotient `numer / denom` rounded to the nearest
/// integer, halves away from zero. `Ratio::new` panics only on a zero
/// denominator.
#[verifier::external_body]
fn ratio_round(numer: i64, denom: i64) -> (r: i64)
    requires
        denom > 0,
    ensures
        r == round_half_away(numer as int, denom as int),
{
    num_rational::Ratio::new(numer, denom).round().to_integer()
}

pub proof fn lemma_pow10_positive(e: nat)
    ensures
        pow10(e) >= 1,
    decreases e,
{
    if e > 0 {
        lemma_pow10_positive((e - 1) as nat);
    }
}

pub proof fn lemma_pow10_monotonic(a: nat, b: nat)
    requires
        a <= b,
    ensures
        pow10(a) <= pow10(b),
    decreases b,
{
    if a < b {
        lemma_pow10_monotonic(a, (b - 1) as nat);
        lemma_pow10_positive((b - 1) as nat);
    }
}

/// `10^e` as a machine integer.
fn pow10_i64(e: u32) -> (r: i64)
    requires
        e <= 18,
    ensures
        r == pow10(e as nat),
{
    let mut r: i64 = 1;
    let mut i: u32 = 0;
    while i < e
        invariant
            i <= e <= 18,
            r == pow10(i as nat),
        decreases e - i,
    {
        proof {
            lemma_pow10_monotonic((i + 1) as nat, 18);
            reveal_with_fuel(pow10, 19);
        }
        r = r * 10;
        i = i + 1;
    }
    r
}

/// The coordinate format gives the number of integer and decimal places of a
/// coordinate number; `24` means 2 integer and 4 decimal places. Gerber allows
/// 4, 5 or 6 decimal places and at most 6 integer places, so the longest
/// coordinate number is `nnnnnn.nnnnnn`. Nothing is checked on construction:
/// a format is only judged when a number is validated or rendered with it.
#[derive(Debug, Copy, Clone, PartialEq, Eq, Structural)]
pub struct CoordinateFormat {
    pub integer: u8,
    pub decimal: u8,
}

impl CoordinateFormat {
    pub fn new(integer: u8, decimal: u8) -> (r: Self)
        ensures
            r.integer == integer,
            r.decimal == decimal,
    {
        CoordinateFormat { integer, decimal }
    }

    /// The format asks for no more decimal places than a number stores.
    pub open spec fn precision_ok(self) -> bool {
        self.decimal <= DECIMAL_PLACES_CHARS
    }

    /// Stored values must stay strictly below this magnitude.
    pub open spec fn magnitude_bound(self) -> int {
        pow10((self.integer + DECIMAL_PLACES_CHARS) as nat)
    }

    /// How many stored units make one unit of the last rendered digit.
    pub open spec fn divisor(self) -> int {
        pow10((DECIMAL_PLACES_CHARS - self.decimal) as nat)
    }
}

/// Message of the error for a format with too many decimal places.
pub open spec fn precision_message() -> Seq<char> {
    "Invalid precision: Too high!"@
}

/// Message of the error for a number too large for its format.
pub open spec fn too_large_message() -> Seq<char> {
    "Number is too large for the chosen format!"@
}

/// The class of a floating-point value.
#[derive(Debug, Copy, Clone, PartialEq, Eq, Structural)]
pub enum FloatClass {
    Nan,
    Infinite,
    Zero,
    Subnormal,
    Normal,
}

/// Message of the error for a NaN.
pub open spec fn nan_message() -> Seq<char> {
    "Value is NaN"@
}

/// Message of the error for an infinite value.
pub open spec fn infinite_message() -> Seq<char> {
    "Value is infinite"@
}

/// Message of the error for a value whose millionths overflow 64 bits.
pub open spec fn out_of_bounds_message() -> Seq<char> {
    "Value is out of bounds"@
}

/// Coordinate numbers are integers conforming to the rules set by the FS
/// command: no explicit decimal point, and at least one character (zero is
/// `0`).
///
/// The value is stored as a 64 bit integer with 6 decimal places, so `nano`
/// counts millionths of the declared unit.
#[derive(Debug, Copy, Clone, PartialEq, Eq, Structural)]
pub struct CoordinateNumber {
    pub nano: i64,
}

impl CoordinateNumber {
    pub fn new(nano: i64) -> (r: Self)
        ensures
            r == Self::new_spec(nano),
    {
        CoordinateNumber { nano }
    }

    pub open spec fn new_spec(nano: i64) -> Self {
        CoordinateNumber { nano }
    }

    /// Converts a floating-point value, given by its class and, for a normal
    /// value, by its millionths truncated toward zero (`None` where they do
    /// not fit in 64 bits). NaN and infinite values are rejected, zero and
    /// subnormal values become 0, and normal values keep their millionths.
    pub fn from_float_parts(class: FloatClass, scaled: Option<i64>) -> (r: Result<Self, GerberError>)
        ensures
            class == FloatClass::Nan ==> r is Err && is_conversion_error(r->Err_0, nan_message()),
            class == FloatClass::Infinite ==> r is Err && is_conversion_error(
                r->Err_0,
                infinite_message(),
            ),
            class == FloatClass::Zero || class == FloatClass::Subnormal ==> r == Ok::<
                Self,
                GerberError,
            >(CoordinateNumber { nano: 0 }),
            class == FloatClass::Normal && scaled is None ==> r is Err && is_conversion_error(
                r->Err_0,
                out_of_bounds_message(),
            ),
            class == FloatClass::Normal && scaled is Some ==> r == Ok::<Self, GerberError>(
                CoordinateNumber { nano: scaled->Some_0 },
            ),
    {
        match class {
            FloatClass::Nan => Err(GerberError::ConversionError(String::from_str("Value is NaN"))),
            FloatClass::Infinite => Err(GerberError::ConversionError(String::from_str("Value is infinite"))),
            FloatClass::Zero | FloatClass::Subnormal => Ok(CoordinateNumber { nano: 0 }),
            FloatClass::Normal => match scaled {
                Some(nano) => Ok(CoordinateNumber { nano }),
                None => Err(GerberError::ConversionError(String::from_str("Value is out of bounds"))),
            },
        }
    }

    /// The number is in range for `format`, and `format` keeps at most the
    /// stored decimal places.
    pub open spec fn is_valid_for(self, format: CoordinateFormat) -> bool {
        &&& format.precision_ok()
        &&& abs(self.nano as int) < format.magnitude_bound()
    }

    /// The message of the error that validation against `format` gives.
    pub open spec fn error_message(self, format: CoordinateFormat) -> Seq<char> {
        if !format.precision_ok() {
            precision_message()
        } else {
            too_large_message()
        }
    }

    /// The rendered digits for `format`: the stored value divided by
    /// `10^(6 - decimal)`, rounded half away from zero.
    pub open spec fn spec_gerber(self, format: CoordinateFormat) -> Seq<char> {
        int_text(round_half_away(self.nano as int, format.divisor()))
    }

    /// Checks that the number can be rendered with `format`.
    pub fn validate(self, format: &CoordinateFormat) -> (r: Result<Self, GerberError>)
        ensures
            r is Ok <==> self.is_valid_for(*format),
            r is Ok ==> r->Ok_0 == self,
            r is Err ==> is_format_error(r->Err_0, self.error_message(*format)),
    {
        if format.decimal > DECIMAL_PLACES_CHARS {
            return Err(GerberError::CoordinateFormatError(String::from_str("Invalid precision: Too high!")));
        }
        let e: u32 = format.integer as u32 + DECIMAL_PLACES_CHARS as u32;
        let fits = if e > 18 {
            proof {
                lemma_pow10_monotonic(19, e as nat);
                reveal_with_fuel(pow10, 20);
            }
            true
        } else {
            let bound = pow10_i64(e);
            -bound < self.nano && self.nano < bound
        };
        if !fits {
            return Err(GerberError::CoordinateFormatError(String::from_str("Number is too large for the chosen format!")));
        }
        Ok(self)
    }

    /// Renders the number as a Gerber coordinate number for `format`: a
    /// plain integer with the kept decimal places folded in, `-` for
    /// negative values.
    pub fn gerber(&self, format: &CoordinateFormat) -> (r: Result<String, GerberError>)
        ensures
            r is Ok <==> self.is_valid_for(*format),
            r is Ok ==> r->Ok_0@ == self.spec_gerber(*format),
            r is Err ==> is_format_error(r->Err_0, self.error_message(*format)),
    {
        match self.validate(format) {
            Err(e) => Err(e),
            Ok(_) => {
                let divisor = pow10_i64((DECIMAL_PLACES_CHARS - format.decimal) as u32);
                proof {
                    lemma_pow10_positive((DECIMAL_PLACES_CHARS - format.decimal) as nat);
                }
                let number = ratio_round(self.nano, divisor);
                Ok(int_to_string(number))
            },
        }
    }
}

/// Values that stand for an optional coordinate: a coordinate number, an
/// integer number of units of the small widths (whose scaling to millionths
/// cannot overflow), or an explicit absence of either.
pub trait IntoOptionalCoordinate: Sized {
    /// The coordinate that the value stands for.
    spec fn spec_optional_coordinate(self) -> Option<CoordinateNumber>;

    fn into_optional_coordinate(self) -> (r: Option<CoordinateNumber>)
        ensures
            r == self.spec_optional_coordinate(),
    ;
}

impl IntoOptionalCoordinate for CoordinateNumber {
    open spec fn spec_optional_coordinate(self) -> Option<CoordinateNumber> {
        Some(self)
    }

    fn into_optional_coordinate(self) -> (r: Option<CoordinateNumber>) {
        Some(self)
    }
}

impl IntoOptionalCoordinate for Option<CoordinateNumber> {
    open spec fn spec_optional_coordinate(self) -> Option<CoordinateNumber> {
        self
    }

    fn into_optional_coordinate(self) -> (r: Option<CoordinateNumber>) {
        self
    }
}

impl From<i8> for CoordinateNumber {
    fn from(val: i8) -> Self {
        CoordinateNumber { nano: val as i64 * DECIMAL_PLACES_FACTOR }
    }
}

impl vstd::std_specs::convert::FromSpecImpl<i8> for CoordinateNumber {
    open spec fn obeys_from_spec() -> bool {
        true
    }

    open spec fn from_spec(val: i8) -> Self {
        CoordinateNumber { nano: (val as int * 1_000_000) as i64 }
    }
}

impl IntoOptionalCoordinate for i8 {
    open spec fn spec_optional_coordinate(self) -> Option<CoordinateNumber> {
        Some(CoordinateNumber { nano: (self as int * 1_000_000) as i64 })
    }

    fn into_optional_coordinate(self) -> (r: Option<CoordinateNumber>) {
        Some(CoordinateNumber::from(self))
    }
}

impl IntoOptionalCoordinate for Option<i8> {
    open spec fn spec_optional_coordinate(self) -> Option<CoordinateNumber> {
        match self {
            Some(v) => Some(CoordinateNumber { nano: (v as int * 1_000_000) as i64 }),
            None => None,
        }
    }

    fn into_optional_coordinate(self) -> (r: Option<CoordinateNumber>) {
        match self {
            Some(v) => Some(CoordinateNumber::from(v)),
            None => None,
        }
    }
}

impl From<i16> for CoordinateNumber {
    fn from(val: i16) -> Self {
        CoordinateNumber { nano: val as i64 * DECIMAL_PLACES_FACTOR }
    }
}

impl vstd::std_specs::convert::FromSpecImpl<i16> for CoordinateNumber {
    open spec fn obeys_from_spec() -> bool {
        true
    }

    open spec fn from_spec(val: i16) -> Self {
        CoordinateNumber { nano: (val as int * 1_000_000) as i64 }
    }
}

impl IntoOptionalCoordinate for i16 {
    open spec fn spec_optional_coordinate(self) -> Option<CoordinateNumber> {
        Some(CoordinateNumber { nano: (self as int * 1_000_000) as i64 })
    }

    fn into_optional_coordinate(self) -> (r: Option<CoordinateNumber>) {
        Some(CoordinateNumber::from(self))
    }
}

impl IntoOptionalCoordinate for Option<i16> {
    open spec fn spec_optional_coordinate(self) -> Option<CoordinateNumber> {
        match self {
            Some(v) => Some(CoordinateNumber { nano: (v as int * 1_000_000) as i64 }),
            None => None,
        }
    }

    fn into_optional_coordinate(self) -> (r: Option<CoordinateNumber>) {
        match self {
            Some(v) => Some(CoordinateNumber::from(v)),
            None => None,
        }
    }
}

impl From<i32> for CoordinateNumber {
    fn from(val: i32) -> Self {
        CoordinateNumber { nano: val as i64 * DECIMAL_PLACES_FACTOR }
    }
}

impl vstd::std_specs::convert::FromSpecImpl<i32> for CoordinateNumber {
    open spec fn obeys_from_spec() -> bool {
        true
    }

    open spec fn from_spec(val: i32) -> Self {
        CoordinateNumber { nano: (val as int * 1_000_000) as i64 }
    }
}

impl IntoOptionalCoordinate for i32 {
    open spec fn spec_optional_coordinate(self) -> Option<CoordinateNumber> {
        Some(CoordinateNumber { nano: (self as int * 1_000_000) as i64 })
    }

    fn into_optional_coordinate(self) -> (r: Option<CoordinateNumber>) {
        Some(CoordinateNumber::from(self))
    }
}

impl IntoOptionalCoordinate for Option<i32> {
    open spec fn spec_optional_coordinate(self) -> Option<CoordinateNumber> {
        match self {
            Some(v) => Some(CoordinateNumber { nano: (v as int * 1_000_000) as i64 }),
            None => None,
        }
    }

    fn into_optional_coordinate(self) -> (r: Option<CoordinateNumber>) {
        match self {
            Some(v) => Some(CoordinateNumber::from(v)),
            None => None,
        }
    }
}

impl From<u8> for CoordinateNumber {
    fn from(val: u8) -> Self {
        CoordinateNumber { nano: val as i64 * DECIMAL_PLACES_FACTOR }
    }
}

impl vstd::std_specs::convert::FromSpecImpl<u8> for CoordinateNumber {
    open spec fn obeys_from_spec() -> bool {
        true
    }

    open spec fn from_spec(val: u8) -> Self {
        CoordinateNumber { nano: (val as int * 1_000_000) as i64 }
    }
}

impl IntoOptionalCoordinate for u8 {
    open spec fn spec_optional_coordinate(self) -> Option<CoordinateNumber> {
        Some(CoordinateNumber { nano: (self as int * 1_000_000) as i64 })
    }

    fn into_optional_coordinate(self) -> (r: Option<CoordinateNumber>) {
        Some(CoordinateNumber::from(self))
    }
}

impl IntoOptionalCoordinate for Option<u8> {
    open spec fn spec_optional_coordinate(self) -> Option<CoordinateNumber> {
        match self {
            Some(v) => Some(CoordinateNumber { nano: (v as int * 1_000_000) as i64 }),
            None => None,
        }
    }

    fn into_optional_coordinate(self) -> (r: Option<CoordinateNumber>) {
        match self {
            Some(v) => Some(CoordinateNumber::from(v)),
            None => None,
        }
    }
}

impl From<u16> for CoordinateNumber {
    fn from(val: u16) -> Self {
        CoordinateNumber { nano: val as i64 * DECIMAL_PLACES_FACTOR }
    }
}

impl vstd::std_specs::convert::FromSpecImpl<u16> for CoordinateNumber {
    open spec fn obeys_from_spec() -> bool {
        true
    }

    open spec fn from_spec(val: u16) -> Self {
        CoordinateNumber { nano: (val as int * 1_000_000) as i64 }
    }
}

impl IntoOptionalCoordinate for u16 {
    open spec fn spec_optional_coordinate(self) -> Option<CoordinateNumber> {
        Some(CoordinateNumber { nano: (self as int * 1_000_000) as i64 })
    }

    fn into_optional_coordinate(self) -> (r: Option<CoordinateNumber>) {
        Some(CoordinateNumber::from(self))
    }
}

impl IntoOptionalCoordinate for Option<u16> {
    open spec fn spec_optional_coordinate(self) -> Option<CoordinateNumber> {
        match self {
            Some(v) => Some(CoordinateNumber { nano: (v as int * 1_000_000) as i64 }),
            None => None,
        }
    }

    fn into_optional_coordinate(self) -> (r: Option<CoordinateNumber>) {
        match self {
            Some(v) => Some(CoordinateNumber::from(v)),
            None => None,
        }
    }
}

/// Both present axes are valid for `format`.
pub open spec fn axes_valid(
    x: Option<CoordinateNumber>,
    y: Option<CoordinateNumber>,
    format: CoordinateFormat,
) -> bool {
    &&& (x is Some ==> x->Some_0.is_valid_for(format))
    &&& (y is Some ==> y->Some_0.is_valid_for(format))
}

/// `e` is the error of the first present axis that is not valid for `format`.
pub open spec fn is_axis_error(
    x: Option<CoordinateNumber>,
    y: Option<CoordinateNumber>,
    format: CoordinateFormat,
    e: GerberError,
) -> bool {
    if x is Some && !x->Some_0.is_valid_for(format) {
        is_format_error(e, x->Some_0.error_message(format))
    } else {
        y is Some && is_format_error(e, y->Some_0.error_message(format))
    }
}

/// `letter` followed by the rendered axis, or nothing for an absent axis.
pub open spec fn axis_text(
    letter: Seq<char>,
    axis: Option<CoordinateNumber>,
    format: CoordinateFormat,
) -> Seq<char> {
    match axis {
        Some(n) => letter + n.spec_gerber(format),
        None => Seq::empty(),
    }
}

/// Scaling a small integer to millionths is exact: the stored value is the
/// integer times `10^6`, and dividing it by `10^6` gives the integer back.
pub proof fn lemma_integer_scaling_exact(n: i32)
    ensures
        <CoordinateNumber as vstd::std_specs::convert::FromSpec<i32>>::from_spec(n).nano == n as int * 1_000_000,
        <CoordinateNumber as vstd::std_specs::convert::FromSpec<i32>>::from_spec(n).nano as int / 1_000_000 == n as int,
        <CoordinateNumber as vstd::std_specs::convert::FromSpec<i32>>::from_spec(n).nano as int % 1_000_000 == 0,
{
    assert((n as int * 1_000_000) / 1_000_000 == n as int) by (nonlinear_arith);
    assert((n as int * 1_000_000) % 1_000_000 == 0) by (nonlinear_arith);
}

/// Zero is valid for every format that keeps at most six decimal places, and
/// renders as the single digit `0` whatever the number of decimal places.
pub proof fn lemma_zero_renders_as_zero(format: CoordinateFormat)
    requires
        format.precision_ok(),
    ensures
        CoordinateNumber::new_spec(0).is_valid_for(format),
        CoordinateNumber::new_spec(0).spec_gerber(format) == "0"@,
{
    lemma_pow10_positive((format.integer + DECIMAL_PLACES_CHARS) as nat);
    lemma_pow10_positive((DECIMAL_PLACES_CHARS - format.decimal) as nat);
    reveal_strlit("0");
    assert(CoordinateNumber::new_spec(0).spec_gerber(format) =~= "0"@);
}

/// With two integer places and three decimal places, every stored value of
/// magnitude 100 units or more is rejected as too large, whatever its sign.
pub proof fn lemma_two_integer_places_reject_hundred(n: CoordinateNumber)
    requires
        abs(n.nano as int) >= 100_000_000,
    ensures
        !n.is_valid_for(CoordinateFormat { integer: 2, decimal: 3 }),
        n.error_message(CoordinateFormat { integer: 2, decimal: 3 }) == too_large_message(),
{
    reveal_with_fuel(pow10, 9);
}

/// Validates a coordinate pair: at least one axis, every present axis valid.
fn validate_axes(
    x: Option<CoordinateNumber>,
    y: Option<CoordinateNumber>,
    format: &CoordinateFormat,
) -> (r: Result<(), GerberError>)
    ensures
        r is Ok <==> (x is Some || y is Some) && axes_valid(x, y, *format),
        r is Err && x is None && y is None ==> r->Err_0 == GerberError::EmptyCoordinates,
        r is Err && (x is Some || y is Some) ==> is_axis_error(x, y, *format, r->Err_0),
{
    if x.is_none() && y.is_none() {
        return Err(GerberError::EmptyCoordinates);
    }
    if let Some(n) = x {
        if let Err(e) = n.validate(format) {
            return Err(e);
        }
    }
    if let Some(n) = y {
        if let Err(e) = n.validate(format) {
            return Err(e);
        }
    }
    Ok(())
}

/// Appends `letter` and the rendered axis; nothing for an absent axis.
fn push_axis(
    out: &mut String,
    letter: &str,
    axis: Option<CoordinateNumber>,
    format: &CoordinateFormat,
) -> (r: Result<(), GerberError>)
    ensures
        r is Ok <==> (axis is Some ==> axis->Some_0.is_valid_for(*format)),
        r is Ok ==> final(out)@ == old(out)@ + axis_text(letter@, axis, *format),
        r is Err ==> is_format_error(r->Err_0, axis->Some_0.error_message(*format)),
{
    match axis {
        None => {
            proof {
                assert(out@ =~= old(out)@ + axis_text(letter@, axis, *format));
            }
            Ok(())
        },
        Some(n) => match n.gerber(format) {
            Err(e) => Err(e),
            Ok(digits) => {
                out.append(letter);
                out.append(digits.as_str());
                proof {
                    assert(out@ =~= old(out)@ + axis_text(letter@, axis, *format));
                }
                Ok(())
            },
        },
    }
}

/// Appends both axes of a pair, first `x_letter` then `y_letter`.
fn push_axes(
    out: &mut String,
    x_letter: &str,
    y_letter: &str,
    x: Option<CoordinateNumber>,
    y: Option<CoordinateNumber>,
    format: &CoordinateFormat,
) -> (r: Result<(), GerberError>)
    ensures
        r is Ok <==> axes_valid(x, y, *format),
        r is Ok ==> final(out)@ == old(out)@ + axis_text(x_letter@, x, *format) + axis_text(
            y_letter@,
            y,
            *format,
        ),
        r is Err ==> is_axis_error(x, y, *format, r->Err_0),
{
    match push_axis(out, x_letter, x, format) {
        Err(e) => Err(e),
        Ok(()) => {
            let r = push_axis(out, y_letter, y, format);
            proof {
                if r is Ok {
                    assert(out@ =~= old(out)@ + axis_text(x_letter@, x, *format) + axis_text(
                        y_letter@,
                        y,
                        *format,
                    ));
                }
            }
            r
        },
    }
}

/// Coordinates are part of an operation.
///
/// Coordinates are modal: an omitted X means the X of the current point, and
/// likewise for Y. A pair with both axes omitted is not valid; `validate`
/// rejects it, while rendering simply emits the axes that are present.
#[derive(Debug, Clone, PartialEq, Eq, Structural)]
pub struct Coordinates {
    pub x: Option<CoordinateNumber>,
    pub y: Option<CoordinateNumber>,
    pub format: CoordinateFormat,
}

impl Coordinates {
    pub fn new<T, U>(x: T, y: U, format: CoordinateFormat) -> (r: Self) where
        T: IntoOptionalCoordinate,
        U: IntoOptionalCoordinate,

        ensures
            r.x == x.spec_optional_coordinate(),
            r.y == y.spec_optional_coordinate(),
            r.format == format,
    {
        Coordinates { x: x.into_optional_coordinate(), y: y.into_optional_coordinate(), format }
    }

    /// Fails with `EmptyCoordinates` when both axes are absent, and with the
    /// format error of the first invalid axis otherwise.
    pub fn validate(self) -> (r: Result<Self, GerberError>)
        ensures
            r is Ok <==> (self.x is Some || self.y is Some) && axes_valid(
                self.x,
                self.y,
                self.format,
            ),
            r is Ok ==> r->Ok_0 == self,
            self.x is None && self.y is None ==> r == Err::<Self, GerberError>(
                GerberError::EmptyCoordinates,
            ),
            r is Err && (self.x is Some || self.y is Some) ==> is_axis_error(
                self.x,
                self.y,
                self.format,
                r->Err_0,
            ),
    {
        match validate_axes(self.x, self.y, &self.format) {
            Err(e) => Err(e),
            Ok(()) => Ok(self),
        }
    }

    pub fn at_x<T>(x: T, format: CoordinateFormat) -> (r: Self) where
        T: IntoOptionalCoordinate,

        ensures
            r.x == x.spec_optional_coordinate(),
            r.y is None,
            r.format == format,
    {
        Coordinates { x: x.into_optional_coordinate(), y: None, format }
    }

    pub fn at_y<T>(y: T, format: CoordinateFormat) -> (r: Self) where
        T: IntoOptionalCoordinate,

        ensures
            r.x is None,
            r.y == y.spec_optional_coordinate(),
            r.format == format,
    {
        Coordinates { x: None, y: y.into_optional_coordinate(), format }
    }
}

/// `X<x>Y<y>`, each part only where the axis is present.
impl PartialGerberCode for Coordinates {
    open spec fn partial_ok(&self) -> bool {
        axes_valid(self.x, self.y, self.format)
    }

    open spec fn partial_code(&self) -> Seq<char> {
        axis_text("X"@, self.x, self.format) + axis_text("Y"@, self.y, self.format)
    }

    open spec fn is_partial_error(&self, e: GerberError) -> bool {
        is_axis_error(self.x, self.y, self.format, e)
    }

    fn serialize_partial(&self, out: &mut String) -> (r: Result<(), GerberError>) {
        push_axes(out, "X", "Y", self.x, self.y, &self.format)
    }
}

/// Coordinate offsets give the center of an arc in circular interpolation.
///
/// As with `Coordinates`, a pair with both axes omitted is not valid.
#[derive(Debug, Clone, PartialEq, Eq, Structural)]
pub struct CoordinateOffset {
    pub x: Option<CoordinateNumber>,
    pub y: Option<CoordinateNumber>,
    pub format: CoordinateFormat,
}

impl CoordinateOffset {
    pub fn new<T, U>(x: T, y: U, format: CoordinateFormat) -> (r: Self) where
        T: IntoOptionalCoordinate,
        U: IntoOptionalCoordinate,

        ensures
            r.x == x.spec_optional_coordinate(),
            r.y == y.spec_optional_coordinate(),
            r.format == format,
    {
        CoordinateOffset { x: x.into_optional_coordinate(), y: y.into_optional_coordinate(), format }
    }

    /// Fails with `EmptyCoordinates` when both axes are absent, and with the
    /// format error of the first invalid axis otherwise.
    pub fn validate(self) -> (r: Result<Self, GerberError>)
        ensures
            r is Ok <==> (self.x is Some || self.y is Some) && axes_valid(
                self.x,
                self.y,
                self.format,
            ),
            r is Ok ==> r->Ok_0 == self,
            self.x is None && self.y is None ==> r == Err::<Self, GerberError>(
                GerberError::EmptyCoordinates,
            ),
            r is Err && (self.x is Some || self.y is Some) ==> is_axis_error(
                self.x,
                self.y,
                self.format,
                r->Err_0,
            ),
    {
        match validate_axes(self.x, self.y, &self.format) {
            Err(e) => Err(e),
            Ok(()) => Ok(self),
        }
    }

    pub fn at_x<T>(x: T, format: CoordinateFormat) -> (r: Self) where
        T: IntoOptionalCoordinate,

        ensures
            r.x == x.spec_optional_coordinate(),
            r.y is None,
            r.format == format,
    {
        CoordinateOffset { x: x.into_optional_coordinate(), y: None, format }
    }

    pub fn at_y<T>(y: T, format: CoordinateFormat) -> (r: Self) where
        T: IntoOptionalCoordinate,

        ensures
            r.x is None,
            r.y == y.spec_optional_coordinate(),
            r.format == format,
    {
        CoordinateOffset { x: None, y: y.into_optional_coordinate(), format }
    }
}

/// `I<x>J<y>`, each part only where the axis is present.
impl PartialGerberCode for CoordinateOffset {
    open spec fn partial_ok(&self) -> bool {
        axes_valid(self.x, self.y, self.format)
    }

    open spec fn partial_code(&self) -> Seq<char> {
        axis_text("I"@, self.x, self.format) + axis_text("J"@, self.y, self.format)
    }

    open spec fn is_partial_error(&self, e: GerberError) -> bool {
        is_axis_error(self.x, self.y, self.format, e)
    }

    fn serialize_partial(&self, out: &mut String) -> (r: Result<(), GerberError>) {
        push_axes(out, "I", "J", self.x, self.y, &self.format)
    }
}

} // verus!
