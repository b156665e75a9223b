//! Building blocks for generating Gerber (RS-274X) code.
//!
//! Every command type renders itself to text. Full-line renderers return a
//! complete, newline-terminated unit of output; fragment renderers return a
//! piece of a line that a full-line renderer embeds between its delimiters.

pub mod attributes;
pub mod coordinates;
pub mod decimal;
pub mod errors;
pub mod extended_codes;
pub mod function_codes;
pub mod text;
pub mod traits;
pub mod types;

pub use crate::attributes::{ApertureAttribute, ApertureFunction, AttributeDeletionCriterion, ComponentCharacteristics, ComponentDrill, ComponentMounting, ComponentOutline, CopperType, DrillFunction, DrillRouteType, ExtendedPosition, FiducialScope, FileAttribute, FileFunction, FilePolarity, GenerationSoftware, GerberDate, IPC4761ViaProtection, Ident, Net, NonPlatedDrill, ObjectAttribute, Part, Pin, PlatedDrill, Position, Profile, SmdPadType, SupplierPart, TextMirroring, TextMode, Uuid};
pub use crate::coordinates::{CoordinateFormat, FloatClass, CoordinateNumber, CoordinateOffset, Coordinates, IntoOptionalCoordinate};
pub use crate::decimal::{Decimal};
pub use crate::errors::{GerberError};
pub use crate::extended_codes::{Aperture, ApertureBlock, ApertureDefinition, AxisSelect, Circle, ImageMirroring, ImageName, ImageOffset, ImagePolarity, ImageRotation, ImageScaling, MacroDecimal, Mirroring, Polarity, Polygon, Rectangular, Rotation, Scaling, StepAndRepeat, Unit};
pub use crate::function_codes::{CommentContent, CoordinateMode, DCode, GCode, InterpolationMode, MCode, Operation, QuadrantMode, StandardComment};
pub use crate::traits::{GerberCode, PartialGerberCode};
pub use crate::types::{Command, ExtendedCode, FunctionCode};

