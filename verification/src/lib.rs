//! Builds OpenSCAD scripts: a tree of objects, each one operation with the
//! objects it applies to, is written out as the text of a script.
//!
//! Every value that can stand in a script implements [`ScadType`], which
//! says as a sequence of characters what the value is written as, and
//! writes exactly that. Numbers are decimals of any precision, held
//! exactly ([`Decimal`]); the grammar itself is in [`text`], on plain text.

pub mod decimal;
pub mod decimal_laws;
pub mod lines;
pub mod scad_element;
pub mod scad_object;
pub mod scad_type;
pub mod text;
pub mod vector;

pub use decimal::Decimal;
pub use scad_element::{
    CircleType, LinExtrudeParams, OffsetType, PolygonParameters, PolygonPathType,
    RotateExtrudeParams, ScadElement,
};
pub use scad_object::{render_document, ScadObject};
pub use scad_type::ScadType;
pub use vector::{Vector2, Vector3, Vector4};
