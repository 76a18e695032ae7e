//! Core of a homebrewing recipe calculator.
//!
//! The surrounding program is a form-driven tool: it reads recipe parameters
//! from interactive controls, derives brewing quantities, and displays them.
//! This crate holds the part of that tool that is plain data and logic: the
//! ratio bookkeeping for grouped ingredients, the beer-style catalog with its
//! case-insensitive search, and the holders that tie a bundled JSON dataset to
//! the record type it decodes to. Every function here carries a contract
//! checked by Verus.
//!
//! The empirical brewing formulas (gravity, color, bitterness, water volumes,
//! pitch rates) are floating-point arithmetic and live with the program around
//! this crate, next to the I/O and the rendering.

pub mod math;
pub mod parser;
pub mod styles;
pub mod text;
