//! Random command scripts for an interpreter with a date module, a person
//! module and a group module.
//!
//! - `fecha`: calendar dates, leap years and month lengths.
//! - `texto`: decimal rendering of numbers.
//! - `azar`: random sources that keep a record of their draws.
//! - `valores`: identifiers, names, the word lists, and the samplers.
//! - `token`: the commands and their protocol lines.
//! - `recorrido`: each walk as a function of its draws.
//! - `generar`: the three walks, and what holds of every script.
use vstd::prelude::*;

pub mod texto;
pub mod fecha;
pub mod azar;
pub mod valores;
pub mod token;
pub mod recorrido;
pub mod generar;

verus! {

} // verus!
