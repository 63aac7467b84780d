//! A trait for structures that can describe themselves on the console.
//! Implementations perform console output, so they live with the
//! applications that own the structures; the library only declares the
//! interface.

use vstd::prelude::*;

verus! {

/// Trait for structures that can be printed on the console.
pub trait Printable {
    /// Prints a description of this structure on the console.
    fn print(&self);
}

} // verus!
