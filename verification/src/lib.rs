//! Step-wise debugging support: the bookkeeping behind the `dbgify` attribute.
//!
//! The library keeps, for an instrumented function, which arguments can be
//! inspected and under which type, splits the arguments into those that are
//! borrowed mutably and the others, rewrites the statements of the function
//! body (break points become calls of the stepper, method calls on arguments
//! go through their captured copies), and decides what the interactive stepper
//! does with each line that the user types.

pub mod meta;
pub mod syntax;
pub mod collect;
pub mod vars;
pub mod args;
pub mod visit;
