//! The platforms that the pipeline tells apart.

use vstd::prelude::*;

verus! {

/// The platform that the application runs on.
#[derive(Clone, Copy, Debug, PartialEq, Eq, Structural)]
pub enum Platform {
    MacOs,
    Windows,
    Other,
}

} // verus!
