use vstd::prelude::*;

verus! {

/// The desktop platform the shell runs on, where a decision depends on it.
#[derive(Clone, Copy, PartialEq, Eq, Structural, Debug)]
pub enum Platform {
    Windows,
    MacOs,
    Linux,
}

} // verus!
