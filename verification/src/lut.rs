//! Settings of the phase-function lookup table: where it is written, and how
//! its rows are normalised.

use vstd::prelude::*;

verus! {

/// Where the LUT texture and its metadata are written, and in which format.
#[derive(Debug, Clone)]
pub struct OutputConfig {
    pub texture_path: String,
    pub metadata_path: String,
    pub format: String,
}

/// How the LUT's intensities are scaled before they are stored: each
/// wavelength row by its own maximum, or the whole grid by the global one.
#[derive(Debug, Clone, Copy, PartialEq, Eq, Structural)]
pub enum NormalizeMode {
    PerWavelength,
    Global,
}

/// Whether two texts are equal, character by character.
pub fn text_equals(a: &str, b: &str) -> (eq: bool)
    ensures
        eq == (a@ == b@),
{
    let n = a.unicode_len();
    if n != b.unicode_len() {
        return false;
    }
    let mut i: usize = 0;
    while i < n
        invariant
            n == a@.len(),
            n == b@.len(),
            i <= n,
            forall|j: int| 0 <= j < i ==> a@[j] == b@[j],
        decreases n - i,
    {
        if a.get_char(i) != b.get_char(i) {
            return false;
        }
        i = i + 1;
    }
    assert(a@ =~= b@);
    true
}

impl NormalizeMode {
    /// The mode a configuration names: `"per_wavelength"` selects per-row
    /// scaling, every other name the global one.
    pub fn from_name(name: &str) -> (mode: NormalizeMode)
        ensures
            mode == (if name@ == "per_wavelength"@ {
                NormalizeMode::PerWavelength
            } else {
                NormalizeMode::Global
            }),
    {
        if text_equals(name, "per_wavelength") {
            NormalizeMode::PerWavelength
        } else {
            NormalizeMode::Global
        }
    }
}

} // verus!
