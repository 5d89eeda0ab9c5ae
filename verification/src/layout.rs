//! Layout handles as plain numbers.

use crate::lang::{lang_of_code, LangID};
use vstd::prelude::*;

verus! {

/// The handle of a loaded keyboard layout, by its numeric value. Its sixteen
/// low bits are the identifier of the layout's language.
#[derive(Debug, Clone, Copy, PartialEq, Eq, Structural)]
pub struct LayoutHandle(pub u64);

impl LayoutHandle {
    /// The language identifier in the handle.
    pub open spec fn code(self) -> u32 {
        (self.0 % 0x1_0000) as u32
    }

    /// The language of the layout.
    pub open spec fn language(self) -> LangID {
        lang_of_code(self.code())
    }

    /// The language identifier in the handle.
    pub fn lang_code(self) -> (code: u32)
        ensures
            code == self.code(),
    {
        let raw = self.0;
        assert(raw & 0xFFFF == raw % 0x1_0000) by (bit_vector);
        (raw & 0xFFFF) as u32
    }

    /// The language of the layout.
    pub fn lang(self) -> (lang: LangID)
        ensures
            lang == self.language(),
            lang.canonical(),
    {
        LangID::from(self.lang_code())
    }
}

} // verus!
