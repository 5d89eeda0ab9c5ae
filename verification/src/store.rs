//! The state that outlives a run: the handle of the layout that was active
//! before the last switch, kept as text in one file.

use crate::errors::LayoutError;
use crate::layout::LayoutHandle;
use crate::numeral::{lemma_numeral_round_trip, numeral, parse_spec, parse_unsigned, to_radix_string};
use vstd::prelude::*;
use vstd::string::StringExecFns;

verus! {

/// The name of the file that holds the state.
pub const STATE_FILE: &'static str = "input_switcher_state";

/// The text under which a handle is kept: its value in hexadecimal, upper
/// case, without leading zeros.
pub open spec fn state_text(hkl: LayoutHandle) -> Seq<char> {
    numeral(hkl.0 as nat, 16)
}

/// The handle that a state text holds.
pub open spec fn state_handle(data: Seq<char>) -> Result<LayoutHandle, LayoutError> {
    match parse_spec(data, 16, u64::MAX as nat) {
        Ok(value) => Ok(LayoutHandle(value as u64)),
        Err(kind) => Err(LayoutError::InvalidState(kind)),
    }
}

/// The text under which a handle is kept holds that handle: what is saved
/// is what the next load yields.
pub proof fn lemma_saved_is_loaded(hkl: LayoutHandle)
    ensures
        state_handle(state_text(hkl)) == Ok::<LayoutHandle, LayoutError>(hkl),
{
    lemma_numeral_round_trip(hkl.0 as nat, 16, u64::MAX as nat);
}

/// Knows where the state is kept and how it is written down.
pub struct InputMethodManager {
    config_dir: String,
}

impl InputMethodManager {
    /// The directory of the state file.
    pub closed spec fn dir(&self) -> Seq<char> {
        self.config_dir@
    }

    /// A manager that keeps its state in the user's application data
    /// directory, or in the working directory where none is known.
    pub fn new(appdata: Option<String>) -> (manager: Self)
        ensures
            manager.dir() == match appdata {
                Some(path) => path@,
                None => "."@,
            },
    {
        let config_dir = match appdata {
            Some(path) => path,
            None => String::from_str("."),
        };
        InputMethodManager { config_dir }
    }

    /// The directory of the state file.
    pub fn config_dir(&self) -> (dir: &str)
        ensures
            dir@ == self.dir(),
    {
        self.config_dir.as_str()
    }

    /// The text to write to the state file so that `hkl` is what the next
    /// load yields.
    pub fn save_current_layout(&self, hkl: LayoutHandle) -> (data: String)
        ensures
            data@ == state_text(hkl),
            state_handle(data@) == Ok::<LayoutHandle, LayoutError>(hkl),
    {
        proof {
            lemma_saved_is_loaded(hkl);
        }
        to_radix_string(hkl.0, 16, 0)
    }

    /// The handle that the text of the state file holds.
    pub fn load_saved_layout(&self, data: &str) -> (r: Result<LayoutHandle, LayoutError>)
        ensures
            r == state_handle(data@),
    {
        match parse_unsigned(data, 16, u64::MAX) {
            Ok(value) => Ok(LayoutHandle(value)),
            Err(kind) => Err(LayoutError::InvalidState(kind)),
        }
    }
}

} // verus!
