//! Choosing the layout to switch to, and listing the installed ones.

use crate::errors::LayoutError;
use crate::lang::{code_of, display_of, LangID};
use crate::layout::LayoutHandle;
use crate::numeral::{numeral, to_radix_string, zero_padded};
use crate::store::{state_handle, state_text, InputMethodManager};
use vstd::prelude::*;
use vstd::string::StringExecFns;

verus! {

/// Whether no layout of `layouts` has the identifier of `lang` in its low
/// sixteen bits.
pub open spec fn none_speaks(layouts: Seq<LayoutHandle>, lang: LangID) -> bool {
    forall|j: int| 0 <= j < layouts.len() ==> (#[trigger] layouts[j]).code() != code_of(lang)
}

/// Whether the layout at `i` is the first of `layouts` that has the
/// identifier of `lang` in its low sixteen bits.
pub open spec fn first_speaker(layouts: Seq<LayoutHandle>, lang: LangID, i: int) -> bool {
    &&& 0 <= i < layouts.len()
    &&& layouts[i].code() == code_of(lang)
    &&& none_speaks(layouts.take(i), lang)
}

/// How many entries to make room for when the system announces `announced`
/// layouts; none where it announces no layout at all.
pub fn layout_buffer_len(announced: i32) -> (len: Option<usize>)
    requires
        announced >= 0,
    ensures
        len == if announced == 0 {
            None
        } else {
            Some(announced as usize)
        },
{
    if announced == 0 {
        None
    } else {
        Some(announced as usize)
    }
}

/// Accepts a list of layouts only if the system filled in as many as it had
/// announced.
pub fn check_layout_count(announced: i32, filled: i32) -> (r: Result<(), LayoutError>)
    ensures
        r == if filled == announced {
            Ok::<(), LayoutError>(())
        } else {
            Err(LayoutError::ListChanged)
        },
{
    if filled == announced {
        Ok(())
    } else {
        Err(LayoutError::ListChanged)
    }
}

/// The layout to ask the foreground window for: the first installed one
/// whose low sixteen bits are the identifier of `lang_id`, however the
/// language is written.
pub fn switch_input_method(lang_id: LangID, layouts: &[LayoutHandle]) -> (r: Result<
    LayoutHandle,
    LayoutError,
>)
    ensures
        match r {
            Ok(hkl) => exists|i: int| first_speaker(layouts@, lang_id, i) && layouts@[i] == hkl,
            Err(e) => none_speaks(layouts@, lang_id) && e == LayoutError::NotFound(lang_id),
        },
{
    let wanted = lang_id.code();
    let mut i: usize = 0;
    while i < layouts.len()
        invariant
            i <= layouts@.len(),
            wanted == code_of(lang_id),
            none_speaks(layouts@.take(i as int), lang_id),
        decreases layouts@.len() - i,
    {
        let hkl = layouts[i];
        if hkl.lang_code() == wanted {
            assert(first_speaker(layouts@, lang_id, i as int));
            return Ok(hkl);
        }
        assert forall|j: int| 0 <= j < i + 1 implies (#[trigger] layouts@.take(i + 1)[j]).code()
            != code_of(lang_id) by {
            if j < i {
                assert(layouts@.take(i + 1)[j] == layouts@.take(i as int)[j]);
            }
        }
        i = i + 1;
    }
    assert(layouts@.take(i as int) =~= layouts@);
    Err(LayoutError::NotFound(lang_id))
}

/// What a toggle does: the layout to switch to, and the text to keep once
/// the switch has been asked for.
#[derive(Debug)]
pub struct Toggle {
    /// The layout that was saved before.
    pub target: LayoutHandle,
    /// The state that names the layout that is active now.
    pub state: String,
}

/// Plans a switch back: from the layout that is active now and the text of
/// the state file, to the saved layout and the state to keep in its place.
pub fn toggle_layout(manager: &InputMethodManager, current: LayoutHandle, saved: &str) -> (r:
    Result<Toggle, LayoutError>)
    ensures
        match r {
            Ok(toggle) => {
                &&& state_handle(saved@) == Ok::<LayoutHandle, LayoutError>(toggle.target)
                &&& toggle.state@ == state_text(current)
                &&& state_handle(toggle.state@) == Ok::<LayoutHandle, LayoutError>(current)
            },
            Err(e) => state_handle(saved@) == Err::<LayoutHandle, LayoutError>(e),
        },
{
    let target = manager.load_saved_layout(saved)?;
    Ok(Toggle { target, state: manager.save_current_layout(current) })
}

/// The first line of the listing of `count` layouts.
pub open spec fn listing_head(count: nat) -> Seq<char> {
    "系统安装的输入法列表 ("@ + numeral(count, 10) + " 个):"@
}

/// The line of the listing for the layout `hkl` at position `index`,
/// counted from zero.
pub open spec fn listing_line(index: nat, hkl: LayoutHandle) -> Seq<char> {
    "  ["@ + numeral(index + 1, 10) + "] 0x"@ + zero_padded(numeral(hkl.code() as nat, 16), 4)
        + " "@ + display_of(hkl.language())
}

/// The listing of the installed layouts, line by line: a head line, then
/// one line for each layout in the order given. That the system announces
/// no layout at all is a failure that `layout_buffer_len` reports before
/// there is a list; a list without layouts is listed as it is.
pub fn print_langs(layouts: &[LayoutHandle]) -> (lines: Vec<String>)
    ensures
        lines@.len() == layouts@.len() + 1,
        lines@[0]@ == listing_head(layouts@.len()),
        forall|i: int|
            0 <= i < layouts@.len() ==> (#[trigger] lines@[i + 1])@ == listing_line(
                i as nat,
                layouts@[i],
            ),
{
    let mut lines: Vec<String> = Vec::new();
    let count = to_radix_string(layouts.len() as u64, 10, 0);
    lines.push(String::from_str("系统安装的输入法列表 (").concat(count.as_str()).concat(" 个):"));
    let mut i: usize = 0;
    while i < layouts.len()
        invariant
            i <= layouts@.len(),
            lines@.len() == i + 1,
            lines@[0]@ == listing_head(layouts@.len()),
            forall|k: int|
                0 <= k < i ==> (#[trigger] lines@[k + 1])@ == listing_line(k as nat, layouts@[k]),
        decreases layouts@.len() - i,
    {
        let hkl = layouts[i];
        let position = to_radix_string(i as u64 + 1, 10, 0);
        let code = to_radix_string(hkl.lang_code() as u64, 16, 4);
        let name = hkl.lang().to_string();
        let line = String::from_str("  [").concat(position.as_str()).concat("] 0x").concat(
            code.as_str(),
        ).concat(" ").concat(name.as_str());
        lines.push(line);
        i = i + 1;
    }
    lines
}

} // verus!
