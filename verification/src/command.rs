//! What the one argument of the command line asks for.

use crate::errors::ImeError;
use crate::lang::{lang_of_text, LangID};
use crate::layout::LayoutHandle;
use crate::text::{lowercase_of, str_eq};
use vstd::prelude::*;

verus! {

/// What the program is asked to do.
#[derive(Debug, Clone, Copy, PartialEq, Eq, Structural)]
pub enum Command {
    /// Say how the program is used.
    Usage,
    /// Switch back to the layout that was active before the last switch.
    Toggle,
    /// Report the language of the active layout.
    Current,
    /// List the installed layouts.
    List,
    /// Keep the active layout and switch to a layout of this language.
    Switch(LangID),
}

/// The command that the argument `arg` stands for: the usage where there
/// is no argument, one of the three flags, or else the switch to the
/// language that the argument asks for, if it asks for one.
pub open spec fn command_of(arg: Option<Seq<char>>) -> Option<Command> {
    match arg {
        None => Some(Command::Usage),
        Some(text) => if text == "--toggle"@ {
            Some(Command::Toggle)
        } else if text == "--current"@ {
            Some(Command::Current)
        } else if text == "--list"@ {
            Some(Command::List)
        } else {
            match lang_of_text(text, lowercase_of(text)) {
                Some(lang) => Some(Command::Switch(lang)),
                None => None,
            }
        },
    }
}

/// The characters of an argument, if there is one.
pub open spec fn arg_text(arg: Option<&str>) -> Option<Seq<char>> {
    match arg {
        Some(text) => Some(text@),
        None => None,
    }
}

impl Command {
    /// Reads the command from the first argument of the command line. An
    /// argument that is no flag and asks for no language comes back in the
    /// error.
    pub fn parse(arg: Option<&str>) -> (r: Result<Command, ImeError>)
        ensures
            match r {
                Ok(command) => command_of(arg_text(arg)) == Some(command),
                Err(ImeError::Unsupported(given)) => command_of(arg_text(arg)) is None
                    && arg_text(arg) == Some(given@),
            },
            r matches Ok(Command::Switch(lang)) ==> lang.canonical(),
    {
        match arg {
            None => Ok(Command::Usage),
            Some(text) => {
                if str_eq(text, "--toggle") {
                    Ok(Command::Toggle)
                } else if str_eq(text, "--current") {
                    Ok(Command::Current)
                } else if str_eq(text, "--list") {
                    Ok(Command::List)
                } else {
                    match LangID::try_from(text) {
                        Ok(lang) => Ok(Command::Switch(lang)),
                        Err(e) => Err(e),
                    }
                }
            },
        }
    }
}

/// The short name under which the language of the active layout is
/// reported.
pub open spec fn short_name(hkl: LayoutHandle) -> Seq<char> {
    if hkl.code() == 0x0409 {
        "en"@
    } else if hkl.code() == 0x0804 {
        "zh"@
    } else {
        "其他"@
    }
}

/// The short name under which the language of the active layout is
/// reported.
pub fn current_name(hkl: LayoutHandle) -> (name: &'static str)
    ensures
        name@ == short_name(hkl),
{
    match hkl.lang_code() {
        0x0409 => "en",
        0x0804 => "zh",
        _ => "其他",
    }
}

} // verus!
