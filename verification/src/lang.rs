//! Language identifiers and the texts that name them.

use crate::errors::ImeError;
use crate::numeral::{numeral, parse_spec, parse_unsigned, to_radix_string};
use crate::text::{has_hex_prefix, lowercase_of, str_eq, strip_hex_prefix};
use vstd::prelude::*;
use vstd::string::StringExecFns;

verus! {

/// The language of a keyboard layout.
///
/// The variants stand in the order in which `<` compares them: by
/// identifier, with the languages outside the table between German and
/// English, in the order of their own identifiers.
#[derive(Debug, Clone, Copy, PartialEq, Eq, PartialOrd, Structural)]
pub enum LangID {
    /// Chinese in traditional characters, `0x0404`.
    Zhtw,
    /// German, `0x0407`.
    DE,
    /// A language outside the table, by its identifier.
    Other(u32),
    /// English, `0x0409`.
    EN,
    /// French, `0x040C`.
    FR,
    /// Japanese, `0x0411`.
    JA,
    /// Korean, `0x0412`.
    KO,
    /// Chinese in simplified characters, `0x0804`.
    ZH,
}

/// The language that a layout identifier stands for.
pub open spec fn lang_of_code(code: u32) -> LangID {
    if code == 0x0409 {
        LangID::EN
    } else if code == 0x0804 {
        LangID::ZH
    } else if code == 0x0404 {
        LangID::Zhtw
    } else if code == 0x0411 {
        LangID::JA
    } else if code == 0x0412 {
        LangID::KO
    } else if code == 0x040C {
        LangID::FR
    } else if code == 0x0407 {
        LangID::DE
    } else {
        LangID::Other(code)
    }
}

/// The identifier that a language stands for: the one of the table, and
/// for a language outside the table the one it carries.
pub open spec fn code_of(lang: LangID) -> u32 {
    match lang {
        LangID::EN => 0x0409,
        LangID::ZH => 0x0804,
        LangID::Zhtw => 0x0404,
        LangID::JA => 0x0411,
        LangID::KO => 0x0412,
        LangID::FR => 0x040C,
        LangID::DE => 0x0407,
        LangID::Other(id) => id,
    }
}

/// The language that a tag names. Tags are in lower case.
pub open spec fn lang_of_tag(tag: Seq<char>) -> Option<LangID> {
    if tag == "en"@ {
        Some(LangID::EN)
    } else if tag == "zh"@ || tag == "zh-cn"@ {
        Some(LangID::ZH)
    } else if tag == "zh-tw"@ {
        Some(LangID::Zhtw)
    } else if tag == "ja"@ || tag == "jp"@ {
        Some(LangID::JA)
    } else if tag == "ko"@ {
        Some(LangID::KO)
    } else if tag == "fr"@ {
        Some(LangID::FR)
    } else if tag == "de"@ {
        Some(LangID::DE)
    } else {
        None
    }
}

/// The language whose identifier `s` is the numeral of in `radix`, where
/// `s` is such a numeral and the identifier has thirty-two bits.
pub open spec fn lang_of_numeral(s: Seq<char>, radix: nat) -> Option<LangID> {
    match parse_spec(s, radix, u32::MAX as nat) {
        Ok(code) => Some(lang_of_code(code as u32)),
        Err(_) => None,
    }
}

/// The language that `text` asks for, where `lowered` is the text in lower
/// case: a hexadecimal identifier after `0x`, else a tag, else a decimal
/// identifier.
pub open spec fn lang_of_text(text: Seq<char>, lowered: Seq<char>) -> Option<LangID> {
    if has_hex_prefix(text) && lang_of_numeral(text.skip(2), 16) is Some {
        lang_of_numeral(text.skip(2), 16)
    } else if lang_of_tag(lowered) is Some {
        lang_of_tag(lowered)
    } else {
        lang_of_numeral(text, 10)
    }
}

/// The name by which a language is spoken of. The languages outside the
/// table share one name.
pub open spec fn name_of(lang: LangID) -> Seq<char> {
    match lang {
        LangID::EN => "英文"@,
        LangID::ZH => "中文 (简体)"@,
        LangID::Zhtw => "中文 (繁体)"@,
        LangID::JA => "日语"@,
        LangID::KO => "韩语"@,
        LangID::FR => "法语"@,
        LangID::DE => "德语"@,
        LangID::Other(_) => "其他"@,
    }
}

/// How a language is shown in a listing: a language of the table by the
/// word for it, one outside the table as a custom one with its identifier
/// in decimal.
pub open spec fn display_of(lang: LangID) -> Seq<char> {
    match lang {
        LangID::EN => "英语"@,
        LangID::ZH => "中文(简体)"@,
        LangID::Zhtw => "中文(繁体)"@,
        LangID::JA => "日语"@,
        LangID::KO => "韩语"@,
        LangID::FR => "法语"@,
        LangID::DE => "德语"@,
        LangID::Other(id) => "自定义: "@ + numeral(id as nat, 10),
    }
}

impl From<u32> for LangID {
    /// The language that the identifier `value` stands for.
    fn from(value: u32) -> (lang: Self)
        ensures
            lang == lang_of_code(value),
            lang.canonical(),
            code_of(lang) == value,
    {
        match value {
            0x0409 => LangID::EN,
            0x0804 => LangID::ZH,
            0x0404 => LangID::Zhtw,
            0x0411 => LangID::JA,
            0x0412 => LangID::KO,
            0x040C => LangID::FR,
            0x0407 => LangID::DE,
            _ => LangID::Other(value),
        }
    }
}

impl vstd::std_specs::convert::FromSpecImpl<u32> for LangID {
    open spec fn obeys_from_spec() -> bool {
        true
    }

    open spec fn from_spec(value: u32) -> Self {
        lang_of_code(value)
    }
}

impl LangID {
    /// Whether the language is written in its one canonical form: a
    /// language of the table by its own variant, never as `Other` with the
    /// identifier of that variant. Every language that the library reads
    /// from an identifier or a text is canonical.
    pub open spec fn canonical(self) -> bool {
        match self {
            LangID::Other(id) => lang_of_code(id) == self,
            _ => true,
        }
    }

    /// The identifier that the language stands for. A language that was
    /// read from an identifier gives that identifier back.
    pub fn code(self) -> (code: u32)
        ensures
            code == code_of(self),
            self.canonical() ==> lang_of_code(code) == self,
    {
        match self {
            LangID::EN => 0x0409,
            LangID::ZH => 0x0804,
            LangID::Zhtw => 0x0404,
            LangID::JA => 0x0411,
            LangID::KO => 0x0412,
            LangID::FR => 0x040C,
            LangID::DE => 0x0407,
            LangID::Other(id) => id,
        }
    }

    /// The name by which the language is spoken of.
    pub fn name(self) -> (text: &'static str)
        ensures
            text@ == name_of(self),
    {
        match self {
            LangID::EN => "英文",
            LangID::ZH => "中文 (简体)",
            LangID::Zhtw => "中文 (繁体)",
            LangID::JA => "日语",
            LangID::KO => "韩语",
            LangID::FR => "法语",
            LangID::DE => "德语",
            LangID::Other(_) => "其他",
        }
    }

    /// The language as a listing shows it.
    pub fn to_string(&self) -> (text: String)
        ensures
            text@ == display_of(*self),
    {
        match self {
            LangID::EN => String::from_str("英语"),
            LangID::ZH => String::from_str("中文(简体)"),
            LangID::Zhtw => String::from_str("中文(繁体)"),
            LangID::JA => String::from_str("日语"),
            LangID::KO => String::from_str("韩语"),
            LangID::FR => String::from_str("法语"),
            LangID::DE => String::from_str("德语"),
            LangID::Other(id) => {
                let digits = to_radix_string(*id as u64, 10, 0);
                String::from_str("自定义: ").concat(digits.as_str())
            },
        }
    }

    /// Looks a tag up among the tags that the library knows. The tag is
    /// taken as it stands: upper case matches nothing.
    pub fn from_tag(tag: &str) -> (lang: Option<LangID>)
        ensures
            lang == lang_of_tag(tag@),
            lang matches Some(l) ==> l.canonical(),
    {
        if str_eq(tag, "en") {
            Some(LangID::EN)
        } else if str_eq(tag, "zh") || str_eq(tag, "zh-cn") {
            Some(LangID::ZH)
        } else if str_eq(tag, "zh-tw") {
            Some(LangID::Zhtw)
        } else if str_eq(tag, "ja") || str_eq(tag, "jp") {
            Some(LangID::JA)
        } else if str_eq(tag, "ko") {
            Some(LangID::KO)
        } else if str_eq(tag, "fr") {
            Some(LangID::FR)
        } else if str_eq(tag, "de") {
            Some(LangID::DE)
        } else {
            None
        }
    }

    /// Reads a layout identifier written as a numeral of `radix`.
    pub fn from_numeral(s: &str, radix: u32) -> (lang: Option<LangID>)
        requires
            2 <= radix <= 36,
        ensures
            lang == lang_of_numeral(s@, radix as nat),
            lang matches Some(l) ==> l.canonical(),
    {
        match parse_unsigned(s, radix, 0xFFFF_FFFF) {
            Ok(code) => Some(LangID::from(code as u32)),
            Err(_) => None,
        }
    }

    /// Decides which language `text` asks for, given `lowered`, the same
    /// text in lower case. A text that asks for none comes back in the
    /// error. A text without `0x` in front whose lower case is a tag asks
    /// for the language of that tag.
    pub fn resolve(text: &str, lowered: &str) -> (r: Result<LangID, ImeError>)
        ensures
            match r {
                Ok(lang) => lang_of_text(text@, lowered@) == Some(lang) && lang.canonical(),
                Err(ImeError::Unsupported(given)) => lang_of_text(text@, lowered@) is None
                    && given@ == text@,
            },
            !has_hex_prefix(text@) ==> (lang_of_tag(lowered@) matches Some(named) ==> r matches Ok(
                lang,
            ) && lang == named),
    {
        if let Some(digits) = strip_hex_prefix(text) {
            if let Some(lang) = LangID::from_numeral(digits, 16) {
                return Ok(lang);
            }
        }
        if let Some(lang) = LangID::from_tag(lowered) {
            return Ok(lang);
        }
        match LangID::from_numeral(text, 10) {
            Some(lang) => Ok(lang),
            None => Err(ImeError::Unsupported(String::from_str(text))),
        }
    }
}

impl TryFrom<&str> for LangID {
    type Error = ImeError;

    /// Reads a language from what the user wrote: a tag in any case, or an
    /// identifier in hexadecimal after `0x` or in decimal.
    fn try_from(s: &str) -> (r: Result<Self, ImeError>)
        ensures
            match r {
                Ok(lang) => lang_of_text(s@, lowercase_of(s@)) == Some(lang) && lang.canonical(),
                Err(ImeError::Unsupported(given)) => lang_of_text(s@, lowercase_of(s@)) is None
                    && given@ == s@,
            },
    {
        let lowered = s.to_lowercase();
        LangID::resolve(s, lowered.as_str())
    }
}

impl vstd::std_specs::convert::TryFromSpecImpl<&str> for LangID {
    /// The error holds a `String`, and a specification cannot name the one
    /// that a call allocates: what `try_from` returns is stated on the
    /// function itself.
    open spec fn obeys_try_from_spec() -> bool {
        false
    }

    open spec fn try_from_spec(s: &str) -> Result<Self, ImeError> {
        match lang_of_text(s@, lowercase_of(s@)) {
            Some(lang) => Ok(lang),
            None => Err(arbitrary()),
        }
    }
}

} // verus!
