//! The errors of the library.

use crate::lang::{display_of, LangID};
use crate::numeral::NumeralError;
use vstd::prelude::*;
use vstd::string::StringExecFns;

verus! {

/// A language was asked for in a form that the library does not read.
#[derive(Debug)]
pub enum ImeError {
    /// The text that was given.
    Unsupported(String),
}

impl ImeError {
    /// The sentence that reports the error.
    pub open spec fn text(&self) -> Seq<char> {
        match self {
            ImeError::Unsupported(given) => "Unsupported language format: "@ + given@,
        }
    }

    /// The sentence that reports the error.
    pub fn message(&self) -> (text: String)
        ensures
            text@ == self.text(),
    {
        match self {
            ImeError::Unsupported(given) => String::from_str(
                "Unsupported language format: ",
            ).concat(given.as_str()),
        }
    }
}

/// The kind of failure that a status code tells the system of.
#[derive(Debug, Clone, Copy, PartialEq, Eq, Structural)]
pub enum Status {
    /// A failure without a more specific cause.
    Fail,
    /// A failure that an unusable argument or value caused.
    InvalidArgument,
}

/// Why a layout could not be listed, found, kept or restored.
#[derive(Debug, PartialEq, Eq)]
pub enum LayoutError {
    /// The system filled in another number of layouts than it had announced.
    ListChanged,
    /// No installed layout speaks the language.
    NotFound(LangID),
    /// The state could not be written; the cause is given in words.
    SaveFailed(String),
    /// The state could not be read; the cause is given in words.
    LoadFailed(String),
    /// The state that was read is no handle.
    InvalidState(NumeralError),
}

impl LayoutError {
    /// The status under which the failure is reported.
    pub open spec fn kind(&self) -> Status {
        match self {
            LayoutError::ListChanged | LayoutError::InvalidState(_) => Status::InvalidArgument,
            LayoutError::NotFound(_) | LayoutError::SaveFailed(_) | LayoutError::LoadFailed(
                _,
            ) => Status::Fail,
        }
    }

    /// The sentence that reports the failure.
    pub open spec fn text(&self) -> Seq<char> {
        match self {
            LayoutError::ListChanged => "获取键盘布局失败"@,
            LayoutError::NotFound(lang) => "未找到"@ + display_of(*lang) + "输入法"@,
            LayoutError::SaveFailed(cause) => "保存状态失败: "@ + cause@,
            LayoutError::LoadFailed(cause) => "加载状态失败: "@ + cause@,
            LayoutError::InvalidState(kind) => "无效状态: "@ + kind.description(),
        }
    }

    /// The status under which the failure is reported.
    pub fn status(&self) -> (status: Status)
        ensures
            status == self.kind(),
    {
        match self {
            LayoutError::ListChanged | LayoutError::InvalidState(_) => Status::InvalidArgument,
            LayoutError::NotFound(_) | LayoutError::SaveFailed(_) | LayoutError::LoadFailed(
                _,
            ) => Status::Fail,
        }
    }

    /// The sentence that reports the failure.
    pub fn message(&self) -> (text: String)
        ensures
            text@ == self.text(),
    {
        match self {
            LayoutError::ListChanged => String::from_str("获取键盘布局失败"),
            LayoutError::NotFound(lang) => String::from_str("未找到").concat(
                lang.to_string().as_str(),
            ).concat("输入法"),
            LayoutError::SaveFailed(cause) => String::from_str("保存状态失败: ").concat(
                cause.as_str(),
            ),
            LayoutError::LoadFailed(cause) => String::from_str("加载状态失败: ").concat(
                cause.as_str(),
            ),
            LayoutError::InvalidState(kind) => String::from_str("无效状态: ").concat(
                kind.describe(),
            ),
        }
    }
}

} // verus!
