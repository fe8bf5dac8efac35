//! What can go wrong, and how it is told to the user.

use crate::number::NumberError;
use crate::text::{lemma_made_of_two, made_of};
use crate::time::TimeError;
use vstd::prelude::*;

verus! {

/// A failure of the program.
#[derive(Debug, PartialEq, Eq)]
pub enum Error {
    /// The configuration lists no server.
    NoServers,
    /// No configured server has this id or name, and it is no URL either.
    ServerNotFound(String),
    /// No server answered the selection probe.
    AllProbesFailed,
    /// A probe was answered with a status other than success.
    ProbeRejected,
    /// Fewer than three latency samples could be taken.
    TooFewSamples,
    /// There is no configuration key of this name.
    UnknownKey(String),
    /// A configuration value is not a number of the right width.
    Number(NumberError),
    /// A configuration value is neither `true` nor `false`.
    Flag,
    /// A text is not an RFC 3339 time.
    Time(TimeError),
}

/// What the user is told about a text that is not a number.
pub open spec fn number_message(e: NumberError) -> Seq<char> {
    match e {
        NumberError::Empty => "cannot parse integer from empty string"@,
        NumberError::InvalidDigit => "invalid digit found in string"@,
        NumberError::TooLarge => "number too large to fit in target type"@,
    }
}

/// What the user is told about a text that is not a time.
pub open spec fn time_message(e: TimeError) -> Seq<char> {
    match e {
        TimeError::OutOfRange => "input is out of range"@,
        TimeError::Impossible => "no possible date and time matching input"@,
        TimeError::NotEnough => "input is not enough for unique date and time"@,
        TimeError::Invalid => "input contains invalid characters"@,
        TimeError::TooShort => "premature end of input"@,
        TimeError::TooLong => "trailing input"@,
        TimeError::BadFormat => "bad or unsupported format string"@,
    }
}

impl Error {
    /// What the user is told.
    pub open spec fn text(self) -> Seq<char> {
        match self {
            Error::NoServers => "服务器列表为空，请先配置 servers"@,
            Error::ServerNotFound(target) => "未找到服务器: "@ + target@,
            Error::AllProbesFailed => "所有服务器探测失败，请检查网络或更新配置"@,
            Error::ProbeRejected => "探测响应状态异常"@,
            Error::TooFewSamples => "延迟采样不足"@,
            Error::UnknownKey(key) => "未知配置项: "@ + key@,
            Error::Number(e) => number_message(e),
            Error::Flag => "provided string was not `true` or `false`"@,
            Error::Time(e) => time_message(e),
        }
    }

    /// What the user is told.
    pub fn message(&self) -> (r: String)
        ensures
            r@ == self.text(),
    {
        match self {
            Error::NoServers => "服务器列表为空，请先配置 servers".to_owned(),
            Error::ServerNotFound(target) => "未找到服务器: ".to_owned().concat(target.as_str()),
            Error::AllProbesFailed => "所有服务器探测失败，请检查网络或更新配置".to_owned(),
            Error::ProbeRejected => "探测响应状态异常".to_owned(),
            Error::TooFewSamples => "延迟采样不足".to_owned(),
            Error::UnknownKey(key) => "未知配置项: ".to_owned().concat(key.as_str()),
            Error::Number(NumberError::Empty) => {
                "cannot parse integer from empty string".to_owned()
            },
            Error::Number(NumberError::InvalidDigit) => "invalid digit found in string".to_owned(),
            Error::Number(NumberError::TooLarge) => {
                "number too large to fit in target type".to_owned()
            },
            Error::Flag => "provided string was not `true` or `false`".to_owned(),
            Error::Time(TimeError::OutOfRange) => "input is out of range".to_owned(),
            Error::Time(TimeError::Impossible) => {
                "no possible date and time matching input".to_owned()
            },
            Error::Time(TimeError::NotEnough) => {
                "input is not enough for unique date and time".to_owned()
            },
            Error::Time(TimeError::Invalid) => "input contains invalid characters".to_owned(),
            Error::Time(TimeError::TooShort) => "premature end of input".to_owned(),
            Error::Time(TimeError::TooLong) => "trailing input".to_owned(),
            Error::Time(TimeError::BadFormat) => "bad or unsupported format string".to_owned(),
        }
    }
}

/// What is told about a server or a setting that is not known ends with what the user typed,
/// unchanged, behind words that do not depend on it.
pub proof fn law_messages_repeat_the_input(typed: String)
    ensures
        made_of(Error::ServerNotFound(typed).text(), seq!["未找到服务器: "@, typed@]),
        made_of(Error::UnknownKey(typed).text(), seq!["未知配置项: "@, typed@]),
{
    lemma_made_of_two("未找到服务器: "@, typed@);
    lemma_made_of_two("未知配置项: "@, typed@);
}

} // verus!
