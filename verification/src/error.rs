//! The errors of the tool and their stable codes.

use vstd::prelude::*;

verus! {

/// A failure of the tool. Paths and the texts of system errors are held as strings.
#[derive(Clone, Debug)]
pub enum AppError {
    Message(String),
    Read { path: String, source: String },
    Parse { path: String, message: String },
    Write { path: String, source: String },
    Tool { tool: String, message: String },
}

/// The stable code that names each kind of failure.
pub open spec fn code_of(error: AppError) -> Seq<char> {
    match error {
        AppError::Read { .. } => "io_read"@,
        AppError::Parse { .. } => "parse_error"@,
        AppError::Write { .. } => "io_write"@,
        AppError::Tool { .. } => "external_tool"@,
        AppError::Message(_) => "invalid_request"@,
    }
}

/// The human-readable text of each failure.
pub open spec fn describe_spec(error: AppError) -> Seq<char> {
    match error {
        AppError::Message(m) => m@,
        AppError::Read { path, source } => "无法读取 "@ + path@ + ": "@ + source@,
        AppError::Parse { path, message } => "无法解析 "@ + path@ + ": "@ + message@,
        AppError::Write { path, source } => "无法写入 "@ + path@ + ": "@ + source@,
        AppError::Tool { tool, message } => "外部工具 "@ + tool@ + " 执行失败: "@ + message@,
    }
}

impl AppError {
    /// The stable code of this failure.
    pub fn code(&self) -> (r: &'static str)
        ensures
            r@ == code_of(*self),
    {
        match self {
            AppError::Read { .. } => "io_read",
            AppError::Parse { .. } => "parse_error",
            AppError::Write { .. } => "io_write",
            AppError::Tool { .. } => "external_tool",
            AppError::Message(_) => "invalid_request",
        }
    }

    /// The human-readable text of this failure.
    pub fn describe(&self) -> (r: String)
        ensures
            r@ == describe_spec(*self),
    {
        match self {
            AppError::Message(m) => m.clone(),
            AppError::Read { path, source } => {
                let mut r = String::from_str("无法读取 ");
                r.append(path.as_str());
                r.append(": ");
                r.append(source.as_str());
                r
            },
            AppError::Parse { path, message } => {
                let mut r = String::from_str("无法解析 ");
                r.append(path.as_str());
                r.append(": ");
                r.append(message.as_str());
                r
            },
            AppError::Write { path, source } => {
                let mut r = String::from_str("无法写入 ");
                r.append(path.as_str());
                r.append(": ");
                r.append(source.as_str());
                r
            },
            AppError::Tool { tool, message } => {
                let mut r = String::from_str("外部工具 ");
                r.append(tool.as_str());
                r.append(" 执行失败: ");
                r.append(message.as_str());
                r
            },
        }
    }
}

} // verus!
