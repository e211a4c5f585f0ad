//! Why an operation on the configuration or the history can fail, and the
//! message that the user is shown for each failure.

use vstd::prelude::*;

verus! {

/// Which of the two files an operation works on.
#[derive(Debug, Clone, Copy, PartialEq, Eq, Structural)]
pub enum Store {
    Config,
    History,
}

/// What was being done to a file or its directory when the system refused.
#[derive(Debug, Clone, Copy, PartialEq, Eq, Structural)]
pub enum IoStep {
    CreateDirectory,
    Read,
    Write,
    Remove,
}

/// Why an operation on the configuration or the history failed.
#[derive(Debug, Clone, PartialEq, Eq)]
pub enum StorageError {
    /// The environment variable that names the base directory is not set.
    Environment { variable: String },
    /// The system refused to create, read, write or delete.
    Io { step: IoStep, store: Store, detail: String },
    /// The file does not hold JSON of the expected shape.
    Parse { store: Store, detail: String },
    /// The value could not be written as JSON.
    Serialization { store: Store, detail: String },
    /// The configuration was asked for before it was ever saved.
    NotFound,
}

impl StorageError {
    /// The words that open the message of an error, before its detail.
    pub open spec fn heading(self) -> Seq<char> {
        match self {
            StorageError::Environment { .. } => "无法获取 "@,
            StorageError::Io { step: IoStep::CreateDirectory, .. } => "创建目录失败: "@,
            StorageError::Io { step: IoStep::Read, store: Store::Config, .. } => "读取配置文件失败: "@,
            StorageError::Io { step: IoStep::Read, store: Store::History, .. } => "读取历史记录失败: "@,
            StorageError::Io { step: IoStep::Write, store: Store::Config, .. } => "写入配置文件失败: "@,
            StorageError::Io { step: IoStep::Write, store: Store::History, .. } => "写入历史记录失败: "@,
            StorageError::Io { step: IoStep::Remove, store: Store::Config, .. } => "删除配置文件失败: "@,
            StorageError::Io { step: IoStep::Remove, store: Store::History, .. } => "删除历史记录失败: "@,
            StorageError::Parse { store: Store::Config, .. } => "解析配置文件失败: "@,
            StorageError::Parse { store: Store::History, .. } => "解析历史记录失败: "@,
            StorageError::Serialization { store: Store::Config, .. } => "序列化配置失败: "@,
            StorageError::Serialization { store: Store::History, .. } => "序列化历史记录失败: "@,
            StorageError::NotFound => "配置文件不存在"@,
        }
    }

    /// The message shown to the user: the heading, then the detail.
    pub open spec fn message_text(self) -> Seq<char> {
        match self {
            StorageError::Environment { variable } => self.heading() + variable@ + " 目录"@,
            StorageError::Io { detail, .. } => self.heading() + detail@,
            StorageError::Parse { detail, .. } => self.heading() + detail@,
            StorageError::Serialization { detail, .. } => self.heading() + detail@,
            StorageError::NotFound => self.heading(),
        }
    }

    fn heading_words(&self) -> (words: &'static str)
        ensures
            words@ == self.heading(),
    {
        match self {
            StorageError::Environment { .. } => "无法获取 ",
            StorageError::Io { step: IoStep::CreateDirectory, .. } => "创建目录失败: ",
            StorageError::Io { step: IoStep::Read, store: Store::Config, .. } => "读取配置文件失败: ",
            StorageError::Io { step: IoStep::Read, store: Store::History, .. } => "读取历史记录失败: ",
            StorageError::Io { step: IoStep::Write, store: Store::Config, .. } => "写入配置文件失败: ",
            StorageError::Io { step: IoStep::Write, store: Store::History, .. } => "写入历史记录失败: ",
            StorageError::Io { step: IoStep::Remove, store: Store::Config, .. } => "删除配置文件失败: ",
            StorageError::Io { step: IoStep::Remove, store: Store::History, .. } => "删除历史记录失败: ",
            StorageError::Parse { store: Store::Config, .. } => "解析配置文件失败: ",
            StorageError::Parse { store: Store::History, .. } => "解析历史记录失败: ",
            StorageError::Serialization { store: Store::Config, .. } => "序列化配置失败: ",
            StorageError::Serialization { store: Store::History, .. } => "序列化历史记录失败: ",
            StorageError::NotFound => "配置文件不存在",
        }
    }

    /// The message shown to the user.
    pub fn message(&self) -> (text: String)
        ensures
            text@ == self.message_text(),
    {
        let mut text = String::from_str(self.heading_words());
        match self {
            StorageError::Environment { variable } => {
                text.append(variable.as_str());
                text.append(" 目录");
            },
            StorageError::Io { detail, .. } => {
                text.append(detail.as_str());
            },
            StorageError::Parse { detail, .. } => {
                text.append(detail.as_str());
            },
            StorageError::Serialization { detail, .. } => {
                text.append(detail.as_str());
            },
            StorageError::NotFound => {},
        }
        text
    }
}

} // verus!
