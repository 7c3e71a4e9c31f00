//! Errors that reach the top of the application.

use vstd::prelude::*;

use crate::text::{push_str, string_from_chars};

verus! {

/// An error of start-up or of the running application; outside failures are
/// carried as their text.
#[derive(Debug, Clone, PartialEq, Eq)]
pub enum AppError {
    EventLoop(String),
    Window(String),
    Graphics(String),
    Settings(String),
    Autostart(String),
    Application(String),
}

/// The text shown for an application error.
pub open spec fn app_error_text(error: AppError) -> Seq<char> {
    match error {
        AppError::EventLoop(detail) => "窗口事件循环错误: "@ + detail@,
        AppError::Window(detail) => "窗口创建错误: "@ + detail@,
        AppError::Graphics(detail) => "图形后端错误: "@ + detail@,
        AppError::Settings(detail) => "设置读写错误: "@ + detail@,
        AppError::Autostart(detail) => "系统级开机启动操作失败: "@ + detail@,
        AppError::Application(detail) => "应用进程操作失败: "@ + detail@,
    }
}

impl AppError {
    /// The error as the text shown to the user.
    pub fn message(&self) -> (text: String)
        ensures
            text@ == app_error_text(*self),
    {
        let mut chars: Vec<char> = Vec::new();
        match self {
            AppError::EventLoop(detail) => {
                push_str(&mut chars, "窗口事件循环错误: ");
                push_str(&mut chars, detail.as_str());
            },
            AppError::Window(detail) => {
                push_str(&mut chars, "窗口创建错误: ");
                push_str(&mut chars, detail.as_str());
            },
            AppError::Graphics(detail) => {
                push_str(&mut chars, "图形后端错误: ");
                push_str(&mut chars, detail.as_str());
            },
            AppError::Settings(detail) => {
                push_str(&mut chars, "设置读写错误: ");
                push_str(&mut chars, detail.as_str());
            },
            AppError::Autostart(detail) => {
                push_str(&mut chars, "系统级开机启动操作失败: ");
                push_str(&mut chars, detail.as_str());
            },
            AppError::Application(detail) => {
                push_str(&mut chars, "应用进程操作失败: ");
                push_str(&mut chars, detail.as_str());
            },
        }
        string_from_chars(&chars)
    }
}

} // verus!
