use vstd::prelude::*;

verus! {

/// How results and failures are rendered.
#[derive(Debug, Clone, Copy, PartialEq, Eq, Default)]
pub enum OutputFormat {
    #[default]
    Human,
    Json,
    Quiet,
}

/// The five priority levels of a notification.
#[derive(Debug, Clone, Copy, PartialEq, Eq, Default)]
pub enum Priority {
    VeryLow,
    Moderate,
    #[default]
    Normal,
    High,
    Emergency,
}

impl Priority {
    /// The wire value of a level, from -2 up to 2.
    pub open spec fn spec_i8(self) -> i8 {
        match self {
            Priority::VeryLow => -2i8,
            Priority::Moderate => -1i8,
            Priority::Normal => 0i8,
            Priority::High => 1i8,
            Priority::Emergency => 2i8,
        }
    }

    /// The wire value of a level, from -2 up to 2.
    pub fn as_i8(self) -> (r: i8)
        ensures
            r == self.spec_i8(),
            -2 <= r <= 2,
    {
        match self {
            Priority::VeryLow => -2,
            Priority::Moderate => -1,
            Priority::Normal => 0,
            Priority::High => 1,
            Priority::Emergency => 2,
        }
    }
}

/// The arguments of `send`.
#[derive(Debug, Clone)]
pub struct SendArgs {
    /// The message; `-` asks for it to be read from standard input.
    pub message: String,
    pub event: String,
    pub priority: Priority,
    pub url: Option<String>,
    /// Further API keys to send to.
    pub to: Vec<String>,
    pub dry_run: bool,
}

/// The arguments of `register`.
#[derive(Debug, Clone)]
pub struct RegisterArgs {
    pub token: String,
}

/// The subcommands of `config`.
#[derive(Debug, Clone)]
pub enum ConfigCommand {
    Init { force: bool },
    Show,
    SetValue { key: String, value: String },
    Path,
}

} // verus!
