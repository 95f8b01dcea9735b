//! The command line: immediate actions, the launch parser, and the fixed
//! texts the terminal prints.

pub mod types;
pub mod rules;
mod edit;
mod words;
mod parse;
pub mod format;
pub mod texts;
pub mod immediate;
pub mod laws;

pub use self::format::format_launch_specs_bytes;
pub use self::immediate::parse_immediate;
pub use self::parse::parse_launch;
pub use self::rules::{LaunchStep, OutsideAnswer, OutsideQuery};
pub use self::texts::{color_table, help_text, version_text};
pub use self::types::{
    DynamicTitleMode, ImmediateAction, ImmediateOptions, ParseError, TabSpec, Visibility,
    WindowSpec,
};
