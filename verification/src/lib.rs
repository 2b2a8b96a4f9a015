//! An interactive "pick many from a list" prompt core.
//!
//! The library owns the prompt state machine: the filter text buffer, the
//! filtered view of the option list, the cursor, and the checked-selection
//! set. Rendering and key decoding are delegated to a backend trait that a
//! terminal (or a test harness) implements.

pub mod backend;
pub mod error;
pub mod input;
pub mod key;
pub mod laws;
pub mod multiselect;
pub mod option_answer;
pub mod pagination;
pub mod state;
pub mod strategy;
pub mod text;

pub use backend::MultiSelectBackend;
pub use error::InquireError;
pub use input::Input;
pub use key::{Key, KeyModifiers};
pub use multiselect::MultiSelect;
pub use option_answer::OptionAnswer;
pub use state::{FramePlan, MultiSelectPrompt};
pub use strategy::{
    DefaultFilter, DefaultFormatter, Filter, Formatter, MinCountValidator, NoValidator, Validator,
};
