//! The prompt configuration and its builder methods.

use vstd::prelude::*;

use crate::backend::MultiSelectBackend;
use crate::error::InquireError;
use crate::option_answer::OptionAnswer;
use crate::state::{answers_correspond, MultiSelectPrompt};
use crate::strategy::{DefaultFilter, DefaultFormatter, Filter, Formatter, NoValidator, Validator};

verus! {

/// Default page size.
pub const DEFAULT_PAGE_SIZE: usize = 7;

/// Default value of the vim-navigation flag.
pub const DEFAULT_VIM_MODE: bool = false;

/// Default starting cursor index.
pub const DEFAULT_STARTING_CURSOR: usize = 0;

/// Default behavior of keeping or cleaning the current filter text after a
/// selection-changing action.
pub const DEFAULT_KEEP_FILTER: bool = true;

/// Prompt for selecting many options (including none) from a list.
///
/// The configuration snapshot taken at session start: the option labels,
/// the default-checked indices, the starting cursor, the page size, the
/// navigation flags and the injected strategies. It is validated when the
/// session starts: the option list must be non-empty, and every default or
/// starting index must lie inside it.
pub struct MultiSelect<F: Filter, M: Formatter, V: Validator> {
    /// Message presented to the user.
    pub message: String,
    /// Options displayed to the user. Must be non-empty.
    pub options: Vec<String>,
    /// Indices of options checked from the start.
    pub default: Option<Vec<usize>>,
    /// Help message shown below the prompt.
    pub help_message: Option<String>,
    /// Number of options displayed at once.
    pub page_size: usize,
    /// Whether `j`/`k` navigate as alternate keys.
    pub vim_mode: bool,
    /// Cursor index when the prompt is first rendered.
    pub starting_cursor: usize,
    /// Predicate deciding which options the current filter text keeps
    /// visible.
    pub filter: F,
    /// Whether the filter text survives a selection-changing action.
    pub keep_filter: bool,
    /// Shapes the confirmed answer into the final display text.
    pub formatter: M,
    /// Gates submission; a rejection keeps the session alive and shows the
    /// message one line above the prompt.
    pub validator: Option<V>,
}

impl MultiSelect<DefaultFilter, DefaultFormatter, NoValidator> {
    /// A prompt with the provided message and options and the default
    /// configuration: no defaults, page size 7, vim mode off, cursor at 0,
    /// filter kept, stock filter and formatter, no validator.
    pub fn new(message: &str, options: Vec<String>) -> (r: Self)
        ensures
            r.message@ == message@,
            r.options == options,
            r.default is None,
            r.help_message matches Some(h) && h@
                == "↑↓ to move, space to select one, → to all, ← to none, type to filter"@,
            r.page_size == DEFAULT_PAGE_SIZE,
            r.vim_mode == DEFAULT_VIM_MODE,
            r.starting_cursor == DEFAULT_STARTING_CURSOR,
            r.keep_filter == DEFAULT_KEEP_FILTER,
            r.validator is None,
    {
        MultiSelect {
            message: message.to_owned(),
            options,
            default: None,
            help_message: Some(
                "↑↓ to move, space to select one, → to all, ← to none, type to filter".to_owned(),
            ),
            page_size: DEFAULT_PAGE_SIZE,
            vim_mode: DEFAULT_VIM_MODE,
            starting_cursor: DEFAULT_STARTING_CURSOR,
            filter: DefaultFilter,
            keep_filter: DEFAULT_KEEP_FILTER,
            formatter: DefaultFormatter,
            validator: None,
        }
    }
}

impl<F: Filter, M: Formatter, V: Validator> MultiSelect<F, M, V> {
    /// Sets the help message of the prompt.
    pub fn with_help_message(self, message: &str) -> (r: Self)
        ensures
            r.help_message matches Some(h) && h@ == message@,
            r == (Self { help_message: r.help_message, ..self }),
    {
        Self { help_message: Some(message.to_owned()), ..self }
    }

    /// Removes the set help message.
    pub fn without_help_message(self) -> (r: Self)
        ensures
            r == (Self { help_message: None, ..self }),
    {
        Self { help_message: None, ..self }
    }

    /// Sets the page size.
    pub fn with_page_size(self, page_size: usize) -> (r: Self)
        ensures
            r == (Self { page_size, ..self }),
    {
        Self { page_size, ..self }
    }

    /// Enables or disables vim navigation.
    pub fn with_vim_mode(self, vim_mode: bool) -> (r: Self)
        ensures
            r == (Self { vim_mode, ..self }),
    {
        Self { vim_mode, ..self }
    }

    /// Sets the keep-filter behavior.
    pub fn with_keep_filter(self, keep_filter: bool) -> (r: Self)
        ensures
            r == (Self { keep_filter, ..self }),
    {
        Self { keep_filter, ..self }
    }

    /// Sets the indices checked from the start.
    pub fn with_default(self, default: Vec<usize>) -> (r: Self)
        ensures
            r.default matches Some(d) && d == default,
            r == (Self { default: r.default, ..self }),
    {
        Self { default: Some(default), ..self }
    }

    /// Sets the starting cursor index.
    pub fn with_starting_cursor(self, starting_cursor: usize) -> (r: Self)
        ensures
            r == (Self { starting_cursor, ..self }),
    {
        Self { starting_cursor, ..self }
    }

    /// Sets the filter predicate.
    pub fn with_filter<F2: Filter>(self, filter: F2) -> (r: MultiSelect<F2, M, V>)
        ensures
            r.filter == filter,
            r.message == self.message,
            r.options == self.options,
            r.default == self.default,
            r.help_message == self.help_message,
            r.page_size == self.page_size,
            r.vim_mode == self.vim_mode,
            r.starting_cursor == self.starting_cursor,
            r.keep_filter == self.keep_filter,
            r.formatter == self.formatter,
            r.validator == self.validator,
    {
        MultiSelect {
            message: self.message,
            options: self.options,
            default: self.default,
            help_message: self.help_message,
            page_size: self.page_size,
            vim_mode: self.vim_mode,
            starting_cursor: self.starting_cursor,
            filter,
            keep_filter: self.keep_filter,
            formatter: self.formatter,
            validator: self.validator,
        }
    }

    /// Sets the formatter.
    pub fn with_formatter<M2: Formatter>(self, formatter: M2) -> (r: MultiSelect<F, M2, V>)
        ensures
            r.formatter == formatter,
            r.message == self.message,
            r.options == self.options,
            r.default == self.default,
            r.help_message == self.help_message,
            r.page_size == self.page_size,
            r.vim_mode == self.vim_mode,
            r.starting_cursor == self.starting_cursor,
            r.keep_filter == self.keep_filter,
            r.filter == self.filter,
            r.validator == self.validator,
    {
        MultiSelect {
            message: self.message,
            options: self.options,
            default: self.default,
            help_message: self.help_message,
            page_size: self.page_size,
            vim_mode: self.vim_mode,
            starting_cursor: self.starting_cursor,
            filter: self.filter,
            keep_filter: self.keep_filter,
            formatter,
            validator: self.validator,
        }
    }

    /// Sets the validator applied to a submission attempt.
    pub fn with_validator<V2: Validator>(self, validator: V2) -> (r: MultiSelect<F, M, V2>)
        ensures
            r.validator matches Some(v) && v == validator,
            r.message == self.message,
            r.options == self.options,
            r.default == self.default,
            r.help_message == self.help_message,
            r.page_size == self.page_size,
            r.vim_mode == self.vim_mode,
            r.starting_cursor == self.starting_cursor,
            r.keep_filter == self.keep_filter,
            r.filter == self.filter,
            r.formatter == self.formatter,
    {
        MultiSelect {
            message: self.message,
            options: self.options,
            default: self.default,
            help_message: self.help_message,
            page_size: self.page_size,
            vim_mode: self.vim_mode,
            starting_cursor: self.starting_cursor,
            filter: self.filter,
            keep_filter: self.keep_filter,
            formatter: self.formatter,
            validator: Some(validator),
        }
    }

    /// Runs the interaction loop against the given backend and returns the
    /// confirmed selections, in original list order, or the error that ended
    /// the session.
    pub fn prompt<B: MultiSelectBackend>(self, backend: &mut B) -> (r: Result<
        Vec<OptionAnswer>,
        InquireError,
    >)
        ensures
            self.options@.len() == 0 ==> r matches Err(InquireError::InvalidConfiguration(_)),
            (self.default matches Some(d) && exists|k: int|
                0 <= k < d@.len() && ((#[trigger] d@[k]) as int) >= self.options@.len()) ==> (
            r matches Err(InquireError::InvalidConfiguration(_))),
            self.starting_cursor >= self.options@.len() ==> r matches Err(
                InquireError::InvalidConfiguration(_),
            ),
            r matches Ok(ans) ==> {
                &&& exists|ch: Seq<bool>|
                    ch.len() == self.options@.len() && answers_correspond(
                        ans@,
                        self.options@,
                        ch,
                    )
                &&& self.validator matches Some(v) ==> v.validate_spec(ans@) is Ok
            },
    {
        self.prompt_with_backend(backend)
    }

    /// As `prompt`, named for symmetry with a caller that already holds a
    /// backend.
    pub fn prompt_with_backend<B: MultiSelectBackend>(self, backend: &mut B) -> (r: Result<
        Vec<OptionAnswer>,
        InquireError,
    >)
        ensures
            self.options@.len() == 0 ==> r matches Err(InquireError::InvalidConfiguration(_)),
            (self.default matches Some(d) && exists|k: int|
                0 <= k < d@.len() && ((#[trigger] d@[k]) as int) >= self.options@.len()) ==> (
            r matches Err(InquireError::InvalidConfiguration(_))),
            self.starting_cursor >= self.options@.len() ==> r matches Err(
                InquireError::InvalidConfiguration(_),
            ),
            r matches Ok(ans) ==> {
                &&& exists|ch: Seq<bool>|
                    ch.len() == self.options@.len() && answers_correspond(
                        ans@,
                        self.options@,
                        ch,
                    )
                &&& self.validator matches Some(v) ==> v.validate_spec(ans@) is Ok
            },
    {
        match MultiSelectPrompt::new(self) {
            Ok(p) => p.prompt(backend),
            Err(e) => Err(e),
        }
    }
}

} // verus!
