//! The render boundary: a capability interface the prompt core drives.
//!
//! A terminal implements it to draw real frames; a test harness implements
//! it with a scripted key sequence to run the prompt headless. The core
//! promises nothing about these calls and retries none of them: a failure is
//! propagated unchanged to the caller.

use vstd::prelude::*;

use crate::error::InquireError;
use crate::key::Key;

verus! {

/// One-way contract the state machine uses to request a visual frame and to
/// block for the next key.
pub trait MultiSelectBackend {
    /// Prepare for a fresh draw.
    fn frame_setup(&mut self) -> Result<(), InquireError>;

    /// Draw the transient error line above the prompt.
    fn render_error_message(&mut self, error: &str) -> Result<(), InquireError>;

    /// Draw the prompt message and the live filter text.
    fn render_multiselect_prompt(&mut self, prompt: &str, cur_input: &str) -> Result<
        (),
        InquireError,
    >;

    /// Draw one visible option line, top to bottom.
    fn render_option(&mut self, content: &str, focused: bool, checked: bool) -> Result<
        (),
        InquireError,
    >;

    /// Draw the help line.
    fn render_help_message(&mut self, help: &str) -> Result<(), InquireError>;

    /// Commit the frame.
    fn frame_finish(&mut self) -> Result<(), InquireError>;

    /// Block until the next decoded key event.
    fn read_key(&mut self) -> Result<Key, InquireError>;

    /// Render the final confirmed line; called exactly once, after a
    /// successful submission, never on cancellation.
    fn finish_prompt(&mut self, prompt: &str, answer: &str) -> Result<(), InquireError>;
}

} // verus!
