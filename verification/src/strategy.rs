//! Injected strategies: the filter predicate, the submission validator and
//! the final-answer formatter. Each trait pairs an executable method with a
//! specification function that pins the method's result, so the prompt's
//! contracts can speak about whatever strategy the caller supplies.

use vstd::prelude::*;

use crate::option_answer::OptionAnswer;
use crate::text::{contains_chars, contains_seq, lower_of, str_chars, to_lower};

verus! {

/// Decides whether an option stays visible under the current query.
pub trait Filter {
    /// What the predicate accepts, over the query, the label and the
    /// option's original index.
    spec fn filter_spec(&self, query: Seq<char>, label: Seq<char>, idx: int) -> bool;

    /// Executable form of the predicate.
    fn matches(&self, query: &str, label: &str, idx: usize) -> (r: bool)
        ensures
            r == self.filter_spec(query@, label@, idx as int),
    ;
}

/// The stock filter: case-insensitive substring match on the label, the
/// original index ignored.
pub struct DefaultFilter;

impl Filter for DefaultFilter {
    open spec fn filter_spec(&self, query: Seq<char>, label: Seq<char>, idx: int) -> bool {
        contains_seq(lower_of(label), lower_of(query))
    }

    fn matches(&self, query: &str, label: &str, idx: usize) -> (r: bool) {
        let lowered_query = to_lower(query);
        let lowered_label = to_lower(label);
        let needle = str_chars(lowered_query.as_str());
        let hay = str_chars(lowered_label.as_str());
        contains_chars(&hay, &needle)
    }
}

/// Gates submission: may reject a candidate answer with a message.
pub trait Validator {
    /// The verdict, as a function of the candidate selections.
    spec fn validate_spec(&self, selections: Seq<OptionAnswer>) -> Result<(), Seq<char>>;

    /// Executable form of the verdict.
    fn validate(&self, selections: &Vec<OptionAnswer>) -> (r: Result<(), String>)
        ensures
            r is Ok <==> self.validate_spec(selections@) is Ok,
            r matches Err(m) ==> (self.validate_spec(selections@) matches Err(s) && m@ == s),
    ;
}

/// A validator that never rejects; stands in where none is configured.
pub struct NoValidator;

impl Validator for NoValidator {
    open spec fn validate_spec(&self, selections: Seq<OptionAnswer>) -> Result<(), Seq<char>> {
        Ok(())
    }

    fn validate(&self, selections: &Vec<OptionAnswer>) -> (r: Result<(), String>) {
        Ok(())
    }
}

/// Rejects a submission with fewer than `min` selections.
pub struct MinCountValidator {
    /// The least number of selections that passes.
    pub min: usize,
    /// The message shown when the candidate is rejected.
    pub message: String,
}

impl MinCountValidator {
    /// A validator demanding at least `min` selections.
    pub fn new(min: usize, message: &str) -> (r: Self)
        ensures
            r.min == min,
            r.message@ == message@,
    {
        MinCountValidator { min, message: message.to_owned() }
    }
}

impl Validator for MinCountValidator {
    open spec fn validate_spec(&self, selections: Seq<OptionAnswer>) -> Result<(), Seq<char>> {
        if selections.len() >= self.min {
            Ok(())
        } else {
            Err(self.message@)
        }
    }

    fn validate(&self, selections: &Vec<OptionAnswer>) -> (r: Result<(), String>) {
        if selections.len() >= self.min {
            Ok(())
        } else {
            Err(self.message.clone())
        }
    }
}

/// Shapes the confirmed answer into the text handed to the backend's final
/// render.
pub trait Formatter {
    /// The display text, as a function of the confirmed selections.
    spec fn format_spec(&self, selections: Seq<OptionAnswer>) -> Seq<char>;

    /// Executable form of the display text.
    fn format(&self, selections: &Vec<OptionAnswer>) -> (r: String)
        ensures
            r@ == self.format_spec(selections@),
    ;
}

/// The labels of the selections joined by a comma and a space.
pub open spec fn joined_labels(selections: Seq<OptionAnswer>) -> Seq<char>
    decreases selections.len(),
{
    if selections.len() == 0 {
        Seq::empty()
    } else if selections.len() == 1 {
        selections[0].value@
    } else {
        joined_labels(selections.drop_last()) + seq![',', ' '] + selections.last().value@
    }
}

/// The stock formatter: the selected labels, comma-separated, in the order
/// they appear in the answer.
pub struct DefaultFormatter;

impl Formatter for DefaultFormatter {
    open spec fn format_spec(&self, selections: Seq<OptionAnswer>) -> Seq<char> {
        joined_labels(selections)
    }

    fn format(&self, selections: &Vec<OptionAnswer>) -> (r: String) {
        let mut out: Vec<char> = Vec::new();
        let mut i: usize = 0;
        while i < selections.len()
            invariant
                i <= selections@.len(),
                out@ == joined_labels(selections@.subrange(0, i as int)),
            decreases selections@.len() - i,
        {
            if i > 0 {
                out.push(',');
                out.push(' ');
            }
            let mut cs = str_chars(selections[i].value.as_str());
            out.append(&mut cs);
            proof {
                let pre = selections@.subrange(0, i + 1);
                assert(pre.drop_last() =~= selections@.subrange(0, i as int));
                assert(pre.last() == selections@[i as int]);
                assert(out@ =~= joined_labels(pre));
            }
            i = i + 1;
        }
        proof {
            assert(selections@.subrange(0, selections@.len() as int) =~= selections@);
        }
        crate::text::string_from_chars(&out)
    }
}

} // verus!
