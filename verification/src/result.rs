//! The outcome of evaluating a rule: success carries no data, failure carries
//! an ordered list of human-readable messages.

use vstd::prelude::*;
use vstd::string::StringExecFns;

verus! {

/// Evaluating a rule either succeeds, or fails with a [`ValidationError`].
pub type ValidationResult = Result<(), ValidationError>;

/// A validation failure: an ordered collection of human-readable messages.
pub struct ValidationError {
    pub messages: Vec<String>,
}

impl View for ValidationError {
    type V = Seq<Seq<char>>;

    open spec fn view(&self) -> Seq<Seq<char>> {
        self.messages.deep_view()
    }
}

/// The messages of a sequence of errors, concatenated in order and preserving
/// the order within each error.
pub open spec fn merged_messages(errors: Seq<ValidationError>) -> Seq<Seq<char>>
    decreases errors.len(),
{
    if errors.len() == 0 {
        Seq::<Seq<char>>::empty()
    } else {
        merged_messages(errors.drop_last()) + errors.last()@
    }
}

/// The messages joined with a `;` separator, in order, with no leading or
/// trailing separator.
pub open spec fn joined_messages(messages: Seq<Seq<char>>) -> Seq<char>
    decreases messages.len(),
{
    if messages.len() == 0 {
        Seq::<char>::empty()
    } else if messages.len() == 1 {
        messages[0]
    } else {
        joined_messages(messages.drop_last()) + ";"@ + messages.last()
    }
}

impl ValidationError {
    /// A degenerate failure carrying no message at all.
    pub fn new() -> (r: Self)
        ensures
            r@ == Seq::<Seq<char>>::empty(),
    {
        let messages: Vec<String> = Vec::new();
        ValidationError { messages }
    }

    /// A failure carrying exactly one message.
    pub fn from_message(message: String) -> (r: Self)
        ensures
            r@ == seq![message@],
    {
        let mut messages: Vec<String> = Vec::new();
        messages.push(message);
        let r = ValidationError { messages };
        proof {
            assert(r@ =~= seq![message@]);
        }
        r
    }

    /// A failure carrying the given messages, in order.
    pub fn from_messages(messages: Vec<String>) -> (r: Self)
        ensures
            r@ == messages.deep_view(),
    {
        ValidationError { messages }
    }

    /// A failure carrying the given message if one is present, and no message
    /// otherwise.
    pub fn from_optional(message: Option<String>) -> (r: Self)
        ensures
            r@ == match message {
                Some(m) => seq![m@],
                None => Seq::<Seq<char>>::empty(),
            },
    {
        match message {
            Some(m) => Self::from_message(m),
            None => Self::new(),
        }
    }

    /// Flattens many failures into one: the messages of every sub-error,
    /// concatenated in the order the sub-errors were produced.
    pub fn from_errors(errors: Vec<ValidationError>) -> (r: Self)
        ensures
            r@ == merged_messages(errors@),
    {
        let mut messages: Vec<String> = Vec::new();
        let mut i: usize = 0;
        while i < errors.len()
            invariant
                i <= errors@.len(),
                messages.deep_view() == merged_messages(errors@.take(i as int)),
            decreases errors@.len() - i,
        {
            let error = &errors[i];
            let mut j: usize = 0;
            while j < error.messages.len()
                invariant
                    j <= error.messages@.len(),
                    error == errors@[i as int],
                    i < errors@.len(),
                    messages.deep_view() == merged_messages(errors@.take(i as int))
                        + error.messages.deep_view().take(j as int),
                decreases error.messages@.len() - j,
            {
                let ghost prev = messages.deep_view();
                messages.push(error.messages[j].clone());
                proof {
                    assert(messages.deep_view() =~= prev.push(error.messages@[j as int]@));
                    assert(prev.push(error.messages@[j as int]@) =~= merged_messages(
                        errors@.take(i as int),
                    ) + error.messages.deep_view().take(j + 1));
                }
                j += 1;
            }
            proof {
                assert(error.messages.deep_view().take(j as int) =~= error.messages.deep_view());
                assert(errors@.take(i + 1).drop_last() =~= errors@.take(i as int));
                assert(errors@.take(i + 1).last() == errors@[i as int]);
                assert(merged_messages(errors@.take(i + 1)) == merged_messages(
                    errors@.take(i as int),
                ) + errors@[i as int]@);
            }
            i += 1;
        }
        proof {
            assert(errors@.take(i as int) =~= errors@);
        }
        Self::from_messages(messages)
    }

    /// The display form of the failure: all messages joined with `;`, in
    /// order.
    pub fn to_text(&self) -> (s: String)
        ensures
            s@ == joined_messages(self@),
    {
        let mut s = String::new();
        let mut i: usize = 0;
        while i < self.messages.len()
            invariant
                i <= self.messages@.len(),
                s@ == joined_messages(self@.take(i as int)),
            decreases self.messages@.len() - i,
        {
            if i > 0 {
                s.append(";");
            }
            s.append(self.messages[i].as_str());
            proof {
                assert(self@.take(i + 1).drop_last() =~= self@.take(i as int));
                assert(self@.take(i + 1).last() == self@[i as int]);
            }
            i += 1;
        }
        proof {
            assert(self@.take(i as int) =~= self@);
        }
        s
    }
}

} // verus!
