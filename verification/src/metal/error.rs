//! What the Metal driver's host logic refuses with.

use vstd::prelude::*;
use vstd::string::*;

verus! {

/// A refusal.
#[derive(Debug, PartialEq, Eq)]
pub enum Error {
    /// Something could not be made or done.
    Create {
        /// What it was.
        what: &'static str,
        /// Why not.
        message: String,
    },
    /// A kernel could not be compiled.
    Compile {
        /// The entry point asked for; empty when no single one is to blame.
        function: String,
        /// Why not.
        message: String,
    },
}

/// [`Error`] with its texts as sequences.
pub enum ErrorView {
    Create { what: Seq<char>, message: Seq<char> },
    Compile { function: Seq<char>, message: Seq<char> },
}

impl View for Error {
    type V = ErrorView;

    open spec fn view(&self) -> ErrorView {
        match *self {
            Error::Create { what, message } => ErrorView::Create { what: what@, message: message@ },
            Error::Compile { function, message } => ErrorView::Compile {
                function: function@,
                message: message@,
            },
        }
    }
}

/// A refusal, written out: what was asked for, and why it was not had.
pub open spec fn error_text(e: ErrorView) -> Seq<char> {
    match e {
        ErrorView::Create { what, message } => what + ": "@ + message,
        ErrorView::Compile { function, message } => function + ": "@ + message,
    }
}

impl Error {
    /// The refusal, written out.
    pub fn text(&self) -> (text: String)
        ensures
            text@ == error_text(self@),
    {
        match self {
            Error::Create { what, message } => {
                let mut text = String::from_str(what);
                text.append(": ");
                text.append(message.as_str());
                text
            },
            Error::Compile { function, message } => {
                let mut text = String::from_str(function.as_str());
                text.append(": ");
                text.append(message.as_str());
                text
            },
        }
    }
}

/// A refusal written out begins with what was asked for and ends with why it
/// was not had, whichever kind it is.
pub proof fn law_a_refusal_says_what_and_why(e: ErrorView)
    ensures
        ({
            let (subject, why) = match e {
                ErrorView::Create { what, message } => (what, message),
                ErrorView::Compile { function, message } => (function, message),
            };
            &&& subject.is_prefix_of(error_text(e))
            &&& why.is_suffix_of(error_text(e))
            &&& error_text(e).len() == subject.len() + 2 + why.len()
            &&& error_text(e)[subject.len() as int] == ':'
            &&& error_text(e)[subject.len() + 1int] == ' '
        }),
{
    reveal_strlit(": ");
    let (subject, why) = match e {
        ErrorView::Create { what, message } => (what, message),
        ErrorView::Compile { function, message } => (function, message),
    };
    let text = error_text(e);
    assert(subject =~= text.subrange(0, subject.len() as int));
    assert(why =~= text.subrange((text.len() - why.len()) as int, text.len() as int));
}

} // verus!
