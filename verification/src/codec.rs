//! What the answers of the value codec mean at the trust boundary.
//!
//! Every value that crosses the boundary does so as JSON text. The
//! interpreter encodes and decodes; this module says what each of its
//! answers stands for.

use crate::error::Error;
use crate::error::ErrorKind;
use crate::error::ErrorView;
use vstd::prelude::*;

verus! {

/// An answer of the encoder as contracts see it: a text, nothing, or the
/// cause for which it threw.
pub open spec fn encoding_view(answer: Result<Option<String>, String>) -> Result<
    Option<Seq<char>>,
    Seq<char>,
> {
    match answer {
        Ok(Some(text)) => Ok(Some(text@)),
        Ok(None) => Ok(None),
        Err(cause) => Err(cause@),
    }
}

/// What an answer of the encoder stands for: the text it gave, or a value
/// that cannot be stringified, where it gave none or threw. A value
/// without a text is a failure with no cause to tell; it is never replaced
/// by a default.
pub open spec fn encoded_text(answer: Result<Option<Seq<char>>, Seq<char>>) -> Result<
    Seq<char>,
    ErrorView,
> {
    match answer {
        Ok(Some(text)) => Ok(text),
        Ok(None) => Err(ErrorView { kind: ErrorKind::NotStringifiable, detail: Seq::empty() }),
        Err(cause) => Err(ErrorView { kind: ErrorKind::NotStringifiable, detail: cause }),
    }
}

/// What an answer of the encoder stands for.
pub fn to_text(answer: Result<Option<String>, String>) -> (text: Result<String, Error>)
    ensures
        match text {
            Ok(t) => encoded_text(encoding_view(answer)) == Ok::<Seq<char>, ErrorView>(t@),
            Err(e) => encoded_text(encoding_view(answer)) == Err::<Seq<char>, ErrorView>(e@),
        },
{
    match answer {
        Ok(Some(text)) => Ok(text),
        Ok(None) => Err(Error::new(ErrorKind::NotStringifiable, String::new())),
        Err(cause) => Err(Error::new(ErrorKind::NotStringifiable, cause)),
    }
}

/// What an answer of the decoder stands for: success, or a failure of the
/// given kind with the decoder's cause.
pub open spec fn decoded_value(answer: Result<(), Seq<char>>, kind: ErrorKind) -> Result<
    (),
    ErrorView,
> {
    match answer {
        Ok(_) => Ok(()),
        Err(cause) => Err(ErrorView { kind, detail: cause }),
    }
}

/// What an answer of the decoder stands for, where a text that is no JSON
/// is a failure of kind `kind`.
pub fn from_text(answer: Result<(), String>, kind: ErrorKind) -> (value: Result<(), Error>)
    ensures
        match (answer, value) {
            (Ok(_), Ok(_)) => true,
            (Err(cause), Err(e)) => e@ == (ErrorView { kind, detail: cause@ }),
            _ => false,
        },
{
    match answer {
        Ok(_) => Ok(()),
        Err(cause) => Err(Error::new(kind, cause)),
    }
}

} // verus!
