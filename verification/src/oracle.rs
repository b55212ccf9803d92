//! The unit processor: turn one concrete unit's read event into exactly one
//! outcome, asking the external tokenizer oracle for the token count of the
//! unit's content.

use vstd::prelude::*;
use crate::lines::{fail_line, spec_fail_line};
use crate::outcome::{ErrorKind, Outcome};

verus! {

/// Relies on tokenizers::Tokenizer, the oracle's handle: an opaque value,
/// loaded once at startup and passed by reference to every unit.
#[verifier::external_type_specification]
#[verifier::external_body]
pub struct ExTokenizer(tokenizers::Tokenizer);

/// Relies on tokenizers::Tokenizer::encode and Encoding::get_tokens: encode
/// the text without special tokens and count the tokens of the resulting
/// encoding; on failure hand back the tokenizer's error text. The count
/// depends on the tokenizer's loaded model, so nothing is promised of it.
#[verifier::external_body]
fn encode_count(tokenizer: &tokenizers::Tokenizer, text: String) -> (r: Result<usize, String>) {
    match tokenizer.encode(text, false) {
        Ok(encoding) => Ok(encoding.get_tokens().len()),
        Err(e) => Err(e.to_string()),
    }
}

/// What reading one concrete unit's content produced: the full content, or a
/// read failure (an I/O error, or content that was not valid UTF-8).
pub enum ReadEvent {
    Content { text: String },
    ReadFailed { encoding: bool, message: String },
}

/// Build the outcome for a unit whose content the tokenizer oracle either
/// counted or rejected: a success keeps its count and label; a rejection
/// becomes a tokenization failure with the unit's diagnostic line.
pub fn outcome_from_count(label: Option<String>, count: Result<usize, String>) -> (o: Outcome)
    ensures
        count matches Ok(c) ==> o == (Outcome::Counted { count: c, label }),
        count matches Err(m) ==> (o matches Outcome::Failed { label: l, kind, message } && l
            == label && kind is Tokenization && message@ == spec_fail_line(
            label.deep_view(),
            m@,
        )),
{
    match count {
        Ok(c) => Outcome::Counted { count: c, label },
        Err(m) => {
            let message = fail_line(&label, m.as_str());
            Outcome::Failed { label, kind: ErrorKind::Tokenization, message }
        },
    }
}

/// Process one concrete unit: on content, ask the tokenizer oracle and keep
/// whatever it answered; on a read failure, produce the matching failed
/// outcome. Every unit yields exactly one outcome carrying the unit's label.
pub fn process_unit(tokenizer: &tokenizers::Tokenizer, label: Option<String>, event: ReadEvent) -> (o:
    Outcome)
    ensures
        event matches ReadEvent::ReadFailed { encoding, message } ==> (o
            matches Outcome::Failed { label: l, kind, message: m } && l == label && (if encoding {
            kind is Encoding
        } else {
            kind is Io
        }) && m@ == spec_fail_line(label.deep_view(), message@)),
        event matches ReadEvent::Content { .. } ==> ((o matches Outcome::Counted { label: l, .. }
            && l == label) || (o matches Outcome::Failed { label: l, kind, .. } && l == label
            && kind is Tokenization)),
{
    match event {
        ReadEvent::Content { text } => outcome_from_count(label, encode_count(tokenizer, text)),
        ReadEvent::ReadFailed { encoding, message } => {
            let m = fail_line(&label, message.as_str());
            let kind = if encoding {
                ErrorKind::Encoding
            } else {
                ErrorKind::Io
            };
            Outcome::Failed { label, kind, message: m }
        },
    }
}

} // verus!
