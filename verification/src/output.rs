//! What the engine has to show after a run: its output tensors, the boxes it
//! detected, and the labels of the loaded model.

use crate::context::Context;
use crate::error::{Error, ErrorView, Status};
use crate::marshal::{bytes_of, decode_text, from_native, native_text};
use vstd::math::min;
use vstd::prelude::*;
use vstd::utf8::{decode_utf8, valid_utf8};

verus! {

/// The detail of the error of [`Context::output_count`].
pub open spec fn no_outputs_text() -> Seq<char> {
    "context is invalid, has no model loaded, or the model does not identify any outputs"@
}

/// The detail of the error of [`Context::label`].
pub open spec fn invalid_label_text() -> Seq<char> {
    "invalid label index"@
}

/// The text of a label that the engine handed back. There is none where the
/// engine gave a null pointer, bytes that are not valid UTF-8, or nothing but
/// the terminator.
pub open spec fn label_text(reply: Option<Seq<u8>>) -> Option<Seq<char>> {
    match reply {
        Some(bytes) => if bytes.len() > 0 && valid_utf8(bytes) {
            Some(decode_utf8(bytes))
        } else {
            None
        },
        None => None,
    }
}

/// What [`Context::label`] gives for a label that the engine handed back.
pub open spec fn label_outcome(reply: Option<Seq<u8>>) -> Result<Seq<char>, ErrorView> {
    match label_text(reply) {
        Some(text) => Ok(text),
        None => Err(ErrorView::Wrapper(invalid_label_text())),
    }
}

/// How many records stay in a buffer of `len` records after the engine, asked
/// for at most `max_len`, reported `count`.
pub open spec fn boxes_kept(len: nat, max_len: nat, count: nat) -> nat {
    min(count as int, min(max_len as int, len as int)) as nat
}

/// The text of a label that the engine handed back, if it is one.
pub(crate) fn read_label(label: Option<Vec<u8>>) -> (text: Option<String>)
    ensures
        text.deep_view() == label_text(bytes_of(label)),
{
    match label {
        Some(bytes) => if bytes.len() > 0 {
            decode_text(bytes)
        } else {
            None
        },
        None => None,
    }
}

impl<H, R> Context<H, R> {
    /// Takes the number of outputs that the engine reported. Zero means that
    /// there is nothing to read, whatever the cause, and is an error.
    pub fn output_count(&self, count: i32) -> (result: Result<i32, Error>)
        ensures
            match result {
                Ok(n) => count != 0 && n == count,
                Err(error) => count == 0 && error@ == ErrorView::Wrapper(no_outputs_text()),
            },
    {
        if count == 0 {
            Err(
                Error::WrapperError(
                    "context is invalid, has no model loaded, or the model does not identify any outputs".to_owned(),
                ),
            )
        } else {
            Ok(count)
        }
    }

    /// Reads the name of an output as the engine handed it back. An index out of
    /// range makes the engine give no name; that, and a name that is not text,
    /// is an absent name and no error.
    pub fn output_name(&self, name: Option<Vec<u8>>) -> (text: Option<String>)
        ensures
            text.deep_view() == native_text(bytes_of(name)),
    {
        from_native(name)
    }

    /// Takes the output tensor that the engine handed back: absent where the
    /// engine gave none, or where no reference to it could be made.
    pub fn output_tensor<T, E>(&self, tensor: Option<Result<T, E>>) -> (reference: Option<T>)
        ensures
            reference == match tensor {
                Some(Ok(t)) => Some(t),
                _ => None::<T>,
            },
    {
        match tensor {
            Some(Ok(tensor)) => Some(tensor),
            _ => None,
        }
    }

    /// Takes the engine's answer to a request for at most `max_len` detection
    /// boxes. `boxes` is the buffer that the engine wrote its records to, from
    /// the front; `count` is how many it reported. The buffer is cut to the
    /// records that count, whether the call succeeded or not, and on success
    /// their number is returned: never more than `max_len`, nor than the buffer
    /// held.
    pub fn boxes<B>(&self, boxes: &mut Vec<B>, max_len: usize, status: Status, count: usize) -> (result:
        Result<usize, Error>)
        ensures
            final(boxes)@ == old(boxes)@.take(
                boxes_kept(old(boxes)@.len(), max_len as nat, count as nat) as int,
            ),
            match result {
                Ok(n) => status.outcome() is Ok && n == boxes_kept(
                    old(boxes)@.len(),
                    max_len as nat,
                    count as nat,
                ) && n <= max_len && n == final(boxes)@.len(),
                Err(error) => status.outcome() == Err::<(), ErrorView>(error@),
            },
    {
        let kept = if count <= max_len && count <= boxes.len() {
            count
        } else if max_len <= boxes.len() {
            max_len
        } else {
            boxes.len()
        };
        boxes.truncate(kept);
        match status.result() {
            Ok(()) => Ok(kept),
            Err(error) => Err(error),
        }
    }

    /// Reads the label that the engine handed back for an index. A null
    /// pointer, bytes that are not text and an empty string all mean that the
    /// index has no label, and give the same error.
    pub fn label(&self, label: Option<Vec<u8>>) -> (result: Result<String, Error>)
        ensures
            match result {
                Ok(text) => label_outcome(bytes_of(label)) == Ok::<Seq<char>, ErrorView>(text@),
                Err(error) => label_outcome(bytes_of(label)) == Err::<Seq<char>, ErrorView>(
                    error@,
                ),
            },
    {
        match read_label(label) {
            Some(text) => Ok(text),
            None => Err(Error::WrapperError("invalid label index".to_owned())),
        }
    }
}

} // verus!
