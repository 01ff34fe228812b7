//! Strings on their way to and from the engine. The engine reads a string up
//! to its first zero byte, so a text that holds one cannot be handed over; and
//! what the engine hands back is bytes, which are text only if they decode.

use crate::error::{Error, ErrorView};
use vstd::prelude::*;
use vstd::string::StringSliceAdditionalSpecFns;
use vstd::utf8::{decode_utf8, valid_utf8};

verus! {

/// No byte of `bytes` is the terminator.
pub open spec fn terminator_free(bytes: Seq<u8>) -> bool {
    forall|i: int| 0 <= i < bytes.len() ==> bytes[i] != 0u8
}

/// `position` is where the first terminator of `bytes` stands.
pub open spec fn is_first_terminator(bytes: Seq<u8>, position: int) -> bool {
    &&& 0 <= position < bytes.len()
    &&& bytes[position] == 0u8
    &&& terminator_free(bytes.take(position))
}

/// Where the first terminator of `bytes` stands, for bytes that hold one.
pub open spec fn first_terminator(bytes: Seq<u8>) -> int {
    choose|position: int| is_first_terminator(bytes, position)
}

/// The ten decimal digits.
pub open spec fn digits() -> Seq<char> {
    seq!['0', '1', '2', '3', '4', '5', '6', '7', '8', '9']
}

/// `n` written in decimal, without leading zeros.
pub open spec fn decimal_text(n: nat) -> Seq<char>
    decreases n,
{
    if n < 10 {
        seq![digits()[n as int]]
    } else {
        decimal_text(n / 10).push(digits()[(n % 10) as int])
    }
}

/// The detail of the error for a text with a terminator at `position`.
pub open spec fn terminator_error_text(position: nat) -> Seq<char> {
    "nul byte found in provided data at position: "@ + decimal_text(position)
}

/// What [`NativeString::new`] gives for a text with these bytes: the bytes
/// themselves, or the error that names the first terminator among them.
pub open spec fn marshaled(bytes: Seq<u8>) -> Result<Seq<u8>, ErrorView> {
    if terminator_free(bytes) {
        Ok(bytes)
    } else {
        Err(ErrorView::Wrapper(terminator_error_text(first_terminator(bytes) as nat)))
    }
}

/// The bytes of a string that the engine handed back, absent where it gave a
/// null pointer.
pub open spec fn bytes_of(reply: Option<Vec<u8>>) -> Option<Seq<u8>> {
    match reply {
        Some(bytes) => Some(bytes@),
        None => None,
    }
}

/// What [`from_native`] gives for a string of the engine: its text, where the
/// engine gave a string and its bytes are valid UTF-8.
pub open spec fn native_text(reply: Option<Seq<u8>>) -> Option<Seq<char>> {
    match reply {
        Some(bytes) => if valid_utf8(bytes) {
            Some(decode_utf8(bytes))
        } else {
            None
        },
        None => None,
    }
}

/// `String::from_utf8`, with its error dropped: it gives the text exactly when
/// the bytes are valid UTF-8, and the text is what the bytes encode.
#[verifier::external_body]
pub(crate) fn decode_text(bytes: Vec<u8>) -> (text: Option<String>)
    ensures
        text is Some <==> valid_utf8(bytes@),
        text matches Some(s) ==> s@ == decode_utf8(bytes@),
{
    match String::from_utf8(bytes) {
        Ok(text) => Some(text),
        Err(_) => None,
    }
}

/// The one-character text of the decimal digit `d`.
fn digit_text(d: usize) -> (text: &'static str)
    requires
        d < 10,
    ensures
        text@ == seq![digits()[d as int]],
{
    proof {
        reveal_strlit("0");
        reveal_strlit("1");
        reveal_strlit("2");
        reveal_strlit("3");
        reveal_strlit("4");
        reveal_strlit("5");
        reveal_strlit("6");
        reveal_strlit("7");
        reveal_strlit("8");
        reveal_strlit("9");
    }
    let text = if d == 0 {
        "0"
    } else if d == 1 {
        "1"
    } else if d == 2 {
        "2"
    } else if d == 3 {
        "3"
    } else if d == 4 {
        "4"
    } else if d == 5 {
        "5"
    } else if d == 6 {
        "6"
    } else if d == 7 {
        "7"
    } else if d == 8 {
        "8"
    } else {
        "9"
    };
    assert(text@ =~= seq![digits()[d as int]]);
    text
}

/// Appends `n` in decimal to `text`.
fn append_decimal(text: &mut String, n: usize)
    ensures
        final(text)@ == old(text)@ + decimal_text(n as nat),
    decreases n,
{
    if n >= 10 {
        append_decimal(text, n / 10);
    }
    text.append(digit_text(n % 10));
    assert(text@ =~= old(text)@ + decimal_text(n as nat));
}

/// Where the first terminator of `bytes` stands, if there is one.
fn find_terminator(bytes: &Vec<u8>) -> (found: Option<usize>)
    ensures
        found is None <==> terminator_free(bytes@),
        found matches Some(position) ==> position == first_terminator(bytes@),
{
    let mut i: usize = 0;
    while i < bytes.len()
        invariant
            i <= bytes.len(),
            terminator_free(bytes@.take(i as int)),
        decreases bytes.len() - i,
    {
        if bytes[i] == 0 {
            assert(is_first_terminator(bytes@, i as int));
            proof {
                lemma_first_terminator_unique(bytes@, i as int, first_terminator(bytes@));
            }
            return Some(i);
        }
        assert(bytes@.take(i + 1) =~= bytes@.take(i as int).push(bytes@[i as int]));
        i += 1;
    }
    assert(bytes@.take(i as int) =~= bytes@);
    None
}

/// Bytes have at most one first terminator.
proof fn lemma_first_terminator_unique(bytes: Seq<u8>, p: int, q: int)
    requires
        is_first_terminator(bytes, p),
        is_first_terminator(bytes, q),
    ensures
        p == q,
{
    if p < q {
        assert(bytes.take(q)[p] == bytes[p]);
    } else if q < p {
        assert(bytes.take(p)[q] == bytes[q]);
    }
}

/// A text as the engine takes it: its bytes, none of them zero, followed by
/// the terminator.
#[derive(Debug)]
pub struct NativeString {
    bytes: Vec<u8>,
}

impl View for NativeString {
    type V = Seq<u8>;

    /// The bytes of the text, without the terminator.
    closed spec fn view(&self) -> Seq<u8> {
        self.bytes@.drop_last()
    }
}

impl NativeString {
    #[verifier::type_invariant]
    spec fn well_formed(&self) -> bool {
        &&& self.bytes@.len() > 0
        &&& self.bytes@.last() == 0u8
        &&& terminator_free(self.bytes@.drop_last())
    }

    /// Marshals `text`. A text that holds a zero byte is refused, with the
    /// position of the first one in the error; any other text is accepted.
    pub fn new(text: &str) -> (result: Result<NativeString, Error>)
        ensures
            match result {
                Ok(string) => marshaled(text.spec_bytes()) == Ok::<Seq<u8>, ErrorView>(string@),
                Err(error) => marshaled(text.spec_bytes()) == Err::<Seq<u8>, ErrorView>(error@),
            },
    {
        let mut bytes = text.as_bytes_vec();
        match find_terminator(&bytes) {
            Some(position) => {
                let mut message = "nul byte found in provided data at position: ".to_owned();
                append_decimal(&mut message, position);
                Err(Error::WrapperError(message))
            },
            None => {
                let ghost text_bytes = bytes@;
                bytes.push(0);
                assert(bytes@.drop_last() =~= text_bytes);
                Ok(NativeString { bytes })
            },
        }
    }

    /// The bytes to hand to the engine: the text and, after it, the terminator.
    pub fn as_bytes_with_nul(&self) -> (bytes: &[u8])
        ensures
            bytes@ == self@.push(0u8),
            terminator_free(self@),
    {
        proof {
            use_type_invariant(self);
            assert(self.bytes@ =~= self.bytes@.drop_last().push(0u8));
        }
        self.bytes.as_slice()
    }

    /// The number of bytes of the text, the terminator not counted.
    pub fn len(&self) -> (len: usize)
        ensures
            len == self@.len(),
    {
        proof {
            use_type_invariant(self);
        }
        self.bytes.len() - 1
    }
}

/// Reads a string that the engine handed back: `None` where the engine gave a
/// null pointer or bytes that are not valid UTF-8.
pub fn from_native(reply: Option<Vec<u8>>) -> (text: Option<String>)
    ensures
        text.deep_view() == native_text(bytes_of(reply)),
{
    match reply {
        Some(bytes) => decode_text(bytes),
        None => None,
    }
}

} // verus!
