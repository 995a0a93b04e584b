//! The human-readable name of a device.
//!
//! The platform holds the name as a string object. Its text is reached in one
//! of two ways: directly, where the platform can hand out its own storage as
//! a C string, or by a copy into a buffer of fixed size. Both give the bytes
//! of a C string in UTF-8, and both are turned into text in the same way.

use crate::address::{AudioDeviceID, AudioObject, Element, PropertyAddress, Scope, Selector};
use crate::error::{Error, OSStatus, NO_ERROR};
use crate::platform::Request;
use vstd::prelude::*;
use vstd::slice::slice_subrange;
use vstd::utf8::{decode_utf8, valid_utf8};

verus! {

/// The size in bytes of the buffer that the name is copied into.
pub const NAME_BUFFER_SIZE: usize = 255;

/// How the text of the name came back from the platform.
#[derive(Debug)]
pub enum NameText {
    /// The platform handed out its own storage: the bytes of a C string.
    Direct { bytes: Vec<u8> },
    /// The platform had no storage to hand out. The string object was read
    /// again, with `status`, and its text copied into `buffer`; `converted`
    /// says whether the copy succeeded.
    Copied { status: OSStatus, converted: bool, buffer: Vec<u8> },
}

/// The text that a lossy conversion from UTF-8 gives for `bytes`: the
/// characters that the bytes encode, with the replacement character in place
/// of each ill-formed sequence.
pub uninterp spec fn lossy_text(bytes: Seq<u8>) -> Seq<char>;

/// The number of bytes before the first zero byte of `buffer`, or its length
/// if it holds none.
pub open spec fn c_string_length(buffer: Seq<u8>) -> int
    decreases buffer.len(),
{
    if buffer.len() == 0 || buffer[0] == 0 {
        0
    } else {
        1 + c_string_length(buffer.drop_first())
    }
}

/// The bytes of the C string at the start of `buffer`: all that precede the
/// first zero byte.
pub open spec fn c_string(buffer: Seq<u8>) -> Seq<u8> {
    buffer.take(c_string_length(buffer))
}

/// The result of a name lookup, as text, for each way the platform can have
/// answered.
pub open spec fn name_result(text: NameText) -> Result<Seq<char>, Error> {
    match text {
        NameText::Direct { bytes } => Ok(lossy_text(c_string(bytes@))),
        NameText::Copied { status, converted, buffer } => {
            if status != NO_ERROR {
                Err(Error::Unknown(status))
            } else if !converted {
                Err(Error::Unknown(0))
            } else {
                Ok(lossy_text(c_string(buffer@)))
            }
        },
    }
}

/// The bytes of the name in what the platform gave back: the C string at the
/// start of the storage or of the buffer.
pub open spec fn name_bytes(text: NameText) -> Seq<u8> {
    match text {
        NameText::Direct { bytes } => c_string(bytes@),
        NameText::Copied { status, converted, buffer } => c_string(buffer@),
    }
}

/// `c_string_length` is within the buffer, no byte before it is zero, and
/// the byte at it, if there is one, is zero.
pub proof fn lemma_c_string_length(buffer: Seq<u8>)
    ensures
        0 <= c_string_length(buffer) <= buffer.len(),
        forall|i: int| 0 <= i < c_string_length(buffer) ==> #[trigger] buffer[i] != 0,
        c_string_length(buffer) < buffer.len() ==> buffer[c_string_length(buffer)] == 0,
    decreases buffer.len(),
{
    if buffer.len() == 0 || buffer[0] == 0 {
    } else {
        let rest = buffer.drop_first();
        lemma_c_string_length(rest);
        let n = c_string_length(rest);
        assert forall|i: int| 0 <= i < 1 + n implies #[trigger] buffer[i] != 0 by {
            if i > 0 {
                assert(buffer[i] == rest[i - 1]);
            }
        }
        if n < rest.len() {
            assert(buffer[1 + n] == rest[n]);
        }
    }
}

/// A position that holds the first zero byte, or the end of a buffer without
/// one, is the length of the C string.
pub proof fn lemma_c_string_length_is(buffer: Seq<u8>, n: int)
    requires
        0 <= n <= buffer.len(),
        forall|i: int| 0 <= i < n ==> #[trigger] buffer[i] != 0,
        n < buffer.len() ==> buffer[n] == 0,
    ensures
        c_string_length(buffer) == n,
{
    lemma_c_string_length(buffer);
    let m = c_string_length(buffer);
    if m < n {
        assert(buffer[m] != 0);
    } else if n < m {
        assert(buffer[n] != 0);
    }
}

/// Names the read of the string object that holds the name of `device_id`.
pub fn device_name_query(device_id: AudioDeviceID) -> (request: Request)
    ensures
        request == (Request::Read {
            object: AudioObject::Device(device_id),
            address: PropertyAddress {
                selector: Selector::DeviceName,
                scope: Scope::Output,
                element: Element::Output,
            },
        }),
{
    Request::Read {
        object: AudioObject::Device(device_id),
        address: PropertyAddress {
            selector: Selector::DeviceName,
            scope: Scope::Output,
            element: Element::Output,
        },
    }
}

/// Finds the end of the C string at the start of `buffer`.
pub fn c_string_len(buffer: &[u8]) -> (n: usize)
    ensures
        n == c_string_length(buffer@),
{
    let mut n: usize = 0;
    while n < buffer.len() && buffer[n] != 0
        invariant
            n <= buffer.len(),
            forall|i: int| 0 <= i < n ==> #[trigger] buffer@[i] != 0,
        decreases buffer.len() - n,
    {
        n = n + 1;
    }
    proof {
        lemma_c_string_length_is(buffer@, n as int);
    }
    n
}

/// Calls `String::from_utf8_lossy` and takes the text as an owned string.
/// The contract gives the result its name, `lossy_text`, and states what the
/// standard library documents of well-formed input: the text is then exactly
/// what the bytes encode. What replaces ill-formed sequences is not stated.
#[verifier::external_body]
fn text_from_utf8_lossy(bytes: &[u8]) -> (text: String)
    ensures
        text@ == lossy_text(bytes@),
        valid_utf8(bytes@) ==> text@ == decode_utf8(bytes@),
{
    String::from_utf8_lossy(bytes).into_owned()
}

/// The text of the C string at the start of `buffer`.
pub fn c_string_text(buffer: &[u8]) -> (text: String)
    ensures
        text@ == lossy_text(c_string(buffer@)),
        valid_utf8(c_string(buffer@)) ==> text@ == decode_utf8(c_string(buffer@)),
{
    let n: usize = c_string_len(buffer);
    proof {
        lemma_c_string_length(buffer@);
    }
    let bytes: &[u8] = slice_subrange(buffer, 0, n);
    assert(bytes@ == c_string(buffer@));
    text_from_utf8_lossy(bytes)
}

/// The name of a device, from what the platform gave back after the string
/// object was read with success.
///
/// Direct text always gives a name. Copied text gives the error of the second
/// read if that failed, `Error::Unknown(0)` if the copy failed, and a name
/// otherwise. The name is the text of the C string at the start of the bytes:
/// exactly what they encode where they are well-formed UTF-8.
pub fn get_device_name(text: &NameText) -> (name: Result<String, Error>)
    ensures
        match name {
            Ok(s) => name_result(*text) == Ok::<Seq<char>, Error>(s@) && (valid_utf8(
                name_bytes(*text),
            ) ==> s@ == decode_utf8(name_bytes(*text))),
            Err(e) => name_result(*text) == Err::<Seq<char>, Error>(e),
        },
{
    match text {
        NameText::Direct { bytes } => Ok(c_string_text(bytes.as_slice())),
        NameText::Copied { status, converted, buffer } => {
            match Error::from_os_status(*status) {
                Err(e) => Err(e),
                Ok(()) => {
                    if !*converted {
                        Err(Error::Unknown(0))
                    } else {
                        Ok(c_string_text(buffer.as_slice()))
                    }
                },
            }
        },
    }
}

/// Both ways to the text give the same name: where the storage that the
/// platform hands out and the buffer that it copies into hold the same C
/// string, the direct path and a successful copy return the same result.
pub proof fn lemma_both_paths_give_the_same_name(bytes: Vec<u8>, buffer: Vec<u8>)
    requires
        c_string(bytes@) == c_string(buffer@),
    ensures
        name_result(NameText::Direct { bytes }) == name_result(
            NameText::Copied { status: NO_ERROR, converted: true, buffer },
        ),
{
}

/// Bytes behind the terminating zero do not count: a buffer gives the same
/// name whatever it holds after the first zero byte.
pub proof fn lemma_name_ends_at_first_zero(text: Seq<u8>, tail_a: Seq<u8>, tail_b: Seq<u8>)
    requires
        forall|i: int| 0 <= i < text.len() ==> #[trigger] text[i] != 0,
    ensures
        c_string(text + seq![0u8] + tail_a) == text,
        c_string(text + seq![0u8] + tail_a) == c_string(text + seq![0u8] + tail_b),
        c_string(text) == text,
{
    let a = text + seq![0u8] + tail_a;
    let b = text + seq![0u8] + tail_b;
    assert(a[text.len() as int] == 0);
    assert(b[text.len() as int] == 0);
    assert forall|i: int| 0 <= i < text.len() implies #[trigger] a[i] != 0 by {
        assert(a[i] == text[i]);
    }
    assert forall|i: int| 0 <= i < text.len() implies #[trigger] b[i] != 0 by {
        assert(b[i] == text[i]);
    }
    lemma_c_string_length_is(a, text.len() as int);
    lemma_c_string_length_is(b, text.len() as int);
    lemma_c_string_length_is(text, text.len() as int);
    assert(a.take(text.len() as int) =~= text);
    assert(b.take(text.len() as int) =~= text);
    assert(text.take(text.len() as int) =~= text);
}

} // verus!
