//! Carrying results across the foreign boundary.
//!
//! On the far side of the boundary a result is a tagged value: a payload, or
//! an error made of a kind and a message. The message crosses as a C string,
//! the bytes of its UTF-8 encoding closed by a zero byte, and is owned by
//! whoever receives it.
//!
//! Every result crosses. A C string ends at its first zero byte, so of a
//! text that holds a NUL character the part before the first NUL is what
//! crosses: the far side would read no further in any case. The kind of an
//! error is never lost.

use crate::error::{BackendError, BackendErrorKind};
use vstd::prelude::*;
use vstd::string::*;
use vstd::utf8::*;

verus! {

/// An error as it crosses the boundary. The message is a C string: no zero
/// byte but the one that closes it.
pub struct BoundaryError {
    pub kind: BackendErrorKind,
    pub message: Vec<u8>,
}

/// A result as it crosses the boundary.
pub enum BoundaryResult<T> {
    /// The operation succeeded with this payload.
    Value(T),
    /// The operation failed.
    Failure(BoundaryError),
}

/// `bytes` are a C string: closed by a zero byte, with no zero byte before
/// it.
pub open spec fn is_c_string(bytes: Seq<u8>) -> bool {
    &&& bytes.len() > 0
    &&& bytes.last() == 0u8
    &&& !bytes.drop_last().contains(0u8)
}

impl BoundaryError {
    /// The message is a C string.
    pub open spec fn wf(&self) -> bool {
        is_c_string(self.message@)
    }
}

impl<T> BoundaryResult<T> {
    /// If this is a failure, its message is a C string.
    pub open spec fn wf(&self) -> bool {
        self matches BoundaryResult::Failure(err) ==> err.wf()
    }
}

/// `text` holds no NUL character: all of it can be carried as a C string.
pub open spec fn fits_c_string(text: Seq<char>) -> bool {
    !text.contains('\0')
}

/// The part of `text` that a C string carries: the text up to its first NUL
/// character, all of it where it holds none.
pub open spec fn carried_text(text: Seq<char>) -> Seq<char>
    decreases text.len(),
{
    if text.len() == 0 || text[0] == '\0' {
        Seq::<char>::empty()
    } else {
        seq![text[0]] + carried_text(text.drop_first())
    }
}

/// The bytes of `text` as a C string: its UTF-8 encoding and a closing zero
/// byte.
pub open spec fn c_string_bytes(text: Seq<char>) -> Seq<u8> {
    encode_utf8(text).push(0u8)
}

/// `out` is `result` as it crosses the boundary: the payload unchanged, or
/// the error with its kind kept and its message as a C string.
pub open spec fn marshalled<T>(result: Result<T, BackendError>, out: BoundaryResult<T>) -> bool {
    match result {
        Ok(value) => out == BoundaryResult::Value(value),
        Err(err) => out matches BoundaryResult::Failure(carried) && carried.kind == err.kind
            && carried.message@ == c_string_bytes(carried_text(err.message@)),
    }
}

/// The encoding of a character holds a zero byte only if the character is
/// NUL.
proof fn lemma_zero_byte_of_scalar(c: char)
    ensures
        encode_scalar(c as u32).contains(0u8) <==> c == '\0',
{
    let s = c as u32;
    let bytes = encode_scalar(s);
    char_is_scalar(c);
    assert(has_width_1_encoding(s) ==> (leading_byte_width_1(s) == 0 <==> s == 0)) by (bit_vector);
    assert(leading_byte_width_2(s) != 0) by (bit_vector);
    assert(leading_byte_width_3(s) != 0) by (bit_vector);
    assert(leading_byte_width_4(s) != 0) by (bit_vector);
    assert(last_continuation_byte(s) != 0) by (bit_vector);
    assert(second_last_continuation_byte(s) != 0) by (bit_vector);
    assert(third_last_continuation_byte(s) != 0) by (bit_vector);
    if bytes.contains(0u8) {
        let i = choose|i: int| 0 <= i < bytes.len() && bytes[i] == 0u8;
        assert(bytes[i] == 0u8);
        assert(s == 0);
    }
    if c == '\0' {
        assert(s == 0);
        assert(bytes[0] == 0u8);
    }
}

/// The encoding of a text holds a zero byte exactly where the text holds a
/// NUL character.
pub proof fn lemma_zero_byte_iff_nul(text: Seq<char>)
    ensures
        encode_utf8(text).contains(0u8) <==> text.contains('\0'),
    decreases text.len(),
{
    if text.len() == 0 {
    } else {
        let head = encode_scalar(text[0] as u32);
        let rest = text.drop_first();
        let tail = encode_utf8(rest);
        lemma_zero_byte_of_scalar(text[0]);
        lemma_zero_byte_iff_nul(rest);
        assert(encode_utf8(text) == head + tail);
        if (head + tail).contains(0u8) {
            let i = choose|i: int| 0 <= i < (head + tail).len() && (head + tail)[i] == 0u8;
            if i < head.len() {
                assert(head[i] == 0u8);
                assert(text[0] == '\0');
            } else {
                assert(tail[i - head.len()] == 0u8);
                let j = choose|j: int| 0 <= j < rest.len() && rest[j] == '\0';
                assert(text[j + 1] == '\0');
            }
        }
        if text.contains('\0') {
            let j = choose|j: int| 0 <= j < text.len() && text[j] == '\0';
            if j == 0 {
                let i = choose|i: int| 0 <= i < head.len() && head[i] == 0u8;
                assert((head + tail)[i] == 0u8);
            } else {
                assert(rest[j - 1] == '\0');
                let i = choose|i: int| 0 <= i < tail.len() && tail[i] == 0u8;
                assert((head + tail)[head.len() + i] == 0u8);
            }
        }
    }
}

/// What a C string carries of a text is the text up to its first NUL
/// character: a leading part of the text, without a NUL, that ends where the
/// text ends or where its first NUL stands. A text without a NUL is carried
/// whole.
pub proof fn lemma_carried_text(text: Seq<char>)
    ensures
        carried_text(text).len() <= text.len(),
        carried_text(text) == text.subrange(0, carried_text(text).len() as int),
        fits_c_string(carried_text(text)),
        carried_text(text).len() < text.len() ==> text[carried_text(text).len() as int] == '\0',
        fits_c_string(text) <==> carried_text(text) == text,
    decreases text.len(),
{
    let kept = carried_text(text);
    if text.len() == 0 {
        assert(kept =~= text);
    } else if text[0] == '\0' {
        assert(kept =~= text.subrange(0, 0));
        assert(text.contains('\0'));
    } else {
        let rest = text.drop_first();
        let kept_rest = carried_text(rest);
        lemma_carried_text(rest);
        assert(kept =~= text.subrange(0, kept.len() as int)) by {
            assert forall|i: int| 0 <= i < kept.len() implies kept[i] == text[i] by {
                if i > 0 {
                    assert(kept[i] == kept_rest[i - 1]);
                    assert(kept_rest[i - 1] == rest.subrange(0, kept_rest.len() as int)[i - 1]);
                }
            }
        }
        if kept.contains('\0') {
            let i = choose|i: int| 0 <= i < kept.len() && kept[i] == '\0';
            assert(i > 0);
            assert(kept_rest[i - 1] == '\0');
        }
        if kept.len() < text.len() {
            assert(text[kept.len() as int] == rest[kept_rest.len() as int]);
        }
        if fits_c_string(text) {
            if rest.contains('\0') {
                let j = choose|j: int| 0 <= j < rest.len() && rest[j] == '\0';
                assert(text[j + 1] == '\0');
            }
            assert(kept =~= text);
        }
    }
    assert(fits_c_string(kept));
}

/// The encoding of what is carried of a text is the encoding of the text up
/// to its first zero byte.
pub proof fn lemma_carried_bytes(text: Seq<char>)
    ensures
        encode_utf8(carried_text(text)).len() <= encode_utf8(text).len(),
        encode_utf8(carried_text(text)) == encode_utf8(text).subrange(
            0,
            encode_utf8(carried_text(text)).len() as int,
        ),
        !encode_utf8(carried_text(text)).contains(0u8),
        encode_utf8(carried_text(text)).len() < encode_utf8(text).len() ==> encode_utf8(
            text,
        )[encode_utf8(carried_text(text)).len() as int] == 0u8,
    decreases text.len(),
{
    let kept = carried_text(text);
    let all = encode_utf8(text);
    lemma_carried_text(text);
    lemma_zero_byte_iff_nul(kept);
    if text.len() == 0 {
    } else if text[0] == '\0' {
        lemma_zero_byte_of_scalar(text[0]);
        let head = encode_scalar(text[0] as u32);
        let at = choose|i: int| 0 <= i < head.len() && head[i] == 0u8;
        assert(head.len() == 1) by {
            assert(has_width_1_encoding(text[0] as u32));
        }
        assert(all == head + encode_utf8(text.drop_first()));
        assert(all[0] == head[0]);
        assert(encode_utf8(kept).len() == 0);
    } else {
        let head = encode_scalar(text[0] as u32);
        let rest = text.drop_first();
        let kept_rest = carried_text(rest);
        lemma_carried_bytes(rest);
        assert(kept.drop_first() =~= kept_rest);
        assert(kept[0] == text[0]);
        let some = encode_utf8(kept);
        let some_rest = encode_utf8(kept_rest);
        let all_rest = encode_utf8(rest);
        assert(some == head + some_rest);
        assert(all == head + all_rest);
        assert(some =~= all.subrange(0, some.len() as int)) by {
            assert forall|i: int| 0 <= i < some.len() implies some[i] == all[i] by {
                if i >= head.len() {
                    assert(some_rest[i - head.len()] == all_rest.subrange(
                        0,
                        some_rest.len() as int,
                    )[i - head.len()]);
                }
            }
        }
        if some.len() < all.len() {
            assert(all[some.len() as int] == all_rest[some_rest.len() as int]);
        }
    }
}

/// The bytes that carry a text are a C string. Where the text holds no NUL
/// character, it can be read back from them whole.
pub proof fn lemma_c_string_bytes(text: Seq<char>)
    ensures
        is_c_string(c_string_bytes(carried_text(text))),
        decode_utf8(c_string_bytes(carried_text(text)).drop_last()) == carried_text(text),
        fits_c_string(text) ==> decode_utf8(c_string_bytes(carried_text(text)).drop_last())
            == text,
{
    let kept = carried_text(text);
    lemma_carried_text(text);
    lemma_zero_byte_iff_nul(kept);
    encode_utf8_decode_utf8(kept);
    assert(c_string_bytes(kept).drop_last() =~= encode_utf8(kept));
}

/// The C string of `text`: the bytes of the text up to its first NUL
/// character, closed by a zero byte.
pub fn c_string(text: &str) -> (out: Vec<u8>)
    ensures
        out@ == c_string_bytes(carried_text(text@)),
        is_c_string(out@),
{
    let mut bytes = text.as_bytes_vec();
    let mut end: usize = 0;
    while end < bytes.len() && bytes[end] != 0
        invariant
            end <= bytes.len(),
            bytes@ == encode_utf8(text@),
            forall|j: int| 0 <= j < end ==> bytes@[j] != 0u8,
        decreases bytes.len() - end,
    {
        end += 1;
    }
    proof {
        let kept = encode_utf8(carried_text(text@));
        lemma_carried_bytes(text@);
        lemma_c_string_bytes(text@);
        if end < kept.len() {
            assert(kept[end as int] == bytes@.subrange(0, kept.len() as int)[end as int]);
            assert(kept.contains(0u8));
        }
        assert(end == kept.len());
        assert(bytes@.subrange(0, end as int) == kept);
    }
    bytes.truncate(end);
    bytes.push(0);
    bytes
}

/// Carries `result` across the boundary: a payload as it is, an error with
/// its kind and with its message as a C string.
///
/// Every result crosses. Of a message that holds a NUL character the part
/// before the first NUL is carried.
pub fn map<T>(result: Result<T, BackendError>) -> (out: BoundaryResult<T>)
    ensures
        marshalled(result, out),
        out.wf(),
{
    match result {
        Ok(value) => BoundaryResult::Value(value),
        Err(err) => {
            let message = c_string(err.message.as_str());
            BoundaryResult::Failure(BoundaryError { kind: err.kind, message })
        },
    }
}

/// The result of an operation that yields nothing, as a result that yields a
/// zero byte: what crosses the boundary in place of "no value".
pub fn unit_as_byte(result: Result<(), BackendError>) -> (out: Result<u8, BackendError>)
    ensures
        out == unit_byte(result),
{
    match result {
        Ok(_) => Ok(0),
        Err(err) => Err(err),
    }
}

/// See [`unit_as_byte`].
pub open spec fn unit_byte(result: Result<(), BackendError>) -> Result<u8, BackendError> {
    match result {
        Ok(_) => Ok(0u8),
        Err(err) => Err(err),
    }
}

/// What crosses the boundary is well formed and loses no result: a payload
/// stays a payload, an error stays an error of the same kind, and its message
/// is a C string from which the carried text can be read back, which is the
/// whole message where that holds no NUL character.
pub proof fn lemma_marshalled_keeps_the_result<T>(
    result: Result<T, BackendError>,
    out: BoundaryResult<T>,
)
    requires
        marshalled(result, out),
    ensures
        out.wf(),
        result is Ok <==> out is Value,
        out matches BoundaryResult::Failure(carried) ==> carried.kind == result->Err_0.kind
            && decode_utf8(carried.message@.drop_last()) == carried_text(result->Err_0.message@),
        out matches BoundaryResult::Failure(carried) ==> (fits_c_string(result->Err_0.message@)
            ==> decode_utf8(carried.message@.drop_last()) == result->Err_0.message@),
{
    if let Err(err) = result {
        lemma_c_string_bytes(err.message@);
    }
}

} // verus!
