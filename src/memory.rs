//! Bounds-checked access to the guest's linear memory.
//!
//! A view of guest memory is a borrowed byte slice that lives for one call
//! only. Every access checks its byte range against the slice's current length
//! before any byte is read or written.
use vstd::prelude::*;
use vstd::bytes::{
    lemma_auto_spec_u32_to_from_le_bytes,
    lemma_auto_spec_u64_to_from_le_bytes,
    spec_u32_from_le_bytes,
    spec_u32_to_le_bytes,
    spec_u64_from_le_bytes,
    spec_u64_to_le_bytes,
    u32_from_le_bytes,
    u32_to_le_bytes,
    u64_from_le_bytes,
    u64_to_le_bytes,
};
use vstd::utf8::{decode_utf8, valid_utf8};
use crate::error::{ApiError, ApiErrorKind, ApiErrorMessage, chained};

verus! {

/// A value with a fixed, guest-independent byte layout (little-endian).
pub trait PlainOldData: Sized + Copy {
    spec fn spec_size() -> nat;

    spec fn spec_from_bytes(bytes: Seq<u8>) -> Self;

    spec fn spec_to_bytes(v: Self) -> Seq<u8>;

    /// Number of bytes the value takes in guest memory.
    fn size() -> (r: u32)
        ensures
            r as nat == Self::spec_size(),
    ;

    fn from_bytes(bytes: &[u8]) -> (r: Self)
        requires
            bytes@.len() == Self::spec_size(),
        ensures
            r == Self::spec_from_bytes(bytes@),
    ;

    fn to_bytes(&self) -> (r: Vec<u8>)
        ensures
            r@ == Self::spec_to_bytes(*self),
    ;

    proof fn lemma_round_trip(v: Self)
        ensures
            Self::spec_to_bytes(v).len() == Self::spec_size(),
            Self::spec_from_bytes(Self::spec_to_bytes(v)) == v,
    ;
}

impl PlainOldData for u32 {
    open spec fn spec_size() -> nat {
        4
    }

    open spec fn spec_from_bytes(bytes: Seq<u8>) -> u32 {
        spec_u32_from_le_bytes(bytes)
    }

    open spec fn spec_to_bytes(v: u32) -> Seq<u8> {
        spec_u32_to_le_bytes(v)
    }

    fn size() -> (r: u32) {
        4
    }

    fn from_bytes(bytes: &[u8]) -> (r: u32) {
        u32_from_le_bytes(bytes)
    }

    fn to_bytes(&self) -> (r: Vec<u8>) {
        u32_to_le_bytes(*self)
    }

    proof fn lemma_round_trip(v: u32) {
        lemma_auto_spec_u32_to_from_le_bytes();
        assert(spec_u32_to_le_bytes(v).len() == 4);
    }
}

impl PlainOldData for u64 {
    open spec fn spec_size() -> nat {
        8
    }

    open spec fn spec_from_bytes(bytes: Seq<u8>) -> u64 {
        spec_u64_from_le_bytes(bytes)
    }

    open spec fn spec_to_bytes(v: u64) -> Seq<u8> {
        spec_u64_to_le_bytes(v)
    }

    fn size() -> (r: u32) {
        8
    }

    fn from_bytes(bytes: &[u8]) -> (r: u64) {
        u64_from_le_bytes(bytes)
    }

    fn to_bytes(&self) -> (r: Vec<u8>) {
        u64_to_le_bytes(*self)
    }

    proof fn lemma_round_trip(v: u64) {
        lemma_auto_spec_u64_to_from_le_bytes();
        assert(spec_u64_to_le_bytes(v).len() == 8);
    }
}

/// Whether `[ptr, ptr + n)` lies inside a buffer of `len` bytes.
pub open spec fn in_bounds(len: nat, ptr: u32, n: nat) -> bool {
    ptr as int + n <= len
}

/// The bytes of `mem` in `[ptr, ptr + n)`.
pub open spec fn span(mem: Seq<u8>, ptr: u32, n: nat) -> Seq<u8> {
    mem.subrange(ptr as int, ptr as int + n)
}

/// `mem` with `bytes` written from `ptr` on.
pub open spec fn overwritten(mem: Seq<u8>, ptr: u32, bytes: Seq<u8>) -> Seq<u8> {
    mem.subrange(0, ptr as int) + bytes + mem.subrange(ptr as int + bytes.len(), mem.len() as int)
}

/// The value of type `T` stored at `ptr`, if it lies inside `mem`.
pub open spec fn scalar_at<T: PlainOldData>(mem: Seq<u8>, ptr: u32) -> Option<T> {
    if in_bounds(mem.len(), ptr, T::spec_size()) {
        Some(T::spec_from_bytes(span(mem, ptr, T::spec_size())))
    } else {
        None
    }
}

/// The `count` values of type `T` stored from `ptr` on, if they lie inside `mem`.
pub open spec fn slice_at<T: PlainOldData>(mem: Seq<u8>, ptr: u32, count: u32) -> Option<Seq<T>> {
    if in_bounds(mem.len(), ptr, count as nat * T::spec_size()) {
        Some(
            Seq::new(
                count as nat,
                |i: int| T::spec_from_bytes(mem.subrange(ptr + i * T::spec_size(), ptr + (i + 1) * T::spec_size())),
            ),
        )
    } else {
        None
    }
}

/// The text encoded in `[ptr, ptr + len)`, if that range lies inside `mem`
/// and holds valid UTF-8.
pub open spec fn text_at(mem: Seq<u8>, ptr: u32, len: u32) -> Option<Seq<char>> {
    if in_bounds(mem.len(), ptr, len as nat) && valid_utf8(span(mem, ptr, len as nat)) {
        Some(decode_utf8(span(mem, ptr, len as nat)))
    } else {
        None
    }
}

pub open spec fn spec_out_of_bounds_text() -> Seq<char> {
    "guest memory access out of bounds"@
}

fn out_of_bounds() -> (r: ApiError)
    ensures
        r.kind == ApiErrorKind::InvalidArguments,
        r.message.spec_text() == spec_out_of_bounds_text(),
{
    ApiError::invalid_arguments("guest memory access out of bounds")
}

/// Reads a value of type `T` at `ptr`.
pub fn read_scalar<T: PlainOldData>(mem: &[u8], ptr: u32) -> (r: Result<T, ApiError>)
    ensures
        match scalar_at::<T>(mem@, ptr) {
            Some(v) => r == Ok::<T, ApiError>(v),
            None => r is Err && r->Err_0.kind == ApiErrorKind::InvalidArguments,
        },
{
    let size = T::size();
    let end: u64 = ptr as u64 + size as u64;
    if end > mem.len() as u64 {
        return Err(out_of_bounds());
    }
    let bytes = vstd::slice::slice_subrange(mem, ptr as usize, end as usize);
    Ok(T::from_bytes(bytes))
}

/// Writes `value` at `ptr`, leaving every other byte as it was.
pub fn write_scalar<T: PlainOldData>(mem: &mut [u8], ptr: u32, value: T) -> (r: Result<(), ApiError>)
    ensures
        in_bounds(old(mem)@.len(), ptr, T::spec_size()) ==> r is Ok && final(mem)@ == overwritten(
            old(mem)@,
            ptr,
            T::spec_to_bytes(value),
        ),
        !in_bounds(old(mem)@.len(), ptr, T::spec_size()) ==> r is Err && r->Err_0.kind
            == ApiErrorKind::InvalidArguments && final(mem)@ == old(mem)@,
{
    let size = T::size();
    let end: u64 = ptr as u64 + size as u64;
    let mem_len = mem.len();
    if end > mem_len as u64 {
        return Err(out_of_bounds());
    }
    let bytes = value.to_bytes();
    proof {
        T::lemma_round_trip(value);
    }
    let start = ptr as usize;
    let mut i: usize = 0;
    while i < bytes.len()
        invariant
            bytes@.len() == T::spec_size(),
            start as int + bytes@.len() <= mem@.len(),
            mem@.len() == old(mem)@.len(),
            mem_len == mem@.len(),
            start == ptr,
            i <= bytes@.len(),
            mem@ == overwritten(old(mem)@, ptr, bytes@.subrange(0, i as int)),
        decreases bytes@.len() - i,
    {
        mem[start + i] = bytes[i];
        i = i + 1;
    }
    proof {
        assert(bytes@.subrange(0, i as int) == bytes@);
    }
    Ok(())
}

/// Reads `count` consecutive values of type `T` starting at `ptr`.
pub fn read_slice<T: PlainOldData>(mem: &[u8], ptr: u32, count: u32) -> (r: Result<Vec<T>, ApiError>)
    ensures
        match slice_at::<T>(mem@, ptr, count) {
            Some(vs) => r is Ok && r->Ok_0@ == vs,
            None => r is Err && r->Err_0.kind == ApiErrorKind::InvalidArguments,
        },
{
    let size = T::size();
    proof {
        assert((count as nat) * (size as nat) <= 0xffff_ffff * 0xffff_ffff) by (nonlinear_arith)
            requires
                count <= 0xffff_ffff,
                size <= 0xffff_ffff,
        ;
    }
    let total: u64 = count as u64 * size as u64;
    let end: u64 = ptr as u64 + total;
    let mem_len = mem.len();
    if end > mem_len as u64 {
        return Err(out_of_bounds());
    }
    let mut out: Vec<T> = Vec::new();
    let mut i: u32 = 0;
    let mut at: u64 = ptr as u64;
    while i < count
        invariant
            size as nat == T::spec_size(),
            total == count as nat * size as nat,
            end == ptr as nat + total,
            end <= mem@.len(),
            mem_len == mem@.len(),
            i <= count,
            at == ptr as nat + i as nat * size as nat,
            out@.len() == i,
            forall|j: int|
                0 <= j < i ==> #[trigger] out@[j] == T::spec_from_bytes(
                    mem@.subrange(ptr + j * T::spec_size(), ptr + (j + 1) * T::spec_size()),
                ),
        decreases count - i,
    {
        proof {
            assert(i as nat * size as nat + size as nat <= count as nat * size as nat) by (nonlinear_arith)
                requires
                    i < count,
            ;
            assert((i + 1) * (size as int) == i * (size as int) + size) by (nonlinear_arith);
        }
        let next: u64 = at + size as u64;
        let bytes = vstd::slice::slice_subrange(mem, at as usize, next as usize);
        out.push(T::from_bytes(bytes));
        at = next;
        i = i + 1;
    }
    proof {
        let vs = slice_at::<T>(mem@, ptr, count).unwrap();
        assert(out@ == vs);
    }
    Ok(out)
}

/// The diagnostic that std's UTF-8 decoder gives for invalid bytes; it
/// depends on the bytes alone (where the first invalid sequence starts and
/// how long it is).
pub uninterp spec fn utf8_error_text(bytes: Seq<u8>) -> Seq<char>;

/// Relies on std::str::from_utf8: it succeeds exactly on valid UTF-8 and then
/// holds the decoded text; otherwise its error's rendering is the diagnostic.
#[verifier::external_body]
fn utf8_from_bytes(bytes: &[u8]) -> (r: Result<String, String>)
    ensures
        r is Ok <==> valid_utf8(bytes@),
        r is Ok ==> r->Ok_0@ == decode_utf8(bytes@),
        r is Err ==> r->Err_0@ == utf8_error_text(bytes@),
{
    match std::str::from_utf8(bytes) {
        Ok(s) => Ok(s.to_string()),
        Err(e) => Err(e.to_string()),
    }
}

pub open spec fn spec_invalid_text_context() -> Seq<char> {
    "guest text is not valid UTF-8"@
}

/// The error for guest text that is not valid UTF-8, carrying the decoder's
/// diagnostic.
pub fn invalid_text(diagnostic: String) -> (r: ApiError)
    ensures
        r.kind == ApiErrorKind::InvalidArguments,
        r.message.spec_text() == chained(spec_invalid_text_context(), diagnostic@),
{
    ApiError::new(ApiErrorKind::InvalidArguments, ApiErrorMessage::from(diagnostic)).context(
        "guest text is not valid UTF-8",
    )
}

/// Reads `len` bytes at `ptr` and decodes them as UTF-8 text.
pub fn read_utf8(mem: &[u8], ptr: u32, len: u32) -> (r: Result<String, ApiError>)
    ensures
        match text_at(mem@, ptr, len) {
            Some(t) => r is Ok && r->Ok_0@ == t,
            None => r is Err && r->Err_0.kind == ApiErrorKind::InvalidArguments,
        },
        !in_bounds(mem@.len(), ptr, len as nat) ==> r is Err && r->Err_0.message.spec_text()
            == spec_out_of_bounds_text(),
        in_bounds(mem@.len(), ptr, len as nat) && !valid_utf8(span(mem@, ptr, len as nat)) ==> r is Err
            && r->Err_0.message.spec_text() == chained(
            spec_invalid_text_context(),
            utf8_error_text(span(mem@, ptr, len as nat)),
        ),
{
    let end: u64 = ptr as u64 + len as u64;
    if end > mem.len() as u64 {
        return Err(out_of_bounds());
    }
    let bytes = vstd::slice::slice_subrange(mem, ptr as usize, end as usize);
    match utf8_from_bytes(bytes) {
        Ok(s) => Ok(s),
        Err(diagnostic) => Err(invalid_text(diagnostic)),
    }
}

/// Writing a value and reading it back at the same place gives the value.
pub proof fn lemma_write_then_read<T: PlainOldData>(mem: Seq<u8>, ptr: u32, v: T)
    requires
        in_bounds(mem.len(), ptr, T::spec_size()),
    ensures
        scalar_at::<T>(overwritten(mem, ptr, T::spec_to_bytes(v)), ptr) == Some(v),
{
    T::lemma_round_trip(v);
    let bytes = T::spec_to_bytes(v);
    let after = overwritten(mem, ptr, bytes);
    assert(span(after, ptr, T::spec_size()) == bytes);
}

} // verus!
