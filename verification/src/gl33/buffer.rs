//! Linear GPU memory: allocation, scoped mapping and bounds-checked transfer.
//!
//! A buffer is a driver handle and a fixed size in bytes. Its memory is
//! reached only while the buffer is mapped; the transfer functions take the
//! mapped block as a byte slice of exactly that size.

use vstd::prelude::*;
use crate::call::Call;
use crate::glenum;

verus! {

/// A GPU-resident block of `bytes` bytes.
#[derive(Clone, Copy, Debug, PartialEq, Eq, Structural)]
pub struct GLBuffer {
    pub handle: u32,
    pub bytes: usize,
}

/// Why a transfer did not go through as asked.
#[derive(Clone, Copy, Debug, PartialEq, Eq, Structural)]
pub enum BufferError {
    /// The access lies outside the buffer; nothing was transferred.
    Overflow,
    /// Fewer bytes were supplied than the buffer holds; all were written.
    TooFewValues,
    /// More bytes were supplied than the buffer holds; the rest was dropped.
    TooManyValues,
}

/// Calls that give the buffer `handle` a store of `size` bytes and leave no
/// buffer bound.
pub open spec fn allocation(handle: u32, size: usize) -> Seq<Call> {
    seq![
        Call::BindBuffer { target: glenum::ARRAY_BUFFER, buffer: handle },
        Call::BufferData { target: glenum::ARRAY_BUFFER, bytes: size, usage: glenum::STREAM_DRAW },
        Call::BindBuffer { target: glenum::ARRAY_BUFFER, buffer: 0 },
    ]
}

/// Calls that bind the buffer `handle` and map it with `access`.
pub open spec fn acquisition(handle: u32, access: u32) -> Seq<Call> {
    seq![
        Call::BindBuffer { target: glenum::ARRAY_BUFFER, buffer: handle },
        Call::MapBuffer { target: glenum::ARRAY_BUFFER, access },
    ]
}

/// Calls that end a mapping and leave no buffer bound.
pub open spec fn release() -> Seq<Call> {
    seq![
        Call::UnmapBuffer { target: glenum::ARRAY_BUFFER },
        Call::BindBuffer { target: glenum::ARRAY_BUFFER, buffer: 0 },
    ]
}

/// Number of bytes that a whole-buffer transfer of `supplied` bytes moves in
/// a buffer of `bytes` bytes: as many as both hold.
pub open spec fn transferred(bytes: nat, supplied: nat) -> nat {
    if supplied <= bytes {
        supplied
    } else {
        bytes
    }
}

/// Whether `len` bytes at `off` lie inside a buffer of `bytes` bytes, with
/// `off` itself inside it.
pub open spec fn in_bounds(bytes: nat, off: nat, len: nat) -> bool {
    off < bytes && off + len <= bytes
}

/// The memory of a buffer after a whole-buffer write of `values`: the values
/// that fit, then the bytes that the write did not reach.
pub open spec fn whole_written(memory: Seq<u8>, values: Seq<u8>) -> Seq<u8> {
    values.take(transferred(memory.len(), values.len()) as int) + memory.skip(
        transferred(memory.len(), values.len()) as int,
    )
}

/// What a whole-buffer write of `supplied` bytes reports.
pub open spec fn whole_outcome(bytes: nat, supplied: nat) -> Result<(), BufferError> {
    if supplied < bytes {
        Err(BufferError::TooFewValues)
    } else if supplied > bytes {
        Err(BufferError::TooManyValues)
    } else {
        Ok(())
    }
}

/// The memory of a buffer after a write of `value` at `off`: the value in
/// place where it lies in bounds, else the memory as it was.
pub open spec fn written(memory: Seq<u8>, off: nat, value: Seq<u8>) -> Seq<u8> {
    if in_bounds(memory.len(), off, value.len()) {
        memory.take(off as int) + value + memory.skip((off + value.len()) as int)
    } else {
        memory
    }
}

/// What a whole-buffer read of `nb` bytes returns.
pub open spec fn whole_read(memory: Seq<u8>, nb: nat) -> Seq<u8> {
    memory.take(transferred(memory.len(), nb) as int)
}

/// Describes a buffer of `size` bytes on the fresh handle `handle`, and the
/// calls that allocate it.
pub fn new(handle: u32, size: usize) -> (r: (GLBuffer, Vec<Call>))
    ensures
        r.0 == (GLBuffer { handle, bytes: size }),
        r.1@ == allocation(handle, size),
{
    let calls = vec![
        Call::BindBuffer { target: glenum::ARRAY_BUFFER, buffer: handle },
        Call::BufferData { target: glenum::ARRAY_BUFFER, bytes: size, usage: glenum::STREAM_DRAW },
        Call::BindBuffer { target: glenum::ARRAY_BUFFER, buffer: 0 },
    ];
    (GLBuffer { handle, bytes: size }, calls)
}

/// The call that releases the buffer's handle.
pub fn free(buffer: &GLBuffer) -> (calls: Vec<Call>)
    ensures
        calls@ == seq![Call::DeleteBuffer { buffer: buffer.handle }],
{
    vec![Call::DeleteBuffer { buffer: buffer.handle }]
}

/// Calls that open a scoped access to the buffer's memory.
pub fn acquire(buffer: &GLBuffer, access: u32) -> (calls: Vec<Call>)
    ensures
        calls@ == acquisition(buffer.handle, access),
{
    vec![
        Call::BindBuffer { target: glenum::ARRAY_BUFFER, buffer: buffer.handle },
        Call::MapBuffer { target: glenum::ARRAY_BUFFER, access },
    ]
}

/// Calls that close a scoped access opened by [`acquire`].
pub fn relinquish() -> (calls: Vec<Call>)
    ensures
        calls@ == release(),
{
    vec![
        Call::UnmapBuffer { target: glenum::ARRAY_BUFFER },
        Call::BindBuffer { target: glenum::ARRAY_BUFFER, buffer: 0 },
    ]
}

/// Calls that map the buffer for reading; the mapping lasts until [`unmap`].
pub fn map(buffer: &GLBuffer) -> (calls: Vec<Call>)
    ensures
        calls@ == acquisition(buffer.handle, glenum::READ_ONLY),
{
    acquire(buffer, glenum::READ_ONLY)
}

/// Calls that map the buffer for reading and writing; the mapping lasts until
/// [`unmap`].
pub fn map_mut(buffer: &GLBuffer) -> (calls: Vec<Call>)
    ensures
        calls@ == acquisition(buffer.handle, glenum::READ_WRITE),
{
    acquire(buffer, glenum::READ_WRITE)
}

/// Calls that end a mapping made by [`map`] or [`map_mut`]. The buffer is bound
/// again first, so that it is this buffer that is unmapped; it stays bound.
pub fn unmap(buffer: &GLBuffer) -> (calls: Vec<Call>)
    ensures
        calls@ == seq![
            Call::BindBuffer { target: glenum::ARRAY_BUFFER, buffer: buffer.handle },
            Call::UnmapBuffer { target: glenum::ARRAY_BUFFER },
        ],
{
    vec![
        Call::BindBuffer { target: glenum::ARRAY_BUFFER, buffer: buffer.handle },
        Call::UnmapBuffer { target: glenum::ARRAY_BUFFER },
    ]
}

/// Writes `values` at the start of the mapped block `memory`.
///
/// As many bytes are written as both hold. A shortfall is reported as
/// `TooFewValues` and an excess as `TooManyValues`; either way the write has
/// taken place, and bytes beyond it keep their value.
pub fn write_whole(buffer: &GLBuffer, memory: &mut [u8], values: &[u8]) -> (r: Result<
    (),
    BufferError,
>)
    requires
        old(memory)@.len() == buffer.bytes,
    ensures
        final(memory)@.len() == buffer.bytes,
        final(memory)@ == whole_written(old(memory)@, values@),
        r == whole_outcome(buffer.bytes as nat, values@.len()),
{
    let supplied = values.len();
    let (warning, bytes) = if supplied < buffer.bytes {
        (Some(BufferError::TooFewValues), supplied)
    } else if supplied > buffer.bytes {
        (Some(BufferError::TooManyValues), buffer.bytes)
    } else {
        (None, supplied)
    };
    let ghost before = memory@;
    let mut i: usize = 0;
    while i < bytes
        invariant
            i <= bytes,
            bytes <= values@.len(),
            bytes <= buffer.bytes,
            memory@.len() == buffer.bytes,
            before.len() == buffer.bytes,
            memory@ == values@.take(i as int) + before.skip(i as int),
        decreases bytes - i,
    {
        memory[i] = values[i];
        i += 1;
        assert(memory@ =~= values@.take(i as int) + before.skip(i as int));
    }
    match warning {
        Some(w) => Err(w),
        None => Ok(()),
    }
}

/// Whether `len` bytes at byte offset `off` lie inside the buffer. An access
/// that does not is refused before the buffer is mapped.
pub fn contains(buffer: &GLBuffer, off: usize, len: usize) -> (yes: bool)
    ensures
        yes == in_bounds(buffer.bytes as nat, off as nat, len as nat),
{
    off < buffer.bytes && len <= buffer.bytes - off
}

/// Writes `value` into the mapped block `memory` at byte offset `off`.
///
/// Fails with `Overflow`, leaving the memory as it was, when `off` is not
/// inside the buffer or the value would reach past its end.
pub fn write(buffer: &GLBuffer, memory: &mut [u8], off: usize, value: &[u8]) -> (r: Result<
    (),
    BufferError,
>)
    requires
        old(memory)@.len() == buffer.bytes,
    ensures
        final(memory)@.len() == buffer.bytes,
        final(memory)@ == written(old(memory)@, off as nat, value@),
        r == (if in_bounds(buffer.bytes as nat, off as nat, value@.len()) {
            Ok::<(), BufferError>(())
        } else {
            Err::<(), BufferError>(BufferError::Overflow)
        }),
{
    if !contains(buffer, off, value.len()) {
        return Err(BufferError::Overflow);
    }
    let ghost before = memory@;
    let len = value.len();
    let mut i: usize = 0;
    while i < len
        invariant
            i <= len,
            len == value@.len(),
            off + len <= buffer.bytes,
            memory@.len() == buffer.bytes,
            before.len() == buffer.bytes,
            memory@ == before.take(off as int) + value@.take(i as int) + before.skip(off + i),
        decreases len - i,
    {
        memory[off + i] = value[i];
        i += 1;
        assert(memory@ =~= before.take(off as int) + value@.take(i as int) + before.skip(
            off + i,
        ));
    }
    assert(value@.take(len as int) =~= value@);
    Ok(())
}

/// Reads the first `nb` bytes of the mapped block `memory`, or all of it
/// where it holds fewer.
pub fn read_whole(buffer: &GLBuffer, memory: &[u8], nb: usize) -> (values: Vec<u8>)
    requires
        memory@.len() == buffer.bytes,
    ensures
        values@ == whole_read(memory@, nb as nat),
{
    let bytes = if nb <= buffer.bytes {
        nb
    } else {
        buffer.bytes
    };
    let mut values: Vec<u8> = Vec::with_capacity(bytes);
    let mut i: usize = 0;
    while i < bytes
        invariant
            i <= bytes,
            bytes <= memory@.len(),
            values@ == memory@.take(i as int),
        decreases bytes - i,
    {
        values.push(memory[i]);
        i += 1;
        assert(values@ =~= memory@.take(i as int));
    }
    values
}

/// Reads `len` bytes of the mapped block `memory` at byte offset `off`, or
/// nothing where `off` is not inside the buffer or the range would reach past
/// its end.
pub fn read(buffer: &GLBuffer, memory: &[u8], off: usize, len: usize) -> (value: Option<Vec<u8>>)
    requires
        memory@.len() == buffer.bytes,
    ensures
        in_bounds(buffer.bytes as nat, off as nat, len as nat) ==> value.is_some()
            && value.unwrap()@ == memory@.subrange(off as int, off + len),
        !in_bounds(buffer.bytes as nat, off as nat, len as nat) ==> value.is_none(),
{
    if !contains(buffer, off, len) {
        return None;
    }
    let mut bytes: Vec<u8> = Vec::with_capacity(len);
    let mut i: usize = 0;
    while i < len
        invariant
            i <= len,
            off + len <= memory@.len(),
            memory@.len() == buffer.bytes,
            bytes@ == memory@.subrange(off as int, off + i),
        decreases len - i,
    {
        bytes.push(memory[off + i]);
        i += 1;
        assert(bytes@ =~= memory@.subrange(off as int, off + i));
    }
    Some(bytes)
}

/// A whole-buffer write of fewer bytes than the buffer holds puts them at its
/// start, leaves the rest alone and reports the shortfall; one of more bytes
/// fills the buffer with the first of them and reports the excess; one of as
/// many bytes replaces the content and reports nothing.
pub proof fn lemma_write_whole_cases(memory: Seq<u8>, values: Seq<u8>)
    ensures
        whole_written(memory, values).len() == memory.len(),
        values.len() < memory.len() ==> whole_written(memory, values).take(values.len() as int)
            == values && whole_written(memory, values).skip(values.len() as int) == memory.skip(
            values.len() as int,
        ) && whole_outcome(memory.len(), values.len()) == Err::<(), BufferError>(
            BufferError::TooFewValues,
        ),
        values.len() > memory.len() ==> whole_written(memory, values) == values.take(
            memory.len() as int,
        ) && whole_outcome(memory.len(), values.len()) == Err::<(), BufferError>(
            BufferError::TooManyValues,
        ),
        values.len() == memory.len() ==> whole_written(memory, values) == values && whole_outcome(
            memory.len(),
            values.len(),
        ) == Ok::<(), BufferError>(()),
{
    let after = whole_written(memory, values);
    if values.len() < memory.len() {
        assert(after.take(values.len() as int) =~= values);
        assert(after.skip(values.len() as int) =~= memory.skip(values.len() as int));
    } else if values.len() > memory.len() {
        assert(after =~= values.take(memory.len() as int));
    } else {
        assert(after =~= values);
    }
}

/// A write at or past the end of a buffer changes nothing: the memory is as
/// it was, and so is every whole-buffer read of it.
pub proof fn lemma_overflowing_write_changes_nothing(
    memory: Seq<u8>,
    off: nat,
    value: Seq<u8>,
    nb: nat,
)
    requires
        off >= memory.len(),
    ensures
        !in_bounds(memory.len(), off, value.len()),
        written(memory, off, value) == memory,
        whole_read(written(memory, off, value), nb) == whole_read(memory, nb),
{
}

/// A write in bounds is read back by a read of the same range, and a
/// whole-buffer write is read back by a whole-buffer read of what it moved.
pub proof fn lemma_read_after_write(memory: Seq<u8>, off: nat, value: Seq<u8>, values: Seq<u8>)
    ensures
        in_bounds(memory.len(), off, value.len()) ==> written(memory, off, value).subrange(
            off as int,
            (off + value.len()) as int,
        ) == value,
        whole_read(whole_written(memory, values), values.len()) == values.take(
            transferred(memory.len(), values.len()) as int,
        ),
{
    if in_bounds(memory.len(), off, value.len()) {
        assert(written(memory, off, value).subrange(off as int, (off + value.len()) as int) =~= value);
    }
    let k = transferred(memory.len(), values.len());
    assert(whole_written(memory, values).len() == memory.len());
    assert(whole_read(whole_written(memory, values), values.len()) =~= values.take(k as int));
}

} // verus!
