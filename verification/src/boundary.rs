//! The rules of the call boundary: which arguments are accepted, how text
//! arrives, and the two-phase protocol by which a caller reads a value of a
//! length that it does not know beforehand.

use vstd::prelude::*;
use vstd::slice::slice_subrange;
use crate::error::SessionError;
use crate::state::{Handle, PendingRead, PluginState, StateView, valid};
use crate::text::{from_utf16_lossy, lowercase_of, to_lowercase, utf16_lossy_text};
use crate::text_map::{inserted, inserted_then_lookup, lookup, removed, removed_then_lookup};

verus! {

/// The length of an argument that is there and holds something.
pub open spec fn accepted_length(present: bool, len: i32) -> Result<usize, SessionError> {
    if present && len > 0 {
        Ok(len as usize)
    } else {
        Err(SessionError::MalformedInput)
    }
}

/// Checks an argument that crosses the boundary as a pointer and a length: a
/// missing pointer or a length that is not positive is malformed.
pub fn checked_length(present: bool, len: i32) -> (r: Result<usize, SessionError>)
    ensures
        r == accepted_length(present, len),
{
    if present && len > 0 {
        Ok(len as usize)
    } else {
        Err(SessionError::MalformedInput)
    }
}

/// The number of units before the first zero unit, or the whole length where
/// there is none.
pub open spec fn first_nul(units: Seq<u16>) -> int
    decreases units.len(),
{
    if units.len() == 0 || units[0] == 0 {
        0
    } else {
        1 + first_nul(units.drop_first())
    }
}

/// `first_nul` is the one position with no zero unit before it that is the
/// end or holds a zero unit.
pub proof fn first_nul_is_unique(units: Seq<u16>, n: int)
    requires
        0 <= n <= units.len(),
        forall|i: int| 0 <= i < n ==> units[i] != 0,
        n < units.len() ==> units[n] == 0,
    ensures
        first_nul(units) == n,
    decreases units.len(),
{
    if units.len() == 0 || units[0] == 0 {
    } else {
        let rest = units.drop_first();
        assert forall|i: int| 0 <= i < n - 1 implies rest[i] != 0 by {
            assert(rest[i] == units[i + 1]);
        }
        first_nul_is_unique(rest, n - 1);
    }
}

/// Counts the units before the first zero unit.
pub fn name_units(units: &[u16]) -> (n: usize)
    ensures
        n == first_nul(units@),
        n <= units@.len(),
{
    let mut n: usize = 0;
    while n < units.len() && units[n] != 0
        invariant
            n <= units@.len(),
            forall|i: int| 0 <= i < n ==> units@[i] != 0,
        decreases units@.len() - n,
    {
        n = n + 1;
    }
    proof {
        first_nul_is_unique(units@, n as int);
    }
    n
}

/// Decodes a device name: the text of the units before the first zero unit.
pub fn device_name_of(units: &[u16]) -> (name: String)
    ensures
        name@ == utf16_lossy_text(units@.subrange(0, first_nul(units@))),
{
    let n = name_units(units);
    from_utf16_lossy(slice_subrange(units, 0, n))
}

/// Decodes text that crosses the boundary as UTF-16 units with a length: the
/// text of all the units.
pub fn text_of(units: &[u16]) -> (text: String)
    ensures
        text@ == utf16_lossy_text(units@),
{
    from_utf16_lossy(units)
}

/// Decodes an identifier and brings it to its canonical form: the lower-case
/// form of the text of all the units.
pub fn identifier_of(units: &[u16]) -> (key: String)
    ensures
        key@ == lowercase_of(utf16_lossy_text(units@)),
{
    let text = from_utf16_lossy(units);
    to_lowercase(text.as_str())
}

/// The arguments of a write that were accepted: the lengths of the
/// identifier and of the data.
#[derive(Clone, Copy, Debug, PartialEq, Eq, Structural)]
pub struct WriteRequest {
    pub uuid_len: usize,
    pub data_len: usize,
}

/// The answer of `write_request`.
pub open spec fn accepted_write(uuid_present: bool, uuid_len: i32, data_present: bool, data_len: i32)
    -> Result<WriteRequest, SessionError> {
    if uuid_present && uuid_len > 0 && data_present && data_len > 0 {
        Ok(WriteRequest { uuid_len: uuid_len as usize, data_len: data_len as usize })
    } else {
        Err(SessionError::MalformedInput)
    }
}

/// Checks the arguments of a write: the identifier and the data must both be
/// there and hold something.
pub fn write_request(uuid_present: bool, uuid_len: i32, data_present: bool, data_len: i32) -> (r:
    Result<WriteRequest, SessionError>)
    ensures
        r == accepted_write(uuid_present, uuid_len, data_present, data_len),
{
    if uuid_present && uuid_len > 0 && data_present && data_len > 0 {
        Ok(WriteRequest { uuid_len: uuid_len as usize, data_len: data_len as usize })
    } else {
        Err(SessionError::MalformedInput)
    }
}

/// Checks the arguments of a write in chunks. The chunk size plays no part:
/// the data goes out as one write.
pub fn write_chunk_request(
    uuid_present: bool,
    uuid_len: i32,
    data_present: bool,
    data_len: i32,
    chunk_size: i32,
) -> (r: Result<WriteRequest, SessionError>)
    ensures
        r == accepted_write(uuid_present, uuid_len, data_present, data_len),
{
    write_request(uuid_present, uuid_len, data_present, data_len)
}

/// The arguments of a read that were accepted: the length of the identifier
/// and the length that the caller asked for. Zero asks for the size alone.
#[derive(Clone, Copy, Debug, PartialEq, Eq, Structural)]
pub struct ReadRequest {
    pub uuid_len: usize,
    pub requested: usize,
}

/// The answer of `read_request`. The buffer is given by its address, zero for
/// none; `out_len` is what the length argument points to, if it points to
/// anything.
pub open spec fn accepted_read(
    uuid_present: bool,
    uuid_len: i32,
    out_len: Option<i32>,
    buffer: usize,
) -> Result<ReadRequest, SessionError> {
    if !uuid_present || uuid_len <= 0 || out_len is None {
        Err(SessionError::MalformedInput)
    } else if out_len->0 < 0 {
        Err(SessionError::MalformedInput)
    } else if buffer == 0 && out_len->0 != 0 {
        Err(SessionError::MalformedInput)
    } else {
        Ok(ReadRequest { uuid_len: uuid_len as usize, requested: out_len->0 as usize })
    }
}

/// Checks the arguments of a read: the identifier and the length argument
/// must be there, the length asked for must not be negative, and only a size
/// probe, which asks for the length zero, may come without a buffer.
pub fn read_request(uuid_present: bool, uuid_len: i32, out_len: Option<i32>, buffer: usize) -> (r:
    Result<ReadRequest, SessionError>)
    ensures
        r == accepted_read(uuid_present, uuid_len, out_len, buffer),
{
    if !uuid_present || uuid_len <= 0 {
        return Err(SessionError::MalformedInput);
    }
    match out_len {
        None => Err(SessionError::MalformedInput),
        Some(requested) => {
            if requested < 0 || (buffer == 0 && requested != 0) {
                Err(SessionError::MalformedInput)
            } else {
                Ok(ReadRequest { uuid_len: uuid_len as usize, requested: requested as usize })
            }
        },
    }
}

/// What a read asks of the caller next.
#[derive(Debug, PartialEq, Eq)]
pub enum ReadStep {
    /// A size probe: read from this characteristic and hand the bytes to
    /// `read_probed`.
    Probe(Handle),
    /// Nothing is kept for the identifier: read from this characteristic and
    /// deliver those bytes.
    Fetch(Handle),
    /// The bytes that the last size probe kept: deliver them.
    Deliver(PendingRead),
}

/// The next step of a read of the canonical identifier `key`. A read of an
/// identifier under which no characteristic is discovered fails, whatever is
/// kept for it.
pub open spec fn read_step(s: StateView, key: Seq<char>, requested: usize) -> Result<
    ReadStep,
    SessionError,
> {
    match lookup(s.characteristics, key) {
        None => Err(SessionError::CharacteristicNotFound),
        Some(characteristic) => {
            if requested == 0 {
                Ok(ReadStep::Probe(characteristic))
            } else {
                match lookup(s.pending_reads, key) {
                    Some(pending) => Ok(ReadStep::Deliver(pending)),
                    None => Ok(ReadStep::Fetch(characteristic)),
                }
            }
        },
    }
}

/// The state after a read of `key` took its step: every read, a probe too and
/// a failing one too, uses up what was kept for the identifier.
pub open spec fn read_state(s: StateView, key: Seq<char>) -> StateView {
    StateView { pending_reads: removed(s.pending_reads, key), ..s }
}

/// Begins a read of the canonical identifier `key`. It fails where no
/// characteristic is discovered under the identifier. A requested length of
/// zero is a size probe. Any other read takes the bytes that a probe kept for
/// the identifier; where none are kept the bytes come fresh from the
/// transport. Whatever the answer, nothing is kept for the identifier
/// afterwards.
pub fn begin_read(state: &mut PluginState, key: &str, requested: usize) -> (step: Result<
    ReadStep,
    SessionError,
>)
    ensures
        step == read_step(old(state)@, key@, requested),
        final(state)@ == read_state(old(state)@, key@),
        valid(final(state)@),
{
    state.validity();
    let kept = state.pending_reads.remove(key);
    match state.characteristics.get(key) {
        None => Err(SessionError::CharacteristicNotFound),
        Some(characteristic) => {
            if requested == 0 {
                Ok(ReadStep::Probe(*characteristic))
            } else {
                match kept {
                    Some(pending) => Ok(ReadStep::Deliver(pending)),
                    None => Ok(ReadStep::Fetch(*characteristic)),
                }
            }
        },
    }
}

/// The state after a size probe of `key` read `data` and was given `buffer`.
pub open spec fn probed_state(s: StateView, key: Seq<char>, data: Vec<u8>, buffer: usize)
    -> StateView {
    StateView { pending_reads: inserted(s.pending_reads, key, PendingRead { data, buffer }), ..s }
}

/// Ends a size probe: keeps the bytes for the read that follows, with the
/// address of the buffer that the probe was given, and returns their number.
/// Nothing is copied.
pub fn read_probed(state: &mut PluginState, key: String, data: Vec<u8>, buffer: usize) -> (len: i32)
    ensures
        len == data@.len() as i32,
        final(state)@ == probed_state(old(state)@, key@, data, buffer),
        valid(final(state)@),
{
    state.validity();
    let len = data.len() as i32;
    state.pending_reads.insert(key, PendingRead { data, buffer });
    len
}

/// How many bytes a read copies: all that are there, but never more than
/// were asked for.
pub open spec fn copy_length(available: nat, requested: nat) -> nat {
    if available <= requested {
        available
    } else {
        requested
    }
}

/// How the bytes of a read go to the caller.
#[derive(Clone, Copy, Debug, PartialEq, Eq, Structural)]
pub struct Delivery {
    /// The number of bytes to copy.
    pub length: usize,
    /// Whether the buffer argument holds the address of the buffer to copy
    /// into, in place of being that buffer.
    pub indirect: bool,
    /// The code to return, which is the number of bytes copied.
    pub code: i32,
}

/// The answer of `deliver_read`.
pub open spec fn delivery(
    available: usize,
    requested: usize,
    probe_buffer: Option<usize>,
    buffer: usize,
) -> Delivery {
    Delivery {
        length: copy_length(available as nat, requested as nat) as usize,
        indirect: probe_buffer == Some(buffer) && buffer != 0,
        code: copy_length(available as nat, requested as nat) as i32,
    }
}

/// Decides how `available` bytes go to a caller that asked for `requested`
/// and gave the buffer at address `buffer`. Where a size probe kept the
/// bytes, `probe_buffer` is the address that the probe was given: a caller
/// that gives the same address again, and not zero, means the place that
/// holds the buffer's address.
pub fn deliver_read(available: usize, requested: usize, probe_buffer: Option<usize>, buffer: usize)
    -> (d: Delivery)
    ensures
        d == delivery(available, requested, probe_buffer, buffer),
{
    let length: usize = if available <= requested {
        available
    } else {
        requested
    };
    let indirect = match probe_buffer {
        Some(first) => first == buffer && buffer != 0,
        None => false,
    };
    Delivery { length, indirect, code: length as i32 }
}

/// A request that was accepted asks for a length that the result code can
/// hold, so the code of a delivery is the number of bytes copied, and that
/// number is never more than was asked for nor more than there is.
pub proof fn a_delivery_stays_within_the_request(
    uuid_present: bool,
    uuid_len: i32,
    out_len: Option<i32>,
    buffer: usize,
    available: usize,
    probe_buffer: Option<usize>,
)
    requires
        accepted_read(uuid_present, uuid_len, out_len, buffer) is Ok,
    ensures
        ({
            let request = accepted_read(uuid_present, uuid_len, out_len, buffer)->Ok_0;
            let d = delivery(available, request.requested, probe_buffer, buffer);
            &&& out_len is Some
            &&& out_len->0 >= 0
            &&& request.requested == out_len->0
            &&& d.length <= request.requested
            &&& d.length <= available
            &&& d.length == available || d.length == request.requested
            &&& d.code == d.length
        }),
{
}

/// What a size probe kept lives no longer than the next read of its
/// identifier, whatever that read is and however it ends: afterwards nothing
/// is kept for the identifier, and what is kept for other identifiers stays.
pub proof fn a_read_uses_up_what_was_kept(s: StateView, key: Seq<char>, other: Seq<char>)
    requires
        valid(s),
    ensures
        valid(read_state(s, key)),
        lookup(read_state(s, key).pending_reads, key) is None,
        other != key ==> lookup(read_state(s, key).pending_reads, other) == lookup(
            s.pending_reads,
            other,
        ),
{
    removed_then_lookup(s.pending_reads, key, other);
}

/// A read of an identifier under which no characteristic is discovered
/// fails in either phase, also where a probe kept bytes for it before the
/// characteristic went away.
pub proof fn a_read_needs_a_discovered_characteristic(
    s: StateView,
    key: Seq<char>,
    requested: usize,
)
    ensures
        read_step(s, key, requested) is Err <==> lookup(s.characteristics, key) is None,
        read_step(s, key, requested) is Err ==> read_step(s, key, requested) == Err::<
            ReadStep,
            SessionError,
        >(SessionError::CharacteristicNotFound),
{
}

/// A size probe followed by a read hands over what the probe read. The probe
/// keeps the bytes and returns their number; the read that follows delivers
/// exactly them, copies as many as are there and were asked for, returns that
/// count, and uses the bytes up, so that the read after it fetches afresh.
pub proof fn probe_then_read(
    s: StateView,
    key: Seq<char>,
    characteristic: Handle,
    data: Vec<u8>,
    probe_buffer: usize,
    requested: usize,
    buffer: usize,
    next_requested: usize,
)
    requires
        valid(s),
        lookup(s.characteristics, key) == Some(characteristic),
        0 < requested <= i32::MAX,
        next_requested != 0,
    ensures
        ({
            let begun = read_state(s, key);
            let probed = probed_state(begun, key, data, probe_buffer);
            let after = read_state(probed, key);
            let d = delivery(data.len(), requested, Some(probe_buffer), buffer);
            &&& read_step(s, key, 0) == Ok::<ReadStep, SessionError>(
                ReadStep::Probe(characteristic),
            )
            &&& valid(probed)
            &&& data@.len() <= i32::MAX ==> (data@.len() as i32) == data@.len()
            &&& read_step(probed, key, requested) == Ok::<ReadStep, SessionError>(
                ReadStep::Deliver(PendingRead { data, buffer: probe_buffer }),
            )
            &&& d.length == if data@.len() <= requested {
                data@.len()
            } else {
                requested as nat
            }
            &&& d.code == d.length
            &&& valid(after)
            &&& read_step(after, key, next_requested) == Ok::<ReadStep, SessionError>(
                ReadStep::Fetch(characteristic),
            )
        }),
{
    let pending = PendingRead { data, buffer: probe_buffer };
    removed_then_lookup(s.pending_reads, key, key);
    let begun = read_state(s, key);
    inserted_then_lookup(begun.pending_reads, key, pending, key);
    let probed = probed_state(begun, key, data, probe_buffer);
    removed_then_lookup(probed.pending_reads, key, key);
}

} // verus!
