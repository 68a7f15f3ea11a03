//! The host side of the engine's WebAssembly ABI, as decisions: how one
//! request/response round trip through a guest's four exports (`memory`,
//! `alloc`, `dealloc`, `evaluate`) proceeds from each outcome the guest
//! reports. The caller performs each action on the guest and hands back
//! what happened; every buffer the round trip allocates in the guest is
//! handed back, including the request buffer after `evaluate` traps, so
//! one failing request cannot starve the ones after it.

use vstd::prelude::*;
use crate::text::concat2;

verus! {

/// The fuel budget set before each round trip when metering is on.
pub const FUEL_PER_CALL: u64 = 20_000_000_000;

/// The bytes in one WebAssembly memory page.
pub const PAGE_BYTES: u64 = 65536;

/// Where a round trip stands.
#[derive(Debug, PartialEq, Eq)]
pub enum HostState {
    /// Nothing done yet, for a request of `len` bytes.
    Start { len: usize, fuel: bool },
    /// Waiting for the fuel budget to be set.
    AwaitFuel { len: i32 },
    /// Waiting for `alloc(len)`.
    AwaitAlloc { len: i32 },
    /// Waiting for the request to be written at `ptr`.
    AwaitWrite { ptr: i32, len: i32 },
    /// Waiting for `evaluate(ptr, len)`.
    AwaitEvaluate { ptr: i32, len: i32 },
    /// Waiting for the response to be read out of guest memory.
    AwaitRead { ptr: i32, len: i32, out_ptr: i32, out_len: i32 },
    /// Waiting for the request buffer to be freed, the read's outcome kept.
    AwaitFreeRequest { ptr: i32, len: i32, out_ptr: i32, out_len: i32, read: Result<Vec<u8>, String> },
    /// Waiting for the response buffer to be freed, the read's outcome kept.
    AwaitFreeResponse { read: Result<Vec<u8>, String> },
    /// Waiting for the request buffer to be freed after `evaluate` trapped.
    AwaitFreeAfterTrap { trap: String },
    /// Waiting for the response bytes to be decoded as UTF-8.
    AwaitDecode,
    /// Finished.
    Done,
}

/// What the caller does next on the guest.
#[derive(Debug, PartialEq, Eq)]
pub enum HostAction {
    /// Set the store's fuel to the amount given.
    SetFuel(u64),
    /// Call `alloc` with the length given.
    Alloc(i32),
    /// Write the request's bytes into guest memory at the offset given.
    Write(usize),
    /// Call `evaluate(ptr, len)`.
    Evaluate(i32, i32),
    /// Read the given number of bytes out of guest memory at the offset
    /// given.
    Read(usize, usize),
    /// Call `dealloc(ptr, len)`.
    Dealloc(i32, i32),
    /// Decode the bytes as UTF-8.
    Decode(Vec<u8>),
    /// The round trip is over: the response, or why there is none.
    Finish(Result<String, String>),
}

/// What the guest reported for the last action.
#[derive(Debug, PartialEq, Eq)]
pub enum HostEvent {
    /// The action completed with nothing to report (the first event of a
    /// round trip, a fuel or write or dealloc that succeeded).
    Done,
    /// A call returned this value (`alloc`'s pointer, `evaluate`'s packed
    /// result), widened to 64 bits.
    Returned(i64),
    /// The read completed with these bytes.
    ReadBytes(Vec<u8>),
    /// The decode completed with this outcome.
    Decoded(Result<String, String>),
    /// The action failed, with the guest's or the runtime's message.
    Failed(String),
}

/// The request length as the guest ABI's `i32`, or the refusal of a
/// request of 2 GiB or more.
pub fn request_len(len: usize) -> (r: Result<i32, String>)
    ensures
        len <= i32::MAX ==> r == Ok::<i32, String>(len as i32),
        len > i32::MAX ==> (r matches Err(m) && m@ == "request larger than 2 GiB"@),
{
    if len <= 0x7FFF_FFFF {
        Ok(len as i32)
    } else {
        Err(crate::text::owned("request larger than 2 GiB"))
    }
}

/// The response pointer `evaluate`'s packed result carries: its high 32
/// bits, read as a signed number.
pub open spec fn packed_ptr(packed: i64) -> int {
    (packed as int) / 0x1_0000_0000
}

/// The response length `evaluate`'s packed result carries: its low 32
/// bits, read as a signed number.
pub open spec fn packed_len(packed: i64) -> int {
    let low = (packed as int) % 0x1_0000_0000;
    if low < 0x8000_0000 { low } else { low - 0x1_0000_0000 }
}

/// Splits `evaluate`'s packed result `(ptr << 32) | len` into `(ptr, len)`.
pub fn unpack_response(packed: i64) -> (r: (i32, i32))
    ensures
        r.0 as int == packed_ptr(packed),
        r.1 as int == packed_len(packed),
{
    let ptr = (packed >> 32u32) as i32;
    let len = (packed & 0xFFFF_FFFFi64) as i32;
    assert(((packed >> 32u32) as i32) as int == (packed as int) / 0x1_0000_0000) by (bit_vector);
    assert(((packed & 0xFFFF_FFFFi64) as i32) as int == (if (packed as int) % 0x1_0000_0000 < 0x8000_0000 {
        (packed as int) % 0x1_0000_0000
    } else {
        (packed as int) % 0x1_0000_0000 - 0x1_0000_0000
    })) by (bit_vector);
    (ptr, len)
}

/// The size in bytes of a guest memory of `pages` pages.
pub fn guest_memory_bytes(pages: u64) -> (r: u64)
    requires
        pages * PAGE_BYTES <= u64::MAX,
    ensures
        r == pages * PAGE_BYTES,
{
    pages * PAGE_BYTES
}

/// The round trip is over, failed with the message `m`.
pub open spec fn ends_in_error(r: (HostState, HostAction), m: Seq<char>) -> bool {
    &&& r.0 is Done
    &&& (r.1 matches HostAction::Finish(Err(x)) && x@ == m)
}

/// `prefix` followed by the guest's message.
fn failed(prefix: &str, message: String) -> (r: HostAction)
    ensures
        (r matches HostAction::Finish(Err(m)) && m@ == prefix@ + message@),
{
    HostAction::Finish(Err(concat2(prefix, message.as_str())))
}

/// The next state and action of a round trip, from the state it stands in
/// and what the guest reported for the last action. An event that does
/// not belong to the state ends the round trip with an error.
pub fn step(state: HostState, event: HostEvent) -> (r: (HostState, HostAction))
    ensures
        match (state, event) {
            (HostState::Start { len, fuel }, _) =>
                if len > i32::MAX {
                    ends_in_error(r, "request larger than 2 GiB"@)
                } else if fuel {
                    r.0 == HostState::AwaitFuel { len: len as i32 } && r.1 == HostAction::SetFuel(FUEL_PER_CALL)
                } else {
                    r.0 == HostState::AwaitAlloc { len: len as i32 } && r.1 == HostAction::Alloc(len as i32)
                },
            (HostState::AwaitFuel { len }, HostEvent::Done) =>
                r.0 == HostState::AwaitAlloc { len } && r.1 == HostAction::Alloc(len),
            (HostState::AwaitFuel { .. }, HostEvent::Failed(e)) =>
                ends_in_error(r, "could not set fuel: "@ + e@),
            (HostState::AwaitAlloc { len }, HostEvent::Returned(v)) =>
                r.0 == HostState::AwaitWrite { ptr: v as i32, len } && r.1 == HostAction::Write((v as i32) as usize),
            (HostState::AwaitAlloc { .. }, HostEvent::Failed(e)) =>
                ends_in_error(r, "alloc trapped: "@ + e@),
            (HostState::AwaitWrite { ptr, len }, HostEvent::Done) =>
                r.0 == HostState::AwaitEvaluate { ptr, len } && r.1 == HostAction::Evaluate(ptr, len),
            (HostState::AwaitWrite { .. }, HostEvent::Failed(e)) =>
                ends_in_error(r, "writing the request into guest memory failed: "@ + e@),
            (HostState::AwaitEvaluate { ptr, len }, HostEvent::Returned(packed)) =>
                r.0 == HostState::AwaitRead { ptr, len, out_ptr: packed_ptr(packed) as i32, out_len: packed_len(packed) as i32 }
                    && r.1 == HostAction::Read(
                        (packed_ptr(packed) as i32) as usize,
                        (if packed_len(packed) >= 0 { packed_len(packed) } else { 0 }) as usize,
                    ),
            (HostState::AwaitEvaluate { ptr, len }, HostEvent::Failed(e)) =>
                r.0 == HostState::AwaitFreeAfterTrap { trap: e } && r.1 == HostAction::Dealloc(ptr, len),
            (HostState::AwaitFreeAfterTrap { trap }, HostEvent::Done) =>
                ends_in_error(r, "evaluate trapped: "@ + trap@),
            (HostState::AwaitFreeAfterTrap { trap }, HostEvent::Failed(_)) =>
                ends_in_error(r, "evaluate trapped: "@ + trap@),
            (HostState::AwaitRead { ptr, len, out_ptr, out_len }, HostEvent::ReadBytes(bytes)) =>
                r.0 == HostState::AwaitFreeRequest { ptr, len, out_ptr, out_len, read: Ok(bytes) }
                    && r.1 == HostAction::Dealloc(ptr, len),
            (HostState::AwaitRead { ptr, len, out_ptr, out_len }, HostEvent::Failed(e)) =>
                r.0 == HostState::AwaitFreeRequest { ptr, len, out_ptr, out_len, read: Err(e) }
                    && r.1 == HostAction::Dealloc(ptr, len),
            (HostState::AwaitFreeRequest { out_ptr, out_len, read, .. }, HostEvent::Done) =>
                r.0 == HostState::AwaitFreeResponse { read } && r.1 == HostAction::Dealloc(out_ptr, out_len),
            (HostState::AwaitFreeRequest { .. }, HostEvent::Failed(e)) =>
                ends_in_error(r, "dealloc(request) trapped: "@ + e@),
            (HostState::AwaitFreeResponse { read }, HostEvent::Done) =>
                match read {
                    Ok(bytes) => r.0 is AwaitDecode && r.1 == HostAction::Decode(bytes),
                    Err(e) => ends_in_error(r, "reading the response out of guest memory failed: "@ + e@),
                },
            (HostState::AwaitFreeResponse { .. }, HostEvent::Failed(e)) =>
                ends_in_error(r, "dealloc(response) trapped: "@ + e@),
            (HostState::AwaitDecode, HostEvent::Decoded(Ok(s))) =>
                r.0 is Done && r.1 == HostAction::Finish(Ok(s)),
            (HostState::AwaitDecode, HostEvent::Decoded(Err(e))) =>
                ends_in_error(r, "engine.wasm returned non-UTF-8 bytes: "@ + e@),
            _ => ends_in_error(r, "the guest reported an outcome the round trip was not waiting for"@),
        },
{
    match (state, event) {
        (HostState::Start { len, fuel }, _) => match request_len(len) {
            Err(m) => (HostState::Done, HostAction::Finish(Err(m))),
            Ok(n) => if fuel {
                (HostState::AwaitFuel { len: n }, HostAction::SetFuel(FUEL_PER_CALL))
            } else {
                (HostState::AwaitAlloc { len: n }, HostAction::Alloc(n))
            },
        },
        (HostState::AwaitFuel { len }, HostEvent::Done) => (HostState::AwaitAlloc { len }, HostAction::Alloc(len)),
        (HostState::AwaitFuel { .. }, HostEvent::Failed(e)) => (HostState::Done, failed("could not set fuel: ", e)),
        (HostState::AwaitAlloc { len }, HostEvent::Returned(v)) => {
            let ptr = v as i32;
            (HostState::AwaitWrite { ptr, len }, HostAction::Write(ptr as usize))
        },
        (HostState::AwaitAlloc { .. }, HostEvent::Failed(e)) => (HostState::Done, failed("alloc trapped: ", e)),
        (HostState::AwaitWrite { ptr, len }, HostEvent::Done) =>
            (HostState::AwaitEvaluate { ptr, len }, HostAction::Evaluate(ptr, len)),
        (HostState::AwaitWrite { .. }, HostEvent::Failed(e)) =>
            (HostState::Done, failed("writing the request into guest memory failed: ", e)),
        (HostState::AwaitEvaluate { ptr, len }, HostEvent::Returned(packed)) => {
            let (out_ptr, out_len) = unpack_response(packed);
            let at: usize = out_ptr as usize;
            let n: usize = if out_len >= 0 { out_len as usize } else { 0 };
            (HostState::AwaitRead { ptr, len, out_ptr, out_len }, HostAction::Read(at, n))
        },
        (HostState::AwaitEvaluate { ptr, len }, HostEvent::Failed(e)) =>
            (HostState::AwaitFreeAfterTrap { trap: e }, HostAction::Dealloc(ptr, len)),
        (HostState::AwaitFreeAfterTrap { trap }, HostEvent::Done) => (HostState::Done, failed("evaluate trapped: ", trap)),
        (HostState::AwaitFreeAfterTrap { trap }, HostEvent::Failed(_)) => (HostState::Done, failed("evaluate trapped: ", trap)),
        (HostState::AwaitRead { ptr, len, out_ptr, out_len }, HostEvent::ReadBytes(bytes)) =>
            (HostState::AwaitFreeRequest { ptr, len, out_ptr, out_len, read: Ok(bytes) }, HostAction::Dealloc(ptr, len)),
        (HostState::AwaitRead { ptr, len, out_ptr, out_len }, HostEvent::Failed(e)) =>
            (HostState::AwaitFreeRequest { ptr, len, out_ptr, out_len, read: Err(e) }, HostAction::Dealloc(ptr, len)),
        (HostState::AwaitFreeRequest { out_ptr, out_len, read, .. }, HostEvent::Done) =>
            (HostState::AwaitFreeResponse { read }, HostAction::Dealloc(out_ptr, out_len)),
        (HostState::AwaitFreeRequest { .. }, HostEvent::Failed(e)) =>
            (HostState::Done, failed("dealloc(request) trapped: ", e)),
        (HostState::AwaitFreeResponse { read }, HostEvent::Done) => match read {
            Ok(bytes) => (HostState::AwaitDecode, HostAction::Decode(bytes)),
            Err(e) => (HostState::Done, failed("reading the response out of guest memory failed: ", e)),
        },
        (HostState::AwaitFreeResponse { .. }, HostEvent::Failed(e)) =>
            (HostState::Done, failed("dealloc(response) trapped: ", e)),
        (HostState::AwaitDecode, HostEvent::Decoded(Ok(s))) => (HostState::Done, HostAction::Finish(Ok(s))),
        (HostState::AwaitDecode, HostEvent::Decoded(Err(e))) =>
            (HostState::Done, failed("engine.wasm returned non-UTF-8 bytes: ", e)),
        _ => (
            HostState::Done,
            HostAction::Finish(Err(crate::text::owned("the guest reported an outcome the round trip was not waiting for"))),
        ),
    }
}

} // verus!
