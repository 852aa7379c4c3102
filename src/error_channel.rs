//! The last-error channel: a single slot per thread that holds the most
//! recent failure until a caller reads it.
//!
//! The slot is an explicit value here; whoever drives the library keeps one
//! per thread, so that concurrent threads never see each other's failures.
use vstd::prelude::*;
use crate::buffer::{copy_into, written};
use crate::error::{message_bytes, Error, ErrorKind};

verus! {

/// An error occurred.
pub const ERROR_GENERAL: u32 = 0;
/// A string was not valid UTF-8.
pub const ERROR_UTF8: u32 = 1;
/// Something was not found.
pub const ERROR_NOT_FOUND: u32 = 2;
/// Access was denied.
pub const ERROR_PERMISSION_DENIED: u32 = 3;
/// Text could not be parsed.
pub const ERROR_PARSE: u32 = 4;
/// A caller-provided buffer was too small.
pub const ERROR_BUFFER_TOO_SMALL: u32 = 5;

/// A recorded failure and its category code.
#[derive(Debug)]
pub struct LastError {
    pub error: Error,
    pub category: u32,
}

/// One thread's last-error slot: empty, or holding one pending failure.
#[derive(Debug)]
pub struct ErrorChannel {
    pub pending: Option<LastError>,
}

impl ErrorChannel {
    /// An empty slot.
    pub fn new() -> (r: ErrorChannel)
        ensures
            r.pending is None,
    {
        ErrorChannel { pending: None }
    }
}

/// A short description of a category code.
pub open spec fn category_label(category: u32) -> Seq<char> {
    if category == ERROR_GENERAL {
        "General"@
    } else if category == ERROR_UTF8 {
        "UTF-8 Error"@
    } else if category == ERROR_NOT_FOUND {
        "Not Found"@
    } else if category == ERROR_PERMISSION_DENIED {
        "Permission Denied"@
    } else if category == ERROR_PARSE {
        "Parse Error"@
    } else if category == ERROR_BUFFER_TOO_SMALL {
        "Buffer is too small"@
    } else {
        "Unknown"@
    }
}

/// Get a short description of an error's category.
pub fn category_name(category: u32) -> (r: &'static str)
    ensures
        r@ == category_label(category),
{
    if category == ERROR_GENERAL {
        "General"
    } else if category == ERROR_UTF8 {
        "UTF-8 Error"
    } else if category == ERROR_NOT_FOUND {
        "Not Found"
    } else if category == ERROR_PERMISSION_DENIED {
        "Permission Denied"
    } else if category == ERROR_PARSE {
        "Parse Error"
    } else if category == ERROR_BUFFER_TOO_SMALL {
        "Buffer is too small"
    } else {
        "Unknown"
    }
}

/// The category under which a failure of each kind is recorded: a buffer
/// that is too small has its own category, every other kind is general.
/// The kind itself travels with the error.
pub open spec fn kind_category(kind: ErrorKind) -> u32 {
    match kind {
        ErrorKind::BufferTooSmall => ERROR_BUFFER_TOO_SMALL,
        _ => ERROR_GENERAL,
    }
}

/// Record `err` under an explicit category, replacing whatever was pending.
pub fn set_last_error(channel: &mut ErrorChannel, err: Error, category: u32)
    ensures
        final(channel).pending == Some(LastError { error: err, category }),
{
    channel.pending = Some(LastError { error: err, category });
}

/// Record `err` under the general category.
pub fn set_general_error(channel: &mut ErrorChannel, err: Error)
    ensures
        final(channel).pending == Some(LastError { error: err, category: ERROR_GENERAL }),
{
    set_last_error(channel, err, ERROR_GENERAL);
}

/// Update the most recent error, clearing whatever may have been there
/// before; the category follows the error's kind.
pub fn update_last_error(channel: &mut ErrorChannel, err: Error)
    ensures
        final(channel).pending == Some(LastError { error: err, category: kind_category(err.kind) }),
{
    let category = match err.kind {
        ErrorKind::BufferTooSmall => ERROR_BUFFER_TOO_SMALL,
        _ => ERROR_GENERAL,
    };
    set_last_error(channel, err, category);
}

/// Retrieve the most recent error, clearing it in the process.
pub fn take_last_error(channel: &mut ErrorChannel) -> (r: Option<Error>)
    ensures
        final(channel).pending is None,
        match old(channel).pending {
            Some(last) => r == Some(last.error),
            None => r is None,
        },
{
    match channel.pending.take() {
        Some(last) => Some(last.error),
        None => None,
    }
}

/// Whether some byte of `b` is a NUL.
pub open spec fn has_nul(b: Seq<u8>) -> bool {
    exists|i: int| 0 <= i < b.len() && b[i] == 0u8
}

/// The message as a C string carries it: the message itself, or nothing
/// when the message holds a NUL byte and so cannot be one.
pub open spec fn c_message(e: &Error) -> Seq<char> {
    if has_nul(message_bytes(e)) {
        Seq::empty()
    } else {
        e.message@
    }
}

fn contains_nul(b: &[u8]) -> (r: bool)
    ensures
        r == has_nul(b@),
{
    let mut i: usize = 0;
    while i < b.len()
        invariant
            i <= b@.len(),
            forall|j: int| 0 <= j < i ==> b@[j] != 0u8,
        decreases b@.len() - i,
    {
        if b[i] == 0 {
            return true;
        }
        i = i + 1;
    }
    false
}

/// The message and category of the pending error, without consuming it.
/// The message is handed out as a C string would carry it: empty when it
/// holds a NUL byte.
pub fn last_error(channel: &ErrorChannel) -> (r: Option<(String, u32)>)
    ensures
        match channel.pending {
            Some(last) => r matches Some(p) && p.0@ == c_message(&last.error) && p.1
                == last.category,
            None => r is None,
        },
{
    match &channel.pending {
        Some(last) => {
            let text = if contains_nul(last.error.message.as_str().as_bytes()) {
                String::new()
            } else {
                last.error.message.clone()
            };
            Some((text, last.category))
        },
        None => None,
    }
}

/// Clear the pending error, if any.
pub fn clear_error(channel: &mut ErrorChannel)
    ensures
        final(channel).pending is None,
{
    channel.pending = None;
}

/// The buffer size that the pending error's message needs: its UTF-8 bytes
/// and a trailing terminator.
pub open spec fn needed_len(e: &Error) -> int {
    message_bytes(e).len() as int + 1
}

/// The number of bytes in the last error's message, including the trailing
/// terminator, or 0 when nothing is pending. Does not consume the error.
pub fn last_error_length(channel: &ErrorChannel) -> (r: usize)
    ensures
        match channel.pending {
            Some(last) => r == if needed_len(&last.error) <= usize::MAX {
                needed_len(&last.error)
            } else {
                usize::MAX as int
            },
            None => r == 0,
        },
{
    match &channel.pending {
        Some(last) => {
            let n = last.error.message_len();
            if n < usize::MAX {
                n + 1
            } else {
                usize::MAX
            }
        },
        None => 0,
    }
}

/// What reading the message into a buffer of `capacity` bytes returns, and
/// the channel it leaves.
pub open spec fn read_outcome(channel: ErrorChannel, capacity: int) -> (int, ErrorChannel) {
    match channel.pending {
        None => (0, channel),
        Some(last) => if needed_len(&last.error) > capacity {
            (-1, channel)
        } else {
            (message_bytes(&last.error).len() as int, ErrorChannel { pending: None })
        },
    }
}

/// Write the most recent error message into `buffer` as UTF-8 followed by a
/// terminator, returning the number of message bytes written.
///
/// With nothing pending this writes nothing and returns 0. When the buffer
/// cannot hold the message and its terminator, it writes nothing, keeps the
/// error pending so that the caller can retry with a larger buffer, and
/// returns -1. Otherwise it consumes the error.
pub fn last_error_message(channel: &mut ErrorChannel, buffer: &mut [u8]) -> (r: isize)
    requires
        old(buffer)@.len() <= isize::MAX,
    ensures
        (r as int, *final(channel)) == read_outcome(*old(channel), old(buffer)@.len() as int),
        match old(channel).pending {
            None => r == 0 && final(buffer)@ == old(buffer)@ && final(channel).pending is None,
            Some(last) => if needed_len(&last.error) > old(buffer)@.len() {
                r == -1 && final(buffer)@ == old(buffer)@ && *final(channel) == *old(channel)
            } else {
                r == message_bytes(&last.error).len() && final(buffer)@ == written(
                    old(buffer)@,
                    message_bytes(&last.error) + seq![0u8],
                ) && final(channel).pending is None
            },
        },
{
    let n: usize = match &channel.pending {
        None => {
            return 0;
        },
        Some(last) => {
            let bytes = last.error.message.as_str().as_bytes();
            let n = bytes.len();
            if n >= buffer.len() {
                return -1;
            }
            copy_into(buffer, bytes);
            buffer[n] = 0;
            n
        },
    };
    assert(final(buffer)@ =~= written(old(buffer)@, message_bytes(&old(channel).pending->0.error) + seq![0u8]));
    channel.pending = None;
    n as isize
}

/// After one failure, reading the message into a buffer that can hold it
/// returns the message's length once; a second read finds nothing and
/// returns 0.
pub proof fn lemma_message_read_once(last: LastError, first: int, second: int)
    requires
        needed_len(&last.error) <= first,
    ensures
        read_outcome(ErrorChannel { pending: Some(last) }, first).0 == message_bytes(
            &last.error,
        ).len(),
        read_outcome(read_outcome(ErrorChannel { pending: Some(last) }, first).1, second).0 == 0,
{
}

} // verus!
