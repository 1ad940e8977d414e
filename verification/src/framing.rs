//! How the end of a message is told on a byte stream.
//!
//! A byte stream has no messages, only bytes. Either the end of a message is read
//! off the reads themselves: a read that does not fill the buffer is taken to be
//! the last. That needs nothing on the wire, and it fails a message whose last read
//! fills the buffer: its end is never seen. Or the length of the message goes
//! before it, and the receiver counts.

use vstd::prelude::*;
use vstd::bytes::{
    lemma_auto_spec_u64_to_from_le_bytes, spec_u64_from_le_bytes, spec_u64_to_le_bytes,
    u64_from_le_bytes, u64_to_le_bytes,
};
use vstd::slice::{slice_subrange, slice_to_vec};
use vstd::string::StringExecFns;
use crate::error::TransportError;

verus! {

/// The size of the buffer that a channel over a byte stream reads into.
pub const READ_BUFFER_SIZE: usize = 1024;

/// What a channel over a byte stream does after one read.
pub enum ReceiveStep {
    /// Read again: the end of the message is not there yet. The bytes are all that
    /// was read so far.
    Continue(Vec<u8>),
    /// Stop, with the message or with the failure.
    Return(Result<Vec<u8>, TransportError>),
}

/// What one step of receiving gives where the end of a message is told by a short
/// read: a failed read ends with a failure; a read that fills less than the whole
/// buffer, or nothing, ends the message; a read that fills the buffer asks for
/// another. Either way the bytes read are put behind those read before.
pub open spec fn short_read_step(
    return_bytes: Seq<u8>,
    read: Result<&[u8], std::io::Error>,
    step: ReceiveStep,
) -> bool {
    match read {
        Err(_) => step matches ReceiveStep::Return(Err(e)) && e is ReceiveError,
        Ok(chunk) => if chunk@.len() < READ_BUFFER_SIZE {
            step matches ReceiveStep::Return(Ok(bytes)) && bytes@ == return_bytes + chunk@
        } else {
            step matches ReceiveStep::Continue(bytes) && bytes@ == return_bytes + chunk@
        },
    }
}

/// Puts the bytes of one read behind those read before.
pub fn extend(bytes: &mut Vec<u8>, chunk: &[u8])
    ensures
        final(bytes)@ == old(bytes)@ + chunk@,
{
    let mut i: usize = 0;
    while i < chunk.len()
        invariant
            i <= chunk@.len(),
            bytes@ == old(bytes)@ + chunk@.subrange(0, i as int),
        decreases chunk@.len() - i,
    {
        bytes.push(chunk[i]);
        i += 1;
        assert(bytes@ =~= old(bytes)@ + chunk@.subrange(0, i as int));
    }
}

/// One step of receiving a message from a byte stream, which marks no end of
/// message. `return_bytes` is what the reads before this one gave, `read` is what
/// this one gave: the part of the buffer that it filled, or its failure. A read
/// that fills less than the whole buffer, or nothing, ends the message.
pub fn receive_step(return_bytes: Vec<u8>, read: Result<&[u8], std::io::Error>) -> (step: ReceiveStep)
    ensures
        short_read_step(return_bytes@, read, step),
{
    match read {
        Err(e) => ReceiveStep::Return(Err(TransportError::io_receive(e))),
        Ok(chunk) => {
            let mut return_bytes = return_bytes;
            extend(&mut return_bytes, chunk);
            if chunk.len() < READ_BUFFER_SIZE {
                ReceiveStep::Return(Ok(return_bytes))
            } else {
                ReceiveStep::Continue(return_bytes)
            }
        },
    }
}

/// How the end of a message is told.
#[derive(Clone, Copy, Debug, PartialEq, Eq)]
pub enum Framing {
    /// A read that does not fill the buffer ends the message.
    ShortRead,
    /// The length of the message goes before it.
    LengthPrefixed,
}

/// The number of bytes that hold the length of a message.
pub const LENGTH_PREFIX_SIZE: usize = 8;

/// A message with its length before it, in eight bytes, the lowest first.
pub open spec fn with_length(message: Seq<u8>) -> Seq<u8> {
    spec_u64_to_le_bytes(message.len() as u64) + message
}

/// The message that the bytes received so far hold: the bytes behind the length,
/// as many as the length says, once that many are there.
pub open spec fn complete_message(received: Seq<u8>) -> Option<Seq<u8>> {
    if received.len() < LENGTH_PREFIX_SIZE {
        None
    } else {
        let length = spec_u64_from_le_bytes(received.subrange(0, LENGTH_PREFIX_SIZE as int)) as int;
        if received.len() - LENGTH_PREFIX_SIZE >= length {
            Some(received.subrange(LENGTH_PREFIX_SIZE as int, LENGTH_PREFIX_SIZE + length))
        } else {
            None
        }
    }
}

/// What one step of receiving gives where the length goes before the message: a
/// failed read ends with a failure; once the bytes hold a whole message, that
/// message is returned; before that, a read that gives nothing means that the
/// stream has ended too early, and any other read asks for another.
pub open spec fn length_prefixed_step(
    received: Seq<u8>,
    read: Result<&[u8], std::io::Error>,
    step: ReceiveStep,
) -> bool {
    match read {
        Err(_) => step matches ReceiveStep::Return(Err(e)) && e is ReceiveError,
        Ok(chunk) => match complete_message(received + chunk@) {
            Some(message) => step matches ReceiveStep::Return(Ok(bytes)) && bytes@ == message,
            None => if chunk@.len() == 0 {
                step matches ReceiveStep::Return(Err(TransportError::ReceiveError(detail))) && detail@
                    == "The stream ended before the message did"@
            } else {
                step matches ReceiveStep::Continue(bytes) && bytes@ == received + chunk@
            },
        },
    }
}

/// A message is read back from its bytes on the wire, and from no less: of the
/// message with its length before it, the whole holds the message and no shorter
/// beginning holds any. So a receiver that is given these bytes, in reads of any
/// sizes, asks for more until the last byte is there and then returns the message.
pub proof fn lemma_length_prefixed_is_read_back(message: Seq<u8>, cut: int)
    requires
        message.len() <= u64::MAX,
        0 <= cut <= with_length(message).len(),
    ensures
        complete_message(with_length(message).subrange(0, cut)) == (if cut == with_length(
            message,
        ).len() {
            Some(message)
        } else {
            None
        }),
{
    lemma_auto_spec_u64_to_from_le_bytes();
    let length = spec_u64_to_le_bytes(message.len() as u64);
    let wire = with_length(message);
    let received = wire.subrange(0, cut);
    if cut >= LENGTH_PREFIX_SIZE {
        assert(received.subrange(0, LENGTH_PREFIX_SIZE as int) =~= length);
        if cut == wire.len() {
            assert(received.subrange(
                LENGTH_PREFIX_SIZE as int,
                LENGTH_PREFIX_SIZE + message.len(),
            ) =~= message);
        }
    }
}

impl Framing {
    /// The bytes that stand for a message on the wire.
    pub open spec fn on_the_wire(self, message: Seq<u8>) -> Seq<u8> {
        match self {
            Framing::ShortRead => message,
            Framing::LengthPrefixed => with_length(message),
        }
    }

    /// What one step of receiving gives.
    pub open spec fn steps(
        self,
        received: Seq<u8>,
        read: Result<&[u8], std::io::Error>,
        step: ReceiveStep,
    ) -> bool {
        match self {
            Framing::ShortRead => short_read_step(received, read, step),
            Framing::LengthPrefixed => length_prefixed_step(received, read, step),
        }
    }

    /// The bytes to write for a message.
    pub fn outgoing(&self, message: &[u8]) -> (bytes: Vec<u8>)
        ensures
            bytes@ == self.on_the_wire(message@),
    {
        match self {
            Framing::ShortRead => slice_to_vec(message),
            Framing::LengthPrefixed => {
                let mut bytes = u64_to_le_bytes(message.len() as u64);
                extend(&mut bytes, message);
                bytes
            },
        }
    }

    /// One step of receiving a message: `received` is what the reads before this
    /// one gave, `read` is what this one gave.
    pub fn receive_step(&self, received: Vec<u8>, read: Result<&[u8], std::io::Error>) -> (step:
        ReceiveStep)
        ensures
            self.steps(received@, read, step),
    {
        match self {
            Framing::ShortRead => receive_step(received, read),
            Framing::LengthPrefixed => match read {
                Err(e) => ReceiveStep::Return(Err(TransportError::io_receive(e))),
                Ok(chunk) => {
                    let mut received = received;
                    extend(&mut received, chunk);
                    match take_message(&received) {
                        Some(message) => ReceiveStep::Return(Ok(message)),
                        None => if chunk.len() == 0 {
                            ReceiveStep::Return(
                                Err(
                                    TransportError::ReceiveError(
                                        String::from_str("The stream ended before the message did"),
                                    ),
                                ),
                            )
                        } else {
                            ReceiveStep::Continue(received)
                        },
                    }
                },
            },
        }
    }
}

/// Takes the message out of the bytes received so far, if it is whole.
pub fn take_message(received: &Vec<u8>) -> (message: Option<Vec<u8>>)
    ensures
        match message {
            Some(bytes) => complete_message(received@) == Some(bytes@),
            None => complete_message(received@) is None,
        },
{
    if received.len() < LENGTH_PREFIX_SIZE {
        return None;
    }
    let length = u64_from_le_bytes(slice_subrange(received.as_slice(), 0, LENGTH_PREFIX_SIZE));
    let behind = received.len() - LENGTH_PREFIX_SIZE;
    if behind as u64 >= length {
        let message = slice_to_vec(
            slice_subrange(
                received.as_slice(),
                LENGTH_PREFIX_SIZE,
                LENGTH_PREFIX_SIZE + length as usize,
            ),
        );
        Some(message)
    } else {
        None
    }
}

} // verus!
