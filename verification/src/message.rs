use std::sync::Arc;
use vstd::prelude::*;

verus! {

/// The kind of a message.
#[derive(Clone, Copy, Debug, PartialEq, Eq)]
pub enum TMessageType {
    /// A request.
    Call,
    /// The response to a request.
    Reply,
    /// An unexpected error at the remote end.
    Exception,
    /// A request to which no response is expected.
    OneWay,
}

/// What identifies a message: the call it belongs to, its kind and its
/// sequence number. It selects the type that an input is decoded into.
pub struct TMessageIdentifier {
    pub name: String,
    pub message_type: TMessageType,
    pub sequence_number: i32,
}

/// A message could not be encoded.
#[derive(Debug)]
pub struct EncodeError {
    pub message: String,
}

impl View for EncodeError {
    type V = Seq<char>;

    /// The message of the error.
    open spec fn view(&self) -> Seq<char> {
        self.message@
    }
}

/// An input could not be decoded.
#[derive(Debug)]
pub struct DecodeError {
    pub message: String,
}

impl View for DecodeError {
    type V = Seq<char>;

    /// The message of the error.
    open spec fn view(&self) -> Seq<char> {
        self.message@
    }
}

/// What an `encode` gave, with an error taken by its message.
pub open spec fn encode_view(r: Result<(), EncodeError>) -> Result<(), Seq<char>> {
    match r {
        Ok(done) => Ok(done),
        Err(error) => Err(error@),
    }
}

/// What a `decode` gave, with an error taken by its message.
pub open spec fn decode_view<M>(r: Result<M, DecodeError>) -> Result<M, Seq<char>> {
    match r {
        Ok(message) => Ok(message),
        Err(error) => Err(error@),
    }
}

/// The message of the error of a write for which the output has no room.
pub open spec fn output_full() -> Seq<char> {
    "the output is full"@
}

/// The message of the error of a read of more bytes than the input has left.
pub open spec fn input_short() -> Seq<char> {
    "the input ends before the message"@
}

/// The output protocol: a sink that takes bytes up to a limit.
pub struct TOutputProtocol {
    bytes: Vec<u8>,
    limit: usize,
}

impl View for TOutputProtocol {
    type V = Seq<u8>;

    /// The bytes written so far.
    closed spec fn view(&self) -> Seq<u8> {
        self.bytes@
    }
}

impl TOutputProtocol {
    /// The number of bytes that the sink takes in all.
    pub closed spec fn limit(&self) -> nat {
        self.limit as nat
    }

    /// An empty sink that takes `limit` bytes.
    pub fn new(limit: usize) -> (protocol: Self)
        ensures
            protocol@ == Seq::<u8>::empty(),
            protocol.limit() == limit,
    {
        TOutputProtocol { bytes: Vec::new(), limit }
    }

    /// Writes `data` where the sink has room for all of it, and fails
    /// without writing where it has not.
    pub fn write(&mut self, data: &[u8]) -> (r: Result<(), EncodeError>)
        ensures
            final(self).limit() == old(self).limit(),
            old(self)@.len() + data@.len() <= old(self).limit() ==> r is Ok && final(self)@ == old(
                self,
            )@ + data@,
            old(self)@.len() + data@.len() > old(self).limit() ==> r is Err && final(self)@ == old(
                self,
            )@,
            r matches Err(error) ==> error@ == output_full(),
    {
        if self.bytes.len() <= self.limit && data.len() <= self.limit - self.bytes.len() {
            self.bytes.extend_from_slice(data);
            Ok(())
        } else {
            Err(EncodeError { message: "the output is full".to_owned() })
        }
    }

    /// The bytes written.
    pub fn into_bytes(self) -> (bytes: Vec<u8>)
        ensures
            bytes@ == self@,
    {
        self.bytes
    }
}

/// The input protocol: a source of bytes that is read from the front.
pub struct TInputProtocol {
    bytes: Vec<u8>,
    position: usize,
}

impl View for TInputProtocol {
    type V = Seq<u8>;

    /// The bytes that are left to read.
    closed spec fn view(&self) -> Seq<u8> {
        if self.position <= self.bytes@.len() {
            self.bytes@.skip(self.position as int)
        } else {
            Seq::empty()
        }
    }
}

impl TInputProtocol {
    /// A source that holds `bytes`.
    pub fn new(bytes: Vec<u8>) -> (protocol: Self)
        ensures
            protocol@ == bytes@,
    {
        TInputProtocol { bytes, position: 0 }
    }

    /// The number of bytes that are left to read.
    pub fn remaining(&self) -> (n: usize)
        ensures
            n == self@.len(),
    {
        if self.position <= self.bytes.len() {
            self.bytes.len() - self.position
        } else {
            0
        }
    }

    /// Reads `count` bytes where that many are left, and fails without
    /// reading where they are not.
    pub fn read(&mut self, count: usize) -> (r: Result<Vec<u8>, DecodeError>)
        ensures
            count <= old(self)@.len() ==> (r matches Ok(data) && data@ == old(self)@.take(
                count as int,
            ) && final(self)@ == old(self)@.skip(count as int)),
            count > old(self)@.len() ==> r is Err && final(self)@ == old(self)@,
            r matches Err(error) ==> error@ == input_short(),
    {
        if self.position > self.bytes.len() {
            self.position = self.bytes.len();
        }
        assert(self@ =~= old(self)@);
        if count <= self.bytes.len() - self.position {
            let mut data: Vec<u8> = Vec::new();
            let start = self.position;
            let mut i: usize = 0;
            while i < count
                invariant
                    i <= count,
                    start + count <= self.bytes@.len() <= usize::MAX,
                    data@ == self.bytes@.subrange(start as int, start + i),
                decreases count - i,
            {
                data.push(self.bytes[start + i]);
                i += 1;
            }
            self.position = start + count;
            assert(data@ =~= old(self)@.take(count as int));
            assert(self@ =~= old(self)@.skip(count as int));
            Ok(data)
        } else {
            Err(DecodeError { message: "the input ends before the message".to_owned() })
        }
    }
}

/// The contract of a message envelope: how it is written to an output, read
/// from an input, and how many bytes it takes.
///
/// A type conforms where it says so in `conforms`. It then says which bytes
/// stand for a message, which identifiers select it, and what `encode` and
/// `decode` give on every output and input, and its three operations are
/// held to that. A type that does not say so promises nothing.
pub trait EntryMessage: Sized + Send {
    /// Whether the type keeps this contract.
    open spec fn conforms() -> bool {
        false
    }

    /// The bytes that stand for the message on the wire.
    open spec fn wire(&self) -> Seq<u8> {
        Seq::empty()
    }

    /// Whether `ident` selects the type of this message.
    open spec fn selected_by(&self, ident: TMessageIdentifier) -> bool {
        false
    }

    /// What `encode` gives for an output that holds `before` and takes
    /// `limit` bytes in all: `Ok` or the message of the error, and the bytes
    /// that the output holds afterwards.
    open spec fn encoded(&self, before: Seq<u8>, limit: nat) -> (Result<(), Seq<char>>, Seq<u8>) {
        (Ok(()), before)
    }

    /// What `decode` gives for an input that holds `input`, under `ident`:
    /// the message read or the message of the error, and the bytes that the
    /// input holds afterwards.
    open spec fn decoded(input: Seq<u8>, ident: TMessageIdentifier) -> (
        Result<Self, Seq<char>>,
        Seq<u8>,
    ) {
        (Err(Seq::empty()), input)
    }

    /// Writes the message. The result and what the output holds afterwards
    /// are those that `encoded` names. It succeeds where the output has room
    /// for the message's bytes, and only there; it then holds them after
    /// what it held before. The bytes of a message are decoded to the
    /// message, whatever follows them, and what follows is left.
    fn encode(&self, protocol: &mut TOutputProtocol) -> (r: Result<(), EncodeError>)
        ensures
            Self::conforms() ==> final(protocol).limit() == old(protocol).limit(),
            Self::conforms() ==> (encode_view(r), final(protocol)@) == self.encoded(
                old(protocol)@,
                old(protocol).limit(),
            ),
            Self::conforms() ==> (r is Ok <==> old(protocol)@.len() + self.wire().len() <= old(
                protocol,
            ).limit()),
            Self::conforms() && r is Ok ==> final(protocol)@ == old(protocol)@ + self.wire(),
            Self::conforms() ==> forall|ident: TMessageIdentifier, rest: Seq<u8>|
                self.selected_by(ident) ==> #[trigger] Self::decoded(self.wire() + rest, ident)
                    == (Ok::<Self, Seq<char>>(*self), rest),
    ;

    /// Reads the message that stands at the front of the input. The result
    /// and what the input holds afterwards are those that `decoded` names.
    /// Where a message is read, the input is left without the bytes that
    /// stand for it.
    fn decode(protocol: &mut TInputProtocol, msg_ident: &TMessageIdentifier) -> (r: Result<
        Self,
        DecodeError,
    >)
        ensures
            Self::conforms() ==> (decode_view(r), final(protocol)@) == Self::decoded(
                old(protocol)@,
                *msg_ident,
            ),
            Self::conforms() ==> (r matches Ok(message) ==> final(protocol)@ == old(
                protocol,
            )@.skip(message.wire().len() as int)),
    ;

    /// The number of bytes that `encode` writes.
    fn size(&self) -> (n: usize)
        ensures
            Self::conforms() ==> n == self.wire().len(),
    ;
}

/// What decoding gives for a shared handle, from what it gives for the
/// message's own type: the handle of the message read, or the same error,
/// and the same bytes left.
pub open spec fn shared<M>(decoded: (Result<M, Seq<char>>, Seq<u8>)) -> (
    Result<Arc<M>, Seq<char>>,
    Seq<u8>,
) {
    match decoded.0 {
        Ok(message) => (Ok(Arc::new(message)), decoded.1),
        Err(error) => (Err(error), decoded.1),
    }
}

impl<Message> EntryMessage for Arc<Message> where Message: EntryMessage + Sync {
    open spec fn conforms() -> bool {
        Message::conforms()
    }

    open spec fn wire(&self) -> Seq<u8> {
        (**self).wire()
    }

    open spec fn selected_by(&self, ident: TMessageIdentifier) -> bool {
        (**self).selected_by(ident)
    }

    open spec fn encoded(&self, before: Seq<u8>, limit: nat) -> (Result<(), Seq<char>>, Seq<u8>) {
        (**self).encoded(before, limit)
    }

    open spec fn decoded(input: Seq<u8>, ident: TMessageIdentifier) -> (
        Result<Self, Seq<char>>,
        Seq<u8>,
    ) {
        shared(Message::decoded(input, ident))
    }

    #[inline]
    fn encode(&self, protocol: &mut TOutputProtocol) -> (r: Result<(), EncodeError>) {
        let r = (**self).encode(protocol);
        proof {
            if Message::conforms() {
                assert forall|ident: TMessageIdentifier, rest: Seq<u8>|
                    self.selected_by(ident) implies #[trigger] Self::decoded(
                    self.wire() + rest,
                    ident,
                ) == (Ok::<Self, Seq<char>>(*self), rest) by {
                    assert(Message::decoded((**self).wire() + rest, ident) == (
                        Ok::<Message, Seq<char>>(**self),
                        rest,
                    ));
                }
            }
        }
        r
    }

    #[inline]
    fn decode(protocol: &mut TInputProtocol, msg_ident: &TMessageIdentifier) -> (r: Result<
        Self,
        DecodeError,
    >) {
        match Message::decode(protocol, msg_ident) {
            Ok(message) => Ok(Arc::new(message)),
            Err(error) => Err(error),
        }
    }

    #[inline]
    fn size(&self) -> (n: usize) {
        (**self).size()
    }
}

/// The transparency law. A message in a shared handle stands for the same
/// bytes and is selected by the same identifiers as the message itself.
/// Encoding gives the same result and leaves the same bytes in the output,
/// on success and on failure; decoding gives the handle of the message that
/// the message's own type reads, or the same error, and leaves the same
/// bytes in the input. The contracts of `encode`, `decode` and `size` fix
/// their results by these, so the handle and the message give identical
/// results.
pub proof fn law_shared_handle_is_transparent<M: EntryMessage + Sync>(
    handle: Arc<M>,
    before: Seq<u8>,
    limit: nat,
    input: Seq<u8>,
    ident: TMessageIdentifier,
)
    ensures
        Arc::<M>::conforms() == M::conforms(),
        handle.wire() == (*handle).wire(),
        handle.selected_by(ident) == (*handle).selected_by(ident),
        handle.encoded(before, limit) == (*handle).encoded(before, limit),
        Arc::<M>::decoded(input, ident).1 == M::decoded(input, ident).1,
        match M::decoded(input, ident).0 {
            Ok(message) => Arc::<M>::decoded(input, ident).0 matches Ok(read) && *read == message,
            Err(error) => Arc::<M>::decoded(input, ident).0 == Err::<Arc<M>, Seq<char>>(error),
        },
{
}

/// The round-trip law, as a function. It writes `message` to an empty output
/// that takes `limit` bytes, reads a message back from what was written, and
/// gives the message read with the size of `message`.
///
/// For a conforming message whose bytes fit, the message read is `message`
/// itself, and its size is the number of bytes that `encode` wrote; where the
/// bytes do not fit, the answer is `None`.
pub fn round_trip<M: EntryMessage>(message: &M, msg_ident: &TMessageIdentifier, limit: usize) -> (r:
    Option<(M, usize)>)
    ensures
        M::conforms() && message.selected_by(*msg_ident) && message.wire().len() <= limit ==> r
            == Some((*message, message.wire().len() as usize)),
        M::conforms() && message.wire().len() > limit ==> r is None,
{
    let mut output = TOutputProtocol::new(limit);
    match message.encode(&mut output) {
        Err(_) => None,
        Ok(()) => {
            let size = message.size();
            let written = output.into_bytes();
            let length = written.len();
            let mut input = TInputProtocol::new(written);
            proof {
                if M::conforms() && message.selected_by(*msg_ident) {
                    assert(written@ =~= message.wire() + Seq::<u8>::empty());
                    assert(M::decoded(message.wire() + Seq::<u8>::empty(), *msg_ident) == (
                        Ok::<M, Seq<char>>(*message),
                        Seq::<u8>::empty(),
                    ));
                }
            }
            match M::decode(&mut input, msg_ident) {
                Ok(read) => {
                    if size == length {
                        Some((read, size))
                    } else {
                        None
                    }
                },
                Err(_) => None,
            }
        },
    }
}

} // verus!
