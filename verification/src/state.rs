use crate::bytes::{copy_into, copy_of};
use crate::game::{Program, ProgramView};
use crate::session::AleView;
use vstd::prelude::*;

verus! {

/// The longest encoding the emulator can take back: it counts the bytes of
/// an encoded state in a signed 32-bit integer.
pub const MAX_ENCODED_LEN: usize = 0x7fff_ffff;

/// How much of the emulator a saved state holds.
#[derive(Clone, Copy, Debug, PartialEq, Eq, Structural)]
pub enum StateKind {
    /// The game alone, without the random number generator. Restoring it
    /// does not bring back the randomness that followed, which is what a
    /// search wants.
    Planning,
    /// The game and the random number generator: everything needed to go on
    /// exactly as before.
    System,
}

/// Why bytes were not taken, or not written.
#[derive(Clone, Copy, Debug, PartialEq, Eq, Structural)]
pub enum StateError {
    /// More bytes than the emulator's length field can count.
    TooLong,
    /// The buffer handed to `try_encode_state` does not have the length that
    /// `encode_state_len` gives.
    WrongLength,
}

/// A saved state of the emulator, of either kind, in its encoded form.
///
/// The bytes are the emulator's own and nothing is assumed of what they
/// hold. With them travel the kind of the state and, where the state was
/// taken from a session, the game that session ran.
#[derive(Debug)]
pub struct AleState {
    kind: StateKind,
    origin: Option<Program>,
    bytes: Vec<u8>,
}

pub struct AleStateView {
    pub kind: StateKind,
    /// The game of the session the state was taken from, where it was
    /// taken from one.
    pub origin: Option<ProgramView>,
    /// The emulator's encoding of the state.
    pub bytes: Seq<u8>,
}

impl AleStateView {
    /// A state can always be handed back to the emulator: its encoding is
    /// no longer than the emulator's length field can count.
    pub open spec fn wf(self) -> bool {
        self.bytes.len() <= MAX_ENCODED_LEN
    }

    /// The bytes that encoding writes: the emulator's own, all of them.
    pub open spec fn encoded(self) -> Seq<u8> {
        self.bytes
    }

    /// What encoding into a buffer that holds `buf` gives: the bytes that
    /// the buffer holds afterwards, or why nothing was written.
    pub open spec fn written(self, buf: Seq<u8>) -> Result<Seq<u8>, StateError> {
        if buf.len() != self.encoded().len() {
            Err(StateError::WrongLength)
        } else {
            Ok(self.encoded())
        }
    }

    /// What decoding gives for the bytes of a state of kind `kind`: a state
    /// of that kind and of unknown origin that holds exactly these bytes,
    /// unless there are too many of them.
    pub open spec fn decoded(serialized: Seq<u8>, kind: StateKind) -> Result<
        AleStateView,
        StateError,
    > {
        if serialized.len() <= MAX_ENCODED_LEN {
            Ok(AleStateView { kind, origin: None, bytes: serialized })
        } else {
            Err(StateError::TooLong)
        }
    }
}

impl View for AleState {
    type V = AleStateView;

    closed spec fn view(&self) -> AleStateView {
        AleStateView {
            kind: self.kind,
            origin: match self.origin {
                Some(p) => Some(p@),
                None => None,
            },
            bytes: self.bytes@,
        }
    }
}

impl AleState {
    pub open spec fn wf(&self) -> bool {
        self@.wf()
    }

    /// Tags bytes that the emulator produced for a session of the game
    /// `origin`.
    pub(crate) fn tagged(kind: StateKind, origin: Program, encoded: Vec<u8>) -> (state: AleState)
        requires
            encoded@.len() <= MAX_ENCODED_LEN,
        ensures
            state.wf(),
            state@ == (AleStateView { kind, origin: Some(origin@), bytes: encoded@ }),
    {
        AleState { kind, origin: Some(origin), bytes: encoded }
    }

    /// The kind of this state.
    pub fn kind(&self) -> (kind: StateKind)
        ensures
            kind == self@.kind,
    {
        self.kind
    }

    /// The game of the session this state was taken from, if it was taken
    /// from one.
    pub fn origin(&self) -> (origin: &Option<Program>)
        ensures
            origin is Some == self@.origin is Some,
            origin matches Some(p) ==> self@.origin == Some(p@),
    {
        &self.origin
    }

    /// The encoded bytes, as the emulator takes them back.
    pub fn bytes(&self) -> (bytes: &[u8])
        ensures
            bytes@ == self@.encoded(),
    {
        self.bytes.as_slice()
    }

    /// Returns the length of the buffer needed to encode the state.
    pub fn encode_state_len(&self) -> (len: usize)
        ensures
            len == self@.encoded().len(),
    {
        self.bytes.len()
    }

    /// Encodes the state as a raw bytestream.
    ///
    /// The buffer must have exactly the length that `encode_state_len`
    /// gives; every byte of it is written.
    pub fn encode_state(&self, buf: &mut [u8])
        requires
            old(buf)@.len() == self@.encoded().len(),
        ensures
            final(buf)@ == self@.encoded(),
            self@.written(old(buf)@) == Ok::<Seq<u8>, StateError>(final(buf)@),
    {
        copy_into(buf, self.bytes.as_slice());
    }

    /// Encodes the state into `buf` if `buf` has the needed length, and
    /// leaves `buf` untouched if it has not.
    pub fn try_encode_state(&self, buf: &mut [u8]) -> (done: Result<(), StateError>)
        ensures
            match self@.written(old(buf)@) {
                Ok(bytes) => done is Ok && final(buf)@ == bytes,
                Err(e) => done == Err::<(), StateError>(e) && final(buf)@ == old(buf)@,
            },
    {
        if buf.len() != self.bytes.len() {
            return Err(StateError::WrongLength);
        }
        self.encode_state(buf);
        Ok(())
    }

    /// Decode a system state from a raw bytestream.
    ///
    /// Fails if there are more bytes than the emulator's length field can
    /// count. Where the state came from is not known.
    pub fn decode_state(serialized: &[u8]) -> (state: Result<AleState, StateError>)
        ensures
            state is Ok == (serialized@.len() <= MAX_ENCODED_LEN),
            match state {
                Ok(s) => s.wf() && AleStateView::decoded(serialized@, StateKind::System) == Ok::<
                    AleStateView,
                    StateError,
                >(s@),
                Err(e) => AleStateView::decoded(serialized@, StateKind::System) == Err::<
                    AleStateView,
                    StateError,
                >(e),
            },
    {
        AleState::decode_as(serialized, StateKind::System)
    }

    /// Decode a planning state from a raw bytestream: one that was encoded
    /// from a planning state.
    ///
    /// Fails if there are more bytes than the emulator's length field can
    /// count. Where the state came from is not known.
    pub fn decode_planning_state(serialized: &[u8]) -> (state: Result<AleState, StateError>)
        ensures
            state is Ok == (serialized@.len() <= MAX_ENCODED_LEN),
            match state {
                Ok(s) => s.wf() && AleStateView::decoded(serialized@, StateKind::Planning) == Ok::<
                    AleStateView,
                    StateError,
                >(s@),
                Err(e) => AleStateView::decoded(serialized@, StateKind::Planning) == Err::<
                    AleStateView,
                    StateError,
                >(e),
            },
    {
        AleState::decode_as(serialized, StateKind::Planning)
    }

    fn decode_as(serialized: &[u8], kind: StateKind) -> (state: Result<AleState, StateError>)
        ensures
            state is Ok == (serialized@.len() <= MAX_ENCODED_LEN),
            match state {
                Ok(s) => s.wf() && AleStateView::decoded(serialized@, kind) == Ok::<
                    AleStateView,
                    StateError,
                >(s@),
                Err(e) => AleStateView::decoded(serialized@, kind) == Err::<AleStateView, StateError>(
                    e,
                ),
            },
    {
        if serialized.len() > MAX_ENCODED_LEN {
            return Err(StateError::TooLong);
        }
        let bytes = copy_of(serialized);
        Ok(AleState { kind, origin: None, bytes })
    }
}

/// A state of either kind comes back from its encoding as it went in.
/// Decoding the bytes that encoding wrote, as a state of the same kind,
/// succeeds and gives a state of that kind with the same bytes and so the
/// same length; and every session that takes the first state back takes the
/// second too, as a state of the same kind: the emulator is handed the same
/// bytes either way.
pub proof fn lemma_decode_encoded(state: AleStateView, session: AleView)
    requires
        state.wf(),
    ensures
        AleStateView::decoded(state.encoded(), state.kind) matches Ok(back) && {
            &&& back.wf()
            &&& back.kind == state.kind
            &&& back.encoded() == state.encoded()
            &&& back.encoded().len() == state.encoded().len()
            &&& forall|kind: StateKind|
                session.restores(state, kind) ==> session.restores(back, kind)
        },
{
}

/// Encoding into a buffer that is shorter than the encoding needs fails,
/// whatever the state, and so does encoding into one that is longer: the
/// only buffer that is written is one of exactly the needed length, and that
/// one is written in full.
pub proof fn lemma_encoding_wants_the_exact_length(state: AleStateView, buf: Seq<u8>)
    ensures
        buf.len() < state.encoded().len() ==> state.written(buf) is Err,
        buf.len() != state.encoded().len() ==> state.written(buf) is Err,
        state.written(buf) matches Ok(bytes) ==> bytes == state.encoded() && bytes.len() == buf.len(),
{
}

/// What encoding writes does not depend on what the buffer held: two
/// buffers that take the encoding of one state hold the same bytes
/// afterwards.
pub proof fn lemma_encodings_of_one_state_are_equal(
    state: AleStateView,
    first: Seq<u8>,
    second: Seq<u8>,
)
    requires
        state.written(first) is Ok,
        state.written(second) is Ok,
    ensures
        state.written(first) == state.written(second),
{
}

} // verus!
