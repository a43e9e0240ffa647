use vstd::prelude::*;

verus! {

/// Capacity of the encode buffer, in bytes.
pub const BUF_SIZE: usize = 4096;

/// binex's `Message`: one encodable message, carried through unopened.
#[verifier::external_type_specification]
#[verifier::external_body]
pub struct ExMessage(binex::prelude::Message);

/// binex's `Error`: why a message could not be encoded.
#[verifier::external_type_specification]
#[verifier::external_body]
pub struct ExBinexError(binex::prelude::Error);

/// rinex's `RNX2BIN`: the lazy, single-pass stream of messages of a document.
#[verifier::external_type_specification]
#[verifier::external_body]
pub struct ExRnx2Bin<'a>(rinex::prelude::binex::RNX2BIN<'a>);

/// Relies on rinex's `RNX2BIN::next`: the next message of the stream, `None`
/// once it is exhausted.
#[verifier::external_body]
fn next_message(stream: &mut rinex::prelude::binex::RNX2BIN) -> (r: Option<binex::prelude::Message>)
{
    stream.next()
}

/// Whether binex encodes message `m` within `cap` bytes.
pub uninterp spec fn encode_ok(m: binex::prelude::Message, cap: usize) -> bool;

/// The bytes binex encodes message `m` into.
pub uninterp spec fn encoded_of(m: binex::prelude::Message) -> Seq<u8>;

/// Relies on binex's `Message::encode`: success depends on the message and
/// `buf_size` alone; on success the returned size is that of the encoding,
/// which fits in `buf_size`, the encoding fills the head of the buffer and
/// nothing after it is written.
#[verifier::external_body]
fn encode_message(msg: &binex::prelude::Message, buf: &mut Vec<u8>, buf_size: usize) -> (r: Result<
    usize,
    binex::prelude::Error,
>)
    requires
        buf_size <= old(buf)@.len(),
        forall|i: int| 0 <= i < old(buf)@.len() ==> old(buf)@[i] == 0u8,
    ensures
        final(buf)@.len() == old(buf)@.len(),
        r is Ok <==> encode_ok(*msg, buf_size),
        r matches Ok(n) ==> {
            &&& n == encoded_of(*msg).len()
            &&& n <= buf_size
            &&& final(buf)@ == encoded_of(*msg) + Seq::new((old(buf)@.len() - n) as nat, |i: int| 0u8)
        },
{
    msg.encode(buf.as_mut_slice(), buf_size)
}

/// A frame: the encoding of a message, followed by zeros up to the buffer's capacity.
pub open spec fn padded(e: Seq<u8>) -> Seq<u8> {
    e + Seq::new((BUF_SIZE - e.len()) as nat, |i: int| 0u8)
}

/// Failures of the pump.
#[derive(Clone, Copy, Debug, PartialEq, Eq, Structural)]
pub enum PumpError {
    /// A message could not be encoded within the buffer's capacity.
    FormattingError,
}

/// State of the pump.
#[derive(Clone, Copy, Debug, PartialEq, Eq, Structural)]
pub enum PumpState {
    Running,
    Done,
    Failed,
}

/// What the caller does after a step.
#[derive(Clone, Copy, Debug, PartialEq, Eq, Structural)]
pub enum Step {
    /// Write the whole buffer to the destination, then pull again; `len` is
    /// the size of the encoded message at its head.
    Write { len: usize },
    /// The stream is exhausted: flush and close the destination.
    Done,
    /// Stop the run.
    Abort(PumpError),
}

/// Drains a message stream through one reusable buffer of fixed capacity.
pub struct Pump {
    buf: Vec<u8>,
    state: PumpState,
    /// The frames handed out for writing, in order.
    frames: Ghost<Seq<Seq<u8>>>,
}

/// The bytes of a sequence of frames, one after the other.
pub open spec fn concat(frames: Seq<Seq<u8>>) -> Seq<u8>
    decreases frames.len(),
{
    if frames.len() == 0 {
        Seq::empty()
    } else {
        concat(frames.drop_last()) + frames.last()
    }
}

impl Pump {
    /// The buffer holds exactly its capacity.
    pub closed spec fn wf(&self) -> bool {
        self.buf@.len() == BUF_SIZE
    }

    /// The frames handed out so far, in order.
    pub closed spec fn frames_of(&self) -> Seq<Seq<u8>> {
        self.frames@
    }

    /// The current state.
    pub closed spec fn state_of(&self) -> PumpState {
        self.state
    }

    /// The bytes that a write after a step hands out.
    pub closed spec fn frame_of(&self) -> Seq<u8> {
        self.buf@
    }

    /// A pump that has pulled nothing yet.
    pub fn new() -> (r: Pump)
        ensures
            r.wf(),
            r.state_of() == PumpState::Running,
            r.frames_of() == Seq::<Seq<u8>>::empty(),
            r.frame_of() == Seq::new(BUF_SIZE as nat, |i: int| 0u8),
    {
        let mut buf: Vec<u8> = Vec::new();
        let mut i: usize = 0;
        while i < BUF_SIZE
            invariant
                i <= BUF_SIZE,
                buf@ == Seq::new(i as nat, |k: int| 0u8),
            decreases BUF_SIZE - i,
        {
            buf.push(0u8);
            i = i + 1;
            assert(buf@ =~= Seq::new(i as nat, |k: int| 0u8));
        }
        Pump { buf, state: PumpState::Running, frames: Ghost(Seq::empty()) }
    }

    /// The current state.
    pub fn state(&self) -> (r: PumpState)
        ensures
            r == self.state_of(),
    {
        self.state
    }

    /// The bytes to write after a `Write` step: the whole buffer.
    pub fn frame(&self) -> (r: &[u8])
        ensures
            r@ == self.frame_of(),
    {
        self.buf.as_slice()
    }

    fn clear(&mut self)
        requires
            old(self).wf(),
        ensures
            final(self).wf(),
            final(self).buf@ == Seq::new(BUF_SIZE as nat, |i: int| 0u8),
            final(self).state == old(self).state,
            final(self).frames == old(self).frames,
    {
        let mut i: usize = 0;
        while i < BUF_SIZE
            invariant
                i <= BUF_SIZE,
                self.buf@.len() == BUF_SIZE,
                forall|k: int| 0 <= k < i ==> self.buf@[k] == 0u8,
                self.state == old(self).state,
                self.frames == old(self).frames,
            decreases BUF_SIZE - i,
        {
            self.buf.set(i, 0u8);
            i = i + 1;
        }
        assert(self.buf@ =~= Seq::new(BUF_SIZE as nat, |i: int| 0u8));
    }

    /// One pull of the stream: `None` when it is exhausted. A message is
    /// encoded into the cleared buffer; one that does not fit stops the run
    /// with nothing handed out for it. Frames leave in the order pulled.
    pub fn step(&mut self, pulled: Option<&binex::prelude::Message>) -> (r: Step)
        requires
            old(self).wf(),
            old(self).state_of() == PumpState::Running,
        ensures
            final(self).wf(),
            pulled is None <==> r == Step::Done,
            r == Step::Done ==> final(self).state_of() == PumpState::Done,
            r is Abort <==> final(self).state_of() == PumpState::Failed,
            r is Abort ==> r == Step::Abort(PumpError::FormattingError),
            r is Write <==> final(self).state_of() == PumpState::Running,
            r matches Step::Write { len } ==> {
                &&& len <= BUF_SIZE
                &&& final(self).frame_of().len() == BUF_SIZE
                &&& final(self).frames_of() == old(self).frames_of().push(final(self).frame_of())
            },
            !(r is Write) ==> final(self).frames_of() == old(self).frames_of(),
            pulled matches Some(m) ==> (r is Write <==> encode_ok(*m, BUF_SIZE)),
            pulled matches Some(m) ==> (r matches Step::Write { len } ==> {
                &&& len == encoded_of(*m).len()
                &&& final(self).frame_of() == padded(encoded_of(*m))
            }),
    {
        match pulled {
            None => {
                self.state = PumpState::Done;
                Step::Done
            },
            Some(msg) => {
                self.clear();
                match encode_message(msg, &mut self.buf, BUF_SIZE) {
                    Ok(len) => {
                        assert(self.buf@ =~= padded(encoded_of(*msg)));
                        self.frames = Ghost(self.frames@.push(self.buf@));
                        Step::Write { len }
                    },
                    Err(_) => {
                        self.state = PumpState::Failed;
                        Step::Abort(PumpError::FormattingError)
                    },
                }
            },
        }
    }
}

impl Pump {
    /// Pulls the next message of `stream` and takes one step on it: the
    /// stream's exhaustion ends the run, a message that does not fit stops it.
    pub fn pull(&mut self, stream: &mut rinex::prelude::binex::RNX2BIN) -> (r: Step)
        requires
            old(self).wf(),
            old(self).state_of() == PumpState::Running,
        ensures
            final(self).wf(),
            r == Step::Done ==> final(self).state_of() == PumpState::Done,
            r is Abort <==> final(self).state_of() == PumpState::Failed,
            r is Abort ==> r == Step::Abort(PumpError::FormattingError),
            r is Write <==> final(self).state_of() == PumpState::Running,
            r matches Step::Write { len } ==> {
                &&& len <= BUF_SIZE
                &&& final(self).frame_of().len() == BUF_SIZE
                &&& final(self).frames_of() == old(self).frames_of().push(final(self).frame_of())
            },
            !(r is Write) ==> final(self).frames_of() == old(self).frames_of(),
            r matches Step::Write { len } ==> exists|m: binex::prelude::Message|
                encode_ok(m, BUF_SIZE) && len == encoded_of(m).len()
                    && final(self).frame_of() == #[trigger] padded(encoded_of(m)),
            r is Abort ==> exists|m: binex::prelude::Message| !#[trigger] encode_ok(m, BUF_SIZE),
    {
        let msg = next_message(stream);
        match &msg {
            Some(m) => self.step(Some(m)),
            None => self.step(None),
        }
    }
}

/// Appends `bytes` to `out`.
fn append_bytes(out: &mut Vec<u8>, bytes: &[u8])
    ensures
        final(out)@ == old(out)@ + bytes@,
{
    let mut i: usize = 0;
    while i < bytes.len()
        invariant
            i <= bytes@.len(),
            out@ == old(out)@ + bytes@.subrange(0, i as int),
        decreases bytes@.len() - i,
    {
        out.push(bytes[i]);
        i = i + 1;
        assert(out@ =~= old(out)@ + bytes@.subrange(0, i as int));
    }
    assert(bytes@.subrange(0, i as int) =~= bytes@);
}

/// Encodes `messages` in order through one pump and appends each frame to
/// `out`. The run stops at the first message that does not fit; the frames
/// before it stay written and nothing of it is.
pub fn encode_all(messages: &[binex::prelude::Message], out: &mut Vec<u8>) -> (r: (
    Pump,
    Result<(), PumpError>,
))
    ensures
        final(out)@ == old(out)@ + concat(r.0.frames_of()),
        forall|i: int|
            0 <= i < r.0.frames_of().len() ==> #[trigger] r.0.frames_of()[i].len() == BUF_SIZE,
        r.1 is Ok <==> forall|i: int| 0 <= i < messages@.len() ==> #[trigger] encode_ok(messages@[i], BUF_SIZE),
        r.1 is Ok ==> r.0.frames_of().len() == messages@.len() && r.0.state_of() == PumpState::Done,
        r.0.frames_of().len() <= messages@.len(),
        forall|i: int|
            #![trigger r.0.frames_of()[i]]
            0 <= i < r.0.frames_of().len() ==> r.0.frames_of()[i] == padded(encoded_of(messages@[i])),
        forall|i: int| 0 <= i < r.0.frames_of().len() ==> #[trigger] encode_ok(messages@[i], BUF_SIZE),
        r.1 is Err ==> {
            &&& r.1 == Err::<(), PumpError>(PumpError::FormattingError)
            &&& r.0.state_of() == PumpState::Failed
            &&& r.0.frames_of().len() < messages@.len()
            &&& !encode_ok(messages@[r.0.frames_of().len() as int], BUF_SIZE)
        },
{
    let mut pump = Pump::new();
    let mut i: usize = 0;
    while i < messages.len()
        invariant
            i <= messages@.len(),
            pump.wf(),
            pump.state_of() == PumpState::Running,
            pump.frames_of().len() == i,
            forall|j: int| 0 <= j < i ==> #[trigger] pump.frames_of()[j].len() == BUF_SIZE,
            forall|j: int|
                #![trigger pump.frames_of()[j]]
                0 <= j < i ==> pump.frames_of()[j] == padded(encoded_of(messages@[j])),
            forall|j: int| 0 <= j < i ==> #[trigger] encode_ok(messages@[j], BUF_SIZE),
            out@ == old(out)@ + concat(pump.frames_of()),
        decreases messages@.len() - i,
    {
        let ghost before = pump.frames_of();
        let msg = &messages[i];
        assert(*msg == messages@[i as int]);
        match pump.step(Some(msg)) {
            Step::Write { len: _ } => {
                append_bytes(out, pump.frame());
                proof {
                    lemma_concat_push(before, pump.frame_of());
                    assert forall|j: int| #![trigger pump.frames_of()[j]] 0 <= j < i + 1 implies (encode_ok(messages@[j], BUF_SIZE)
                        && pump.frames_of()[j] == padded(encoded_of(messages@[j]))) by {
                        if j < i {
                            assert(pump.frames_of()[j] == before[j]);
                        }
                    }
                    assert forall|j: int| 0 <= j < i + 1 implies #[trigger] pump.frames_of()[j].len() == BUF_SIZE by {
                        if j < i {
                            assert(pump.frames_of()[j] == before[j]);
                        }
                    }
                }
            },
            _ => {
                proof {
                    assert(!(forall|j: int| 0 <= j < messages@.len() ==> #[trigger] encode_ok(messages@[j], BUF_SIZE)));
                    assert(pump.frames_of() == before);
                    assert forall|j: int| #![trigger pump.frames_of()[j]] 0 <= j < pump.frames_of().len() implies (encode_ok(messages@[j], BUF_SIZE)
                        && pump.frames_of()[j] == padded(encoded_of(messages@[j]))) by {
                        assert(pump.frames_of()[j] == before[j]);
                    }
                }
                return (pump, Err(PumpError::FormattingError));
            },
        }
        i = i + 1;
    }
    pump.step(None);
    proof {
        assert forall|j: int| 0 <= j < messages@.len() implies #[trigger] encode_ok(messages@[j], BUF_SIZE) by {
            assert(pump.frames_of()[j] == padded(encoded_of(messages@[j])));
        }
    }
    (pump, Ok(()))
}

/// The bytes of the frames handed out, with one more frame, are the earlier
/// bytes followed by that frame: output is the frames in emission order.
pub proof fn lemma_concat_push(frames: Seq<Seq<u8>>, f: Seq<u8>)
    ensures
        concat(frames.push(f)) == concat(frames) + f,
{
    assert(frames.push(f).drop_last() =~= frames);
}

/// Every frame of a run is of the buffer's capacity, so the output of `n`
/// frames is `n` capacities long and frame `i` starts at `i` capacities.
pub proof fn lemma_concat_layout(frames: Seq<Seq<u8>>)
    requires
        forall|i: int| 0 <= i < frames.len() ==> #[trigger] frames[i].len() == BUF_SIZE,
    ensures
        concat(frames).len() == frames.len() * BUF_SIZE,
        forall|i: int, k: int|
            0 <= i < frames.len() && 0 <= k < BUF_SIZE ==> concat(frames)[i * BUF_SIZE + k]
                == #[trigger] frames[i][k],
    decreases frames.len(),
{
    if frames.len() > 0 {
        let init = frames.drop_last();
        lemma_concat_layout(init);
        assert forall|i: int, k: int|
            0 <= i < frames.len() && 0 <= k < BUF_SIZE implies concat(frames)[i * BUF_SIZE + k]
            == #[trigger] frames[i][k] by {
            assert(i * BUF_SIZE + k < frames.len() * BUF_SIZE) by (nonlinear_arith)
                requires 0 <= i < frames.len(), 0 <= k < BUF_SIZE;
            if i < frames.len() - 1 {
                assert(init[i] == frames[i]);
                assert(i * BUF_SIZE + k < init.len() * BUF_SIZE) by (nonlinear_arith)
                    requires 0 <= i < init.len(), 0 <= k < BUF_SIZE;
            } else {
                assert(i * BUF_SIZE == init.len() * BUF_SIZE);
            }
        }
        assert(concat(frames).len() == frames.len() * BUF_SIZE) by (nonlinear_arith)
            requires concat(frames).len() == init.len() * BUF_SIZE + BUF_SIZE, init.len() + 1 == frames.len();
    }
}

} // verus!
