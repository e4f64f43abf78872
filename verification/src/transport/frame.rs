//! Framing on a stream. On a channel every packet is followed by a line
//! feed; a reader keeps what arrives until it has seen a line feed, and only
//! then has a packet in hand.

use vstd::prelude::*;

verus! {

/// The byte that ends a frame.
pub const LINE_FEED: u8 = 10;

/// A message as it is sent on a channel: the message, then a line feed.
pub open spec fn framed(message: Seq<u8>) -> Seq<u8> {
    message.push(LINE_FEED)
}

/// The complete frames of a stream, without their line feeds: those that
/// end at or after `pos`, the first of them beginning at `begin`.
pub open spec fn frames_from(stream: Seq<u8>, begin: int, pos: int) -> Seq<Seq<u8>>
    decreases stream.len() - pos,
{
    if pos < 0 || pos >= stream.len() {
        Seq::empty()
    } else if stream[pos] == LINE_FEED {
        seq![stream.subrange(begin, pos)] + frames_from(stream, pos + 1, pos + 1)
    } else {
        frames_from(stream, begin, pos + 1)
    }
}

/// Where what follows the last complete frame begins.
pub open spec fn rest_from(stream: Seq<u8>, begin: int, pos: int) -> int
    decreases stream.len() - pos,
{
    if pos < 0 || pos >= stream.len() {
        begin
    } else if stream[pos] == LINE_FEED {
        rest_from(stream, pos + 1, pos + 1)
    } else {
        rest_from(stream, begin, pos + 1)
    }
}

/// The complete frames of a stream, without their line feeds.
pub open spec fn frames(stream: Seq<u8>) -> Seq<Seq<u8>> {
    frames_from(stream, 0, 0)
}

/// What follows the last complete frame of a stream.
pub open spec fn rest(stream: Seq<u8>) -> Seq<u8> {
    stream.subrange(rest_from(stream, 0, 0), stream.len() as int)
}

/// Whether a message holds a line feed of its own.
pub open spec fn holds_line_feed(message: Seq<u8>) -> bool {
    exists|k: int| 0 <= k < message.len() && message[k] == LINE_FEED
}

/// A message as one frame: the message, then a line feed. A message that
/// holds a line feed of its own would arrive as two; it gets no frame.
pub fn frame_one(message: Vec<u8>) -> (r: Option<Vec<u8>>)
    ensures
        match r {
            Some(f) => !holds_line_feed(message@) && f@ == framed(message@),
            None => holds_line_feed(message@),
        },
{
    let mut k: usize = 0;
    while k < message.len()
        invariant
            0 <= k <= message@.len(),
            forall|m: int| 0 <= m < k ==> message@[m] != LINE_FEED,
        decreases message@.len() - k,
    {
        if message[k] == LINE_FEED {
            return None;
        }
        k = k + 1;
    }
    Some(frame(message))
}

/// A message, framed.
pub fn frame(message: Vec<u8>) -> (r: Vec<u8>)
    ensures
        r@ == framed(message@),
{
    let mut out = message;
    out.push(LINE_FEED);
    out
}

/// What has arrived on a channel and belongs to a frame that is not
/// complete yet.
pub struct FrameBuffer {
    pub pending: Vec<u8>,
}

impl View for FrameBuffer {
    type V = Seq<u8>;

    open spec fn view(&self) -> Seq<u8> {
        self.pending@
    }
}

impl FrameBuffer {
    /// What is kept holds no line feed: a frame leaves as soon as it is
    /// complete.
    pub open spec fn wf(self) -> bool {
        forall|k: int| 0 <= k < self.pending@.len() ==> self.pending@[k] != LINE_FEED
    }

    /// An empty buffer.
    pub fn new() -> (r: FrameBuffer)
        ensures
            r@ == Seq::<u8>::empty(),
            r.wf(),
    {
        FrameBuffer { pending: Vec::new() }
    }

    /// Takes what has arrived and gives the frames that it completes, in
    /// their order and without their line feeds. What follows the last line
    /// feed is kept for the next time.
    pub fn feed(&mut self, chunk: &[u8]) -> (r: Vec<Vec<u8>>)
        ensures
            frame_views(r@) == frames(old(self)@ + chunk@),
            final(self)@ == rest(old(self)@ + chunk@),
            final(self).wf(),
    {
        let mut stream: Vec<u8> = Vec::new();
        std::mem::swap(&mut stream, &mut self.pending);
        stream.extend_from_slice(chunk);
        let mut out: Vec<Vec<u8>> = Vec::new();
        let mut i: usize = 0;
        let ghost mut begin: int = 0;
        proof {
            assert(stream@ =~= old(self)@ + chunk@);
            assert(frame_views(out@) =~= Seq::<Seq<u8>>::empty());
            assert(self.pending@ =~= stream@.subrange(0, 0));
            assert(Seq::<Seq<u8>>::empty() + frames(stream@) =~= frames(stream@));
        }
        while i < stream.len()
            invariant
                0 <= begin <= i <= stream@.len(),
                self.pending@ == stream@.subrange(begin, i as int),
                forall|k: int| begin <= k < i ==> stream@[k] != LINE_FEED,
                frames(stream@) == frame_views(out@) + frames_from(stream@, begin, i as int),
                rest_from(stream@, 0, 0) == rest_from(stream@, begin, i as int),
            decreases stream@.len() - i,
        {
            let b: u8 = stream[i];
            if b == LINE_FEED {
                let mut done: Vec<u8> = Vec::new();
                std::mem::swap(&mut done, &mut self.pending);
                proof {
                    let before = frame_views(out@);
                    let after = frames_from(stream@, i + 1, i + 1);
                    assert(frame_views(out@.push(done)) =~= before.push(done@));
                    assert(before + (seq![done@] + after) =~= before.push(done@) + after);
                    begin = i + 1;
                    assert(self.pending@ =~= stream@.subrange(begin, i + 1));
                }
                out.push(done);
            } else {
                self.pending.push(b);
                assert(self.pending@ =~= stream@.subrange(begin, i + 1));
            }
            i = i + 1;
        }
        proof {
            assert(frame_views(out@) + Seq::<Seq<u8>>::empty() =~= frame_views(out@));
        }
        out
    }
}

/// The content of each frame of a list.
pub open spec fn frame_views(list: Seq<Vec<u8>>) -> Seq<Seq<u8>> {
    Seq::new(list.len(), |i: int| list[i]@)
}

/// Where no line feed stands between `begin` and `pos`, scanning may start
/// at `pos` as well as at `from`.
pub proof fn lemma_skip(stream: Seq<u8>, begin: int, from: int, pos: int)
    requires
        0 <= begin <= from <= pos <= stream.len(),
        forall|k: int| from <= k < pos ==> stream[k] != LINE_FEED,
    ensures
        frames_from(stream, begin, from) == frames_from(stream, begin, pos),
        rest_from(stream, begin, from) == rest_from(stream, begin, pos),
    decreases pos - from,
{
    if from < pos {
        lemma_skip(stream, begin, from + 1, pos);
    }
}

/// A framed message that holds no line feed of its own comes out of an
/// empty buffer as it went in, and nothing is left behind. This holds of
/// every frame that `frame_one` gives.
pub proof fn lemma_framed_round_trip(message: Seq<u8>)
    requires
        !holds_line_feed(message),
    ensures
        frames(framed(message)) == seq![message],
        rest(framed(message)) == Seq::<u8>::empty(),
{
    let stream = framed(message);
    let n = message.len() as int;
    lemma_skip(stream, 0, 0, n);
    assert(stream.subrange(0, n) =~= message);
    assert(frames_from(stream, n + 1, n + 1) =~= Seq::<Seq<u8>>::empty());
    assert(seq![message] + Seq::<Seq<u8>>::empty() =~= seq![message]);
    assert(stream[n] == LINE_FEED);
    assert(rest_from(stream, n + 1, n + 1) == n + 1);
    assert(rest_from(stream, 0, n) == n + 1);
    assert(rest(stream) =~= Seq::<u8>::empty());
}

} // verus!
