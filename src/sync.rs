use vstd::prelude::*;

use crate::layout::FRAME_LEN;

verus! {

/// The fragment begins with the acknowledgment sentinel `AA 55`: an echo of a command.
pub open spec fn is_ack(f: Seq<u8>) -> bool {
    f.len() >= 2 && f[0] == 0xAA && f[1] == 0x55
}

/// The fragment begins with the frame-start sentinel `55 AA EB 90`.
pub open spec fn is_frame_start(f: Seq<u8>) -> bool {
    f.len() >= 4 && f[0] == 0x55 && f[1] == 0xAA && f[2] == 0xEB && f[3] == 0x90
}

/// Where a buffer goes after it grew: a full frame is emitted and the state returns to
/// idle; a short one keeps accumulating; one past the frame length is abandoned.
/// Results are (next state, emitted frame); a state of `None` is idle.
pub open spec fn settle(buf: Seq<u8>) -> (Option<Seq<u8>>, Option<Seq<u8>>) {
    if buf.len() == FRAME_LEN {
        (None, Some(buf))
    } else if buf.len() < FRAME_LEN {
        (Some(buf), None)
    } else {
        (None, None)
    }
}

/// One transition of the synchronizer on fragment `f`: (next state, emitted frame).
pub open spec fn step(state: Option<Seq<u8>>, f: Seq<u8>) -> (Option<Seq<u8>>, Option<Seq<u8>>) {
    if is_ack(f) {
        (state, None)
    } else if is_frame_start(f) {
        settle(f)
    } else {
        match state {
            None => (None, None),
            Some(buf) => settle(buf + f),
        }
    }
}

/// The state after feeding `frags` in order, and the frames emitted on the way.
pub open spec fn run(state: Option<Seq<u8>>, frags: Seq<Seq<u8>>) -> (
    Option<Seq<u8>>,
    Seq<Seq<u8>>,
)
    decreases frags.len(),
{
    if frags.len() == 0 {
        (state, Seq::empty())
    } else {
        let (next, out) = step(state, frags[0]);
        let (last, rest) = run(next, frags.drop_first());
        match out {
            Some(frame) => (last, seq![frame] + rest),
            None => (last, rest),
        }
    }
}

/// An optional byte vector as an optional sequence.
pub open spec fn opt_bytes(o: Option<Vec<u8>>) -> Option<Seq<u8>> {
    match o {
        Some(v) => Some(v@),
        None => None,
    }
}

/// Where the synchronizer stands between fragments.
#[derive(Debug)]
pub enum SyncState {
    /// No frame in progress.
    Idle,
    /// A frame has started; the bytes gathered so far.
    Accumulating(Vec<u8>),
}

/// Reassembles frames from the fragments of one connection.
#[derive(Debug)]
pub struct Synchronizer {
    state: SyncState,
}

impl View for Synchronizer {
    type V = Option<Seq<u8>>;

    closed spec fn view(&self) -> Option<Seq<u8>> {
        match self.state {
            SyncState::Idle => None,
            SyncState::Accumulating(buf) => Some(buf@),
        }
    }
}

fn starts_with_ack(f: &Vec<u8>) -> (r: bool)
    ensures
        r == is_ack(f@),
{
    f.len() >= 2 && f[0] == 0xAA && f[1] == 0x55
}

fn starts_frame(f: &Vec<u8>) -> (r: bool)
    ensures
        r == is_frame_start(f@),
{
    f.len() >= 4 && f[0] == 0x55 && f[1] == 0xAA && f[2] == 0xEB && f[3] == 0x90
}

fn append_bytes(dst: &mut Vec<u8>, src: &Vec<u8>)
    ensures
        final(dst)@ == old(dst)@ + src@,
{
    let mut i: usize = 0;
    while i < src.len()
        invariant
            i <= src@.len(),
            dst@ == old(dst)@ + src@.subrange(0, i as int),
        decreases src@.len() - i,
    {
        dst.push(src[i]);
        i += 1;
        assert(dst@ =~= old(dst)@ + src@.subrange(0, i as int));
    }
    assert(src@.subrange(0, src@.len() as int) =~= src@);
}

impl Synchronizer {
    /// Every buffer in progress is shorter than a frame.
    pub closed spec fn wf(&self) -> bool {
        match self.view() {
            None => true,
            Some(buf) => buf.len() < FRAME_LEN,
        }
    }

    /// A synchronizer with no frame in progress.
    pub fn new() -> (r: Synchronizer)
        ensures
            r.wf(),
            r@ is None,
    {
        Synchronizer { state: SyncState::Idle }
    }

    /// True when no frame is in progress.
    pub fn is_idle(&self) -> (r: bool)
        ensures
            r == (self@ is None),
    {
        match self.state {
            SyncState::Idle => true,
            SyncState::Accumulating(_) => false,
        }
    }

    /// Number of bytes gathered for the frame in progress (0 when idle).
    pub fn buffered_len(&self) -> (r: usize)
        ensures
            r == match self@ {
                None => 0,
                Some(buf) => buf.len(),
            },
    {
        match &self.state {
            SyncState::Idle => 0,
            SyncState::Accumulating(buf) => buf.len(),
        }
    }

    /// Moves to the state that `buf` settles to, returning a completed frame if any.
    fn settle_buffer(&mut self, buf: Vec<u8>) -> (r: Option<Vec<u8>>)
        ensures
            final(self).wf(),
            (final(self)@, opt_bytes(r)) == settle(buf@),
    {
        if buf.len() == FRAME_LEN {
            self.state = SyncState::Idle;
            Some(buf)
        } else if buf.len() < FRAME_LEN {
            self.state = SyncState::Accumulating(buf);
            None
        } else {
            self.state = SyncState::Idle;
            None
        }
    }

    /// Takes one fragment from the transport; returns the frame it completes, if any.
    /// Acknowledgments are ignored, a frame-start restarts the buffer, other fragments
    /// extend a frame in progress or are dropped as noise, and a frame that would grow
    /// past its length is abandoned.
    pub fn feed(&mut self, fragment: &Vec<u8>) -> (r: Option<Vec<u8>>)
        requires
            old(self).wf(),
        ensures
            final(self).wf(),
            (final(self)@, opt_bytes(r)) == step(old(self)@, fragment@),
    {
        if starts_with_ack(fragment) {
            return None;
        }
        if starts_frame(fragment) {
            if fragment.len() > FRAME_LEN {
                self.state = SyncState::Idle;
                return None;
            }
            let mut buf: Vec<u8> = Vec::new();
            append_bytes(&mut buf, fragment);
            assert(buf@ =~= fragment@);
            return self.settle_buffer(buf);
        }
        let mut taken = SyncState::Idle;
        std::mem::swap(&mut self.state, &mut taken);
        match taken {
            SyncState::Idle => None,
            SyncState::Accumulating(mut buf) => {
                if fragment.len() > FRAME_LEN - buf.len() {
                    None
                } else {
                    append_bytes(&mut buf, fragment);
                    self.settle_buffer(buf)
                }
            },
        }
    }


    /// Feeds each fragment in order; returns the frames completed on the way.
    pub fn feed_all(&mut self, frags: &Vec<Vec<u8>>) -> (r: Vec<Vec<u8>>)
        requires
            old(self).wf(),
        ensures
            final(self).wf(),
            (final(self)@, r.deep_view()) == run(old(self)@, frags.deep_view()),
    {
        let ghost d = frags.deep_view();
        let mut out: Vec<Vec<u8>> = Vec::new();
        let mut i: usize = 0;
        assert(d.skip(0) =~= d);
        assert(out.deep_view() + run(self@, d).1 =~= run(self@, d).1);
        while i < frags.len()
            invariant
                self.wf(),
                i <= frags@.len(),
                d == frags.deep_view(),
                run(old(self)@, d) == (run(self@, d.skip(i as int)).0, out.deep_view() + run(
                    self@,
                    d.skip(i as int),
                ).1),
            decreases frags@.len() - i,
        {
            let ghost before = self@;
            let ghost out_before = out.deep_view();
            assert(frags[i as int].deep_view() =~= frags[i as int]@);
            assert(d.skip(i as int)[0] == frags[i as int]@);
            assert(d.skip(i as int).drop_first() =~= d.skip(i + 1));
            let done = self.feed(&frags[i]);
            match done {
                Some(frame) => {
                    assert(frame.deep_view() =~= frame@);
                    out.push(frame);
                    assert(out.deep_view() =~= out_before.push(frame@));
                    assert(out.deep_view() + run(self@, d.skip(i + 1)).1 =~= out_before + (seq![
                        frame@,
                    ] + run(self@, d.skip(i + 1)).1));
                },
                None => {},
            }
            i += 1;
        }
        assert(d.skip(i as int) =~= Seq::<Seq<u8>>::empty());
        assert(out.deep_view() + Seq::<Seq<u8>>::empty() =~= out.deep_view());
        out
    }
}

/// Bytes gathered in a state (0 when idle).
pub open spec fn buffered(state: Option<Seq<u8>>) -> int {
    match state {
        None => 0,
        Some(buf) => buf.len() as int,
    }
}

/// No fragment in `frags` is a sentinel of either kind.
pub open spec fn plain_fragments(frags: Seq<Seq<u8>>) -> bool {
    forall|k: int| 0 <= k < frags.len() ==> !is_ack(#[trigger] frags[k]) && !is_frame_start(frags[k])
}

proof fn lemma_flatten_take_one(frags: Seq<Seq<u8>>)
    requires
        frags.len() >= 1,
    ensures
        frags.take(1).flatten() == frags[0],
{
    let t = frags.take(1);
    assert(t.drop_first() =~= Seq::<Seq<u8>>::empty());
    assert(t.drop_first().flatten() =~= Seq::<u8>::empty());
    assert(t.flatten() =~= frags[0]);
}

proof fn lemma_flatten_take_shift(frags: Seq<Seq<u8>>, k: int)
    requires
        0 <= k,
        k + 1 <= frags.len(),
    ensures
        frags.take(k + 1).flatten() == frags[0] + frags.drop_first().take(k).flatten(),
{
    let t = frags.take(k + 1);
    assert(t.drop_first() =~= frags.drop_first().take(k));
}

proof fn lemma_accumulate(buf: Seq<u8>, frags: Seq<Seq<u8>>)
    requires
        frags.len() >= 1,
        plain_fragments(frags),
        forall|k: int|
            1 <= k < frags.len() ==> buf.len() + (#[trigger] frags.take(k)).flatten().len()
                < FRAME_LEN,
        buf.len() + frags.flatten().len() == FRAME_LEN,
    ensures
        run(Some(buf), frags) == (None::<Seq<u8>>, seq![buf + frags.flatten()]),
    decreases frags.len(),
{
    let f0 = frags[0];
    let rest = frags.drop_first();
    assert(!is_ack(f0) && !is_frame_start(f0));
    if frags.len() == 1 {
        assert(rest.flatten() =~= Seq::<u8>::empty());
        assert(buf + f0 =~= buf + frags.flatten());
        assert(run(None, rest) == (None::<Seq<u8>>, Seq::<Seq<u8>>::empty()));
        assert(seq![buf + f0] + Seq::<Seq<u8>>::empty() =~= seq![buf + f0]);
    } else {
        lemma_flatten_take_one(frags);
        assert(frags.take(1).flatten().len() < FRAME_LEN - buf.len());
        assert forall|k: int| 1 <= k < rest.len() implies (buf + f0).len() + (#[trigger] rest.take(
            k,
        )).flatten().len() < FRAME_LEN by {
            lemma_flatten_take_shift(frags, k);
            assert(frags.take(k + 1).flatten().len() + buf.len() < FRAME_LEN);
        }
        assert forall|k: int| 0 <= k < rest.len() implies !is_ack(#[trigger] rest[k])
            && !is_frame_start(rest[k]) by {
            assert(rest[k] == frags[k + 1]);
        }
        lemma_accumulate(buf + f0, rest);
        assert((buf + f0) + rest.flatten() =~= buf + frags.flatten());
    }
}

/// A frame-start fragment followed by plain fragments that bring the total to exactly
/// one frame length, and no sooner, emits one frame, the concatenation of them all,
/// and leaves the synchronizer idle, whatever state it started in.
pub proof fn lemma_complete_frame(state: Option<Seq<u8>>, frags: Seq<Seq<u8>>)
    requires
        frags.len() >= 1,
        is_frame_start(frags[0]),
        plain_fragments(frags.drop_first()),
        forall|k: int| 1 <= k < frags.len() ==> (#[trigger] frags.take(k)).flatten().len() < FRAME_LEN,
        frags.flatten().len() == FRAME_LEN,
    ensures
        run(state, frags) == (None::<Seq<u8>>, seq![frags.flatten()]),
{
    let f0 = frags[0];
    let rest = frags.drop_first();
    if frags.len() == 1 {
        assert(rest.flatten() =~= Seq::<u8>::empty());
        assert(f0 =~= frags.flatten());
        assert(run(None, rest) == (None::<Seq<u8>>, Seq::<Seq<u8>>::empty()));
        assert(seq![f0] + Seq::<Seq<u8>>::empty() =~= seq![f0]);
    } else {
        lemma_flatten_take_one(frags);
        assert forall|k: int| 1 <= k < rest.len() implies f0.len() + (#[trigger] rest.take(
            k,
        )).flatten().len() < FRAME_LEN by {
            lemma_flatten_take_shift(frags, k);
            assert(frags.take(k + 1).flatten().len() < FRAME_LEN);
        }
        lemma_accumulate(f0, rest);
        assert(f0 + rest.flatten() =~= frags.flatten());
    }
}

/// Fragments whose bytes, with those already gathered, stay short of one frame
/// emit no frame.
pub proof fn lemma_short_stream_emits_nothing(state: Option<Seq<u8>>, frags: Seq<Seq<u8>>)
    requires
        buffered(state) + frags.flatten().len() < FRAME_LEN,
    ensures
        run(state, frags).1.len() == 0,
    decreases frags.len(),
{
    if frags.len() > 0 {
        let f0 = frags[0];
        let rest = frags.drop_first();
        let next = step(state, f0).0;
        assert(step(state, f0).1 is None);
        assert(buffered(next) <= buffered(state) + f0.len());
        lemma_short_stream_emits_nothing(next, rest);
    }
}

/// An acknowledgment fragment neither starts, extends nor completes a frame: it leaves
/// the state as it was and emits nothing, so a stream runs the same with it removed.
pub proof fn lemma_ack_ignored(state: Option<Seq<u8>>, f: Seq<u8>, frags: Seq<Seq<u8>>)
    requires
        is_ack(f),
    ensures
        step(state, f) == (state, None::<Seq<u8>>),
        run(state, seq![f] + frags) == run(state, frags),
{
    assert((seq![f] + frags).drop_first() =~= frags);
}

/// A frame-start fragment arriving while a frame is in progress drops the partial
/// buffer and starts over from that fragment.
pub proof fn lemma_frame_start_restarts(buf: Seq<u8>, f: Seq<u8>)
    requires
        is_frame_start(f),
        f.len() < FRAME_LEN,
    ensures
        step(Some(buf), f) == (Some(f), None::<Seq<u8>>),
{
}

} // verus!
