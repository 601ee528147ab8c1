//! SLIP-style framing: a payload is wrapped between delimiter bytes, and any
//! embedded delimiter or escape byte is replaced by a two-byte escape
//! sequence. Decoding reverses the escapes and discards malformed frames.

use vstd::prelude::*;
use crate::proto::DELIMITER;
use crate::targets::MAX_FRAME_LEN;
use crate::transport::FatalError;
use crate::transport::RxQueue;
use crate::proto::ESCAPE;
use crate::proto::ESC_DELIMITER;
use crate::proto::ESC_ESCAPE;

verus! {

/// The bytes that stand for `b` inside an encoded frame body.
pub open spec fn spec_escape(b: u8) -> Seq<u8> {
    if b == DELIMITER {
        seq![ESCAPE, ESC_DELIMITER]
    } else if b == ESCAPE {
        seq![ESCAPE, ESC_ESCAPE]
    } else {
        seq![b]
    }
}

/// Body of an encoded frame: each payload byte replaced by its escape form.
pub open spec fn spec_encode_body(p: Seq<u8>) -> Seq<u8>
    decreases p.len(),
{
    if p.len() == 0 {
        Seq::empty()
    } else {
        spec_escape(p.first()) + spec_encode_body(p.drop_first())
    }
}

/// A whole encoded frame: delimiter, escaped body, delimiter.
pub open spec fn spec_encode(p: Seq<u8>) -> Seq<u8> {
    seq![DELIMITER] + spec_encode_body(p) + seq![DELIMITER]
}

/// Un-escaping of a frame body; `None` where the body is malformed
/// (a stray delimiter, a trailing escape, or an invalid escape pair).
pub open spec fn spec_decode_body(s: Seq<u8>) -> Option<Seq<u8>>
    decreases s.len(),
{
    if s.len() == 0 {
        Some(Seq::empty())
    } else if s.first() == ESCAPE {
        if s.len() < 2 {
            None
        } else if s[1] == ESC_DELIMITER {
            match spec_decode_body(s.skip(2)) {
                Some(r) => Some(seq![DELIMITER] + r),
                None => None,
            }
        } else if s[1] == ESC_ESCAPE {
            match spec_decode_body(s.skip(2)) {
                Some(r) => Some(seq![ESCAPE] + r),
                None => None,
            }
        } else {
            None
        }
    } else if s.first() == DELIMITER {
        None
    } else {
        match spec_decode_body(s.drop_first()) {
            Some(r) => Some(seq![s.first()] + r),
            None => None,
        }
    }
}

/// Appending one payload byte appends its escape form to the encoded body.
pub proof fn lemma_encode_body_push(p: Seq<u8>, b: u8)
    ensures
        spec_encode_body(p.push(b)) == spec_encode_body(p) + spec_escape(b),
    decreases p.len(),
{
    if p.len() == 0 {
        assert(p.push(b).len() == 1);
        assert(p.push(b).first() == b);
        assert(p.push(b).drop_first() =~= Seq::<u8>::empty());
        assert(spec_encode_body(p.push(b)) =~= spec_escape(b) + spec_encode_body(Seq::<u8>::empty()));
        assert(spec_escape(b) + Seq::<u8>::empty() =~= spec_escape(b));
        assert(spec_encode_body(p) + spec_escape(b) =~= spec_escape(b));
    } else {
        assert(p.push(b).drop_first() =~= p.drop_first().push(b));
        assert(p.push(b).first() == p.first());
        lemma_encode_body_push(p.drop_first(), b);
        assert(spec_encode_body(p.push(b)) =~= spec_encode_body(p) + spec_escape(b));
    }
}

/// The escaped body of any payload never contains a raw delimiter byte.
pub proof fn lemma_encode_body_no_delimiter(p: Seq<u8>)
    ensures
        forall|i: int| 0 <= i < spec_encode_body(p).len() ==> spec_encode_body(p)[i] != DELIMITER,
    decreases p.len(),
{
    if p.len() > 0 {
        lemma_encode_body_no_delimiter(p.drop_first());
        assert forall|i: int| 0 <= i < spec_encode_body(p).len()
            implies spec_encode_body(p)[i] != DELIMITER
        by {
            let e = spec_escape(p.first());
            if i < e.len() {
                assert(spec_encode_body(p)[i] == e[i]);
            } else {
                assert(spec_encode_body(p)[i] == spec_encode_body(p.drop_first())[i - e.len()]);
            }
        }
    }
}

/// Law: encoding never emits a raw delimiter except at the two frame
/// boundaries, whatever bytes the payload contains.
pub proof fn lemma_encode_no_raw_delimiter(p: Seq<u8>)
    ensures
        spec_encode(p).len() >= 2,
        spec_encode(p).first() == DELIMITER,
        spec_encode(p).last() == DELIMITER,
        forall|i: int| 0 < i < spec_encode(p).len() - 1 ==> spec_encode(p)[i] != DELIMITER,
{
    lemma_encode_body_no_delimiter(p);
    assert forall|i: int| 0 < i < spec_encode(p).len() - 1 implies spec_encode(p)[i] != DELIMITER
    by {
        assert(spec_encode(p)[i] == spec_encode_body(p)[i - 1]);
    }
}

/// Law: decoding the escaped body of any payload gives the payload back.
pub proof fn lemma_decode_encode_body(p: Seq<u8>)
    ensures
        spec_decode_body(spec_encode_body(p)) == Some(p),
    decreases p.len(),
{
    if p.len() == 0 {
        assert(spec_decode_body(spec_encode_body(p)) =~= Some(p));
        assert(Some(Seq::<u8>::empty()) == Some(p)) by {
            assert(Seq::<u8>::empty() =~= p);
        }
    } else {
        let b = p.first();
        let rest = p.drop_first();
        lemma_decode_encode_body(rest);
        let s = spec_encode_body(p);
        if b == DELIMITER {
            assert(s.skip(2) =~= spec_encode_body(rest));
            assert(spec_decode_body(s) == Some(seq![DELIMITER] + rest));
            assert(seq![DELIMITER] + rest =~= p);
        } else if b == ESCAPE {
            assert(s.skip(2) =~= spec_encode_body(rest));
            assert(spec_decode_body(s) == Some(seq![ESCAPE] + rest));
            assert(seq![ESCAPE] + rest =~= p);
        } else {
            assert(s.first() == b);
            assert(s.drop_first() =~= spec_encode_body(rest));
            assert(spec_decode_body(s) == Some(seq![b] + rest));
            assert(seq![b] + rest =~= p);
        }
    }
}

/// Law: a full round trip through the codec returns the payload unchanged.
pub proof fn lemma_slip_round_trip(p: Seq<u8>)
    ensures
        spec_decode_body(spec_encode(p).subrange(1, spec_encode(p).len() - 1)) == Some(p),
{
    assert(spec_encode(p).subrange(1, spec_encode(p).len() - 1) =~= spec_encode_body(p));
    lemma_decode_encode_body(p);
}

/// Encodes one payload as a delimited, escaped frame.
pub fn encode_frame(p: &[u8]) -> (r: Vec<u8>)
    ensures
        r@ == spec_encode(p@),
{
    let mut out: Vec<u8> = Vec::new();
    out.push(DELIMITER);
    let mut i: usize = 0;
    while i < p.len()
        invariant
            i <= p@.len(),
            out@ == seq![DELIMITER] + spec_encode_body(p@.take(i as int)),
        decreases p@.len() - i,
    {
        let b = p[i];
        if b == DELIMITER {
            out.push(ESCAPE);
            out.push(ESC_DELIMITER);
        } else if b == ESCAPE {
            out.push(ESCAPE);
            out.push(ESC_ESCAPE);
        } else {
            out.push(b);
        }
        proof {
            assert(p@.take(i + 1) =~= p@.take(i as int).push(p@[i as int]));
            lemma_encode_body_push(p@.take(i as int), p@[i as int]);
            assert(out@ =~= seq![DELIMITER] + spec_encode_body(p@.take(i + 1)));
        }
        i = i + 1;
    }
    out.push(DELIMITER);
    proof {
        assert(p@.take(p@.len() as int) =~= p@);
        assert(out@ =~= spec_encode(p@));
    }
    out
}

/// Why a frame body was rejected by the decoder.
#[derive(Clone, Copy, PartialEq, Eq, Structural, Debug)]
pub enum FrameError {
    /// The body ends in an escape byte with no second byte after it.
    UnterminatedEscape,
    /// An escape byte is followed by a byte that is no escape code.
    InvalidEscape,
    /// A raw delimiter byte stands inside the body.
    StrayDelimiter,
}

/// Decodes the bytes that stood between two delimiters back into a payload.
/// Fails exactly on the malformed bodies that `spec_decode_body` rejects.
pub fn decode_frame(s: &[u8]) -> (r: Result<Vec<u8>, FrameError>)
    ensures
        r is Ok <==> spec_decode_body(s@) is Some,
        r matches Ok(v) ==> spec_decode_body(s@) == Some(v@),
{
    let mut out: Vec<u8> = Vec::new();
    let mut i: usize = 0;
    proof {
        assert(s@.skip(0) =~= s@);
    }
    while i < s.len()
        invariant
            i <= s@.len(),
            spec_decode_body(s@) matches Some(d) ==> (
                spec_decode_body(s@.skip(i as int)) matches Some(t) && d == out@ + t),
            spec_decode_body(s@.skip(i as int)) is Some ==> spec_decode_body(s@) is Some,
        decreases s@.len() - i,
    {
        let ghost pre = s@.skip(i as int);
        let b = s[i];
        proof {
            assert(pre.first() == s@[i as int]);
        }
        if b == ESCAPE {
            if i + 1 == s.len() {
                proof {
                    assert(spec_decode_body(pre) is None);
                }
                return Err(FrameError::UnterminatedEscape);
            }
            let c = s[i + 1];
            proof {
                assert(pre[1] == s@[i + 1]);
                assert(pre.skip(2) =~= s@.skip(i + 2));
            }
            if c == ESC_DELIMITER {
                out.push(DELIMITER);
            } else if c == ESC_ESCAPE {
                out.push(ESCAPE);
            } else {
                proof {
                    assert(spec_decode_body(pre) is None);
                }
                return Err(FrameError::InvalidEscape);
            }
            proof {
                if spec_decode_body(s@) is Some {
                    let d = spec_decode_body(s@)->Some_0;
                    assert(spec_decode_body(s@.skip(i + 2)) is Some);
                    assert(d == out@ + spec_decode_body(s@.skip(i + 2))->Some_0);
                }
                if spec_decode_body(s@.skip(i + 2)) is Some {
                    assert(spec_decode_body(pre) is Some);
                }
            }
            i = i + 2;
        } else if b == DELIMITER {
            proof {
                assert(spec_decode_body(pre) is None);
            }
            return Err(FrameError::StrayDelimiter);
        } else {
            out.push(b);
            proof {
                assert(pre.drop_first() =~= s@.skip(i + 1));
                if spec_decode_body(s@) is Some {
                    let d = spec_decode_body(s@)->Some_0;
                    assert(spec_decode_body(s@.skip(i + 1)) is Some);
                    assert(d == out@ + spec_decode_body(s@.skip(i + 1))->Some_0);
                }
                if spec_decode_body(s@.skip(i + 1)) is Some {
                    assert(spec_decode_body(pre) is Some);
                }
            }
            i = i + 1;
        }
    }
    proof {
        assert(s@.skip(s@.len() as int) =~= Seq::<u8>::empty());
        if spec_decode_body(s@) is Some {
            assert(spec_decode_body(s@)->Some_0 =~= out@);
        }
    }
    Ok(out)
}


/// Spec-level state of the streaming framer.
#[verifier::ext_equal]
pub ghost struct FramerModel {
    pub in_frame: bool,
    pub pending_escape: bool,
    pub discarding: bool,
    pub acc: Seq<u8>,
}

/// The framer's state before any byte: outside a frame.
pub open spec fn spec_framer_init() -> FramerModel {
    FramerModel { in_frame: false, pending_escape: false, discarding: false, acc: Seq::empty() }
}

/// The framer's transition on one raw byte: what state it moves to and which
/// completed frame, if any, it emits. Garbage between frames is skipped; a
/// malformed or overlong frame is discarded and the framer resynchronizes on
/// the next delimiter.
pub open spec fn spec_feed(m: FramerModel, b: u8) -> (FramerModel, Option<Seq<u8>>) {
    if !m.in_frame || m.discarding {
        if b == DELIMITER {
            (
                FramerModel {
                    in_frame: true,
                    pending_escape: false,
                    discarding: false,
                    acc: Seq::empty(),
                },
                None,
            )
        } else {
            (m, None)
        }
    } else if m.pending_escape {
        if b == ESC_DELIMITER {
            (FramerModel { pending_escape: false, acc: m.acc.push(DELIMITER), ..m }, None)
        } else if b == ESC_ESCAPE {
            (FramerModel { pending_escape: false, acc: m.acc.push(ESCAPE), ..m }, None)
        } else {
            (FramerModel { pending_escape: false, discarding: true, ..m }, None)
        }
    } else if b == DELIMITER {
        if m.acc.len() == 0 {
            (m, None)
        } else {
            (FramerModel { in_frame: false, acc: Seq::empty(), ..m }, Some(m.acc))
        }
    } else if b == ESCAPE {
        (FramerModel { pending_escape: true, ..m }, None)
    } else if m.acc.len() >= MAX_FRAME_LEN {
        (FramerModel { discarding: true, ..m }, None)
    } else {
        (FramerModel { acc: m.acc.push(b), ..m }, None)
    }
}

/// The streaming decoder: accumulates the payload of the frame in progress
/// and hands out each completed frame.
pub struct Framer {
    acc: Vec<u8>,
    in_frame: bool,
    pending_escape: bool,
    discarding: bool,
}

impl Framer {
    /// The spec-level state of the framer.
    pub closed spec fn model(&self) -> FramerModel {
        FramerModel {
            in_frame: self.in_frame,
            pending_escape: self.pending_escape,
            discarding: self.discarding,
            acc: self.acc@,
        }
    }

    /// A framer waiting for the first delimiter.
    pub fn new() -> (r: Framer)
        ensures
            r.model() == spec_framer_init(),
    {
        let r = Framer { acc: Vec::new(), in_frame: false, pending_escape: false,
            discarding: false };
        proof {
            assert(r.model() =~= spec_framer_init());
        }
        r
    }

    /// Drops any partial frame and waits for the next delimiter, as `SYNC`
    /// demands of the byte stream.
    pub fn reset(&mut self)
        ensures
            final(self).model() == spec_framer_init(),
    {
        self.acc.clear();
        self.in_frame = false;
        self.pending_escape = false;
        self.discarding = false;
        proof {
            assert(self.model() =~= spec_framer_init());
        }
    }

    /// Feeds one raw byte; returns the decoded frame it completed, if any.
    pub fn feed(&mut self, b: u8) -> (r: Option<Vec<u8>>)
        ensures
            ({
                let (m2, e) = spec_feed(old(self).model(), b);
                &&& final(self).model() == m2
                &&& (r is Some <==> e is Some)
                &&& (r matches Some(v) ==> e == Some(v@))
            }),
    {
        if !self.in_frame || self.discarding {
            if b == DELIMITER {
                self.acc.clear();
                self.in_frame = true;
                self.pending_escape = false;
                self.discarding = false;
                proof {
                    assert(self.model() =~= spec_feed(old(self).model(), b).0);
                }
            }
            None
        } else if self.pending_escape {
            self.pending_escape = false;
            if b == ESC_DELIMITER {
                self.acc.push(DELIMITER);
            } else if b == ESC_ESCAPE {
                self.acc.push(ESCAPE);
            } else {
                self.discarding = true;
            }
            proof {
                assert(self.model() =~= spec_feed(old(self).model(), b).0);
            }
            None
        } else if b == DELIMITER {
            if self.acc.len() == 0 {
                None
            } else {
                let mut out: Vec<u8> = Vec::new();
                core::mem::swap(&mut out, &mut self.acc);
                self.in_frame = false;
                proof {
                    assert(self.model() =~= spec_feed(old(self).model(), b).0);
                }
                Some(out)
            }
        } else if b == ESCAPE {
            self.pending_escape = true;
            None
        } else if self.acc.len() >= MAX_FRAME_LEN {
            self.discarding = true;
            None
        } else {
            self.acc.push(b);
            proof {
                assert(self.model() =~= spec_feed(old(self).model(), b).0);
            }
            None
        }
    }
}

/// Moves one byte from the receive queue into the framer. A queue that has
/// overflowed is reported as fatal instead: after a dropped byte no decode
/// attempt may trust the stream again, so no truncated frame is ever handed
/// out.
pub fn poll_frame(q: &mut RxQueue, f: &mut Framer) -> (r: Result<Option<Vec<u8>>, FatalError>)
    requires
        old(q).wf(),
    ensures
        final(q).wf(),
        final(q).capacity() == old(q).capacity(),
        final(q).overflow() == old(q).overflow(),
        old(q).overflow() ==> {
            &&& r is Err
            &&& r == Err::<Option<Vec<u8>>, FatalError>(FatalError::RxOverflow)
            &&& final(q).contents() == old(q).contents()
            &&& final(f).model() == old(f).model()
        },
        !old(q).overflow() ==> r is Ok,
        !old(q).overflow() && old(q).contents().len() == 0 ==> {
            &&& r == Ok::<Option<Vec<u8>>, FatalError>(None)
            &&& final(q).contents() == old(q).contents()
            &&& final(f).model() == old(f).model()
        },
        !old(q).overflow() && old(q).contents().len() > 0 ==> {
            let (m2, e) = spec_feed(old(f).model(), old(q).contents().first());
            &&& final(q).contents() == old(q).contents().drop_first()
            &&& final(f).model() == m2
            &&& (r matches Ok(emitted) && (emitted is Some <==> e is Some)
                && (emitted matches Some(v) ==> e == Some(v@)))
        },
{
    if q.has_overflowed() {
        return Err(FatalError::RxOverflow);
    }
    match q.pop() {
        None => Ok(None),
        Some(b) => Ok(f.feed(b)),
    }
}

} // verus!
