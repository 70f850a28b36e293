//! Annex-B start-code splitter.
//!
//! Encoded video arrives in chunks of arbitrary size that need not align
//! with unit boundaries.  The splitter accumulates bytes, recognises the
//! start-code patterns `00 00 01` and `00 00 00 01`, and hands out each
//! completed start-code-delimited unit (without its start code).  Units
//! shorter than four bytes are degenerate fragments and are dropped
//! silently.  The trailing unit is held until more input arrives or the
//! splitter is flushed at teardown; without the flush the last unit of a
//! stream would be lost.
//!
//! The same delimiting serves both supported codecs; the mode flag only
//! records which codec the stream carries.

use vstd::prelude::*;

verus! {

/// Abstract splitter state: the units emitted so far and the bytes still
/// pending behind the last recognised start code.
#[verifier::ext_equal]
pub struct SplitModel {
    pub emitted: Seq<Seq<u8>>,
    pub pending: Seq<u8>,
}

/// State of a splitter that has seen nothing.
pub open spec fn empty_model() -> SplitModel {
    SplitModel { emitted: Seq::empty(), pending: Seq::empty() }
}

/// The last three bytes of `s` are the start-code pattern `00 00 01`.
pub open spec fn ends_with_code(s: Seq<u8>) -> bool {
    s.len() >= 3 && s[s.len() - 3] == 0 && s[s.len() - 2] == 0 && s[s.len() - 1] == 1
}

/// Bytes of a completed unit: what stood before the start code, less one
/// trailing zero when the code was the four-byte form `00 00 00 01`.
pub open spec fn complete_unit(body: Seq<u8>) -> Seq<u8> {
    if body.len() > 0 && body.last() == 0 {
        body.drop_last()
    } else {
        body
    }
}

/// Units of four bytes or more carry a frame; shorter fragments are
/// dropped.
pub open spec fn unit_kept(unit: Seq<u8>) -> bool {
    unit.len() >= 4
}

/// Feed one byte: append it to the pending bytes and, when they now end in
/// a start code, complete the unit standing before that code.
pub open spec fn feed_byte(m: SplitModel, b: u8) -> SplitModel {
    let buf = m.pending.push(b);
    if ends_with_code(buf) {
        let unit = complete_unit(buf.take(buf.len() - 3));
        SplitModel {
            emitted: if unit_kept(unit) {
                m.emitted.push(unit)
            } else {
                m.emitted
            },
            pending: Seq::empty(),
        }
    } else {
        SplitModel { emitted: m.emitted, pending: buf }
    }
}

/// Feed a whole chunk, byte by byte, first byte first.
pub open spec fn feed_bytes(m: SplitModel, s: Seq<u8>) -> SplitModel
    decreases s.len(),
{
    if s.len() == 0 {
        m
    } else {
        feed_bytes(feed_byte(m, s[0]), s.skip(1))
    }
}

/// Feeding a chunk extended by one byte is feeding the chunk, then the
/// byte.
pub proof fn lemma_feed_bytes_snoc(m: SplitModel, s: Seq<u8>, b: u8)
    ensures
        feed_bytes(m, s.push(b)) == feed_byte(feed_bytes(m, s), b),
    decreases s.len(),
{
    reveal_with_fuel(feed_bytes, 2);
    if s.len() == 0 {
        assert(s.push(b)[0] == b);
        assert(s.push(b).skip(1) =~= Seq::<u8>::empty());
    } else {
        assert(s.push(b)[0] == s[0]);
        assert(s.push(b).skip(1) =~= s.skip(1).push(b));
        lemma_feed_bytes_snoc(feed_byte(m, s[0]), s.skip(1), b);
    }
}

/// Chunking independence: feeding two chunks in turn is feeding their
/// concatenation.  However a byte stream is cut into chunks, the splitter
/// emits the units of the concatenated stream.
pub proof fn lemma_feed_bytes_concat(m: SplitModel, a: Seq<u8>, b: Seq<u8>)
    ensures
        feed_bytes(m, a + b) == feed_bytes(feed_bytes(m, a), b),
    decreases b.len(),
{
    if b.len() == 0 {
        assert(a + b =~= a);
    } else {
        let b0 = b.drop_last();
        lemma_feed_bytes_concat(m, a, b0);
        assert(a + b =~= (a + b0).push(b.last()));
        lemma_feed_bytes_snoc(m, a + b0, b.last());
        assert(b0.push(b.last()) =~= b);
        lemma_feed_bytes_snoc(feed_bytes(m, a), b0, b.last());
    }
}

/// What a run emits comes after what was already emitted, and depends only
/// on the pending bytes and the new input.
pub proof fn lemma_feed_bytes_emitted(m: SplitModel, s: Seq<u8>)
    ensures
        feed_bytes(m, s).pending == feed_bytes(
            SplitModel { emitted: Seq::empty(), pending: m.pending },
            s,
        ).pending,
        feed_bytes(m, s).emitted =~= m.emitted + feed_bytes(
            SplitModel { emitted: Seq::empty(), pending: m.pending },
            s,
        ).emitted,
    decreases s.len(),
{
    let m0 = SplitModel { emitted: Seq::empty(), pending: m.pending };
    if s.len() == 0 {
    } else {
        let ma = feed_byte(m, s[0]);
        let m0a = feed_byte(m0, s[0]);
        assert(m0a.pending == ma.pending);
        assert(ma.emitted =~= m.emitted + m0a.emitted);
        lemma_feed_bytes_emitted(ma, s.skip(1));
        lemma_feed_bytes_emitted(m0a, s.skip(1));
        let mid = SplitModel { emitted: Seq::empty(), pending: ma.pending };
        assert(feed_bytes(ma, s.skip(1)).emitted =~= ma.emitted + feed_bytes(
            mid,
            s.skip(1),
        ).emitted);
        assert(feed_bytes(m0a, s.skip(1)).emitted =~= m0a.emitted + feed_bytes(
            mid,
            s.skip(1),
        ).emitted);
    }
}

/// Stateful start-code splitter.
pub struct H264Splitter {
    buf: Vec<u8>,
    h265: bool,
    fed: Ghost<Seq<u8>>,
    units: Ghost<Seq<Seq<u8>>>,
}

impl H264Splitter {
    /// Every byte fed since creation (or the last flush), in order.
    pub closed spec fn fed(&self) -> Seq<u8> {
        self.fed@
    }

    /// Every unit emitted since creation (or the last flush), in order.
    pub closed spec fn emitted(&self) -> Seq<Seq<u8>> {
        self.units@
    }

    /// Bytes accumulated behind the last recognised start code.
    pub closed spec fn pending(&self) -> Seq<u8> {
        self.buf@
    }

    /// Whether the splitter was created for the HEVC codec.
    pub closed spec fn spec_is_h265(&self) -> bool {
        self.h265
    }

    /// The exec state is exactly the model of the bytes fed so far: the
    /// emitted units and the pending tail are those of one pass over the
    /// concatenation of all chunks.
    pub closed spec fn wf(&self) -> bool {
        feed_bytes(empty_model(), self.fed@) == SplitModel {
            emitted: self.units@,
            pending: self.buf@,
        }
    }

    /// However the stream was cut into chunks, what stands emitted and
    /// pending is exactly the result of one pass over the concatenation
    /// of every byte fed: the chunk boundaries leave no trace.
    pub proof fn lemma_accounts_for_stream(&self)
        requires
            self.wf(),
        ensures
            feed_bytes(empty_model(), self.fed()) == (SplitModel {
                emitted: self.emitted(),
                pending: self.pending(),
            }),
    {
    }

    /// A fresh splitter has seen nothing and emitted nothing.
    pub fn new(h265: bool) -> (r: Self)
        ensures
            r.wf(),
            r.fed() == Seq::<u8>::empty(),
            r.emitted() == Seq::<Seq<u8>>::empty(),
            r.pending() == Seq::<u8>::empty(),
            r.spec_is_h265() == h265,
    {
        let r = H264Splitter {
            buf: Vec::new(),
            h265,
            fed: Ghost(Seq::empty()),
            units: Ghost(Seq::empty()),
        };
        proof {
            assert(feed_bytes(empty_model(), Seq::<u8>::empty()) =~~= SplitModel {
                emitted: r.units@,
                pending: r.buf@,
            });
        }
        r
    }

    /// Feed one chunk; the returned vector holds each unit the chunk
    /// completed, in order.
    pub fn input(&mut self, data: &[u8]) -> (out: Vec<Vec<u8>>)
        requires
            old(self).wf(),
        ensures
            final(self).wf(),
            final(self).spec_is_h265() == old(self).spec_is_h265(),
            final(self).fed() == old(self).fed() + data@,
            final(self).emitted() == old(self).emitted() + out.deep_view(),
            out.deep_view() == feed_bytes(
                SplitModel { emitted: Seq::empty(), pending: old(self).pending() },
                data@,
            ).emitted,
            final(self).pending() == feed_bytes(
                SplitModel { emitted: Seq::empty(), pending: old(self).pending() },
                data@,
            ).pending,
    {
        let ghost start = SplitModel { emitted: Seq::empty(), pending: old(self).buf@ };
        let mut out: Vec<Vec<u8>> = Vec::new();
        let mut i: usize = 0;
        while i < data.len()
            invariant
                i <= data@.len(),
                feed_bytes(start, data@.take(i as int)) == (SplitModel {
                    emitted: out.deep_view(),
                    pending: self.buf@,
                }),
                self.h265 == old(self).h265,
                self.fed@ == old(self).fed@,
                self.units@ == old(self).units@,
            decreases data@.len() - i,
        {
            let ghost pre = SplitModel { emitted: out.deep_view(), pending: self.buf@ };
            let b = data[i];
            self.buf.push(b);
            let l = self.buf.len();
            if l >= 3 && self.buf[l - 3] == 0 && self.buf[l - 2] == 0 && self.buf[l - 1] == 1 {
                let body_len = l - 3;
                let cut = if body_len > 0 && self.buf[body_len - 1] == 0 {
                    body_len - 1
                } else {
                    body_len
                };
                proof {
                    assert(self.buf@.take(body_len as int) =~= pre.pending.push(b).take(
                        body_len as int,
                    ));
                    assert(complete_unit(self.buf@.take(body_len as int)) =~= self.buf@.take(
                        cut as int,
                    ));
                }
                if cut >= 4 {
                    let mut unit: Vec<u8> = Vec::new();
                    let mut j: usize = 0;
                    while j < cut
                        invariant
                            j <= cut,
                            cut <= self.buf@.len(),
                            unit@ == self.buf@.take(cut as int).take(j as int),
                        decreases cut - j,
                    {
                        unit.push(self.buf[j]);
                        proof {
                            assert(self.buf@.take(cut as int).take(j as int + 1)
                                =~= self.buf@.take(cut as int).take(j as int).push(
                                self.buf@[j as int],
                            ));
                        }
                        j = j + 1;
                    }
                    proof {
                        assert(unit@ =~= self.buf@.take(cut as int));
                    }
                    out.push(unit);
                }
                self.buf.clear();
            }
            proof {
                assert(data@.take(i as int + 1) =~= data@.take(i as int).push(data@[i as int]));
                lemma_feed_bytes_snoc(start, data@.take(i as int), data@[i as int]);
                assert(feed_byte(pre, b) =~~= SplitModel {
                    emitted: out.deep_view(),
                    pending: self.buf@,
                });
            }
            i = i + 1;
        }
        proof {
            assert(data@.take(data@.len() as int) =~= data@);
        }
        self.fed = Ghost(self.fed@ + data@);
        self.units = Ghost(self.units@ + out.deep_view());
        proof {
            lemma_feed_bytes_concat(empty_model(), old(self).fed@, data@);
            lemma_feed_bytes_emitted(
                SplitModel { emitted: old(self).units@, pending: old(self).buf@ },
                data@,
            );
            assert(feed_bytes(empty_model(), self.fed@) =~~= SplitModel {
                emitted: self.units@,
                pending: self.buf@,
            });
        }
        out
    }

    /// Flush at teardown: hand out the held trailing unit when it is long
    /// enough to carry a frame, drop it otherwise, and reset the splitter.
    pub fn flush(&mut self) -> (out: Option<Vec<u8>>)
        requires
            old(self).wf(),
        ensures
            final(self).wf(),
            final(self).spec_is_h265() == old(self).spec_is_h265(),
            final(self).fed() == Seq::<u8>::empty(),
            final(self).emitted() == Seq::<Seq<u8>>::empty(),
            final(self).pending() == Seq::<u8>::empty(),
            match out {
                Some(unit) => unit_kept(old(self).pending()) && unit@ == old(self).pending(),
                None => !unit_kept(old(self).pending()),
            },
    {
        let out = if self.buf.len() >= 4 {
            let mut unit: Vec<u8> = Vec::new();
            let mut j: usize = 0;
            while j < self.buf.len()
                invariant
                    j <= self.buf@.len(),
                    unit@ == self.buf@.take(j as int),
                    self.buf@ == old(self).buf@,
                decreases self.buf@.len() - j,
            {
                unit.push(self.buf[j]);
                proof {
                    assert(self.buf@.take(j as int + 1) =~= self.buf@.take(j as int).push(
                        self.buf@[j as int],
                    ));
                }
                j = j + 1;
            }
            proof {
                assert(unit@ =~= self.buf@);
            }
            Some(unit)
        } else {
            None
        };
        self.buf.clear();
        self.fed = Ghost(Seq::empty());
        self.units = Ghost(Seq::empty());
        proof {
            assert(feed_bytes(empty_model(), Seq::<u8>::empty()) =~~= SplitModel {
                emitted: self.units@,
                pending: self.buf@,
            });
        }
        out
    }

    /// Which codec the splitter was created for.
    pub fn is_h265(&self) -> (r: bool)
        ensures
            r == self.spec_is_h265(),
    {
        self.h265
    }
}

} // verus!

