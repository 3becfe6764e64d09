use vstd::prelude::*;
use crate::format::{format_words, supported, widen_bytes, DataFormat};
use crate::port::BusPort;
use crate::signal::{
    frames_of, init_trace, lemma_frames_write_exactly, lemma_written_words_concat, word_frame,
    written_words, BusError, BusSignal,
};

verus! {

/// The histories a transmission aborted by a write-strobe fault can leave
/// behind: the words before index `i` fully framed, then word `i`'s
/// framing cut short at the strobe transition that failed — before the bus
/// write if the strobe could not be driven low, right after the sampling
/// edge if the strobe could not be driven high — and nothing of any later
/// word.
pub open spec fn aborted_at(
    pre: Seq<BusSignal>,
    post: Seq<BusSignal>,
    words: Seq<u16>,
    i: int,
) -> bool {
    ||| post == pre + frames_of(words.take(i)) + seq![BusSignal::CsLow, BusSignal::WrLow]
    ||| post == pre + frames_of(words.take(i)) + seq![
        BusSignal::CsLow,
        BusSignal::WrLow,
        BusSignal::BusWrite(words[i]),
        BusSignal::WrHigh,
    ]
}

/// A transmission of `words` over the history `pre` that a write-strobe
/// fault aborted at some word: every word before it fully framed, that
/// word's framing cut short, no later word attempted.
pub open spec fn aborted_after(pre: Seq<BusSignal>, post: Seq<BusSignal>, words: Seq<u16>) -> bool {
    exists|i: int| 0 <= i < words.len() && #[trigger] aborted_at(pre, post, words, i)
}

/// Law: a transmission that a write-strobe fault aborted at word `i` drove
/// the words before `i` and nothing past `i` — either the faulted word was
/// never put on the bus (its low strobe failed) or it was put on the bus
/// but its sampling edge failed; no later word is attempted.
pub proof fn lemma_abort_drives_no_later_word(
    pre: Seq<BusSignal>,
    post: Seq<BusSignal>,
    words: Seq<u16>,
    i: int,
)
    requires
        0 <= i < words.len(),
        aborted_at(pre, post, words, i),
    ensures
        written_words(post) == written_words(pre) + words.take(i) || written_words(post)
            == written_words(pre) + words.take(i + 1),
{
    lemma_frames_write_exactly(words.take(i));
    if post == pre + frames_of(words.take(i)) + seq![BusSignal::CsLow, BusSignal::WrLow] {
        lemma_written_words_concat(pre, frames_of(words.take(i)));
        lemma_written_words_concat(
            pre + frames_of(words.take(i)),
            seq![BusSignal::CsLow, BusSignal::WrLow],
        );
        assert(written_words(seq![BusSignal::CsLow, BusSignal::WrLow]) =~= Seq::<u16>::empty())
            by {
            reveal_with_fuel(written_words, 3);
        }
        assert(written_words(post) =~= written_words(pre) + words.take(i));
    } else {
        let tail = seq![
            BusSignal::CsLow,
            BusSignal::WrLow,
            BusSignal::BusWrite(words[i]),
            BusSignal::WrHigh,
        ];
        lemma_written_words_concat(pre, frames_of(words.take(i)));
        lemma_written_words_concat(pre + frames_of(words.take(i)), tail);
        assert(written_words(tail) =~= seq![words[i]]) by {
            reveal_with_fuel(written_words, 5);
        }
        assert(words.take(i) + seq![words[i]] =~= words.take(i + 1));
        assert(written_words(post) =~= written_words(pre) + words.take(i + 1));
    }
}

/// Parallel 16-bit write-only "8080-style" display interface.
///
/// The driver owns one [`BusPort`] capability — the 16-bit data bus plus
/// the data/command, write-strobe, chip-select and read-strobe lines — and
/// drives command and pixel-data payloads onto it one 16-bit word at a
/// time, each word framed by a chip-select window enclosing one
/// write-strobe window. The data/command line is set once per payload,
/// before any word. Chip-select faults are observed but swallowed (chip
/// select is often tied low permanently on single-device buses);
/// write-strobe faults mean the word was never latched, abort the
/// transmission and propagate; a failed data/command transition aborts
/// before any word is driven.
pub struct PGPIO16BitInterface<P: BusPort> {
    port: P,
}

impl<P: BusPort> PGPIO16BitInterface<P> {
    /// The history of transitions the driver has commanded on its port.
    pub closed spec fn log(&self) -> Seq<BusSignal> {
        self.port.log()
    }

    /// True if the port's write-strobe transitions all succeed.
    pub closed spec fn wr_reliable(&self) -> bool {
        self.port.wr_reliable()
    }

    /// True if the port's data/command transitions all succeed.
    pub closed spec fn dc_reliable(&self) -> bool {
        self.port.dc_reliable()
    }

    /// Take ownership of the bus and run the one-time initialization
    /// handshake: probe the controller's id register while the bus is
    /// configured as input, between an initial and a final output
    /// configuration, as [`init_trace`] lays it out. Control-line faults
    /// during the handshake are observed but swallowed; construction never
    /// fails. No word may be driven before this has run, which the type
    /// enforces: this is the only way to obtain a driver.
    pub fn new(port: P) -> (r: Self)
        ensures
            r.log() == port.log() + init_trace(),
            r.wr_reliable() == port.wr_reliable(),
            r.dc_reliable() == port.dc_reliable(),
    {
        let ghost entry_log = port.log();
        let mut port = port;
        port.configure_output();
        let _ = port.set_cs_low();
        let _ = port.set_dc_low();
        let _ = port.set_rd_high();
        let _ = port.set_wr_low();
        port.write_bus(0);
        let _ = port.set_wr_high();
        let _ = port.set_cs_high();
        port.configure_input();
        let _ = port.set_cs_low();
        let _ = port.set_dc_high();
        let _ = port.set_wr_high();
        let _ = port.set_rd_low();
        let _ = port.read_bus();
        let _ = port.set_rd_high();
        let _ = port.set_cs_high();
        port.configure_output();
        let r = PGPIO16BitInterface { port };
        proof {
            assert(r.log() =~= entry_log + init_trace());
        }
        r
    }

    /// Consume the driver and hand the port capability back. No further
    /// operation is valid on the driver afterward; the port's history is
    /// returned exactly as the driver left it.
    pub fn release(self) -> (r: P)
        ensures
            r.log() == self.log(),
            r.wr_reliable() == self.wr_reliable(),
            r.dc_reliable() == self.dc_reliable(),
    {
        self.port
    }

    /// Bus Writer primitive: drive one 16-bit word onto the bus with full
    /// control-line framing — chip select asserted, write strobe low, the
    /// value driven, write strobe high (the controller samples the value at
    /// this rising edge), chip select released — and return only once the
    /// whole frame has been commanded. A chip-select fault is swallowed; a
    /// write-strobe fault cuts the frame short at the failed transition and
    /// is reported as `BusWriteError`.
    pub fn drive_word(&mut self, value: u16) -> (r: Result<(), BusError>)
        ensures
            final(self).wr_reliable() == old(self).wr_reliable(),
            final(self).dc_reliable() == old(self).dc_reliable(),
            old(self).wr_reliable() ==> r is Ok,
            r is Ok ==> final(self).log() == old(self).log() + word_frame(value),
            r is Err ==> r == Err::<(), BusError>(BusError::BusWriteError) && (final(self).log()
                == old(self).log() + seq![BusSignal::CsLow, BusSignal::WrLow] || final(self).log()
                == old(self).log() + seq![
                BusSignal::CsLow,
                BusSignal::WrLow,
                BusSignal::BusWrite(value),
                BusSignal::WrHigh,
            ]),
    {
        let _ = self.port.set_cs_low();
        if self.port.set_wr_low().is_err() {
            proof {
                assert(self.log() =~= old(self).log() + seq![BusSignal::CsLow, BusSignal::WrLow]);
            }
            return Err(BusError::BusWriteError);
        }
        self.port.write_bus(value);
        if self.port.set_wr_high().is_err() {
            proof {
                assert(self.log() =~= old(self).log() + seq![
                    BusSignal::CsLow,
                    BusSignal::WrLow,
                    BusSignal::BusWrite(value),
                    BusSignal::WrHigh,
                ]);
            }
            return Err(BusError::BusWriteError);
        }
        let _ = self.port.set_cs_high();
        proof {
            assert(self.log() =~= old(self).log() + word_frame(value));
        }
        Ok(())
    }

    /// Drive every word of `words` in order, each with full framing. The
    /// first write-strobe fault aborts the transmission before any later
    /// word is attempted and propagates as `BusWriteError`; words already
    /// driven stay driven — the physical bus holds no rollback.
    pub fn write_iter(&mut self, words: &[u16]) -> (r: Result<(), BusError>)
        ensures
            final(self).wr_reliable() == old(self).wr_reliable(),
            final(self).dc_reliable() == old(self).dc_reliable(),
            old(self).wr_reliable() ==> r is Ok,
            r is Ok ==> final(self).log() == old(self).log() + frames_of(words@),
            r is Err ==> r == Err::<(), BusError>(BusError::BusWriteError) && aborted_after(
                old(self).log(),
                final(self).log(),
                words@,
            ),
    {
        let ghost pre = self.log();
        let mut i: usize = 0;
        while i < words.len()
            invariant
                i <= words@.len(),
                pre == old(self).log(),
                self.log() == pre + frames_of(words@.take(i as int)),
                self.wr_reliable() == old(self).wr_reliable(),
                self.dc_reliable() == old(self).dc_reliable(),
            decreases words@.len() - i,
        {
            match self.drive_word(words[i]) {
                Ok(()) => {},
                Err(e) => {
                    proof {
                        assert(aborted_at(pre, self.log(), words@, i as int));
                        assert(aborted_after(pre, self.log(), words@));
                    }
                    return Err(e);
                },
            }
            proof {
                assert(words@.take(i + 1).drop_last() =~= words@.take(i as int));
                assert(words@.take(i + 1).last() == words@[i as int]);
                assert(self.log() =~= pre + frames_of(words@.take(i + 1)));
            }
            i = i + 1;
        }
        proof {
            assert(words@.take(i as int) =~= words@);
        }
        Ok(())
    }

    /// Data-Format Adapter: normalize a payload to its sequence of 16-bit
    /// bus words — bytes zero-extended, words verbatim — and drive them in
    /// order. A shape with no defined word mapping is rejected as
    /// `UnsupportedFormat` before anything is driven; a write-strobe fault
    /// aborts mid-sequence as in [`Self::write_iter`]. The data/command
    /// line is not touched: callers select it once per payload beforehand.
    pub fn write_data(&mut self, data: DataFormat) -> (r: Result<(), BusError>)
        ensures
            final(self).wr_reliable() == old(self).wr_reliable(),
            final(self).dc_reliable() == old(self).dc_reliable(),
            old(self).wr_reliable() && supported(data) ==> r is Ok,
            r is Ok ==> supported(data) && final(self).log() == old(self).log() + frames_of(
                format_words(data),
            ),
            !supported(data) ==> r == Err::<(), BusError>(BusError::UnsupportedFormat) && final(self).log() == old(self).log(),
            r == Err::<(), BusError>(BusError::BusWriteError) ==> supported(data) && aborted_after(
                old(self).log(),
                final(self).log(),
                format_words(data),
            ),
            r == Err::<(), BusError>(BusError::UnsupportedFormat) ==> !supported(data),
            r is Err ==> r == Err::<(), BusError>(BusError::BusWriteError) || r == Err::<
                (),
                BusError,
            >(BusError::UnsupportedFormat),
    {
        match data {
            DataFormat::U8(v) => {
                let words = widen_bytes(v.as_slice());
                self.write_iter(words.as_slice())
            },
            DataFormat::U8Iter(v) => {
                let words = widen_bytes(v.as_slice());
                self.write_iter(words.as_slice())
            },
            DataFormat::U16(v) => self.write_iter(v.as_slice()),
            DataFormat::U16BE(v) => self.write_iter(v.as_slice()),
            DataFormat::U16LE(v) => self.write_iter(v.as_slice()),
            DataFormat::U16BEIter(v) => self.write_iter(v.as_slice()),
            DataFormat::U16LEIter(v) => self.write_iter(v.as_slice()),
            DataFormat::Unsupported => Err(BusError::UnsupportedFormat),
        }
    }

    /// Send a command payload: select command context by driving the
    /// data/command line low exactly once, before any word, then drive the
    /// payload's words. A failed data/command transition aborts with
    /// `DCError` before any word is driven.
    pub fn send_commands(&mut self, cmds: DataFormat) -> (r: Result<(), BusError>)
        ensures
            final(self).wr_reliable() == old(self).wr_reliable(),
            final(self).dc_reliable() == old(self).dc_reliable(),
            old(self).dc_reliable() && old(self).wr_reliable() && supported(cmds) ==> r is Ok,
            old(self).dc_reliable() && !supported(cmds) ==> r == Err::<(), BusError>(
                BusError::UnsupportedFormat,
            ),
            r is Ok ==> supported(cmds) && final(self).log() == old(self).log() + seq![
                BusSignal::DcLow,
            ] + frames_of(format_words(cmds)),
            r == Err::<(), BusError>(BusError::DCError) ==> !old(self).dc_reliable() && final(self).log() == old(self).log() + seq![BusSignal::DcLow],
            r == Err::<(), BusError>(BusError::UnsupportedFormat) ==> !supported(cmds) && final(self).log() == old(self).log() + seq![BusSignal::DcLow],
            r == Err::<(), BusError>(BusError::BusWriteError) ==> supported(cmds) && aborted_after(
                old(self).log() + seq![BusSignal::DcLow],
                final(self).log(),
                format_words(cmds),
            ),
            r is Err ==> r == Err::<(), BusError>(BusError::DCError) || r == Err::<(), BusError>(
                BusError::UnsupportedFormat,
            ) || r == Err::<(), BusError>(BusError::BusWriteError),
    {
        if self.port.set_dc_low().is_err() {
            proof {
                assert(self.log() =~= old(self).log() + seq![BusSignal::DcLow]);
            }
            return Err(BusError::DCError);
        }
        proof {
            assert(self.log() =~= old(self).log() + seq![BusSignal::DcLow]);
        }
        self.write_data(cmds)
    }

    /// Send a data (pixel) payload: select data context by driving the
    /// data/command line high exactly once, before any word, then drive the
    /// payload's words. A failed data/command transition aborts with
    /// `DCError` before any word is driven.
    pub fn send_data(&mut self, buf: DataFormat) -> (r: Result<(), BusError>)
        ensures
            final(self).wr_reliable() == old(self).wr_reliable(),
            final(self).dc_reliable() == old(self).dc_reliable(),
            old(self).dc_reliable() && old(self).wr_reliable() && supported(buf) ==> r is Ok,
            old(self).dc_reliable() && !supported(buf) ==> r == Err::<(), BusError>(
                BusError::UnsupportedFormat,
            ),
            r is Ok ==> supported(buf) && final(self).log() == old(self).log() + seq![
                BusSignal::DcHigh,
            ] + frames_of(format_words(buf)),
            r == Err::<(), BusError>(BusError::DCError) ==> !old(self).dc_reliable() && final(self).log() == old(self).log() + seq![BusSignal::DcHigh],
            r == Err::<(), BusError>(BusError::UnsupportedFormat) ==> !supported(buf) && final(self).log() == old(self).log() + seq![BusSignal::DcHigh],
            r == Err::<(), BusError>(BusError::BusWriteError) ==> supported(buf) && aborted_after(
                old(self).log() + seq![BusSignal::DcHigh],
                final(self).log(),
                format_words(buf),
            ),
            r is Err ==> r == Err::<(), BusError>(BusError::DCError) || r == Err::<(), BusError>(
                BusError::UnsupportedFormat,
            ) || r == Err::<(), BusError>(BusError::BusWriteError),
    {
        if self.port.set_dc_high().is_err() {
            proof {
                assert(self.log() =~= old(self).log() + seq![BusSignal::DcHigh]);
            }
            return Err(BusError::DCError);
        }
        proof {
            assert(self.log() =~= old(self).log() + seq![BusSignal::DcHigh]);
        }
        self.write_data(buf)
    }
}

} // verus!
