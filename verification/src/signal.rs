use vstd::prelude::*;

verus! {

/// One commanded transition on the bus: a control-line level change, a
/// 16-bit word driven onto the data lines, a sample of the data lines, or a
/// reconfiguration of the bus direction.
///
/// A history of these, oldest first, is the abstract behaviour of the
/// driver: every contract in this crate speaks of which transitions an
/// operation appends to the history.
#[derive(Clone, Copy, Debug, PartialEq, Eq, Structural)]
pub enum BusSignal {
    /// Data/command select driven low: the controller reads command opcodes.
    DcLow,
    /// Data/command select driven high: the controller reads data words.
    DcHigh,
    /// Chip select asserted (low): the controller may latch the bus.
    CsLow,
    /// Chip select released (high).
    CsHigh,
    /// Write strobe driven low, opening one word's latch window.
    WrLow,
    /// Write strobe driven high: the rising edge at which the controller
    /// samples the bus value.
    WrHigh,
    /// Read strobe driven low, triggering the controller's readback.
    RdLow,
    /// Read strobe released (high).
    RdHigh,
    /// The 16 data lines driven to this value while configured as output.
    BusWrite(u16),
    /// The 16 data lines sampled while configured as input.
    BusRead,
    /// All 16 data lines configured as push-pull output, with the
    /// alternating pull pattern and maximum slew rate.
    ModeOutput,
    /// All 16 data lines configured as input.
    ModeInput,
}

/// The bus-level error taxonomy.
///
/// `ChipSelectError` names a failed chip-select transition; the driver
/// observes such failures but deliberately swallows them (chip select is
/// often tied low permanently on single-device buses), so no operation of
/// this crate ever returns it. `BusWriteError` (a failed write-strobe
/// transition, meaning the word was never latched) and `DCError` (a failed
/// data/command transition) abort the call that met them.
#[derive(Clone, Copy, Debug, PartialEq, Eq, Structural)]
pub enum BusError {
    /// A chip-select transition failed.
    ChipSelectError,
    /// A data/command select transition failed.
    DCError,
    /// A write-strobe transition failed; the current word was never latched.
    BusWriteError,
    /// The payload shape has no defined mapping onto 16-bit bus words.
    UnsupportedFormat,
}

/// A control-line transition that the underlying line reported as failed.
#[derive(Clone, Copy, Debug, PartialEq, Eq, Structural)]
pub struct LineFault;

/// The framing of one bus word: chip select asserted, write strobe driven
/// low, the value driven onto the data lines, write strobe raised (the
/// controller samples the value at this edge), chip select released.
pub open spec fn word_frame(value: u16) -> Seq<BusSignal> {
    seq![
        BusSignal::CsLow,
        BusSignal::WrLow,
        BusSignal::BusWrite(value),
        BusSignal::WrHigh,
        BusSignal::CsHigh,
    ]
}

/// The concatenated framing of a whole word sequence, in payload order.
pub open spec fn frames_of(words: Seq<u16>) -> Seq<BusSignal>
    decreases words.len(),
{
    if words.len() == 0 {
        Seq::empty()
    } else {
        frames_of(words.drop_last()) + word_frame(words.last())
    }
}

/// The words a history drove onto the data lines, in order: the projection
/// of the history onto its `BusWrite` transitions.
pub open spec fn written_words(history: Seq<BusSignal>) -> Seq<u16>
    decreases history.len(),
{
    if history.len() == 0 {
        Seq::empty()
    } else {
        written_words(history.drop_last()) + (match history.last() {
            BusSignal::BusWrite(v) => seq![v],
            _ => Seq::empty(),
        })
    }
}

/// How many times a history commands one given transition.
pub open spec fn count_signal(history: Seq<BusSignal>, s: BusSignal) -> nat
    decreases history.len(),
{
    if history.len() == 0 {
        0
    } else {
        count_signal(history.drop_last(), s) + (if history.last() == s {
            1nat
        } else {
            0nat
        })
    }
}

/// The fixed one-time initialization handshake: configure the bus as
/// output, drive a benign zero word with full framing while the
/// data/command line is low and the read strobe is held high, reconfigure
/// the bus as input, open one read-strobe window in data context to probe
/// the controller's id register, close it, and configure the bus back as
/// output, leaving the read strobe and chip select high.
pub open spec fn init_trace() -> Seq<BusSignal> {
    seq![
        BusSignal::ModeOutput,
        BusSignal::CsLow,
        BusSignal::DcLow,
        BusSignal::RdHigh,
        BusSignal::WrLow,
        BusSignal::BusWrite(0u16),
        BusSignal::WrHigh,
        BusSignal::CsHigh,
        BusSignal::ModeInput,
        BusSignal::CsLow,
        BusSignal::DcHigh,
        BusSignal::WrHigh,
        BusSignal::RdLow,
        BusSignal::BusRead,
        BusSignal::RdHigh,
        BusSignal::CsHigh,
        BusSignal::ModeOutput,
    ]
}

/// `written_words` distributes over concatenation.
pub proof fn lemma_written_words_concat(a: Seq<BusSignal>, b: Seq<BusSignal>)
    ensures
        written_words(a + b) == written_words(a) + written_words(b),
    decreases b.len(),
{
    if b.len() == 0 {
        assert(a + b =~= a);
        assert(written_words(b) =~= Seq::<u16>::empty());
        assert(written_words(a) + written_words(b) =~= written_words(a));
    } else {
        lemma_written_words_concat(a, b.drop_last());
        assert((a + b).drop_last() =~= a + b.drop_last());
        assert((a + b).last() == b.last());
        assert(written_words(a) + written_words(b.drop_last()) + (match b.last() {
            BusSignal::BusWrite(v) => seq![v],
            _ => Seq::empty(),
        }) =~= written_words(a) + written_words(b));
    }
}

/// `count_signal` distributes over concatenation.
pub proof fn lemma_count_signal_concat(a: Seq<BusSignal>, b: Seq<BusSignal>, s: BusSignal)
    ensures
        count_signal(a + b, s) == count_signal(a, s) + count_signal(b, s),
    decreases b.len(),
{
    if b.len() == 0 {
        assert(a + b =~= a);
    } else {
        lemma_count_signal_concat(a, b.drop_last(), s);
        assert((a + b).drop_last() =~= a + b.drop_last());
        assert((a + b).last() == b.last());
    }
}

/// Law: framing a word sequence drives exactly those words, verbatim and in
/// order — the projection of the framed history onto bus writes is the word
/// sequence itself.
pub proof fn lemma_frames_write_exactly(words: Seq<u16>)
    ensures
        written_words(frames_of(words)) == words,
    decreases words.len(),
{
    if words.len() == 0 {
        assert(written_words(frames_of(words)) =~= words);
    } else {
        lemma_frames_write_exactly(words.drop_last());
        lemma_written_words_concat(frames_of(words.drop_last()), word_frame(words.last()));
        assert(written_words(word_frame(words.last())) =~= seq![words.last()]) by {
            reveal_with_fuel(written_words, 6);
        }
        assert(words.drop_last() + seq![words.last()] =~= words);
    }
}

/// Law: a word sequence's framing never touches the data/command line.
pub proof fn lemma_frames_no_dc(words: Seq<u16>)
    ensures
        count_signal(frames_of(words), BusSignal::DcLow) == 0,
        count_signal(frames_of(words), BusSignal::DcHigh) == 0,
    decreases words.len(),
{
    if words.len() > 0 {
        lemma_frames_no_dc(words.drop_last());
        lemma_count_signal_concat(
            frames_of(words.drop_last()),
            word_frame(words.last()),
            BusSignal::DcLow,
        );
        lemma_count_signal_concat(
            frames_of(words.drop_last()),
            word_frame(words.last()),
            BusSignal::DcHigh,
        );
        assert(count_signal(word_frame(words.last()), BusSignal::DcLow) == 0) by {
            reveal_with_fuel(count_signal, 6);
        }
        assert(count_signal(word_frame(words.last()), BusSignal::DcHigh) == 0) by {
            reveal_with_fuel(count_signal, 6);
        }
    }
}

/// Law: a transmission's history — one data/command transition followed by
/// the payload's framing — commands that transition exactly once, as its
/// very first step, before any word is driven.
pub proof fn lemma_dc_set_once(dc: BusSignal, words: Seq<u16>)
    requires
        dc is DcLow || dc is DcHigh,
    ensures
        (seq![dc] + frames_of(words))[0] == dc,
        count_signal(seq![dc] + frames_of(words), dc) == 1,
{
    lemma_count_signal_concat(seq![dc], frames_of(words), dc);
    assert(count_signal(seq![dc], dc) == 1) by {
        reveal_with_fuel(count_signal, 2);
        assert(seq![dc].drop_last() =~= Seq::<BusSignal>::empty());
    }
    lemma_frames_no_dc(words);
}

/// Law: one word's framing is exactly chip-select low, write-strobe low,
/// the bus write, write-strobe high, chip-select high, in that order; the
/// strobe's low-to-high window encloses exactly the one bus write.
pub proof fn lemma_word_frame_order(value: u16)
    ensures
        word_frame(value).len() == 5,
        word_frame(value)[0] == BusSignal::CsLow,
        word_frame(value)[1] == BusSignal::WrLow,
        word_frame(value)[2] == BusSignal::BusWrite(value),
        word_frame(value)[3] == BusSignal::WrHigh,
        word_frame(value)[4] == BusSignal::CsHigh,
{
}

} // verus!
