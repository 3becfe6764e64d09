use vstd::prelude::*;
use crate::signal::{BusSignal, LineFault};

verus! {

/// The capability the driver consumes: the 16-bit data port together with
/// the four control lines (data/command select, write strobe, chip select,
/// read strobe).
///
/// `log()` is the abstract history of transitions commanded on the bus so
/// far, oldest first. Every method appends exactly the transition it
/// commands, whether or not the electrical operation succeeds: the history
/// records what the driver asked of the hardware, which is the order the
/// correctness of the protocol depends on. A line transition reports a
/// `LineFault` when the line could not be driven. Only write-strobe and
/// data/command faults are ever propagated by the driver, so those two
/// lines carry a reliability predicate — `wr_reliable()`, `dc_reliable()`
/// — naming the ports on which they never fail, which lets callers state
/// when success is owed; chip-select and read-strobe results are observed
/// and swallowed whatever they are.
pub trait BusPort: Sized {
    /// The history of transitions commanded so far, oldest first. The
    /// default stands for impls outside the verified world, whose history
    /// nothing is proved about; a verified impl overrides it.
    open spec fn log(&self) -> Seq<BusSignal> {
        Seq::empty()
    }

    /// True of a port whose write-strobe transitions all succeed. The
    /// default, like `log`'s, is for impls outside the verified world.
    open spec fn wr_reliable(&self) -> bool {
        false
    }

    /// True of a port whose data/command transitions all succeed. The
    /// default, like `log`'s, is for impls outside the verified world.
    open spec fn dc_reliable(&self) -> bool {
        false
    }

    /// Drive the data/command select line low (command context).
    fn set_dc_low(&mut self) -> (r: Result<(), LineFault>)
        ensures
            final(self).log() == old(self).log().push(BusSignal::DcLow),
            final(self).wr_reliable() == old(self).wr_reliable(),
            final(self).dc_reliable() == old(self).dc_reliable(),
            old(self).dc_reliable() ==> r is Ok,
    ;

    /// Drive the data/command select line high (data context).
    fn set_dc_high(&mut self) -> (r: Result<(), LineFault>)
        ensures
            final(self).log() == old(self).log().push(BusSignal::DcHigh),
            final(self).wr_reliable() == old(self).wr_reliable(),
            final(self).dc_reliable() == old(self).dc_reliable(),
            old(self).dc_reliable() ==> r is Ok,
    ;

    /// Assert chip select (drive it low).
    fn set_cs_low(&mut self) -> (r: Result<(), LineFault>)
        ensures
            final(self).log() == old(self).log().push(BusSignal::CsLow),
            final(self).wr_reliable() == old(self).wr_reliable(),
            final(self).dc_reliable() == old(self).dc_reliable(),
    ;

    /// Release chip select (drive it high).
    fn set_cs_high(&mut self) -> (r: Result<(), LineFault>)
        ensures
            final(self).log() == old(self).log().push(BusSignal::CsHigh),
            final(self).wr_reliable() == old(self).wr_reliable(),
            final(self).dc_reliable() == old(self).dc_reliable(),
    ;

    /// Drive the write strobe low, opening a latch window.
    fn set_wr_low(&mut self) -> (r: Result<(), LineFault>)
        ensures
            final(self).log() == old(self).log().push(BusSignal::WrLow),
            final(self).wr_reliable() == old(self).wr_reliable(),
            final(self).dc_reliable() == old(self).dc_reliable(),
            old(self).wr_reliable() ==> r is Ok,
    ;

    /// Drive the write strobe high: the controller samples the bus here.
    fn set_wr_high(&mut self) -> (r: Result<(), LineFault>)
        ensures
            final(self).log() == old(self).log().push(BusSignal::WrHigh),
            final(self).wr_reliable() == old(self).wr_reliable(),
            final(self).dc_reliable() == old(self).dc_reliable(),
            old(self).wr_reliable() ==> r is Ok,
    ;

    /// Drive the read strobe low, triggering the controller's readback.
    fn set_rd_low(&mut self) -> (r: Result<(), LineFault>)
        ensures
            final(self).log() == old(self).log().push(BusSignal::RdLow),
            final(self).wr_reliable() == old(self).wr_reliable(),
            final(self).dc_reliable() == old(self).dc_reliable(),
    ;

    /// Release the read strobe (drive it high).
    fn set_rd_high(&mut self) -> (r: Result<(), LineFault>)
        ensures
            final(self).log() == old(self).log().push(BusSignal::RdHigh),
            final(self).wr_reliable() == old(self).wr_reliable(),
            final(self).dc_reliable() == old(self).dc_reliable(),
    ;

    /// Drive `value` onto the 16 data lines: a plain write of the port's
    /// output-data register, which cannot fail.
    fn write_bus(&mut self, value: u16)
        ensures
            final(self).log() == old(self).log().push(BusSignal::BusWrite(value)),
            final(self).wr_reliable() == old(self).wr_reliable(),
            final(self).dc_reliable() == old(self).dc_reliable(),
    ;

    /// Sample the 16 data lines from the port's input-data register. The
    /// sampled value is diagnostic only: nothing is promised of it.
    fn read_bus(&mut self) -> (v: u16)
        ensures
            final(self).log() == old(self).log().push(BusSignal::BusRead),
            final(self).wr_reliable() == old(self).wr_reliable(),
            final(self).dc_reliable() == old(self).dc_reliable(),
    ;

    /// Configure all 16 data lines as push-pull output, with the
    /// alternating pull pattern and maximum slew rate.
    fn configure_output(&mut self)
        ensures
            final(self).log() == old(self).log().push(BusSignal::ModeOutput),
            final(self).wr_reliable() == old(self).wr_reliable(),
            final(self).dc_reliable() == old(self).dc_reliable(),
    ;

    /// Configure all 16 data lines as input.
    fn configure_input(&mut self)
        ensures
            final(self).log() == old(self).log().push(BusSignal::ModeInput),
            final(self).wr_reliable() == old(self).wr_reliable(),
            final(self).dc_reliable() == old(self).dc_reliable(),
    ;
}

/// An in-memory port: records every commanded transition and reports a
/// fault on exactly the control-line transitions its per-line scripts mark
/// to fail. It is the reference implementation of `BusPort` — each method
/// is verified against the trait's contract — and what the tests drive the
/// protocol against.
pub struct RecordingPort {
    /// Every transition commanded so far, oldest first.
    pub signals: Vec<BusSignal>,
    /// `fail_dc[k]` makes the `k`-th data/command transition fail;
    /// positions past the end of a script succeed.
    pub fail_dc: Vec<bool>,
    /// `fail_wr[k]` makes the `k`-th write-strobe transition fail.
    pub fail_wr: Vec<bool>,
    /// `fail_cs[k]` makes the `k`-th chip-select transition fail.
    pub fail_cs: Vec<bool>,
    /// `fail_rd[k]` makes the `k`-th read-strobe transition fail.
    pub fail_rd: Vec<bool>,
    /// How many data/command transitions have been commanded.
    pub n_dc: usize,
    /// How many write-strobe transitions have been commanded.
    pub n_wr: usize,
    /// How many chip-select transitions have been commanded.
    pub n_cs: usize,
    /// How many read-strobe transitions have been commanded.
    pub n_rd: usize,
    /// The value the data lines sample during a read.
    pub sample: u16,
}

/// Whether the whole script lets every transition of its line succeed.
pub open spec fn all_clear(script: Seq<bool>) -> bool {
    forall|i: int| 0 <= i < script.len() ==> !script[i]
}

impl RecordingPort {
    /// A fresh port with an empty history; the transitions each per-line
    /// script marks fail, all others succeed, and reads sample `sample`.
    pub fn new(
        fail_dc: Vec<bool>,
        fail_wr: Vec<bool>,
        fail_cs: Vec<bool>,
        fail_rd: Vec<bool>,
        sample: u16,
    ) -> (r: RecordingPort)
        ensures
            r.log() == Seq::<BusSignal>::empty(),
            r.fail_dc == fail_dc,
            r.fail_wr == fail_wr,
            r.fail_cs == fail_cs,
            r.fail_rd == fail_rd,
            r.sample == sample,
            r.wr_reliable() <==> all_clear(fail_wr@),
            r.dc_reliable() <==> all_clear(fail_dc@),
    {
        RecordingPort {
            signals: Vec::new(),
            fail_dc,
            fail_wr,
            fail_cs,
            fail_rd,
            n_dc: 0,
            n_wr: 0,
            n_cs: 0,
            n_rd: 0,
            sample,
        }
    }

    /// A fresh reliable port: every transition succeeds.
    pub fn new_reliable(sample: u16) -> (r: RecordingPort)
        ensures
            r.log() == Seq::<BusSignal>::empty(),
            r.sample == sample,
            r.wr_reliable(),
            r.dc_reliable(),
    {
        RecordingPort::new(Vec::new(), Vec::new(), Vec::new(), Vec::new(), sample)
    }

    /// Consult a script at one position.
    fn scripted(script: &Vec<bool>, k: usize) -> (fail: bool)
        ensures
            fail == (k < script@.len() && script@[k as int]),
    {
        k < script.len() && script[k]
    }
}

impl BusPort for RecordingPort {
    open spec fn log(&self) -> Seq<BusSignal> {
        self.signals@
    }

    open spec fn wr_reliable(&self) -> bool {
        all_clear(self.fail_wr@)
    }

    open spec fn dc_reliable(&self) -> bool {
        all_clear(self.fail_dc@)
    }

    fn set_dc_low(&mut self) -> (r: Result<(), LineFault>) {
        self.signals.push(BusSignal::DcLow);
        let fail = Self::scripted(&self.fail_dc, self.n_dc);
        self.n_dc = self.n_dc.saturating_add(1);
        if fail {
            Err(LineFault)
        } else {
            Ok(())
        }
    }

    fn set_dc_high(&mut self) -> (r: Result<(), LineFault>) {
        self.signals.push(BusSignal::DcHigh);
        let fail = Self::scripted(&self.fail_dc, self.n_dc);
        self.n_dc = self.n_dc.saturating_add(1);
        if fail {
            Err(LineFault)
        } else {
            Ok(())
        }
    }

    fn set_cs_low(&mut self) -> (r: Result<(), LineFault>) {
        self.signals.push(BusSignal::CsLow);
        let fail = Self::scripted(&self.fail_cs, self.n_cs);
        self.n_cs = self.n_cs.saturating_add(1);
        if fail {
            Err(LineFault)
        } else {
            Ok(())
        }
    }

    fn set_cs_high(&mut self) -> (r: Result<(), LineFault>) {
        self.signals.push(BusSignal::CsHigh);
        let fail = Self::scripted(&self.fail_cs, self.n_cs);
        self.n_cs = self.n_cs.saturating_add(1);
        if fail {
            Err(LineFault)
        } else {
            Ok(())
        }
    }

    fn set_wr_low(&mut self) -> (r: Result<(), LineFault>) {
        self.signals.push(BusSignal::WrLow);
        let fail = Self::scripted(&self.fail_wr, self.n_wr);
        self.n_wr = self.n_wr.saturating_add(1);
        if fail {
            Err(LineFault)
        } else {
            Ok(())
        }
    }

    fn set_wr_high(&mut self) -> (r: Result<(), LineFault>) {
        self.signals.push(BusSignal::WrHigh);
        let fail = Self::scripted(&self.fail_wr, self.n_wr);
        self.n_wr = self.n_wr.saturating_add(1);
        if fail {
            Err(LineFault)
        } else {
            Ok(())
        }
    }

    fn set_rd_low(&mut self) -> (r: Result<(), LineFault>) {
        self.signals.push(BusSignal::RdLow);
        let fail = Self::scripted(&self.fail_rd, self.n_rd);
        self.n_rd = self.n_rd.saturating_add(1);
        if fail {
            Err(LineFault)
        } else {
            Ok(())
        }
    }

    fn set_rd_high(&mut self) -> (r: Result<(), LineFault>) {
        self.signals.push(BusSignal::RdHigh);
        let fail = Self::scripted(&self.fail_rd, self.n_rd);
        self.n_rd = self.n_rd.saturating_add(1);
        if fail {
            Err(LineFault)
        } else {
            Ok(())
        }
    }

    fn write_bus(&mut self, value: u16) {
        self.signals.push(BusSignal::BusWrite(value));
    }

    fn read_bus(&mut self) -> (v: u16) {
        self.signals.push(BusSignal::BusRead);
        self.sample
    }

    fn configure_output(&mut self) {
        self.signals.push(BusSignal::ModeOutput);
    }

    fn configure_input(&mut self) {
        self.signals.push(BusSignal::ModeInput);
    }
}

} // verus!
