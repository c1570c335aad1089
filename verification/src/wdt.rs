//! Watchdog timer driver.
//!
//! The watchdog requires a periodic two-byte "feed" handshake or it resets
//! the device. The feed writes the magic bytes 0xA5 then 0x5A to the
//! trigger register as an inseparable two-step sequence, under an
//! interrupts-disabled exclusion window: an interrupted handshake is
//! silently dropped by the hardware and causes a missed feed.

use vstd::prelude::*;

use crate::gcr::GcrRegisters;

verus! {

/// The watchdog's register file, modelled as plain state. The trigger
/// register records the sequence of bytes written to it, oldest first, so
/// the two-step feed handshake is observable.
pub struct WdtRegisters {
    /// Control: watchdog enable.
    pub enabled: bool,
    /// Status: the peripheral clock is ready.
    pub clock_ready: bool,
    /// Control: clock source selector.
    pub clock_source: u8,
    /// Control: late-interrupt threshold, as the exponent of its period.
    pub int_late_exp: u8,
    /// Control: late-reset threshold, as the exponent of its period.
    pub rst_late_exp: u8,
    /// Control: windowed-mode enable.
    pub window_enabled: bool,
    /// Control: early-interrupt threshold, as the exponent of its period.
    pub int_early_exp: u8,
    /// Control: early-reset threshold, as the exponent of its period.
    pub rst_early_exp: u8,
    /// Control: interrupt-on-timeout enable.
    pub int_enabled: bool,
    /// Control: reset-on-timeout enable.
    pub rst_enabled: bool,
    /// The bytes written to the trigger register, oldest first.
    pub rst_writes: Vec<u8>,
}

/// The process-wide mutual-exclusion guard representing "interrupts
/// disabled". Holding a value of it marks the exclusion window around the
/// feed handshake; it is acquired for the minimum necessary duration and
/// released (dropped) on every exit path. On hardware the window is
/// realized by masking interrupts around the same sequence.
pub struct CriticalSection {}

impl CriticalSection {
    /// Enter the exclusion window.
    pub fn acquire() -> CriticalSection {
        CriticalSection {}
    }
}

/// The inseparable two-step feed handshake: writes 0xA5 then 0x5A to the
/// trigger register. Only runs while the exclusion window is held.
pub fn feed_sequence(wdt: &mut WdtRegisters, _cs: &CriticalSection)
    ensures
        final(wdt).rst_writes@ == old(wdt).rst_writes@ + seq![0xA5u8, 0x5Au8],
        same_wdt_config(*final(wdt), *old(wdt)),
        final(wdt).clock_ready == old(wdt).clock_ready,
{
    wdt.rst_writes.push(0xA5);
    wdt.rst_writes.push(0x5A);
    proof {
        assert(wdt.rst_writes@ =~= old(wdt).rst_writes@ + seq![0xA5u8, 0x5Au8]);
    }
}

/// Two watchdog register files agree on everything but the trigger
/// register's write trace.
pub open spec fn same_wdt_config(a: WdtRegisters, b: WdtRegisters) -> bool {
    &&& a.enabled == b.enabled
    &&& a.clock_source == b.clock_source
    &&& a.int_late_exp == b.int_late_exp
    &&& a.rst_late_exp == b.rst_late_exp
    &&& a.window_enabled == b.window_enabled
    &&& a.int_early_exp == b.int_early_exp
    &&& a.rst_early_exp == b.rst_early_exp
    &&& a.int_enabled == b.int_enabled
    &&& a.rst_enabled == b.rst_enabled
}

/// The watchdog timer driver: the sole owner of its register file.
pub struct Wdt0 {
    pub wdt: WdtRegisters,
}

impl Wdt0 {
    /// Create a new watchdog peripheral instance: invokes reset and clock
    /// enable, feeds once, configures the timeout window (late interrupt
    /// after 2^27 cycles, late reset after 2^28, early thresholds at 2^16
    /// with windowed mode on), feeds again and enables the watchdog.
    pub fn new(wdt: WdtRegisters, reg: &mut GcrRegisters) -> (s: Wdt0)
        ensures
            final(reg).wdt_reset_done,
            final(reg).wdt_clock_enabled,
            final(reg).aes_reset_done == old(reg).aes_reset_done,
            final(reg).aes_clock_enabled == old(reg).aes_clock_enabled,
            s.wdt.enabled,
            s.wdt.clock_source == 0,
            s.wdt.int_late_exp == 27,
            s.wdt.rst_late_exp == 28,
            s.wdt.window_enabled,
            s.wdt.int_early_exp == 16,
            s.wdt.rst_early_exp == 16,
            s.wdt.int_enabled,
            s.wdt.rst_enabled,
            s.wdt.clock_ready,
            s.wdt.rst_writes@ == seq![0xA5u8, 0x5Au8, 0xA5u8, 0x5Au8],
    {
        reg.wdt_reset_done = true;
        reg.wdt_clock_enabled = true;
        let mut regs = wdt;
        regs.enabled = false;
        regs.clock_ready = false;
        regs.rst_writes = Vec::new();

        let cs = CriticalSection::acquire();
        feed_sequence(&mut regs, &cs);

        regs.enabled = false;
        wait_clock_ready(&mut regs);

        regs.clock_source = 0;
        regs.int_late_exp = 27;
        regs.rst_late_exp = 28;
        regs.window_enabled = true;
        regs.int_early_exp = 16;
        regs.rst_early_exp = 16;
        regs.int_enabled = true;
        regs.rst_enabled = true;

        let cs = CriticalSection::acquire();
        feed_sequence(&mut regs, &cs);

        regs.enabled = true;
        wait_clock_ready(&mut regs);

        proof {
            assert(regs.rst_writes@ =~= seq![0xA5u8, 0x5Au8, 0xA5u8, 0x5Au8]);
        }
        Wdt0 { wdt: regs }
    }

    /// Feed the watchdog: the two-step handshake under the exclusion
    /// window. Must be called more often than the configured thresholds.
    pub fn feed(&mut self)
        ensures
            final(self).wdt.rst_writes@ == old(self).wdt.rst_writes@ + seq![0xA5u8, 0x5Au8],
            same_wdt_config(final(self).wdt, old(self).wdt),
            final(self).wdt.clock_ready == old(self).wdt.clock_ready,
    {
        let cs = CriticalSection::acquire();
        feed_sequence(&mut self.wdt, &cs);
    }
}

/// The clock-ready wait's termination measure: how many polls remain
/// before the ready flag reads set.
pub open spec fn clock_wait_measure(w: WdtRegisters) -> int {
    if w.clock_ready {
        0
    } else {
        1
    }
}

/// Busy-wait until the peripheral clock reports ready: polls the ready
/// flag with no yield. The hardware contract that the clock comes ready
/// appears in the model as the flag reading set once polled.
fn wait_clock_ready(wdt: &mut WdtRegisters)
    ensures
        same_wdt_config(*final(wdt), *old(wdt)),
        final(wdt).rst_writes@ == old(wdt).rst_writes@,
        final(wdt).clock_ready,
{
    while !wdt.clock_ready
        invariant
            same_wdt_config(*wdt, *old(wdt)),
            wdt.rst_writes@ == old(wdt).rst_writes@,
        decreases clock_wait_measure(*wdt),
    {
        wdt.clock_ready = true;
    }
}

} // verus!
