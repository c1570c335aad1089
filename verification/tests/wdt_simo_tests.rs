use periph_hal::gcr::GcrRegisters;
use periph_hal::simo::{Simo, SimoRegisters};
use periph_hal::wdt::{feed_sequence, CriticalSection, Wdt0, WdtRegisters};

fn fresh_wdt_registers() -> WdtRegisters {
    WdtRegisters {
        enabled: false,
        clock_ready: false,
        clock_source: 7,
        int_late_exp: 0,
        rst_late_exp: 0,
        window_enabled: false,
        int_early_exp: 0,
        rst_early_exp: 0,
        int_enabled: false,
        rst_enabled: false,
        rst_writes: vec![],
    }
}

#[test]
fn wdt_construction_configures_and_feeds_twice() {
    let mut gcr = GcrRegisters::new();
    let wdt = Wdt0::new(fresh_wdt_registers(), &mut gcr);
    assert!(gcr.wdt_reset_done);
    assert!(gcr.wdt_clock_enabled);
    assert!(!gcr.aes_reset_done);
    assert!(wdt.wdt.enabled);
    assert!(wdt.wdt.clock_ready);
    assert_eq!(wdt.wdt.clock_source, 0);
    assert_eq!(wdt.wdt.int_late_exp, 27);
    assert_eq!(wdt.wdt.rst_late_exp, 28);
    assert!(wdt.wdt.window_enabled);
    assert_eq!(wdt.wdt.int_early_exp, 16);
    assert_eq!(wdt.wdt.rst_early_exp, 16);
    assert!(wdt.wdt.int_enabled);
    assert!(wdt.wdt.rst_enabled);
    assert_eq!(wdt.wdt.rst_writes, vec![0xA5, 0x5A, 0xA5, 0x5A]);
}

#[test]
fn feed_appends_the_two_magic_bytes() {
    let mut gcr = GcrRegisters::new();
    let mut wdt = Wdt0::new(fresh_wdt_registers(), &mut gcr);
    wdt.feed();
    assert_eq!(wdt.wdt.rst_writes, vec![0xA5, 0x5A, 0xA5, 0x5A, 0xA5, 0x5A]);
    assert!(wdt.wdt.enabled);
}

#[test]
fn feed_sequence_writes_magic_bytes_in_order() {
    let mut regs = fresh_wdt_registers();
    let cs = CriticalSection::acquire();
    feed_sequence(&mut regs, &cs);
    assert_eq!(regs.rst_writes, vec![0xA5, 0x5A]);
}

#[test]
fn simo_writes_calibration_value() {
    let mut gcr = GcrRegisters::new();
    let simo = Simo::new(SimoRegisters { vsetc: 0 }, &mut gcr);
    assert_eq!(simo.regs.vsetc, 59);
}
