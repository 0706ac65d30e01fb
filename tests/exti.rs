use smartoris_exti::{ExtiDrv, ExtiOverflow, ExtiRegs, ExtiSetup, PULSE_MAX};

fn reset_regs() -> ExtiRegs {
    ExtiRegs {
        syscfg_exticr_exti: 0,
        exti_imr_im: false,
        exti_ftsr_ft: false,
        exti_rtsr_rt: false,
        exti_pr_pif: false,
    }
}

fn pb4_falling() -> ExtiDrv {
    ExtiDrv::init(ExtiSetup { exti: reset_regs(), config: 0b0001, falling: true, rising: false })
}

#[test]
fn init_falling_only() {
    let drv = pb4_falling();
    let r = drv.regs();
    assert_eq!(r.syscfg_exticr_exti, 0b0001);
    assert!(r.exti_imr_im);
    assert!(r.exti_ftsr_ft);
    assert!(!r.exti_rtsr_rt);
    assert!(!r.exti_pr_pif);
}

#[test]
fn init_rising_only_keeps_falling_state() {
    let mut prior = reset_regs();
    prior.exti_ftsr_ft = true;
    let drv = ExtiDrv::init(ExtiSetup { exti: prior, config: 0b0010, falling: false, rising: true });
    let r = drv.regs();
    assert_eq!(r.syscfg_exticr_exti, 0b0010);
    assert!(r.exti_imr_im);
    assert!(r.exti_rtsr_rt);
    assert!(r.exti_ftsr_ft);
}

#[test]
fn init_no_trigger_still_unmasks() {
    let drv = ExtiDrv::init(ExtiSetup { exti: reset_regs(), config: 7, falling: false, rising: false });
    let r = drv.regs();
    assert!(r.exti_imr_im);
    assert!(!r.exti_ftsr_ft);
    assert!(!r.exti_rtsr_rt);
    assert_eq!(r.syscfg_exticr_exti, 7);
}

#[test]
fn edge_latches_only_selected_trigger() {
    let mut drv = pb4_falling();
    drv.edge(true);
    assert!(!drv.regs().exti_pr_pif);
    drv.edge(false);
    assert!(drv.regs().exti_pr_pif);
}

#[test]
fn fiber_acknowledges_pending_flag() {
    let mut drv = pb4_falling();
    assert_eq!(drv.resume_fib(), None);
    drv.edge(false);
    assert_eq!(drv.resume_fib(), Some(1));
    assert!(!drv.regs().exti_pr_pif);
    assert_eq!(drv.resume_fib(), None);
}

#[test]
fn three_firings_saturating() {
    let mut drv = pb4_falling();
    let mut s = drv.create_saturating_stream();
    assert_eq!(s.poll_next(), None);
    for _ in 0..3 {
        drv.edge(false);
        drv.fire_saturating(&mut s);
    }
    assert_eq!(s.poll_next(), Some(3));
    assert_eq!(s.poll_next(), None);
}

#[test]
fn three_firings_try() {
    let mut drv = pb4_falling();
    let mut s = drv.create_try_stream();
    for _ in 0..3 {
        drv.edge(false);
        drv.fire_try(&mut s);
    }
    assert_eq!(s.poll_next(), Some(Ok(3)));
    assert_eq!(s.poll_next(), None);
}

#[test]
fn past_ceiling_saturating_caps() {
    let mut drv = pb4_falling();
    let mut s = drv.create_saturating_stream();
    s.deliver(Some(PULSE_MAX));
    for _ in 0..5 {
        drv.edge(false);
        drv.fire_saturating(&mut s);
    }
    assert_eq!(s.poll_next(), Some(PULSE_MAX));
    assert_eq!(s.poll_next(), None);
}

#[test]
fn past_ceiling_try_reports_one_overflow() {
    let mut drv = pb4_falling();
    let mut s = drv.create_try_stream();
    s.deliver(Some(PULSE_MAX));
    for _ in 0..5 {
        drv.edge(false);
        drv.fire_try(&mut s);
    }
    assert_eq!(s.poll_next(), Some(Err(ExtiOverflow)));
    assert_eq!(s.poll_next(), None);
    drv.edge(false);
    drv.fire_try(&mut s);
    assert_eq!(s.poll_next(), Some(Ok(1)));
}

#[test]
fn at_ceiling_try_still_counts() {
    let mut s = pb4_falling().create_try_stream();
    s.deliver(Some(PULSE_MAX - 1));
    s.deliver(Some(1));
    assert_eq!(s.poll_next(), Some(Ok(PULSE_MAX)));
}

#[test]
fn ceiling_value() {
    assert_eq!(PULSE_MAX, usize::MAX >> 3);
}

#[test]
fn drain_after_each_firing_yields_ones() {
    let mut drv = pb4_falling();
    let mut a = drv.create_saturating_stream();
    let mut b = drv.create_try_stream();
    for _ in 0..10 {
        drv.edge(false);
        let report = drv.resume_fib();
        a.deliver(report);
        b.deliver(report);
        assert_eq!(a.poll_next(), Some(1));
        assert_eq!(b.poll_next(), Some(Ok(1)));
    }
    assert_eq!(a.poll_next(), None);
    assert_eq!(b.poll_next(), None);
}

#[test]
fn closed_streams_stay_silent_and_line_is_serviced() {
    let mut drv = pb4_falling();
    let mut a = drv.create_saturating_stream();
    let mut b = drv.create_try_stream();
    drv.edge(false);
    drv.fire_saturating(&mut a);
    a.close();
    b.close();
    for _ in 0..4 {
        drv.edge(false);
        drv.fire_saturating(&mut a);
        assert!(!drv.regs().exti_pr_pif);
        drv.edge(false);
        drv.fire_try(&mut b);
        assert!(!drv.regs().exti_pr_pif);
    }
    assert_eq!(a.poll_next(), None);
    assert_eq!(b.poll_next(), None);
}

#[test]
fn firing_without_pending_flag_reports_nothing() {
    let mut drv = pb4_falling();
    let mut s = drv.create_saturating_stream();
    drv.fire_saturating(&mut s);
    assert_eq!(s.poll_next(), None);
}

#[test]
fn overflow_message() {
    assert_eq!(ExtiOverflow.message(), "EXTI stream overflow");
}
