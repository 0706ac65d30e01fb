use crate::stream::{
    saturating_deliver, try_deliver, fresh_state, SaturatingStream, TryStream,
};
use vstd::prelude::*;

verus! {

/// The register fields that configure and service one interrupt line.
#[derive(Clone, Copy, Debug, PartialEq, Eq, Structural)]
pub struct ExtiRegs {
    /// SYSCFG_EXTICRx.EXTIy: selects the pin that feeds the line.
    pub syscfg_exticr_exti: u32,
    /// EXTI_IMR.IMy: set when the line's interrupt request is not masked.
    pub exti_imr_im: bool,
    /// EXTI_FTSR.TRy: falling trigger enabled.
    pub exti_ftsr_ft: bool,
    /// EXTI_RTSR.TRy: rising trigger enabled.
    pub exti_rtsr_rt: bool,
    /// EXTI_PR.PRy: a selected edge occurred and was not yet acknowledged.
    pub exti_pr_pif: bool,
}

/// Setup values for [`ExtiDrv::init`].
pub struct ExtiSetup {
    /// The line's register fields, in their state before configuration.
    pub exti: ExtiRegs,
    /// Written to the SYSCFG_EXTICRx.EXTIy field, which routes a pin to the line.
    pub config: u32,
    /// Falling trigger selection.
    pub falling: bool,
    /// Rising trigger selection.
    pub rising: bool,
}

/// The register state after configuring a line with the given setup.
pub open spec fn configured(setup: ExtiSetup) -> ExtiRegs {
    ExtiRegs {
        syscfg_exticr_exti: setup.config,
        exti_imr_im: true,
        exti_ftsr_ft: setup.exti.exti_ftsr_ft || setup.falling,
        exti_rtsr_rt: setup.exti.exti_rtsr_rt || setup.rising,
        exti_pr_pif: setup.exti.exti_pr_pif,
    }
}

/// Configuring a line sets exactly the selected trigger bits, leaves an
/// unselected one as it was, and always unmasks the line.
pub proof fn lemma_trigger_selection(setup: ExtiSetup)
    ensures
        configured(setup).exti_imr_im,
        setup.falling && !setup.rising ==> configured(setup).exti_ftsr_ft
            && configured(setup).exti_rtsr_rt == setup.exti.exti_rtsr_rt,
        !setup.falling && setup.rising ==> configured(setup).exti_rtsr_rt
            && configured(setup).exti_ftsr_ft == setup.exti.exti_ftsr_ft,
        !setup.falling && !setup.rising && !setup.exti.exti_ftsr_ft && !setup.exti.exti_rtsr_rt
            ==> !configured(setup).exti_ftsr_ft && !configured(setup).exti_rtsr_rt,
{
}

/// What the edge-detection fiber reports on one resumption.
pub open spec fn fib_report(pending: bool) -> Option<usize> {
    if pending {
        Some(1)
    } else {
        None
    }
}

/// The registers after the fiber ran: the pending flag is acknowledged.
pub open spec fn serviced(regs: ExtiRegs) -> ExtiRegs {
    ExtiRegs { exti_pr_pif: false, ..regs }
}

/// EXTI driver.
pub struct ExtiDrv {
    exti: ExtiRegs,
}

impl View for ExtiDrv {
    type V = ExtiRegs;

    closed spec fn view(&self) -> ExtiRegs {
        self.exti
    }
}

impl ExtiDrv {
    /// Sets up a new [`ExtiDrv`] from `setup` values: routes the pin, unmasks
    /// the line and enables the selected triggers. A trigger that is not
    /// selected keeps its previous state.
    pub fn init(setup: ExtiSetup) -> (r: ExtiDrv)
        ensures
            r@ == configured(setup),
    {
        let ExtiSetup { exti, config, falling, rising } = setup;
        let mut drv = ExtiDrv { exti };
        drv.init_exti(config, falling, rising);
        drv
    }

    fn init_exti(&mut self, config: u32, falling: bool, rising: bool)
        ensures
            final(self)@ == (ExtiRegs {
                syscfg_exticr_exti: config,
                exti_imr_im: true,
                exti_ftsr_ft: old(self)@.exti_ftsr_ft || falling,
                exti_rtsr_rt: old(self)@.exti_rtsr_rt || rising,
                exti_pr_pif: old(self)@.exti_pr_pif,
            }),
    {
        self.exti.syscfg_exticr_exti = config;
        self.exti.exti_imr_im = true;
        if falling {
            self.exti.exti_ftsr_ft = true;
        }
        if rising {
            self.exti.exti_rtsr_rt = true;
        }
    }

    /// The line's register fields.
    pub fn regs(&self) -> (r: ExtiRegs)
        ensures
            r == self@,
    {
        self.exti
    }

    /// An edge on the routed pin, rising or falling: the hardware latches the
    /// pending flag when that edge's trigger is enabled.
    pub fn edge(&mut self, rising: bool)
        ensures
            final(self)@ == (ExtiRegs {
                exti_pr_pif: old(self)@.exti_pr_pif || (if rising {
                    old(self)@.exti_rtsr_rt
                } else {
                    old(self)@.exti_ftsr_ft
                }),
                ..old(self)@
            }),
    {
        let hit = if rising { self.exti.exti_rtsr_rt } else { self.exti.exti_ftsr_ft };
        if hit {
            self.exti.exti_pr_pif = true;
        }
    }

    /// One resumption of the edge-detection fiber: if the pending flag is set
    /// it is cleared and one edge is reported, else nothing is reported.
    pub fn resume_fib(&mut self) -> (r: Option<usize>)
        ensures
            r == fib_report(old(self)@.exti_pr_pif),
            final(self)@ == serviced(old(self)@),
    {
        if self.exti.exti_pr_pif {
            // write 1 to clear the pending flag
            self.exti.exti_pr_pif = false;
            Some(1)
        } else {
            None
        }
    }

    /// Creates a new saturating stream of external events.
    pub fn create_saturating_stream(&self) -> (r: SaturatingStream)
        ensures
            r.wf(),
            r@ == fresh_state(),
    {
        SaturatingStream::new()
    }

    /// Creates a new fallible stream of external events.
    pub fn create_try_stream(&self) -> (r: TryStream)
        ensures
            r.wf(),
            r@ == fresh_state(),
    {
        TryStream::new()
    }

    /// One firing of the line's interrupt: the fiber runs and its report goes
    /// to `stream`.
    pub fn fire_saturating(&mut self, stream: &mut SaturatingStream)
        requires
            old(stream).wf(),
        ensures
            final(self)@ == serviced(old(self)@),
            final(stream).wf(),
            final(stream)@ == saturating_deliver(old(stream)@, fib_report(old(self)@.exti_pr_pif)),
    {
        let report = self.resume_fib();
        stream.deliver(report);
    }

    /// One firing of the line's interrupt: the fiber runs and its report goes
    /// to `stream`.
    pub fn fire_try(&mut self, stream: &mut TryStream)
        requires
            old(stream).wf(),
        ensures
            final(self)@ == serviced(old(self)@),
            final(stream).wf(),
            final(stream)@ == try_deliver(old(stream)@, fib_report(old(self)@.exti_pr_pif)),
    {
        let report = self.resume_fib();
        stream.deliver(report);
    }
}

} // verus!
