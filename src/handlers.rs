//! What each of the controller's own interrupt vectors does.

use vstd::prelude::*;
use crate::registers::{
    ERROR_INTERRUPT_NUMBER, SPURIOUS_INTERRUPT_NUMBER, TLB_FLUSH_INTERRUPT_NUMBER,
    WAKEUP_INTERRUPT_NUMBER,
};

verus! {

/// One step of an interrupt handler, performed in order.
#[derive(Clone, Copy, Debug, PartialEq, Eq, Structural)]
pub enum HandlerStep {
    /// Reload the address-translation root, which flushes the translation cache.
    ReloadTranslationRoot,
    /// Report the controller's error status register.
    ReportErrorStatus,
    /// Report the interrupted context.
    ReportFrame,
    /// Signal the end of the interrupt.
    Acknowledge,
    /// Stop the kernel: there is no safe way on.
    Abort,
}

/// The steps of the handler for `vector`; none for a vector that is not the
/// controller's own.
pub open spec fn spec_handler_steps(vector: u8) -> Seq<HandlerStep> {
    if vector == TLB_FLUSH_INTERRUPT_NUMBER {
        seq![HandlerStep::ReloadTranslationRoot, HandlerStep::Acknowledge]
    } else if vector == ERROR_INTERRUPT_NUMBER {
        seq![
            HandlerStep::ReportErrorStatus,
            HandlerStep::ReportFrame,
            HandlerStep::Acknowledge,
            HandlerStep::Abort,
        ]
    } else if vector == SPURIOUS_INTERRUPT_NUMBER {
        seq![HandlerStep::ReportFrame, HandlerStep::Abort]
    } else if vector == WAKEUP_INTERRUPT_NUMBER {
        seq![HandlerStep::Acknowledge]
    } else {
        seq![]
    }
}

/// The steps of the handler for `vector`: invalidation reloads the translation
/// root and acknowledges; an error is reported, acknowledged and aborts; a
/// spurious interrupt is reported and aborts without an acknowledgement; a
/// wake-up only acknowledges.
pub fn handler_steps(vector: u8) -> (r: Vec<HandlerStep>)
    ensures
        r@ == spec_handler_steps(vector),
{
    let mut r: Vec<HandlerStep> = Vec::new();
    if vector == TLB_FLUSH_INTERRUPT_NUMBER {
        r.push(HandlerStep::ReloadTranslationRoot);
        r.push(HandlerStep::Acknowledge);
    } else if vector == ERROR_INTERRUPT_NUMBER {
        r.push(HandlerStep::ReportErrorStatus);
        r.push(HandlerStep::ReportFrame);
        r.push(HandlerStep::Acknowledge);
        r.push(HandlerStep::Abort);
    } else if vector == SPURIOUS_INTERRUPT_NUMBER {
        r.push(HandlerStep::ReportFrame);
        r.push(HandlerStep::Abort);
    } else if vector == WAKEUP_INTERRUPT_NUMBER {
        r.push(HandlerStep::Acknowledge);
    }
    proof {
        assert(r@ =~= spec_handler_steps(vector));
    }
    r
}

} // verus!
