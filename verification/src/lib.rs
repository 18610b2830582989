//! Request construction and response interpretation for a client of the
//! Password Pusher secret-sharing service.
//!
//! The crate performs no I/O. It turns a parsed command into the HTTP request
//! that publishes a text secret, and turns whatever came back from the wire
//! into an [`pwpush_api::Outcome`]. Sending the request is left to the caller.

pub mod args;
pub mod body;
pub mod decimal;
pub mod errors;
pub mod join;
pub mod percent;
pub mod placement;
pub mod pwpush_api;

use crate::args::{PPCAction, PPCActionView, PPCArgs, PPCArgsView, PPCObject, PPCObjectView};
use crate::pwpush_api::{
    push_text, text_request, Outcome, OutcomeView, Request, RequestView,
};
use vstd::prelude::*;

verus! {

/// What is to be done next for a command.
#[derive(Debug)]
pub enum Step {
    /// Send this request, then hand the transport's reply to
    /// [`pwpush_api::conclude`].
    Send(Request),
    /// Nothing is to be sent: the command has ended this way.
    Done(Outcome),
}

/// A [`Step`] as a mathematical value.
pub ghost enum StepView {
    Send(RequestView),
    Done(OutcomeView),
}

impl View for Step {
    type V = StepView;

    open spec fn view(&self) -> StepView {
        match self {
            Step::Send(request) => StepView::Send(request@),
            Step::Done(outcome) => StepView::Done(outcome@),
        }
    }
}

/// The step that a command calls for: publishing a text secret calls for its
/// request, and every other command ends as not supported.
pub open spec fn first_step(args: PPCArgsView) -> StepView {
    match args.action {
        PPCActionView::Push(PPCObjectView::Text(text)) => StepView::Send(text_request(args, text)),
        _ => StepView::Done(OutcomeView::NotSupported),
    }
}

/// Decides what the command in `args` calls for.
pub fn run(args: &PPCArgs) -> (step: Step)
    requires
        args@.wf(),
    ensures
        step@ == first_step(args@),
{
    match &args.action {
        PPCAction::Push(push_command) => match push_command {
            PPCObject::Text(ppc_text) => Step::Send(push_text(args, ppc_text)),
            PPCObject::File(_) => Step::Done(Outcome::NotSupported),
            PPCObject::URL(_) => Step::Done(Outcome::NotSupported),
        },
        PPCAction::Expire(_) => Step::Done(Outcome::NotSupported),
    }
}

} // verus!
