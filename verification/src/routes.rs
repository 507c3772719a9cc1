//! The two handlers of the service.
//!
//! A handler does not touch the store. It decides: either the response is
//! known at once, or one row is to be inserted and the response follows
//! from how the insert went.

use crate::form::{decoded_form, form_result_view, FormData, FormDataView, FormError};
use crate::response::{
    Response,
    ResponseView,
    BAD_REQUEST,
    INTERNAL_SERVER_ERROR,
    OK,
};
use crate::subscription::{Subscription, SubscriptionView};
use vstd::prelude::*;

verus! {

/// How an insert into the subscriptions store went.
#[derive(Clone, Copy, Debug, PartialEq, Eq, Structural)]
pub enum InsertOutcome {
    /// The row is in the store.
    Stored,
    /// The store did not take the row.
    Failed,
}

/// A step by its view.
pub enum StepView {
    Respond(ResponseView),
    Insert(SubscriptionView),
}

/// What is to be done for a request.
#[derive(Debug, PartialEq, Eq)]
pub enum Step {
    /// Answer with this response; the store is not involved.
    Respond(Response),
    /// Insert this row, once, then answer with [`insert_response`].
    Insert(Subscription),
}

impl View for Step {
    type V = StepView;

    open spec fn view(&self) -> StepView {
        match self {
            Step::Respond(response) => StepView::Respond(response@),
            Step::Insert(subscription) => StepView::Insert(subscription@),
        }
    }
}

/// The step for a parsed form: an insert of its two fields where the form is
/// there and both fields hold text, a bare 400 otherwise.
pub open spec fn step_of_form(form: Result<FormDataView, FormError>) -> StepView {
    match form {
        Ok(form) => match Subscription::of_form(form) {
            Ok(subscription) => StepView::Insert(subscription),
            Err(_) => StepView::Respond(Response::bare(BAD_REQUEST)),
        },
        Err(_) => StepView::Respond(Response::bare(BAD_REQUEST)),
    }
}

/// The step for the body of a subscription request.
pub open spec fn subscribe_step(body: Seq<u8>) -> StepView {
    step_of_form(decoded_form(body))
}

/// The response that follows an insert: 200 where the row was stored, 500
/// where it was not, with no body either way.
pub open spec fn response_after_insert(outcome: InsertOutcome) -> ResponseView {
    match outcome {
        InsertOutcome::Stored => Response::bare(OK),
        InsertOutcome::Failed => Response::bare(INTERNAL_SERVER_ERROR),
    }
}

/// Liveness probe: 200 with a zero-length body, whatever the request held.
pub fn health_check() -> (r: Response)
    ensures
        r@ == Response::bare(OK),
{
    Response::empty(OK)
}

/// Decides on a parsed form.
pub fn respond_to_form(form: Result<FormData, FormError>) -> (step: Step)
    ensures
        step@ == step_of_form(form_result_view(form)),
{
    match form {
        Ok(form) => match Subscription::from_form(form) {
            Ok(subscription) => Step::Insert(subscription),
            Err(_) => Step::Respond(Response::empty(BAD_REQUEST)),
        },
        Err(_) => Step::Respond(Response::empty(BAD_REQUEST)),
    }
}

/// Handles the body of a subscription request.
pub fn subscribe(body: &[u8]) -> (step: Step)
    ensures
        step@ == subscribe_step(body@),
{
    respond_to_form(FormData::parse(body))
}

/// The response once the insert that [`subscribe`] asked for has been tried.
pub fn insert_response(outcome: InsertOutcome) -> (r: Response)
    ensures
        r@ == response_after_insert(outcome),
{
    match outcome {
        InsertOutcome::Stored => Response::empty(OK),
        InsertOutcome::Failed => Response::empty(INTERNAL_SERVER_ERROR),
    }
}

} // verus!
