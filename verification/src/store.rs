//! The subscriptions store as the service sees it: a sequence of rows that
//! only ever grows at its end, and what a handled request does to it.

use crate::form::{body_lacks, decoded_form, Field};
use crate::response::{
    Response,
    ResponseView,
    BAD_REQUEST,
    INTERNAL_SERVER_ERROR,
    NOT_FOUND,
    OK,
};
use crate::routes::{response_after_insert, InsertOutcome, StepView};
use crate::startup::{first_match, service_routes, step_for, Handler, Method, RouteView};
use crate::subscription::SubscriptionView;
use vstd::prelude::*;

verus! {

/// The store once a step has been carried out: one row more, at the end,
/// where the step was an insert and the store took it; the same rows
/// otherwise.
pub open spec fn store_after(
    store: Seq<SubscriptionView>,
    step: StepView,
    outcome: InsertOutcome,
) -> Seq<SubscriptionView> {
    match step {
        StepView::Insert(row) => match outcome {
            InsertOutcome::Stored => store.push(row),
            InsertOutcome::Failed => store,
        },
        StepView::Respond(_) => store,
    }
}

/// The response once a step has been carried out. The outcome counts only
/// where the step was an insert.
pub open spec fn response_after(step: StepView, outcome: InsertOutcome) -> ResponseView {
    match step {
        StepView::Insert(_) => response_after_insert(outcome),
        StepView::Respond(response) => response,
    }
}

/// The step for `POST /subscriptions` with the given body.
pub open spec fn submission(body: Seq<u8>) -> StepView {
    step_for(service_routes(), Method::Post, "/subscriptions"@, body)
}

/// Whether a body decodes to a form with text in both fields.
pub open spec fn is_valid_submission(body: Seq<u8>) -> bool {
    &&& decoded_form(body) is Ok
    &&& decoded_form(body)->Ok_0.name.len() > 0
    &&& decoded_form(body)->Ok_0.email.len() > 0
}

/// The row that a valid body asks for: the decoded fields, verbatim.
pub open spec fn row_of(body: Seq<u8>) -> SubscriptionView {
    SubscriptionView {
        name: decoded_form(body)->Ok_0.name,
        email: decoded_form(body)->Ok_0.email,
    }
}

/// A valid submission is answered with the insert of the decoded name and
/// email. Where the store takes the row, the response is 200 with no body
/// and the store holds exactly one row more, that one. Where it does not,
/// the response is 500 and the store is as it was.
pub proof fn lemma_valid_submission_stores_one_row(body: Seq<u8>, store: Seq<SubscriptionView>)
    requires
        is_valid_submission(body),
    ensures
        submission(body) == StepView::Insert(row_of(body)),
        response_after(submission(body), InsertOutcome::Stored) == Response::bare(OK),
        store_after(store, submission(body), InsertOutcome::Stored) == store.push(row_of(body)),
        store_after(store, submission(body), InsertOutcome::Stored).len() == store.len() + 1,
        response_after(submission(body), InsertOutcome::Failed) == Response::bare(
            INTERNAL_SERVER_ERROR,
        ),
        store_after(store, submission(body), InsertOutcome::Failed) == store,
{
    lemma_subscriptions_route();
}

/// A submission that lacks `name`, `email` or both is answered 400 with no
/// insert: the store is as it was, whatever state the store is in.
pub proof fn lemma_missing_field_is_refused(
    body: Seq<u8>,
    store: Seq<SubscriptionView>,
    outcome: InsertOutcome,
)
    requires
        body_lacks(body, Field::Name) || body_lacks(body, Field::Email),
    ensures
        submission(body) == StepView::Respond(Response::bare(BAD_REQUEST)),
        response_after(submission(body), outcome) == Response::bare(BAD_REQUEST),
        store_after(store, submission(body), outcome) == store,
{
    lemma_subscriptions_route();
}

/// Every submission that is not valid, for whatever reason, is answered 400
/// with no insert.
pub proof fn lemma_invalid_submission_is_refused(
    body: Seq<u8>,
    store: Seq<SubscriptionView>,
    outcome: InsertOutcome,
)
    requires
        !is_valid_submission(body),
    ensures
        response_after(submission(body), outcome) == Response::bare(BAD_REQUEST),
        store_after(store, submission(body), outcome) == store,
{
    lemma_subscriptions_route();
}

/// `GET /health_check` is answered 200 with a zero-length body whatever the
/// request carries, and without a step that involves the store: neither the
/// response depends on the store's outcome nor the store on the request.
pub proof fn lemma_health_check_ignores_store(
    body: Seq<u8>,
    store: Seq<SubscriptionView>,
    outcome: InsertOutcome,
)
    ensures
        step_for(service_routes(), Method::Get, "/health_check"@, body) == StepView::Respond(
            Response::bare(OK),
        ),
        response_after(
            step_for(service_routes(), Method::Get, "/health_check"@, body),
            outcome,
        ).status == 200,
        response_after(
            step_for(service_routes(), Method::Get, "/health_check"@, body),
            outcome,
        ).body.len() == 0,
        store_after(store, step_for(service_routes(), Method::Get, "/health_check"@, body), outcome)
            == store,
{
    assert(service_routes().first().matches(Method::Get, "/health_check"@));
}

/// Nothing is deduplicated: the same valid body submitted twice, stored
/// both times, leaves two equal rows at the end of the store.
pub proof fn lemma_resubmission_stores_second_row(body: Seq<u8>, store: Seq<SubscriptionView>)
    requires
        is_valid_submission(body),
    ensures
        store_after(
            store_after(store, submission(body), InsertOutcome::Stored),
            submission(body),
            InsertOutcome::Stored,
        ) == store.push(row_of(body)).push(row_of(body)),
        store_after(
            store_after(store, submission(body), InsertOutcome::Stored),
            submission(body),
            InsertOutcome::Stored,
        ).len() == store.len() + 2,
{
    lemma_valid_submission_stores_one_row(body, store);
    lemma_valid_submission_stores_one_row(body, store.push(row_of(body)));
}

/// A request that is neither `GET /health_check` nor `POST /subscriptions`
/// is answered 404, and the store is as it was.
pub proof fn lemma_unrouted_request_is_not_found(
    method: Method,
    path: Seq<char>,
    body: Seq<u8>,
    store: Seq<SubscriptionView>,
    outcome: InsertOutcome,
)
    requires
        !(method == Method::Get && path == "/health_check"@),
        !(method == Method::Post && path == "/subscriptions"@),
    ensures
        step_for(service_routes(), method, path, body) == StepView::Respond(
            Response::bare(NOT_FOUND),
        ),
        store_after(store, step_for(service_routes(), method, path, body), outcome) == store,
{
    let routes = service_routes();
    assert(routes.drop_first().first() == routes[1]);
    assert(routes.drop_first().drop_first().len() == 0);
    reveal_with_fuel(first_match, 3);
}

/// Whatever the table, the request and the outcome: the store never loses
/// or changes a row, it gains at most one, and it gains one only together
/// with a 200 response.
pub proof fn lemma_row_only_with_success(
    routes: Seq<RouteView>,
    method: Method,
    path: Seq<char>,
    body: Seq<u8>,
    store: Seq<SubscriptionView>,
    outcome: InsertOutcome,
)
    ensures
        ({
            let step = step_for(routes, method, path, body);
            let after = store_after(store, step, outcome);
            &&& after == store || (after.len() == store.len() + 1 && after.drop_last() == store)
            &&& after != store ==> response_after(step, outcome) == Response::bare(OK)
            &&& response_after(step, outcome).status != 200 ==> after == store
        }),
{
    let step = step_for(routes, method, path, body);
    let after = store_after(store, step, outcome);
    if after != store {
        assert(after.drop_last() =~= store);
    }
}

/// The status names what went wrong, and nothing goes wrong unnamed: 404
/// exactly where no route matches, 400 exactly where the subscribe handler
/// is given a submission that is not valid, 500 exactly where a valid
/// submission meets a store that does not take it, and 200 in every other
/// case. No response has a body.
pub proof fn lemma_status_names_the_failure(
    routes: Seq<RouteView>,
    method: Method,
    path: Seq<char>,
    body: Seq<u8>,
    outcome: InsertOutcome,
)
    ensures
        ({
            let found = first_match(routes, method, path);
            let response = response_after(step_for(routes, method, path, body), outcome);
            &&& response.body.len() == 0
            &&& response.status == NOT_FOUND <==> found is None
            &&& response.status == BAD_REQUEST <==> found == Some(Handler::Subscribe)
                && !is_valid_submission(body)
            &&& response.status == INTERNAL_SERVER_ERROR <==> found == Some(Handler::Subscribe)
                && is_valid_submission(body) && outcome == InsertOutcome::Failed
            &&& response.status == OK <==> found == Some(Handler::HealthCheck) || (found == Some(
                Handler::Subscribe,
            ) && is_valid_submission(body) && outcome == InsertOutcome::Stored)
        }),
{
}

/// `POST /subscriptions` leads to the subscribe handler.
proof fn lemma_subscriptions_route()
    ensures
        first_match(service_routes(), Method::Post, "/subscriptions"@) == Some(Handler::Subscribe),
{
    let routes = service_routes();
    assert(routes.drop_first().first() == routes[1]);
    reveal_with_fuel(first_match, 3);
}

} // verus!
