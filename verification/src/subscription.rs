//! A subscription: the name and the email address of a subscriber, both
//! with text in them.

use crate::form::{Field, FormData, FormDataView, FormError};
use vstd::prelude::*;

verus! {

/// A subscription as a pair of character sequences.
pub struct SubscriptionView {
    pub name: Seq<char>,
    pub email: Seq<char>,
}

impl SubscriptionView {
    /// Both fields hold at least one character.
    pub open spec fn is_filled(self) -> bool {
        self.name.len() > 0 && self.email.len() > 0
    }
}

/// One row for the subscriptions store. Neither field is ever empty.
#[derive(Debug, PartialEq, Eq)]
pub struct Subscription {
    name: String,
    email: String,
}

impl View for Subscription {
    type V = SubscriptionView;

    closed spec fn view(&self) -> SubscriptionView {
        SubscriptionView { name: self.name@, email: self.email@ }
    }
}

/// The view of a validation result: the subscription by its view, the error
/// as it is.
pub open spec fn subscription_result_view(r: Result<Subscription, FormError>) -> Result<
    SubscriptionView,
    FormError,
> {
    match r {
        Ok(subscription) => Ok(subscription@),
        Err(e) => Err(e),
    }
}

impl Subscription {
    #[verifier::type_invariant]
    spec fn filled(self) -> bool {
        self.name@.len() > 0 && self.email@.len() > 0
    }

    /// The subscription that a form asks for: its two fields as they are,
    /// provided that each holds some text. An empty `email` is reported
    /// before an empty `name`.
    pub open spec fn of_form(form: FormDataView) -> Result<SubscriptionView, FormError> {
        if form.email.len() == 0 {
            Err(FormError::Empty(Field::Email))
        } else if form.name.len() == 0 {
            Err(FormError::Empty(Field::Name))
        } else {
            Ok(SubscriptionView { name: form.name, email: form.email })
        }
    }

    /// Validates a form. Nothing is trimmed or normalised: the fields are
    /// stored as they were decoded.
    pub fn from_form(form: FormData) -> (r: Result<Subscription, FormError>)
        ensures
            subscription_result_view(r) == Subscription::of_form(form@),
    {
        if form.email.as_str().is_empty() {
            Err(FormError::Empty(Field::Email))
        } else if form.name.as_str().is_empty() {
            Err(FormError::Empty(Field::Name))
        } else {
            Ok(Subscription { name: form.name, email: form.email })
        }
    }

    /// The subscriber's name.
    pub fn name(&self) -> (name: &str)
        ensures
            name@ == self@.name,
            self@.is_filled(),
    {
        proof {
            use_type_invariant(self);
        }
        self.name.as_str()
    }

    /// The subscriber's email address.
    pub fn email(&self) -> (email: &str)
        ensures
            email@ == self@.email,
            self@.is_filled(),
    {
        proof {
            use_type_invariant(self);
        }
        self.email.as_str()
    }
}

} // verus!
