//! The subscription intake pipeline.
//!
//! A request moves through `Received -> Validated -> Persisted ->
//! Responded`, with no retries and no backward transitions.  The whole
//! use case is the pure step function `intake_step`: the caller performs
//! each returned action (write the row, send the email, answer the
//! request) and feeds the outcome back in as the next event.

use crate::domain::{
    email_valid, name_valid, parse_email, parse_name, NewSubscriber, ValidationError,
};
use vstd::prelude::*;
use vstd::string::*;

verus! {

/// The raw form payload of a subscription request: two untrusted strings.
#[derive(Debug)]
pub struct FormData {
    pub email: String,
    pub name: String,
}

/// Whether both fields of the form pass their validators.
pub open spec fn form_valid(form: FormData) -> bool {
    name_valid(form.name@) && email_valid(form.email@)
}

impl FormData {
    /// Runs both validators, name before email, and short-circuits on the
    /// first failure; succeeds exactly on forms whose two fields are
    /// valid, and keeps both strings unchanged.
    pub fn try_into(self) -> (r: Result<NewSubscriber, ValidationError>)
        ensures
            r is Ok <==> form_valid(self),
            r matches Ok(ns) ==> ns.name@ == self.name@ && ns.email@ == self.email@,
            !name_valid(self.name@) ==> r == Err::<NewSubscriber, _>(ValidationError::InvalidName),
            name_valid(self.name@) && !email_valid(self.email@) ==> r == Err::<
                NewSubscriber,
                _,
            >(ValidationError::InvalidEmail),
    {
        let name = match parse_name(self.name) {
            Ok(name) => name,
            Err(e) => {
                return Err(e);
            },
        };
        let email = match parse_email(self.email) {
            Ok(email) => email,
            Err(e) => {
                return Err(e);
            },
        };
        Ok(NewSubscriber { email, name })
    }
}

/// The outcome reported to the caller, one step up from concrete HTTP
/// status codes.
#[derive(Clone, Copy, Debug, PartialEq, Eq, Structural)]
pub enum ResponseStatus {
    Success,
    ClientError,
    ServerError,
}

impl ResponseStatus {
    /// The HTTP status code this outcome maps to at the boundary.
    pub fn status_code(&self) -> (r: u16)
        ensures
            *self is Success ==> r == 200,
            *self is ClientError ==> r == 400,
            *self is ServerError ==> r == 500,
    {
        match self {
            ResponseStatus::Success => 200,
            ResponseStatus::ClientError => 400,
            ResponseStatus::ServerError => 500,
        }
    }
}

/// The boundary's required-field rule: a `FormData` exists only when both
/// the `name` and the `email` field were present in the request.
pub fn assemble_form(name: Option<String>, email: Option<String>) -> (r: Result<
    FormData,
    ResponseStatus,
>)
    ensures
        r is Ok <==> name is Some && email is Some,
        r matches Ok(form) ==> (name matches Some(n) && form.name@ == n@) && (email matches Some(
            e,
        ) && form.email@ == e@),
        r matches Err(status) ==> status == ResponseStatus::ClientError,
{
    match (name, email) {
        (Some(name), Some(email)) => Ok(FormData { name, email }),
        _ => Err(ResponseStatus::ClientError),
    }
}

/// The lifecycle of a persisted subscription row.  The intake pipeline
/// only ever writes the initial state; a later confirmation flow owns the
/// transition out of it.
#[derive(Clone, Copy, Debug, PartialEq, Eq, Structural)]
pub enum SubscriptionStatus {
    PendingConfirmation,
}

impl SubscriptionStatus {
    /// The enumerated string stored in the row.
    pub fn as_str(&self) -> (r: &str)
        ensures
            r@ == "pending_confirmation"@,
    {
        "pending_confirmation"
    }
}

/// One subscription row as the repository stores it.
pub struct SubscriptionRecord {
    pub id: u128,
    pub email: String,
    pub name: String,
    pub subscribed_at_millis: i64,
    pub status: SubscriptionStatus,
}

/// Relies on uuid::Uuid::new_v4 (read through uuid::Uuid::as_u128): a
/// fresh random identifier.  Nothing can be promised of a random value.
#[verifier::external_body]
fn fresh_subscriber_id() -> u128 {
    uuid::Uuid::new_v4().as_u128()
}

/// Relies on chrono::Utc::now (read through timestamp_millis): the
/// capture instant in UTC.  Nothing can be promised of the clock.
#[verifier::external_body]
fn current_utc_millis() -> i64 {
    chrono::Utc::now().timestamp_millis()
}

/// What the row written for `form` must look like: the validated fields
/// unchanged and the status at its initial value.  The identifier and the
/// instant are whatever the generator and the clock gave.
pub open spec fn record_for(record: SubscriptionRecord, form: FormData) -> bool {
    &&& record.email@ == form.email@
    &&& record.name@ == form.name@
    &&& record.status == SubscriptionStatus::PendingConfirmation
}

/// Builds the row to persist for a validated subscriber: a fresh
/// identifier, the capture instant, and status `pending_confirmation` —
/// never any other initial status.
pub fn prepare_record(subscriber: &NewSubscriber) -> (r: SubscriptionRecord)
    ensures
        r.email@ == subscriber.email@,
        r.name@ == subscriber.name@,
        r.status == SubscriptionStatus::PendingConfirmation,
        email_valid(r.email@),
        name_valid(r.name@),
{
    SubscriptionRecord {
        id: fresh_subscriber_id(),
        email: String::from_str(subscriber.email.as_str()),
        name: String::from_str(subscriber.name.as_str()),
        subscribed_at_millis: current_utc_millis(),
        status: SubscriptionStatus::PendingConfirmation,
    }
}

/// The confirmation email handed to the dispatcher.
pub struct EmailMessage {
    pub to: String,
    pub subject: String,
    pub html_body: String,
    pub text_body: String,
}

/// The well-known confirmation-endpoint URL.  A static placeholder in the
/// current design: it carries no per-subscriber token.
pub open spec fn spec_confirmation_link() -> Seq<char> {
    "https://my-api.com/subscriptions/confirm"@
}

/// The confirmation link embedded in both email bodies.
pub fn confirmation_link() -> (r: &'static str)
    ensures
        r@ == spec_confirmation_link(),
{
    "https://my-api.com/subscriptions/confirm"
}

/// The plain-text body: the link stands in it as literal text.
pub open spec fn spec_text_body(link: Seq<char>) -> Seq<char> {
    "Welcome to our newsletter!\nVisit "@ + link + " to confirm your subscription."@
}

/// The HTML body: the same link stands in it as a clickable anchor.
pub open spec fn spec_html_body(link: Seq<char>) -> Seq<char> {
    "Welcome to our newsletter!<br />Click <a href=\""@ + link
        + "\">here</a> to confirm your subscription."@
}

/// What the dispatched message must look like for `subscriber`: addressed
/// to the validated address, and both bodies built around the one
/// confirmation link.
pub open spec fn confirmation_email_for(msg: EmailMessage, subscriber: NewSubscriber) -> bool {
    &&& msg.to@ == subscriber.email@
    &&& msg.subject@ == "Welcome!"@
    &&& msg.html_body@ == spec_html_body(spec_confirmation_link())
    &&& msg.text_body@ == spec_text_body(spec_confirmation_link())
}

/// The HTML body and the plain-text body both hold the confirmation
/// link, the same one, as a contiguous run of characters.
pub proof fn lemma_link_in_both_bodies(link: Seq<char>)
    ensures
        exists|i: int|
            0 <= i && i + link.len() <= spec_html_body(link).len() && #[trigger] spec_html_body(
                link,
            ).subrange(i, i + link.len()) == link,
        exists|i: int|
            0 <= i && i + link.len() <= spec_text_body(link).len() && #[trigger] spec_text_body(
                link,
            ).subrange(i, i + link.len()) == link,
{
    let html_prefix = "Welcome to our newsletter!<br />Click <a href=\""@;
    let text_prefix = "Welcome to our newsletter!\nVisit "@;
    assert(spec_html_body(link).subrange(
        html_prefix.len() as int,
        html_prefix.len() + link.len() as int,
    ) =~= link);
    assert(spec_text_body(link).subrange(
        text_prefix.len() as int,
        text_prefix.len() + link.len() as int,
    ) =~= link);
}

/// Builds the confirmation email for a validated subscriber.
pub fn build_confirmation_email(subscriber: &NewSubscriber) -> (r: EmailMessage)
    ensures
        confirmation_email_for(r, *subscriber),
{
    let link = confirmation_link();
    let mut text_body = String::from_str("Welcome to our newsletter!\nVisit ");
    text_body.append(link);
    text_body.append(" to confirm your subscription.");
    let mut html_body = String::from_str("Welcome to our newsletter!<br />Click <a href=\"");
    html_body.append(link);
    html_body.append("\">here</a> to confirm your subscription.");
    EmailMessage {
        to: String::from_str(subscriber.email.as_str()),
        subject: String::from_str("Welcome!"),
        html_body,
        text_body,
    }
}

/// Where a request stands.  `Responded` is terminal.
pub enum IntakeState {
    Received,
    Validated { subscriber: NewSubscriber },
    Persisted { subscriber: NewSubscriber },
    Responded { status: ResponseStatus },
}

/// What the outside world reports to the pipeline.
pub enum IntakeEvent {
    FormSubmitted { form: FormData },
    InsertCompleted { accepted: bool },
    DispatchCompleted { delivered: bool },
}

/// What the pipeline asks the outside world to do next.
pub enum IntakeAction {
    Persist { record: SubscriptionRecord },
    Dispatch { email: EmailMessage },
    Respond { status: ResponseStatus },
}

/// Which event each state is waiting for.
pub open spec fn step_allowed(state: IntakeState, event: IntakeEvent) -> bool {
    match (state, event) {
        (IntakeState::Received, IntakeEvent::FormSubmitted { .. }) => true,
        (IntakeState::Validated { .. }, IntakeEvent::InsertCompleted { .. }) => true,
        (IntakeState::Persisted { .. }, IntakeEvent::DispatchCompleted { .. }) => true,
        _ => false,
    }
}

/// One step of the intake pipeline.
///
/// An invalid form answers with a client error and asks for no side
/// effect; a refused write answers with a server error and no email is
/// dispatched; once the row is written, the email is dispatched and the
/// request succeeds whether or not delivery did — dispatch failure is
/// deliberately fire-and-forget.
pub fn intake_step(state: IntakeState, event: IntakeEvent) -> (r: (IntakeState, IntakeAction))
    requires
        step_allowed(state, event),
    ensures
        event matches IntakeEvent::FormSubmitted { form } ==> (if form_valid(form) {
            &&& r.0 matches IntakeState::Validated { subscriber } && subscriber.name@
                == form.name@ && subscriber.email@ == form.email@
            &&& r.1 matches IntakeAction::Persist { record } && record_for(record, form)
        } else {
            &&& r.0 == (IntakeState::Responded { status: ResponseStatus::ClientError })
            &&& r.1 == (IntakeAction::Respond { status: ResponseStatus::ClientError })
        }),
        state matches IntakeState::Validated { subscriber } ==> (event matches
            IntakeEvent::InsertCompleted { accepted } ==> (if accepted {
            &&& r.0 == (IntakeState::Persisted { subscriber })
            &&& r.1 matches IntakeAction::Dispatch { email } && confirmation_email_for(
                email,
                subscriber,
            )
        } else {
            &&& r.0 == (IntakeState::Responded { status: ResponseStatus::ServerError })
            &&& r.1 == (IntakeAction::Respond { status: ResponseStatus::ServerError })
        })),
        state is Persisted && event is DispatchCompleted ==> {
            &&& r.0 == (IntakeState::Responded { status: ResponseStatus::Success })
            &&& r.1 == (IntakeAction::Respond { status: ResponseStatus::Success })
        },
{
    match (state, event) {
        (IntakeState::Received, IntakeEvent::FormSubmitted { form }) => {
            match form.try_into() {
                Ok(subscriber) => {
                    let record = prepare_record(&subscriber);
                    (
                        IntakeState::Validated { subscriber },
                        IntakeAction::Persist { record },
                    )
                },
                Err(_) => (
                    IntakeState::Responded { status: ResponseStatus::ClientError },
                    IntakeAction::Respond { status: ResponseStatus::ClientError },
                ),
            }
        },
        (IntakeState::Validated { subscriber }, IntakeEvent::InsertCompleted { accepted }) => {
            if accepted {
                let email = build_confirmation_email(&subscriber);
                (IntakeState::Persisted { subscriber }, IntakeAction::Dispatch { email })
            } else {
                (
                    IntakeState::Responded { status: ResponseStatus::ServerError },
                    IntakeAction::Respond { status: ResponseStatus::ServerError },
                )
            }
        },
        (IntakeState::Persisted { .. }, IntakeEvent::DispatchCompleted { .. }) => (
            IntakeState::Responded { status: ResponseStatus::Success },
            IntakeAction::Respond { status: ResponseStatus::Success },
        ),
        _ => unreached(),
    }
}

} // verus!
