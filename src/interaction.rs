//! Routing of platform interactions to their handlers, keyed by kind and by
//! the custom id of the component or form.
use vstd::prelude::*;
use crate::poster::create_ticket_id;

verus! {

/// The custom id of the intake form.
pub open spec fn ticket_form_id() -> Seq<char> {
    "ticket_form"@
}

/// The kinds of interaction the platform delivers.
#[derive(Debug, Clone, Copy, PartialEq, Eq, Structural)]
pub enum InteractionKind {
    Ping,
    ApplicationCommand,
    MessageComponent,
    ApplicationCommandAutocomplete,
    ModalSubmit,
}

/// One value the requester typed into the form, under the field's custom id.
#[derive(Debug)]
pub struct SubmittedField {
    pub custom_id: String,
    pub value: String,
}

/// A decoded interaction: what routing and the handlers read of it.
#[derive(Debug)]
pub struct Interaction {
    pub kind: InteractionKind,
    pub id: u64,
    pub token: String,
    /// The custom id of the clicked component or of the submitted form.
    pub custom_id: Option<String>,
    /// The message the component belongs to, or that the form was opened from.
    pub message_id: Option<u64>,
    /// The form's values, for a form submission.
    pub submitted: Vec<SubmittedField>,
}

/// The components this application answers.
#[derive(Debug, Clone, Copy, PartialEq, Eq, Structural)]
pub enum ComponentId {
    CreateTicket,
}

/// The forms this application answers.
#[derive(Debug, Clone, Copy, PartialEq, Eq, Structural)]
pub enum FormId {
    TicketForm,
}

/// The component a custom id names, if it is one of ours.
pub fn parse_component_id(s: &String) -> (r: Option<ComponentId>)
    ensures
        r is Some == (s@ == create_ticket_id()),
        r matches Some(c) ==> c == ComponentId::CreateTicket,
{
    if *s == "create_ticket".to_owned() {
        Some(ComponentId::CreateTicket)
    } else {
        None
    }
}

/// The form a custom id names, if it is one of ours.
pub fn parse_form_id(s: &String) -> (r: Option<FormId>)
    ensures
        r is Some == (s@ == ticket_form_id()),
        r matches Some(f) ==> f == FormId::TicketForm,
{
    if *s == "ticket_form".to_owned() {
        Some(FormId::TicketForm)
    } else {
        None
    }
}

/// A payload that lacks what its kind must carry.
#[derive(Debug, Clone, Copy, PartialEq, Eq, Structural)]
pub enum ProtocolError {
    MissingCustomId,
    MissingMessage,
    MissingField,
}

/// The handler an interaction goes to.
#[derive(Debug, Clone, Copy, PartialEq, Eq, Structural)]
pub enum Route {
    /// Answer with the intake form of the ticket requested by that message.
    PresentModal { message_id: u64 },
    /// Read the submitted form of the ticket requested by that message.
    FinalizeTicket { message_id: u64 },
    /// Answer with an error notice.
    Reject(ProtocolError),
    /// Not ours: no handler, no answer.
    Ignore,
}

/// Where an interaction of this kind, custom id and source message goes.
pub open spec fn route_spec(kind: InteractionKind, custom_id: Option<Seq<char>>, message_id: Option<u64>) -> Route {
    match kind {
        InteractionKind::MessageComponent => match custom_id {
            None => Route::Reject(ProtocolError::MissingCustomId),
            Some(c) => if c == create_ticket_id() {
                match message_id {
                    Some(m) => Route::PresentModal { message_id: m },
                    None => Route::Reject(ProtocolError::MissingMessage),
                }
            } else {
                Route::Ignore
            },
        },
        InteractionKind::ModalSubmit => match custom_id {
            None => Route::Reject(ProtocolError::MissingCustomId),
            Some(c) => if c == ticket_form_id() {
                match message_id {
                    Some(m) => Route::FinalizeTicket { message_id: m },
                    None => Route::Reject(ProtocolError::MissingMessage),
                }
            } else {
                Route::Ignore
            },
        },
        _ => Route::Ignore,
    }
}

/// The custom id of an interaction, as a value.
pub open spec fn custom_id_view(i: &Interaction) -> Option<Seq<char>> {
    match i.custom_id {
        Some(c) => Some(c@),
        None => None,
    }
}

/// Picks the handler of an interaction. A component other than the
/// create-ticket button never reaches the form and never gets an error.
pub fn route(i: &Interaction) -> (r: Route)
    ensures
        r == route_spec(i.kind, custom_id_view(i), i.message_id),
        (i.kind == InteractionKind::MessageComponent && i.custom_id is Some
            && custom_id_view(i) != Some(create_ticket_id())) ==> r == Route::Ignore,
{
    match i.kind {
        InteractionKind::MessageComponent => match &i.custom_id {
            None => Route::Reject(ProtocolError::MissingCustomId),
            Some(c) => match parse_component_id(c) {
                Some(ComponentId::CreateTicket) => match i.message_id {
                    Some(m) => Route::PresentModal { message_id: m },
                    None => Route::Reject(ProtocolError::MissingMessage),
                },
                None => Route::Ignore,
            },
        },
        InteractionKind::ModalSubmit => match &i.custom_id {
            None => Route::Reject(ProtocolError::MissingCustomId),
            Some(c) => match parse_form_id(c) {
                Some(FormId::TicketForm) => match i.message_id {
                    Some(m) => Route::FinalizeTicket { message_id: m },
                    None => Route::Reject(ProtocolError::MissingMessage),
                },
                None => Route::Ignore,
            },
        },
        _ => Route::Ignore,
    }
}

} // verus!
