//! Posting a ticket request: the message with its embed and button is created
//! first, and the record is saved only once the message exists.
use vstd::prelude::*;
use crate::store::{StoreError, load_spec, save_spec};
use crate::ticket::{
    RecordModel, TemplateModel, TicketRecord, TicketTemplate, copy_templates, templates_are_valid,
    templates_valid, templates_view,
};

verus! {

/// The custom id of the button that opens the intake form.
pub open spec fn create_ticket_id() -> Seq<char> {
    "create_ticket"@
}

/// The text of the button that opens the intake form.
pub open spec fn create_ticket_label() -> Seq<char> {
    "チケットの作成"@
}

/// A ticket definition, as a mathematical value.
pub ghost struct DefinitionModel {
    pub title: Seq<char>,
    pub description: Seq<char>,
    pub template_kind: Seq<char>,
    pub templates: Seq<TemplateModel>,
}

/// What an operator asks for: the request's text, the form kind and its fields.
#[derive(Debug)]
pub struct TicketDefinition {
    pub title: String,
    pub description: String,
    pub template_kind: String,
    pub templates: Vec<TicketTemplate>,
}

impl View for TicketDefinition {
    type V = DefinitionModel;

    open spec fn view(&self) -> DefinitionModel {
        DefinitionModel {
            title: self.title@,
            description: self.description@,
            template_kind: self.template_kind@,
            templates: templates_view(self.templates@),
        }
    }
}

/// The record that a definition becomes once its message has the given id.
pub open spec fn record_for(d: DefinitionModel, message_id: u64) -> RecordModel {
    RecordModel {
        message_id,
        title: d.title,
        description: d.description,
        template_kind: d.template_kind,
        templates: d.templates,
    }
}

/// The ticket-request message: an embed with the title and description, and
/// one button that opens the intake form.
#[derive(Debug)]
pub struct OutgoingMessage {
    pub channel_id: u64,
    pub embed_title: String,
    pub embed_description: String,
    pub button_custom_id: String,
    pub button_label: String,
}

/// The message for a definition is posted to the channel, its embed carries the
/// definition's text and its button the form's custom id and label.
pub open spec fn is_request_message(m: OutgoingMessage, channel_id: u64, d: DefinitionModel) -> bool {
    &&& m.channel_id == channel_id
    &&& m.embed_title@ == d.title
    &&& m.embed_description@ == d.description
    &&& m.button_custom_id@ == create_ticket_id()
    &&& m.button_label@ == create_ticket_label()
}

/// Why posting a ticket failed.
#[derive(Debug, Clone, Copy, PartialEq, Eq, Structural)]
pub enum TicketError {
    /// A template has an empty name, or two share a name.
    InvalidDefinition,
    /// The message could not be created; nothing was saved.
    PostFailed,
    /// The message exists but its record could not be saved.
    PersistFailed { message_id: u64 },
}

/// The HTTP status that reports an error to the caller.
pub open spec fn status_spec(e: TicketError) -> u16 {
    match e {
        TicketError::InvalidDefinition => 400,
        TicketError::PostFailed => 502,
        TicketError::PersistFailed { .. } => 500,
    }
}

/// The HTTP status that reports an error: a rejected definition, a failed post
/// and a failed save each have their own.
pub fn http_status(e: TicketError) -> (r: u16)
    ensures
        r == status_spec(e),
{
    match e {
        TicketError::InvalidDefinition => 400,
        TicketError::PostFailed => 502,
        TicketError::PersistFailed { .. } => 500,
    }
}

/// Where a post stands.
#[derive(Debug, Clone, Copy, PartialEq, Eq, Structural)]
pub enum PostState {
    /// The message has been asked for.
    Posting,
    /// The message exists; its record has been handed to the store.
    Persisting { message_id: u64 },
    /// The outcome has been given.
    Finished,
}

/// What the outside world reports back.
#[derive(Debug, Clone, Copy, PartialEq, Eq, Structural)]
pub enum PostEvent {
    MessageCreated { message_id: u64 },
    MessageFailed,
    Saved,
    SaveFailed,
}

/// An action, as a mathematical value.
pub ghost enum ActionModel {
    SaveRecord(RecordModel),
    Finish(Result<u64, TicketError>),
    Nothing,
}

/// What to do next.
#[derive(Debug)]
pub enum PostAction {
    /// Save this record, then report `Saved` or `SaveFailed`.
    SaveRecord(TicketRecord),
    /// Give this outcome to the caller.
    Finish(Result<u64, TicketError>),
    /// The event does not belong to this step; nothing to do.
    Nothing,
}

impl View for PostAction {
    type V = ActionModel;

    open spec fn view(&self) -> ActionModel {
        match self {
            PostAction::SaveRecord(rec) => ActionModel::SaveRecord(rec@),
            PostAction::Finish(r) => ActionModel::Finish(*r),
            PostAction::Nothing => ActionModel::Nothing,
        }
    }
}

/// One step of a post: the record is saved only after its message was created,
/// under that message's id; a failed post ends with `PostFailed` and a failed
/// save with `PersistFailed`; an event out of turn changes nothing.
pub open spec fn step_spec(s: PostState, d: DefinitionModel, ev: PostEvent) -> (PostState, ActionModel) {
    match (s, ev) {
        (PostState::Posting, PostEvent::MessageCreated { message_id }) => (
            PostState::Persisting { message_id },
            ActionModel::SaveRecord(record_for(d, message_id)),
        ),
        (PostState::Posting, PostEvent::MessageFailed) => (
            PostState::Finished,
            ActionModel::Finish(Err(TicketError::PostFailed)),
        ),
        (PostState::Persisting { message_id }, PostEvent::Saved) => (
            PostState::Finished,
            ActionModel::Finish(Ok(message_id)),
        ),
        (PostState::Persisting { message_id }, PostEvent::SaveFailed) => (
            PostState::Finished,
            ActionModel::Finish(Err(TicketError::PersistFailed { message_id })),
        ),
        _ => (s, ActionModel::Nothing),
    }
}

/// Drives one post of a ticket request.
#[derive(Debug)]
pub struct TicketPoster {
    pub channel_id: u64,
    pub definition: TicketDefinition,
    pub state: PostState,
}

impl TicketPoster {
    /// Starts a post: a valid definition gives the poster and the message to
    /// create; one whose templates have an empty or repeated name is refused.
    pub fn start(channel_id: u64, definition: TicketDefinition) -> (r: Result<
        (TicketPoster, OutgoingMessage),
        TicketError,
    >)
        ensures
            r is Ok == templates_valid(definition@.templates),
            r is Err ==> r == Err::<(TicketPoster, OutgoingMessage), TicketError>(
                TicketError::InvalidDefinition,
            ),
            r matches Ok((p, m)) ==> {
                &&& p.channel_id == channel_id
                &&& p.definition@ == definition@
                &&& p.state == PostState::Posting
                &&& is_request_message(m, channel_id, definition@)
            },
    {
        if !templates_are_valid(&definition.templates) {
            return Err(TicketError::InvalidDefinition);
        }
        let message = OutgoingMessage {
            channel_id,
            embed_title: definition.title.clone(),
            embed_description: definition.description.clone(),
            button_custom_id: "create_ticket".to_owned(),
            button_label: "チケットの作成".to_owned(),
        };
        Ok((TicketPoster { channel_id, definition, state: PostState::Posting }, message))
    }

    /// Takes what the outside world reported and says what to do next.
    pub fn on_event(&mut self, ev: PostEvent) -> (r: PostAction)
        ensures
            final(self).channel_id == old(self).channel_id,
            final(self).definition@ == old(self).definition@,
            (final(self).state, r@) == step_spec(old(self).state, old(self).definition@, ev),
    {
        match (self.state, ev) {
            (PostState::Posting, PostEvent::MessageCreated { message_id }) => {
                self.state = PostState::Persisting { message_id };
                PostAction::SaveRecord(
                    TicketRecord {
                        message_id,
                        title: self.definition.title.clone(),
                        description: self.definition.description.clone(),
                        template_kind: self.definition.template_kind.clone(),
                        templates: copy_templates(&self.definition.templates),
                    },
                )
            },
            (PostState::Posting, PostEvent::MessageFailed) => {
                self.state = PostState::Finished;
                PostAction::Finish(Err(TicketError::PostFailed))
            },
            (PostState::Persisting { message_id }, PostEvent::Saved) => {
                self.state = PostState::Finished;
                PostAction::Finish(Ok(message_id))
            },
            (PostState::Persisting { message_id }, PostEvent::SaveFailed) => {
                self.state = PostState::Finished;
                PostAction::Finish(Err(TicketError::PersistFailed { message_id }))
            },
            _ => PostAction::Nothing,
        }
    }
}

/// A created message leads to saving exactly the definition under its id, with
/// the templates in the definition's order. Under a new id the save adds the
/// whole record and the post ends with that id; under an id already stored the
/// save changes nothing and the post ends with `PersistFailed`.
pub proof fn lemma_post_is_atomic(db: Map<u64, RecordModel>, d: DefinitionModel, message_id: u64)
    ensures
        step_spec(PostState::Posting, d, PostEvent::MessageCreated { message_id }) == (
        PostState::Persisting { message_id },
        ActionModel::SaveRecord(record_for(d, message_id)),
        ),
        record_for(d, message_id).templates == d.templates,
        !db.contains_key(message_id) ==> {
            &&& save_spec(db, record_for(d, message_id)).1 == Ok::<(), StoreError>(())
            &&& load_spec(save_spec(db, record_for(d, message_id)).0, message_id) == Some(
                record_for(d, message_id),
            )
            &&& step_spec(PostState::Persisting { message_id }, d, PostEvent::Saved) == (
            PostState::Finished,
            ActionModel::Finish(Ok(message_id)),
            )
        },
        db.contains_key(message_id) ==> {
            &&& save_spec(db, record_for(d, message_id)).0 == db
            &&& step_spec(PostState::Persisting { message_id }, d, PostEvent::SaveFailed) == (
            PostState::Finished,
            ActionModel::Finish(Err(TicketError::PersistFailed { message_id })),
            )
        },
{
}

/// When the message cannot be created the post ends with `PostFailed`, and no
/// later event leads to a save.
pub proof fn lemma_failed_post_saves_nothing(d: DefinitionModel, later: PostEvent)
    ensures
        step_spec(PostState::Posting, d, PostEvent::MessageFailed) == (
        PostState::Finished,
        ActionModel::Finish(Err(TicketError::PostFailed)),
        ),
        step_spec(PostState::Finished, d, later) == (PostState::Finished, ActionModel::Nothing),
{
}

} // verus!
