//! The intake form shown when the create-ticket button is clicked, and the
//! reading of its submitted values.
use vstd::prelude::*;
use crate::interaction::{ProtocolError, SubmittedField, ticket_form_id};
use crate::poster::create_ticket_label;
use crate::ticket::{TemplateModel, TicketRecord};

verus! {

/// A text field of a form, as a mathematical value.
pub ghost struct FieldModel {
    pub custom_id: Seq<char>,
    pub label: Seq<char>,
    pub placeholder: Option<Seq<char>>,
    pub required: bool,
}

/// One text field of the form.
#[derive(Debug)]
pub struct TextField {
    pub custom_id: String,
    pub label: String,
    pub placeholder: Option<String>,
    pub required: bool,
}

impl View for TextField {
    type V = FieldModel;

    open spec fn view(&self) -> FieldModel {
        FieldModel {
            custom_id: self.custom_id@,
            label: self.label@,
            placeholder: match self.placeholder {
                Some(p) => Some(p@),
                None => None,
            },
            required: self.required,
        }
    }
}

/// The form sent in answer to a click.
#[derive(Debug)]
pub struct ModalSpec {
    pub custom_id: String,
    pub title: String,
    pub fields: Vec<TextField>,
}

pub open spec fn fields_view(fs: Seq<TextField>) -> Seq<FieldModel> {
    fs.map_values(|f: TextField| f@)
}

/// The field that asks for one template: keyed by its name, labelled by its
/// title, with its placeholder, to be filled in.
pub open spec fn field_for(t: TemplateModel) -> FieldModel {
    FieldModel { custom_id: t.name, label: t.title, placeholder: Some(t.placeholder), required: true }
}

/// The one field of the form of a ticket without templates.
pub open spec fn title_field() -> FieldModel {
    FieldModel { custom_id: "ticket_title"@, label: "title"@, placeholder: None, required: true }
}

/// The fields of a ticket's form: one per template, in the templates' order;
/// a ticket without templates asks for a title alone.
pub open spec fn form_fields(ts: Seq<TemplateModel>) -> Seq<FieldModel> {
    if ts.len() == 0 {
        seq![title_field()]
    } else {
        ts.map_values(|t: TemplateModel| field_for(t))
    }
}

/// Builds the intake form of a ticket.
pub fn build_modal(rec: &TicketRecord) -> (r: ModalSpec)
    ensures
        r.custom_id@ == ticket_form_id(),
        r.title@ == create_ticket_label(),
        fields_view(r.fields@) == form_fields(rec@.templates),
{
    let mut fields: Vec<TextField> = Vec::new();
    if rec.templates.len() == 0 {
        fields.push(
            TextField {
                custom_id: "ticket_title".to_owned(),
                label: "title".to_owned(),
                placeholder: None,
                required: true,
            },
        );
        assert(fields_view(fields@) =~= form_fields(rec@.templates));
    } else {
        let mut i: usize = 0;
        while i < rec.templates.len()
            invariant
                i <= rec.templates.len(),
                fields@.len() == i,
                forall|k: int|
                    0 <= k < i ==> #[trigger] fields@[k]@ == field_for(rec@.templates[k]),
            decreases rec.templates.len() - i,
        {
            let t = &rec.templates[i];
            fields.push(
                TextField {
                    custom_id: t.name.clone(),
                    label: t.title.clone(),
                    placeholder: Some(t.placeholder.clone()),
                    required: true,
                },
            );
            i = i + 1;
        }
        assert(fields_view(fields@) =~= form_fields(rec@.templates));
    }
    ModalSpec { custom_id: "ticket_form".to_owned(), title: "チケットの作成".to_owned(), fields }
}

/// The notice sent when the clicked request has no stored ticket.
pub open spec fn missing_ticket_notice() -> Seq<char> {
    "This ticket request is no longer available."@
}

/// The answer to an interaction: a form, or a notice to the requester alone.
#[derive(Debug)]
pub enum Reply {
    Modal(ModalSpec),
    Notice(String),
}

/// Answers a click on the create-ticket button, given the ticket stored for
/// the clicked message: its form, or a notice when there is none.
pub fn present(rec: Option<&TicketRecord>) -> (r: Reply)
    ensures
        rec is None ==> (r matches Reply::Notice(n) && n@ == missing_ticket_notice()),
        rec matches Some(t) ==> (r matches Reply::Modal(m) && m.custom_id@ == ticket_form_id()
            && m.title@ == create_ticket_label() && fields_view(m.fields@) == form_fields(
            t@.templates,
        )),
{
    match rec {
        Some(t) => Reply::Modal(build_modal(t)),
        None => Reply::Notice("This ticket request is no longer available.".to_owned()),
    }
}

/// The submitted value under a custom id, as a value.
pub ghost struct SubmittedModel {
    pub custom_id: Seq<char>,
    pub value: Seq<char>,
}

pub open spec fn submitted_view(fs: Seq<SubmittedField>) -> Seq<SubmittedModel> {
    fs.map_values(|f: SubmittedField| SubmittedModel { custom_id: f.custom_id@, value: f.value@ })
}

/// `i` is the first submitted value under that custom id.
pub open spec fn first_match(fs: Seq<SubmittedModel>, name: Seq<char>, i: int) -> bool {
    &&& 0 <= i < fs.len()
    &&& fs[i].custom_id == name
    &&& forall|j: int| 0 <= j < i ==> #[trigger] fs[j].custom_id != name
}

/// Some value was submitted under that custom id.
pub open spec fn has_value(fs: Seq<SubmittedModel>, name: Seq<char>) -> bool {
    exists|i: int| 0 <= i < fs.len() && #[trigger] fs[i].custom_id == name
}

/// `a` is the first value submitted under that custom id.
pub open spec fn answer_is(fs: Seq<SubmittedModel>, name: Seq<char>, a: Seq<char>) -> bool {
    exists|i: int| first_match(fs, name, i) && a == fs[i].value
}

fn find_value(fs: &Vec<SubmittedField>, name: &String) -> (r: Option<usize>)
    ensures
        r matches Some(i) ==> first_match(submitted_view(fs@), name@, i as int),
        r is None ==> !has_value(submitted_view(fs@), name@),
{
    let ghost v = submitted_view(fs@);
    let mut i: usize = 0;
    while i < fs.len()
        invariant
            i <= fs.len(),
            v == submitted_view(fs@),
            forall|j: int| 0 <= j < i ==> #[trigger] v[j].custom_id != name@,
        decreases fs.len() - i,
    {
        if fs[i].custom_id == *name {
            return Some(i);
        }
        i = i + 1;
    }
    None
}

/// Reads the submitted form of a ticket: one answer per template, in the
/// templates' order, each the first value submitted under the template's name.
/// A template without a value makes the submission malformed.
pub fn collect_answers(rec: &TicketRecord, submitted: &Vec<SubmittedField>) -> (r: Result<
    Vec<String>,
    ProtocolError,
>)
    ensures
        r is Ok == (forall|k: int|
            0 <= k < rec@.templates.len() ==> has_value(
                submitted_view(submitted@),
                #[trigger] rec@.templates[k].name,
            )),
        r is Err ==> r == Err::<Vec<String>, ProtocolError>(ProtocolError::MissingField),
        r matches Ok(answers) ==> answers@.len() == rec@.templates.len() && forall|k: int|
            0 <= k < answers@.len() ==> answer_is(
                submitted_view(submitted@),
                rec@.templates[k].name,
                #[trigger] answers@[k]@,
            ),
{
    let ghost v = submitted_view(submitted@);
    let mut answers: Vec<String> = Vec::new();
    let mut k: usize = 0;
    while k < rec.templates.len()
        invariant
            k <= rec.templates.len(),
            v == submitted_view(submitted@),
            answers@.len() == k,
            forall|a: int| 0 <= a < k ==> has_value(v, #[trigger] rec@.templates[a].name),
            forall|a: int|
                0 <= a < k ==> answer_is(v, rec@.templates[a].name, #[trigger] answers@[a]@),
        decreases rec.templates.len() - k,
    {
        match find_value(submitted, &rec.templates[k].name) {
            Some(i) => {
                proof {
                    assert(rec@.templates[k as int].name == rec.templates@[k as int].name@);
                }
                answers.push(submitted[i].value.clone());
                proof {
                    assert(answers@[k as int]@ == v[i as int].value);
                    assert(first_match(v, rec@.templates[k as int].name, i as int));
                    assert(answer_is(v, rec@.templates[k as int].name, answers@[k as int]@));
                    assert(has_value(v, rec@.templates[k as int].name));
                }
                k = k + 1;
            },
            None => {
                proof {
                    assert(rec@.templates[k as int].name == rec.templates@[k as int].name@);
                }
                return Err(ProtocolError::MissingField);
            },
        }
    }
    Ok(answers)
}

/// The notice sent for a malformed interaction.
pub open spec fn rejection_notice() -> Seq<char> {
    "This interaction could not be understood."@
}

/// The notice that confirms a submitted form.
pub open spec fn submitted_notice() -> Seq<char> {
    "Your ticket has been submitted."@
}

/// Answers a malformed interaction, so the sender is not left without a reply.
pub fn reject(e: ProtocolError) -> (r: Reply)
    ensures
        r matches Reply::Notice(n) && n@ == rejection_notice(),
{
    Reply::Notice("This interaction could not be understood.".to_owned())
}

/// Answers a submitted form, given the ticket stored for its message: the
/// answers read from it with a confirmation, a notice when the ticket is gone,
/// and a rejection when a template has no value.
pub fn finalize(rec: Option<&TicketRecord>, submitted: &Vec<SubmittedField>) -> (r: (
    Reply,
    Option<Vec<String>>,
))
    ensures
        rec is None ==> (r.0 matches Reply::Notice(n) && n@ == missing_ticket_notice())
            && r.1 is None,
        rec matches Some(t) ==> {
            &&& r.1 is Some == (forall|k: int|
                0 <= k < t@.templates.len() ==> has_value(
                    submitted_view(submitted@),
                    #[trigger] t@.templates[k].name,
                ))
            &&& r.1 is Some ==> (r.0 matches Reply::Notice(n) && n@ == submitted_notice())
            &&& r.1 is None ==> (r.0 matches Reply::Notice(n) && n@ == rejection_notice())
            &&& r.1 matches Some(answers) ==> answers@.len() == t@.templates.len() && forall|k: int|
                0 <= k < answers@.len() ==> answer_is(
                    submitted_view(submitted@),
                    t@.templates[k].name,
                    #[trigger] answers@[k]@,
                )
        },
{
    match rec {
        None => (Reply::Notice("This ticket request is no longer available.".to_owned()), None),
        Some(t) => match collect_answers(t, submitted) {
            Ok(answers) => (Reply::Notice("Your ticket has been submitted.".to_owned()), Some(answers)),
            Err(e) => (reject(e), None),
        },
    }
}

} // verus!
