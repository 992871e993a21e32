//! Ticket records and the intake-form templates they carry.
use vstd::prelude::*;

verus! {

/// What one intake field of a ticket is, as a mathematical value.
pub ghost struct TemplateModel {
    pub name: Seq<char>,
    pub title: Seq<char>,
    pub placeholder: Seq<char>,
}

/// What a ticket record is, as a mathematical value.
pub ghost struct RecordModel {
    pub message_id: u64,
    pub title: Seq<char>,
    pub description: Seq<char>,
    pub template_kind: Seq<char>,
    pub templates: Seq<TemplateModel>,
}

/// One field of the intake form.
#[derive(Debug)]
pub struct TicketTemplate {
    pub name: String,
    pub title: String,
    pub placeholder: String,
}

impl View for TicketTemplate {
    type V = TemplateModel;

    open spec fn view(&self) -> TemplateModel {
        TemplateModel { name: self.name@, title: self.title@, placeholder: self.placeholder@ }
    }
}

/// The templates of a list, as models, in the same order.
pub open spec fn templates_view(ts: Seq<TicketTemplate>) -> Seq<TemplateModel> {
    ts.map_values(|t: TicketTemplate| t@)
}

/// Every name is non-empty and no two templates share a name.
pub open spec fn templates_valid(ts: Seq<TemplateModel>) -> bool {
    &&& forall|i: int| 0 <= i < ts.len() ==> #[trigger] ts[i].name.len() > 0
    &&& forall|i: int, j: int|
        0 <= i < ts.len() && 0 <= j < ts.len() && i != j ==> #[trigger] ts[i].name != #[trigger] ts[j].name
}

impl TicketTemplate {
    pub fn new(name: String, title: String, placeholder: String) -> (r: TicketTemplate)
        ensures
            r@ == (TemplateModel { name: name@, title: title@, placeholder: placeholder@ }),
    {
        TicketTemplate { name, title, placeholder }
    }

    pub fn duplicate(&self) -> (r: TicketTemplate)
        ensures
            r@ == self@,
    {
        TicketTemplate {
            name: self.name.clone(),
            title: self.title.clone(),
            placeholder: self.placeholder.clone(),
        }
    }
}

/// Copies a list of templates, keeping their order.
pub fn copy_templates(ts: &Vec<TicketTemplate>) -> (r: Vec<TicketTemplate>)
    ensures
        templates_view(r@) == templates_view(ts@),
{
    let mut r: Vec<TicketTemplate> = Vec::new();
    let mut i: usize = 0;
    while i < ts.len()
        invariant
            i <= ts.len(),
            r@.len() == i,
            forall|k: int| 0 <= k < i ==> #[trigger] r@[k]@ == ts@[k]@,
        decreases ts.len() - i,
    {
        r.push(ts[i].duplicate());
        i = i + 1;
    }
    assert(templates_view(r@) =~= templates_view(ts@));
    r
}

/// Whether a template list may make up an intake form: no empty name, no name twice.
pub fn templates_are_valid(ts: &Vec<TicketTemplate>) -> (r: bool)
    ensures
        r == templates_valid(templates_view(ts@)),
{
    let ghost v = templates_view(ts@);
    let mut i: usize = 0;
    while i < ts.len()
        invariant
            i <= ts.len(),
            v == templates_view(ts@),
            forall|a: int| 0 <= a < i ==> #[trigger] v[a].name.len() > 0,
            forall|a: int, b: int|
                0 <= a < i && 0 <= b < ts.len() && a != b ==> #[trigger] v[a].name != #[trigger] v[b].name,
        decreases ts.len() - i,
    {
        if ts[i].name.as_str().is_empty() {
            proof {
                assert(ts[i as int].name@.len() == 0);
                assert(v[i as int].name.len() == 0);
            }
            return false;
        }
        let mut j: usize = 0;
        while j < ts.len()
            invariant
                i < ts.len(),
                j <= ts.len(),
                v == templates_view(ts@),
                forall|b: int| 0 <= b < j && b != i ==> v[i as int].name != #[trigger] v[b].name,
            decreases ts.len() - j,
        {
            if j != i && ts[i].name == ts[j].name {
                proof {
                    assert(v[i as int].name == v[j as int].name);
                }
                return false;
            }
            j = j + 1;
        }
        i = i + 1;
    }
    true
}

/// A ticket: the message that carries its request, its text, and its intake form.
#[derive(Debug)]
pub struct TicketRecord {
    pub message_id: u64,
    pub title: String,
    pub description: String,
    pub template_kind: String,
    pub templates: Vec<TicketTemplate>,
}

impl View for TicketRecord {
    type V = RecordModel;

    open spec fn view(&self) -> RecordModel {
        RecordModel {
            message_id: self.message_id,
            title: self.title@,
            description: self.description@,
            template_kind: self.template_kind@,
            templates: templates_view(self.templates@),
        }
    }
}

} // verus!
