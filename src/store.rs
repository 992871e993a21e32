//! Storage of ticket records as rows of two tables, `ticket` and
//! `ticket_template`, and an in-memory store that keeps each record as its rows.
use vstd::prelude::*;
use crate::ticket::{RecordModel, TemplateModel, TicketRecord, TicketTemplate};

verus! {

/// A `ticket` row, as a mathematical value.
pub ghost struct TicketRowModel {
    pub message_id: u64,
    pub title: Seq<char>,
    pub description: Seq<char>,
    pub template_kind: Seq<char>,
}

/// A `ticket_template` row, as a mathematical value.
pub ghost struct TemplateRowModel {
    pub message_id: u64,
    pub position: int,
    pub name: Seq<char>,
    pub title: Seq<char>,
    pub placeholder: Seq<char>,
}

/// One row of the `ticket` table.
#[derive(Debug)]
pub struct TicketRow {
    pub message_id: u64,
    pub title: String,
    pub description: String,
    pub template_kind: String,
}

impl View for TicketRow {
    type V = TicketRowModel;

    open spec fn view(&self) -> TicketRowModel {
        TicketRowModel {
            message_id: self.message_id,
            title: self.title@,
            description: self.description@,
            template_kind: self.template_kind@,
        }
    }
}

/// One row of the `ticket_template` table; `position` keeps the field order.
#[derive(Debug)]
pub struct TemplateRow {
    pub message_id: u64,
    pub position: u64,
    pub name: String,
    pub title: String,
    pub placeholder: String,
}

impl View for TemplateRow {
    type V = TemplateRowModel;

    open spec fn view(&self) -> TemplateRowModel {
        TemplateRowModel {
            message_id: self.message_id,
            position: self.position as int,
            name: self.name@,
            title: self.title@,
            placeholder: self.placeholder@,
        }
    }
}

pub open spec fn template_rows_view(rows: Seq<TemplateRow>) -> Seq<TemplateRowModel> {
    rows.map_values(|r: TemplateRow| r@)
}

/// The `ticket` row that stores a record.
pub open spec fn ticket_row_model(m: RecordModel) -> TicketRowModel {
    TicketRowModel {
        message_id: m.message_id,
        title: m.title,
        description: m.description,
        template_kind: m.template_kind,
    }
}

/// The `ticket_template` rows that store a record: one per template, in order,
/// each numbered by its place.
pub open spec fn template_rows_model(m: RecordModel) -> Seq<TemplateRowModel> {
    Seq::new(
        m.templates.len(),
        |i: int|
            TemplateRowModel {
                message_id: m.message_id,
                position: i,
                name: m.templates[i].name,
                title: m.templates[i].title,
                placeholder: m.templates[i].placeholder,
            },
    )
}

/// The template rows belong to the ticket row and are numbered 0, 1, 2, ... in order.
pub open spec fn rows_well_formed(t: TicketRowModel, rows: Seq<TemplateRowModel>) -> bool {
    forall|i: int|
        #![trigger rows[i]]
        0 <= i < rows.len() ==> rows[i].message_id == t.message_id && rows[i].position == i
}

/// The record that a ticket row and its template rows describe.
pub open spec fn record_of_rows(t: TicketRowModel, rows: Seq<TemplateRowModel>) -> RecordModel {
    RecordModel {
        message_id: t.message_id,
        title: t.title,
        description: t.description,
        template_kind: t.template_kind,
        templates: Seq::new(
            rows.len(),
            |i: int|
                TemplateModel {
                    name: rows[i].name,
                    title: rows[i].title,
                    placeholder: rows[i].placeholder,
                },
        ),
    }
}

/// Storing a record as rows and reading the rows back gives the same record,
/// with the same templates in the same order (none included).
pub proof fn lemma_rows_round_trip(m: RecordModel)
    ensures
        rows_well_formed(ticket_row_model(m), template_rows_model(m)),
        record_of_rows(ticket_row_model(m), template_rows_model(m)) == m,
{
    assert(record_of_rows(ticket_row_model(m), template_rows_model(m)).templates =~= m.templates);
}

impl TicketRow {
    /// The `ticket` row of a record.
    pub fn of_record(rec: &TicketRecord) -> (r: TicketRow)
        ensures
            r@ == ticket_row_model(rec@),
    {
        TicketRow {
            message_id: rec.message_id,
            title: rec.title.clone(),
            description: rec.description.clone(),
            template_kind: rec.template_kind.clone(),
        }
    }
}

/// The `ticket_template` rows of a record, in the order of its templates.
pub fn template_rows_of(rec: &TicketRecord) -> (r: Vec<TemplateRow>)
    ensures
        template_rows_view(r@) == template_rows_model(rec@),
{
    let mut r: Vec<TemplateRow> = Vec::new();
    let mut i: usize = 0;
    while i < rec.templates.len()
        invariant
            i <= rec.templates.len(),
            r@.len() == i,
            forall|k: int| 0 <= k < i ==> #[trigger] r@[k]@ == template_rows_model(rec@)[k],
        decreases rec.templates.len() - i,
    {
        let t = &rec.templates[i];
        r.push(
            TemplateRow {
                message_id: rec.message_id,
                position: i as u64,
                name: t.name.clone(),
                title: t.title.clone(),
                placeholder: t.placeholder.clone(),
            },
        );
        i = i + 1;
    }
    assert(template_rows_view(r@) =~= template_rows_model(rec@));
    r
}

/// Rebuilds a record from its `ticket` row and its `ticket_template` rows,
/// which must be those of that ticket, ordered by position from 0 on.
pub fn record_from_rows(t: &TicketRow, rows: &Vec<TemplateRow>) -> (r: Option<TicketRecord>)
    ensures
        r.is_some() == rows_well_formed(t@, template_rows_view(rows@)),
        r matches Some(rec) ==> rec@ == record_of_rows(t@, template_rows_view(rows@)),
{
    let ghost rv = template_rows_view(rows@);
    let mut templates: Vec<TicketTemplate> = Vec::new();
    let mut i: usize = 0;
    while i < rows.len()
        invariant
            i <= rows.len(),
            rv == template_rows_view(rows@),
            templates@.len() == i,
            forall|k: int|
                #![trigger rv[k]]
                0 <= k < i ==> rv[k].message_id == t.message_id && rv[k].position == k,
            forall|k: int|
                0 <= k < i ==> #[trigger] templates@[k]@ == record_of_rows(t@, rv).templates[k],
        decreases rows.len() - i,
    {
        let row = &rows[i];
        if row.message_id != t.message_id || row.position != i as u64 {
            proof {
                assert(rv[i as int] == rows@[i as int]@);
                assert(!(rv[i as int].message_id == t.message_id && rv[i as int].position == i));

            }
            return None;
        }
        templates.push(
            TicketTemplate {
                name: row.name.clone(),
                title: row.title.clone(),
                placeholder: row.placeholder.clone(),
            },
        );
        i = i + 1;
    }
    let rec = TicketRecord {
        message_id: t.message_id,
        title: t.title.clone(),
        description: t.description.clone(),
        template_kind: t.template_kind.clone(),
        templates,
    };
    assert(rec@.templates =~= record_of_rows(t@, rv).templates);
    Some(rec)
}

/// Why the store refused a record.
#[derive(Debug, Clone, Copy, PartialEq, Eq, Structural)]
pub enum StoreError {
    /// A record with that message id is already stored; it is left as it was.
    DuplicateMessage,
}

/// The store after saving a record, and the outcome: a record is added whole
/// under a message id not seen before, and refused, with nothing changed, under
/// one already stored.
pub open spec fn save_spec(db: Map<u64, RecordModel>, m: RecordModel) -> (Map<
    u64,
    RecordModel,
>, Result<(), StoreError>) {
    if db.contains_key(m.message_id) {
        (db, Err(StoreError::DuplicateMessage))
    } else {
        (db.insert(m.message_id, m), Ok(()))
    }
}

/// What reading a message id from the store gives.
pub open spec fn load_spec(db: Map<u64, RecordModel>, id: u64) -> Option<RecordModel> {
    if db.contains_key(id) {
        Some(db[id])
    } else {
        None
    }
}

/// A stored ticket: its `ticket` row and its `ticket_template` rows.
struct StoredTicket {
    ticket: TicketRow,
    templates: Vec<TemplateRow>,
}

/// Tickets kept as rows, keyed by the message that carries each request.
pub struct TicketStore {
    entries: Vec<StoredTicket>,
    contents: Ghost<Map<u64, RecordModel>>,
}

impl View for TicketStore {
    type V = Map<u64, RecordModel>;

    closed spec fn view(&self) -> Map<u64, RecordModel> {
        self.contents@
    }
}

impl TicketStore {
    /// Each stored ticket's rows are well formed and describe the record kept
    /// under its id; no id is stored twice; every record kept has its rows.
    pub closed spec fn wf(&self) -> bool {
        &&& forall|i: int|
            #![trigger self.entries@[i]]
            0 <= i < self.entries@.len() ==> {
                let e = self.entries@[i];
                &&& rows_well_formed(e.ticket@, template_rows_view(e.templates@))
                &&& self.contents@.contains_key(e.ticket.message_id)
                &&& self.contents@[e.ticket.message_id] == record_of_rows(
                    e.ticket@,
                    template_rows_view(e.templates@),
                )
            }
        &&& forall|i: int, j: int|
            0 <= i < self.entries@.len() && 0 <= j < self.entries@.len() && i != j
                ==> #[trigger] self.entries@[i].ticket.message_id
                != #[trigger] self.entries@[j].ticket.message_id
        &&& forall|id: u64|
            #[trigger] self.contents@.contains_key(id) ==> exists|i: int|
                0 <= i < self.entries@.len() && #[trigger] self.entries@[i].ticket.message_id == id
    }

    /// An empty store.
    pub fn new() -> (r: TicketStore)
        ensures
            r.wf(),
            r@ == Map::<u64, RecordModel>::empty(),
    {
        TicketStore { entries: Vec::new(), contents: Ghost(Map::empty()) }
    }

    fn find(&self, id: u64) -> (r: Option<usize>)
        ensures
            r matches Some(i) ==> i < self.entries@.len() && self.entries@[i as int].ticket.message_id
                == id,
            r is None ==> forall|i: int|
                0 <= i < self.entries@.len() ==> #[trigger] self.entries@[i].ticket.message_id != id,
    {
        let mut i: usize = 0;
        while i < self.entries.len()
            invariant
                i <= self.entries@.len(),
                forall|k: int| 0 <= k < i ==> #[trigger] self.entries@[k].ticket.message_id != id,
            decreases self.entries.len() - i,
        {
            if self.entries[i].ticket.message_id == id {
                return Some(i);
            }
            i = i + 1;
        }
        None
    }

    /// Whether a record is stored under the message id.
    pub fn contains(&self, id: u64) -> (r: bool)
        requires
            self.wf(),
        ensures
            r == self@.contains_key(id),
    {
        self.find(id).is_some()
    }

    /// Saves a record whole, with its templates in order, or refuses it when a
    /// record with its message id is already stored.
    pub fn save(&mut self, rec: &TicketRecord) -> (r: Result<(), StoreError>)
        requires
            old(self).wf(),
        ensures
            final(self).wf(),
            (final(self)@, r) == save_spec(old(self)@, rec@),
    {
        if self.find(rec.message_id).is_some() {
            return Err(StoreError::DuplicateMessage);
        }
        let ghost old_entries = self.entries@;
        let entry = StoredTicket { ticket: TicketRow::of_record(rec), templates: template_rows_of(rec) };
        proof {
            lemma_rows_round_trip(rec@);
        }
        self.entries.push(entry);
        self.contents = Ghost(self.contents@.insert(rec.message_id, rec@));
        proof {
            assert(self.entries@[old_entries.len() as int].ticket.message_id == rec.message_id);
            assert forall|id: u64| #[trigger] self.contents@.contains_key(id) implies exists|i: int|
                0 <= i < self.entries@.len() && #[trigger] self.entries@[i].ticket.message_id
                    == id by {
                if id != rec.message_id {
                    let i = choose|i: int|
                        0 <= i < old_entries.len() && #[trigger] old_entries[i].ticket.message_id
                            == id;
                    assert(self.entries@[i] == old_entries[i]);
                }
            }
        }
        Ok(())
    }

    /// Reads back the record stored under a message id.
    pub fn load(&self, id: u64) -> (r: Option<TicketRecord>)
        requires
            self.wf(),
        ensures
            r is Some == self@.contains_key(id),
            r matches Some(rec) ==> Some(rec@) == load_spec(self@, id),
    {
        match self.find(id) {
            Some(i) => {
                let e = &self.entries[i];
                proof {
                    assert(self.entries@[i as int] == *e);
                }
                record_from_rows(&e.ticket, &e.templates)
            },
            None => {
                proof {
                    if self.contents@.contains_key(id) {
                        let k = choose|k: int|
                            0 <= k < self.entries@.len()
                                && #[trigger] self.entries@[k].ticket.message_id == id;
                    }
                }
                None
            },
        }
    }
}

/// A record saved under a new message id reads back exactly as it was saved,
/// title, description, form kind and templates in order, none included.
pub proof fn lemma_save_then_load(db: Map<u64, RecordModel>, m: RecordModel)
    requires
        !db.contains_key(m.message_id),
    ensures
        save_spec(db, m).1 == Ok::<(), StoreError>(()),
        load_spec(save_spec(db, m).0, m.message_id) == Some(m),
{
}

/// A second save under a message id already stored is refused and leaves the
/// first record as it was.
pub proof fn lemma_duplicate_save_keeps_first(
    db: Map<u64, RecordModel>,
    first: RecordModel,
    second: RecordModel,
)
    requires
        !db.contains_key(first.message_id),
        second.message_id == first.message_id,
    ensures
        save_spec(save_spec(db, first).0, second) == (
        save_spec(db, first).0,
        Err::<(), StoreError>(StoreError::DuplicateMessage),
        ),
        load_spec(save_spec(save_spec(db, first).0, second).0, first.message_id) == Some(first),
{
}

/// Two saves under different message ids do not mix: in either order the store
/// ends the same, and each id reads back its own record, rows of the other never
/// among them.
pub proof fn lemma_saves_are_isolated(db: Map<u64, RecordModel>, a: RecordModel, b: RecordModel)
    requires
        a.message_id != b.message_id,
        !db.contains_key(a.message_id),
        !db.contains_key(b.message_id),
    ensures
        save_spec(save_spec(db, a).0, b).0 == save_spec(save_spec(db, b).0, a).0,
        load_spec(save_spec(save_spec(db, a).0, b).0, a.message_id) == Some(a),
        load_spec(save_spec(save_spec(db, a).0, b).0, b.message_id) == Some(b),
{
    assert(save_spec(save_spec(db, a).0, b).0 =~= save_spec(save_spec(db, b).0, a).0);
}

} // verus!
