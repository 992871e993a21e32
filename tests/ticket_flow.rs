use ticket_desk::interaction::{
    parse_component_id, parse_form_id, route, ComponentId, FormId, Interaction, InteractionKind,
    ProtocolError, Route, SubmittedField,
};
use ticket_desk::modal::{build_modal, collect_answers, finalize, present, reject, Reply};
use ticket_desk::poster::{
    http_status, PostAction, PostEvent, PostState, TicketDefinition, TicketError, TicketPoster,
};
use ticket_desk::store::{record_from_rows, template_rows_of, StoreError, TicketRow, TicketStore};
use ticket_desk::ticket::{templates_are_valid, TicketRecord, TicketTemplate};

fn tpl(name: &str, title: &str, placeholder: &str) -> TicketTemplate {
    TicketTemplate::new(name.to_string(), title.to_string(), placeholder.to_string())
}

fn support_definition() -> TicketDefinition {
    TicketDefinition {
        title: "Support".to_string(),
        description: "Need help".to_string(),
        template_kind: "default".to_string(),
        templates: vec![tpl("issue", "Issue", "Describe...")],
    }
}

fn record(id: u64, templates: Vec<TicketTemplate>) -> TicketRecord {
    TicketRecord {
        message_id: id,
        title: format!("t{}", id),
        description: format!("d{}", id),
        template_kind: "default".to_string(),
        templates,
    }
}

fn component(custom_id: Option<&str>, message_id: Option<u64>) -> Interaction {
    Interaction {
        kind: InteractionKind::MessageComponent,
        id: 1,
        token: "tok".to_string(),
        custom_id: custom_id.map(|s| s.to_string()),
        message_id,
        submitted: vec![],
    }
}

fn field(id: &str, value: &str) -> SubmittedField {
    SubmittedField { custom_id: id.to_string(), value: value.to_string() }
}

#[test]
fn post_support_ticket_persists_one_template() {
    let mut store = TicketStore::new();
    let (mut poster, message) = TicketPoster::start(12345, support_definition()).unwrap();
    assert_eq!(message.channel_id, 12345);
    assert_eq!(message.embed_title, "Support");
    assert_eq!(message.embed_description, "Need help");
    assert_eq!(message.button_custom_id, "create_ticket");
    assert_eq!(message.button_label, "チケットの作成");
    let rec = match poster.on_event(PostEvent::MessageCreated { message_id: 987654321 }) {
        PostAction::SaveRecord(rec) => rec,
        other => panic!("unexpected action {:?}", other),
    };
    assert_eq!(rec.message_id, 987654321);
    assert_eq!(store.save(&rec), Ok(()));
    match poster.on_event(PostEvent::Saved) {
        PostAction::Finish(r) => assert_eq!(r, Ok(987654321)),
        other => panic!("unexpected action {:?}", other),
    }
    assert_eq!(poster.state, PostState::Finished);
    let back = store.load(987654321).unwrap();
    assert_eq!(back.title, "Support");
    assert_eq!(back.description, "Need help");
    assert_eq!(back.template_kind, "default");
    assert_eq!(back.templates.len(), 1);
    assert_eq!(back.templates[0].name, "issue");
    assert_eq!(back.templates[0].title, "Issue");
    assert_eq!(back.templates[0].placeholder, "Describe...");
    let rows = template_rows_of(&back);
    assert_eq!(rows.len(), 1);
    assert_eq!(rows[0].message_id, 987654321);
    assert_eq!(rows[0].position, 0);
    assert_eq!(rows[0].name, "issue");
    let ticket_row = TicketRow::of_record(&back);
    assert_eq!(ticket_row.message_id, 987654321);
    assert_eq!(ticket_row.template_kind, "default");
}

#[test]
fn create_ticket_click_shows_form_from_templates() {
    let mut store = TicketStore::new();
    let rec = TicketRecord {
        message_id: 555,
        title: "Support".to_string(),
        description: "Need help".to_string(),
        template_kind: "default".to_string(),
        templates: vec![tpl("issue", "Issue", "Describe...")],
    };
    store.save(&rec).unwrap();
    let click = component(Some("create_ticket"), Some(555));
    let message_id = match route(&click) {
        Route::PresentModal { message_id } => message_id,
        other => panic!("unexpected route {:?}", other),
    };
    assert_eq!(message_id, 555);
    let loaded = store.load(message_id);
    match present(loaded.as_ref()) {
        Reply::Modal(m) => {
            assert_eq!(m.custom_id, "ticket_form");
            assert_eq!(m.title, "チケットの作成");
            assert_eq!(m.fields.len(), 1);
            assert_eq!(m.fields[0].custom_id, "issue");
            assert_eq!(m.fields[0].label, "Issue");
            assert_eq!(m.fields[0].placeholder.as_deref(), Some("Describe..."));
            assert!(m.fields[0].required);
        }
        other => panic!("unexpected reply {:?}", other),
    }
}

#[test]
fn two_saves_keep_their_rows_apart() {
    let mut store = TicketStore::new();
    let a = record(1, vec![tpl("a1", "A1", "pa1"), tpl("a2", "A2", "pa2")]);
    let b = record(2, vec![tpl("b1", "B1", "pb1")]);
    assert_eq!(store.save(&a), Ok(()));
    assert_eq!(store.save(&b), Ok(()));
    let la = store.load(1).unwrap();
    let lb = store.load(2).unwrap();
    let names_a: Vec<&str> = la.templates.iter().map(|t| t.name.as_str()).collect();
    let names_b: Vec<&str> = lb.templates.iter().map(|t| t.name.as_str()).collect();
    assert_eq!(names_a, vec!["a1", "a2"]);
    assert_eq!(names_b, vec!["b1"]);
    assert_eq!(la.title, "t1");
    assert_eq!(lb.title, "t2");
}

#[test]
fn failed_post_never_saves() {
    let store = TicketStore::new();
    let (mut poster, _) = TicketPoster::start(12345, support_definition()).unwrap();
    match poster.on_event(PostEvent::MessageFailed) {
        PostAction::Finish(r) => assert_eq!(r, Err(TicketError::PostFailed)),
        other => panic!("unexpected action {:?}", other),
    }
    assert!(matches!(poster.on_event(PostEvent::Saved), PostAction::Nothing));
    assert!(matches!(
        poster.on_event(PostEvent::MessageCreated { message_id: 3 }),
        PostAction::Nothing
    ));
    assert!(!store.contains(3));
}

#[test]
fn failed_save_reports_dangling_message() {
    let (mut poster, _) = TicketPoster::start(7, support_definition()).unwrap();
    assert!(matches!(
        poster.on_event(PostEvent::MessageCreated { message_id: 40 }),
        PostAction::SaveRecord(_)
    ));
    match poster.on_event(PostEvent::SaveFailed) {
        PostAction::Finish(r) => assert_eq!(r, Err(TicketError::PersistFailed { message_id: 40 })),
        other => panic!("unexpected action {:?}", other),
    }
}

#[test]
fn events_out_of_turn_change_nothing() {
    let (mut poster, _) = TicketPoster::start(7, support_definition()).unwrap();
    assert!(matches!(poster.on_event(PostEvent::Saved), PostAction::Nothing));
    assert_eq!(poster.state, PostState::Posting);
}

#[test]
fn invalid_definitions_are_refused() {
    let mut d = support_definition();
    d.templates.push(tpl("issue", "Again", ""));
    assert!(matches!(TicketPoster::start(1, d), Err(TicketError::InvalidDefinition)));
    let mut d = support_definition();
    d.templates.push(tpl("", "Empty", ""));
    assert!(matches!(TicketPoster::start(1, d), Err(TicketError::InvalidDefinition)));
    assert!(templates_are_valid(&vec![]));
    assert!(templates_are_valid(&vec![tpl("a", "", ""), tpl("b", "", "")]));
    assert!(!templates_are_valid(&vec![tpl("a", "", ""), tpl("a", "x", "y")]));
}

#[test]
fn error_statuses_are_distinct() {
    assert_eq!(http_status(TicketError::InvalidDefinition), 400);
    assert_eq!(http_status(TicketError::PostFailed), 502);
    assert_eq!(http_status(TicketError::PersistFailed { message_id: 9 }), 500);
}

#[test]
fn round_trip_without_templates() {
    let mut store = TicketStore::new();
    let rec = record(77, vec![]);
    store.save(&rec).unwrap();
    let back = store.load(77).unwrap();
    assert_eq!(back.title, "t77");
    assert_eq!(back.description, "d77");
    assert!(back.templates.is_empty());
    assert!(store.load(78).is_none());
}

#[test]
fn rows_round_trip_keeps_order() {
    let rec = record(5, vec![tpl("z", "Z", "pz"), tpl("a", "A", "pa"), tpl("m", "M", "pm")]);
    let rows = template_rows_of(&rec);
    let positions: Vec<u64> = rows.iter().map(|r| r.position).collect();
    assert_eq!(positions, vec![0, 1, 2]);
    let back = record_from_rows(&TicketRow::of_record(&rec), &rows).unwrap();
    let names: Vec<&str> = back.templates.iter().map(|t| t.name.as_str()).collect();
    assert_eq!(names, vec!["z", "a", "m"]);
    assert_eq!(back.templates[1].placeholder, "pa");
}

#[test]
fn rows_out_of_order_or_foreign_are_refused() {
    let rec = record(5, vec![tpl("z", "Z", "pz"), tpl("a", "A", "pa")]);
    let ticket = TicketRow::of_record(&rec);
    let mut rows = template_rows_of(&rec);
    rows.swap(0, 1);
    assert!(record_from_rows(&ticket, &rows).is_none());
    let mut rows = template_rows_of(&rec);
    rows[1].message_id = 6;
    assert!(record_from_rows(&ticket, &rows).is_none());
}

#[test]
fn duplicate_save_keeps_first_record() {
    let mut store = TicketStore::new();
    let first = record(10, vec![tpl("one", "One", "p1")]);
    let mut second = record(10, vec![tpl("two", "Two", "p2"), tpl("three", "Three", "p3")]);
    second.title = "other".to_string();
    assert_eq!(store.save(&first), Ok(()));
    assert_eq!(store.save(&second), Err(StoreError::DuplicateMessage));
    let back = store.load(10).unwrap();
    assert_eq!(back.title, "t10");
    assert_eq!(back.templates.len(), 1);
    assert_eq!(back.templates[0].name, "one");
}

#[test]
fn other_components_are_ignored() {
    assert_eq!(route(&component(Some("close_ticket"), Some(3))), Route::Ignore);
    assert_eq!(route(&component(Some(""), None)), Route::Ignore);
    assert_eq!(route(&component(Some("Create_Ticket"), Some(3))), Route::Ignore);
}

#[test]
fn malformed_interactions_are_rejected() {
    assert_eq!(
        route(&component(None, Some(3))),
        Route::Reject(ProtocolError::MissingCustomId)
    );
    assert_eq!(
        route(&component(Some("create_ticket"), None)),
        Route::Reject(ProtocolError::MissingMessage)
    );
    match reject(ProtocolError::MissingMessage) {
        Reply::Notice(n) => assert_eq!(n, "This interaction could not be understood."),
        other => panic!("unexpected reply {:?}", other),
    }
}

#[test]
fn other_kinds_and_forms_are_routed() {
    let mut i = component(Some("ticket_form"), Some(8));
    i.kind = InteractionKind::ModalSubmit;
    assert_eq!(route(&i), Route::FinalizeTicket { message_id: 8 });
    i.custom_id = Some("create_ticket".to_string());
    assert_eq!(route(&i), Route::Ignore);
    i.kind = InteractionKind::ApplicationCommand;
    assert_eq!(route(&i), Route::Ignore);
    i.kind = InteractionKind::Ping;
    assert_eq!(route(&i), Route::Ignore);
}

#[test]
fn custom_ids_parse() {
    assert_eq!(parse_component_id(&"create_ticket".to_string()), Some(ComponentId::CreateTicket));
    assert_eq!(parse_component_id(&"create_ticket ".to_string()), None);
    assert_eq!(parse_form_id(&"ticket_form".to_string()), Some(FormId::TicketForm));
    assert_eq!(parse_form_id(&"ticket_title".to_string()), None);
}

#[test]
fn form_without_templates_asks_for_title() {
    let m = build_modal(&record(1, vec![]));
    assert_eq!(m.fields.len(), 1);
    assert_eq!(m.fields[0].custom_id, "ticket_title");
    assert_eq!(m.fields[0].label, "title");
    assert_eq!(m.fields[0].placeholder, None);
    match present(None) {
        Reply::Notice(n) => assert_eq!(n, "This ticket request is no longer available."),
        other => panic!("unexpected reply {:?}", other),
    }
}

#[test]
fn form_fields_follow_template_order() {
    let m = build_modal(&record(1, vec![tpl("b", "B", "pb"), tpl("a", "A", "pa")]));
    let ids: Vec<&str> = m.fields.iter().map(|f| f.custom_id.as_str()).collect();
    assert_eq!(ids, vec!["b", "a"]);
    assert_eq!(m.fields[1].label, "A");
}

#[test]
fn answers_are_read_by_template_name() {
    let rec = record(1, vec![tpl("issue", "Issue", ""), tpl("os", "OS", "")]);
    let submitted = vec![field("os", "linux"), field("issue", "crash"), field("os", "mac")];
    assert_eq!(collect_answers(&rec, &submitted), Ok(vec!["crash".to_string(), "linux".to_string()]));
    let missing = vec![field("issue", "crash")];
    assert_eq!(collect_answers(&rec, &missing), Err(ProtocolError::MissingField));
    assert_eq!(collect_answers(&record(2, vec![]), &missing), Ok(vec![]));
}

#[test]
fn finalize_confirms_or_rejects() {
    let rec = record(1, vec![tpl("issue", "Issue", "")]);
    let (reply, answers) = finalize(Some(&rec), &vec![field("issue", "crash")]);
    assert!(matches!(reply, Reply::Notice(ref n) if n == "Your ticket has been submitted."));
    assert_eq!(answers, Some(vec!["crash".to_string()]));
    let (reply, answers) = finalize(Some(&rec), &vec![]);
    assert!(matches!(reply, Reply::Notice(ref n) if n == "This interaction could not be understood."));
    assert_eq!(answers, None);
    let (reply, answers) = finalize(None, &vec![]);
    assert!(matches!(reply, Reply::Notice(ref n) if n == "This ticket request is no longer available."));
    assert_eq!(answers, None);
}
