use astreinte::models::{CreateShiftRequestPayload, ShiftRequest};
use astreinte::routes::manager::{
    after_block_read, after_refusal, after_status_write, status_write, AfterBlockRead,
    AfterStatusWrite, BlockRefusal, ShiftBlock, UpdateShiftRequest,
};
use astreinte::routes::user::{new_shift_request, shift_request_filed_reply};

fn row(id: i64, user: i64, service: i64, period: &str, start: &str, status: &str) -> ShiftRequest {
    ShiftRequest {
        request_id: id,
        user_id: user,
        service_id: service,
        period_type: period.to_string(),
        start_date: start.to_string(),
        status: status.to_string(),
    }
}

fn table() -> Vec<ShiftRequest> {
    vec![
        row(1, 10, 1, "Semaine", "2024-06-03", "En attente"),
        row(2, 11, 1, "Semaine", "2024-06-03", "En attente"),
        row(3, 12, 1, "Semaine", "2024-06-03", "Validée"),
        row(4, 10, 1, "Weekend", "2024-06-08", "En attente"),
        row(5, 13, 2, "Semaine", "2024-06-03", "En attente"),
        row(6, 14, 1, "Semaine", "2024-06-10", "En attente"),
    ]
}

/// Runs an update against an in-memory table, doing what each statement does.
fn run(t: &mut Vec<ShiftRequest>, payload: &UpdateShiftRequest) -> (u16, String) {
    let w = status_write(payload);
    for r in t.iter_mut() {
        if r.request_id == w.request_id {
            r.status = w.status.clone();
        }
    }
    let id = match after_status_write(payload, true) {
        AfterStatusWrite::Answer(r) => return (r.status, r.message),
        AfterStatusWrite::ReadBlock(id) => id,
    };
    let block = t.iter().find(|r| r.request_id == id).map(|r| ShiftBlock {
        service_id: r.service_id,
        period_type: r.period_type.clone(),
        start_date: r.start_date.clone(),
    });
    match after_block_read(payload, block) {
        AfterBlockRead::Answer(r) => (r.status, r.message),
        AfterBlockRead::Refuse(BlockRefusal { block, kept_request_id }) => {
            for r in t.iter_mut() {
                if r.service_id == block.service_id
                    && r.period_type == block.period_type
                    && r.start_date == block.start_date
                    && r.request_id != kept_request_id
                {
                    r.status = "Refusée".to_string();
                }
            }
            let r = after_refusal();
            (r.status, r.message)
        }
    }
}

#[test]
fn validation_refuses_the_rest_of_the_block() {
    let mut t = table();
    let before = t.clone();
    let payload = UpdateShiftRequest { request_id: 2, new_status: "Validée".to_string() };
    let answer = run(&mut t, &payload);
    assert_eq!(answer, (200, "Statut mis à jour avec succès".to_string()));
    let statuses: Vec<&str> = t.iter().map(|r| r.status.as_str()).collect();
    assert_eq!(statuses, vec!["Refusée", "Validée", "Refusée", "En attente", "En attente", "En attente"]);
    // Outside the block nothing changes.
    assert_eq!(t[3], before[3]);
    assert_eq!(t[4], before[4]);
    assert_eq!(t[5], before[5]);
    // The validated request is the only one of its block.
    let validated: Vec<i64> = t
        .iter()
        .filter(|r| r.service_id == 1 && r.period_type == "Semaine" && r.start_date == "2024-06-03")
        .filter(|r| r.status == "Validée")
        .map(|r| r.request_id)
        .collect();
    assert_eq!(validated, vec![2]);
}

#[test]
fn other_statuses_touch_one_request() {
    let mut t = table();
    let payload = UpdateShiftRequest { request_id: 3, new_status: "Refusée".to_string() };
    let answer = run(&mut t, &payload);
    assert_eq!(answer, (200, "Statut mis à jour avec succès".to_string()));
    let statuses: Vec<&str> = t.iter().map(|r| r.status.as_str()).collect();
    assert_eq!(statuses, vec!["En attente", "En attente", "Refusée", "En attente", "En attente", "En attente"]);
}

#[test]
fn a_failed_status_write_answers_a_database_error() {
    let payload = UpdateShiftRequest { request_id: 3, new_status: "Validée".to_string() };
    match after_status_write(&payload, false) {
        AfterStatusWrite::Answer(r) => assert_eq!((r.status, r.message.as_str()), (500, "Erreur BDD")),
        AfterStatusWrite::ReadBlock(_) => panic!("no read after a failed write"),
    }
}

#[test]
fn validation_of_an_unknown_request_ends_after_the_read() {
    let mut t = table();
    let before = t.clone();
    let payload = UpdateShiftRequest { request_id: 99, new_status: "Validée".to_string() };
    assert_eq!(run(&mut t, &payload), (200, "Statut mis à jour avec succès".to_string()));
    assert_eq!(t, before);
}

#[test]
fn status_write_names_the_request() {
    let payload = UpdateShiftRequest { request_id: 5, new_status: "Validée".to_string() };
    let w = status_write(&payload);
    assert_eq!(w.request_id, 5);
    assert_eq!(w.status, "Validée");
    assert!(matches!(after_status_write(&payload, true), AfterStatusWrite::ReadBlock(5)));
}

#[test]
fn a_status_that_only_looks_validated_refuses_nothing() {
    let payload = UpdateShiftRequest { request_id: 5, new_status: "validée".to_string() };
    assert!(matches!(after_status_write(&payload, true), AfterStatusWrite::Answer(_)));
}

#[test]
fn filed_requests_are_pending() {
    let p = CreateShiftRequestPayload {
        user_id: 4,
        service_id: 2,
        period_type: "Weekend".to_string(),
        start_date: "2024-07-06".to_string(),
    };
    let r = new_shift_request(&p);
    assert_eq!((r.user_id, r.service_id), (4, 2));
    assert_eq!(r.period_type, "Weekend");
    assert_eq!(r.start_date, "2024-07-06");
    assert_eq!(r.status, "En attente");
}

#[test]
fn filing_replies() {
    let ok = shift_request_filed_reply(true);
    assert_eq!((ok.status, ok.message.as_str()), (201, "Demande enregistrée"));
    let dup = shift_request_filed_reply(false);
    assert_eq!((dup.status, dup.message.as_str()), (400, "Demande déjà existante pour ce bloc"));
}

fn one_validated_per_block(t: &[ShiftRequest]) -> bool {
    t.iter().all(|a| {
        t.iter()
            .filter(|b| {
                b.service_id == a.service_id
                    && b.period_type == a.period_type
                    && b.start_date == a.start_date
                    && b.status == "Validée"
            })
            .count()
            <= 1
    })
}

#[test]
fn every_update_keeps_one_validated_request_per_block() {
    let mut t = table();
    assert!(one_validated_per_block(&t));
    for (id, status) in [(2, "Validée"), (1, "Validée"), (3, "En attente"), (4, "Validée"), (99, "Validée"), (1, "Refusée"), (3, "Validée")] {
        let payload = UpdateShiftRequest { request_id: id, new_status: status.to_string() };
        assert_eq!(run(&mut t, &payload), (200, "Statut mis à jour avec succès".to_string()));
        assert!(one_validated_per_block(&t), "after {} {}", id, status);
    }
}

#[test]
fn running_an_update_twice_changes_nothing_more() {
    for (id, status) in [(2, "Validée"), (3, "Refusée"), (99, "Validée"), (4, "En attente")] {
        let payload = UpdateShiftRequest { request_id: id, new_status: status.to_string() };
        let mut t = table();
        let first = run(&mut t, &payload);
        let once = t.clone();
        let second = run(&mut t, &payload);
        assert_eq!(t, once);
        assert_eq!(first, second);
    }
}

#[test]
fn running_an_update_twice_on_a_table_with_a_repeated_id() {
    let mut t = table();
    t.push(row(2, 15, 2, "Weekend", "2024-06-15", "En attente"));
    let payload = UpdateShiftRequest { request_id: 2, new_status: "Validée".to_string() };
    let first = run(&mut t, &payload);
    let once = t.clone();
    let second = run(&mut t, &payload);
    assert_eq!(t, once);
    assert_eq!(first, second);
}
