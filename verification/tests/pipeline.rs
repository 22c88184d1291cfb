use rates::errors::{CycleError, DecodeIssue, FetchError, Stage, WriteFailure};
use rates::pipeline::{start_cycle, step, CycleAction, CycleEvent, CycleState};
use rates::snapshot::decode_body;
use rates::store::RatesTable;

/// Drives one full cycle against an in-memory table and a canned provider.
/// `reserve_fails` simulates the store rejecting the insert; `body` is the
/// provider's response, `None` standing for a connection that failed.
/// Returns the cycle's outcome and how often fetch and fill were invoked.
fn drive(
    now: i64,
    table: &mut RatesTable,
    reserve_fails: bool,
    body: Option<&str>,
) -> (Result<i64, CycleError>, u32, u32) {
    let mut fetch_calls = 0;
    let mut fill_calls = 0;
    let (mut state, mut action) = start_cycle(now);
    loop {
        let event = match action {
            CycleAction::Reserve { bucket, base } => {
                if reserve_fails {
                    CycleEvent::ReserveErr {
                        failure: WriteFailure { cause: "connection refused".to_string() },
                    }
                } else {
                    let record_id = table.reserve(bucket, base);
                    CycleEvent::ReserveOk { record_id }
                }
            }
            CycleAction::Fetch => {
                fetch_calls += 1;
                match body {
                    None => CycleEvent::FetchErr {
                        error: FetchError::TransportFailure {
                            cause: "connection reset".to_string(),
                        },
                    },
                    Some(text) => match decode_body(text) {
                        Ok(snapshot) => CycleEvent::FetchOk { snapshot },
                        Err(error) => CycleEvent::FetchErr { error },
                    },
                }
            }
            CycleAction::Fill { record_id, pairs } => {
                fill_calls += 1;
                match table.fill(record_id, pairs) {
                    Ok(()) => CycleEvent::FillOk,
                    Err(failure) => CycleEvent::FillErr { failure },
                }
            }
            CycleAction::ReportSuccess { record_id } => break (Ok(record_id), fetch_calls, fill_calls),
            CycleAction::ReportFailure { error } => break (Err(error), fetch_calls, fill_calls),
        };
        let (next_state, next_action) = step(state, event).expect("event answers the pending action");
        state = next_state;
        action = next_action;
    }
}

const GOOD_BODY: &str = r#"{"timestamp": 1700000410, "base": "USD", "rates": {"EUR": 0.85}}"#;

fn eur_object() -> serde_json::Value {
    let mut m = serde_json::Map::new();
    m.insert("EUR".to_string(), serde_json::Value::from(0.85));
    serde_json::Value::Object(m)
}

#[test]
fn failed_reserve_never_fetches() {
    let mut table = RatesTable::new();
    let (outcome, fetch_calls, fill_calls) = drive(1_700_000_410, &mut table, true, Some(GOOD_BODY));
    assert!(matches!(outcome, Err(CycleError::ReserveFailure { .. })));
    assert_eq!(outcome.unwrap_err().stage(), Stage::Reserve);
    assert_eq!(fetch_calls, 0);
    assert_eq!(fill_calls, 0);
    assert!(table.record(0).is_none());
}

#[test]
fn failed_fetch_never_fills_and_leaves_row_unset() {
    let mut table = RatesTable::new();
    let (outcome, fetch_calls, fill_calls) = drive(1_700_000_410, &mut table, false, None);
    assert!(matches!(
        outcome,
        Err(CycleError::FetchFailure { error: FetchError::TransportFailure { .. } })
    ));
    assert_eq!(fetch_calls, 1);
    assert_eq!(fill_calls, 0);
    let row = table.record(0).expect("the reserved row stays");
    assert_eq!(row.bucket_timestamp, 1_699_999_200);
    assert_eq!(row.base, "USD");
    assert_eq!(row.pairs, None);
}

#[test]
fn body_without_rates_is_decode_failure_and_no_write_follows() {
    let body = r#"{"timestamp": 1700000410, "base": "USD"}"#;
    let mut table = RatesTable::new();
    let (outcome, fetch_calls, fill_calls) = drive(1_700_000_410, &mut table, false, Some(body));
    assert!(matches!(
        outcome,
        Err(CycleError::FetchFailure {
            error: FetchError::DecodeFailure { issue: DecodeIssue::BadRates }
        })
    ));
    assert_eq!(fetch_calls, 1);
    assert_eq!(fill_calls, 0);
    // No store write after the decode failure: the row is as reserved.
    assert_eq!(table.record(0).unwrap().pairs, None);
}

#[test]
fn successful_cycle_fills_the_reserved_row() {
    let mut table = RatesTable::new();
    let (outcome, fetch_calls, fill_calls) = drive(1_700_000_410, &mut table, false, Some(GOOD_BODY));
    let id = outcome.expect("the cycle completes");
    assert_eq!(fetch_calls, 1);
    assert_eq!(fill_calls, 1);
    let row = table.record(id).unwrap();
    assert_eq!(row.bucket_timestamp, 1_699_999_200);
    assert_eq!(row.base, "USD");
    assert_eq!(row.pairs.as_ref(), Some(&eur_object()));
}

#[test]
fn cycle_for_a_given_bucket_end_to_end() {
    // A cycle at bucket 1_700_000_400: reserve (bucket, "USD", unset),
    // fetch, fill to exactly the fetched pairs, report the reserved id.
    let bucket = 1_700_000_400;
    let mut table = RatesTable::new();
    let record_id = table.reserve(bucket, "USD".to_string());
    assert_eq!(table.record(record_id).unwrap().pairs, None);
    let state = CycleState::BucketComputed { bucket };
    let (state, action) = step(state, CycleEvent::ReserveOk { record_id }).unwrap();
    assert!(matches!(action, CycleAction::Fetch));
    let snapshot = decode_body(GOOD_BODY).expect("the response decodes");
    assert_eq!(snapshot.timestamp, 1_700_000_410);
    assert_eq!(snapshot.base, "USD");
    let (state, action) = step(state, CycleEvent::FetchOk { snapshot }).unwrap();
    let (fill_id, pairs) = match action {
        CycleAction::Fill { record_id, pairs } => (record_id, pairs),
        _ => panic!("expected a fill"),
    };
    assert_eq!(fill_id, record_id);
    assert_eq!(pairs, eur_object());
    table.fill(fill_id, pairs).expect("the reserved row is there");
    let (state, action) = step(state, CycleEvent::FillOk).unwrap();
    assert!(matches!(state, CycleState::Done { .. }));
    match action {
        CycleAction::ReportSuccess { record_id: reported } => assert_eq!(reported, record_id),
        _ => panic!("expected the cycle to report success"),
    }
    let row = table.record(record_id).unwrap();
    assert_eq!(row.bucket_timestamp, bucket);
    assert_eq!(row.base, "USD");
    assert_eq!(row.pairs.as_ref(), Some(&eur_object()));
}

#[test]
fn failed_fill_discards_the_fetched_data() {
    let state = CycleState::Fetched { bucket: 1_699_999_200, record_id: 4 };
    let failure = WriteFailure { cause: "row went away".to_string() };
    let (state, action) = step(state, CycleEvent::FillErr { failure }).unwrap();
    assert!(matches!(state, CycleState::Failed { stage: Stage::Fill }));
    match action {
        CycleAction::ReportFailure { error } => {
            assert_eq!(error.stage(), Stage::Fill);
            assert!(matches!(
                error,
                CycleError::FillFailure { failure: WriteFailure { .. } }
            ));
        }
        _ => panic!("expected the cycle to report the fill failure"),
    }
}

#[test]
fn mismatched_event_answers_nothing() {
    let state = CycleState::BucketComputed { bucket: 3600 };
    assert!(step(state, CycleEvent::FillOk).is_none());
    let done = CycleState::Done { record_id: 1 };
    assert!(step(done, CycleEvent::FillOk).is_none());
    let failed = CycleState::Failed { stage: Stage::Fetch };
    assert!(step(
        failed,
        CycleEvent::ReserveOk { record_id: 2 }
    )
    .is_none());
}

#[test]
fn statement_text_is_built_around_the_table_name() {
    assert_eq!(
        rates::sql::insert_statement("rates"),
        "INSERT INTO rates (timestamp, base) VALUES ($1, $2) RETURNING id;"
    );
    assert_eq!(
        rates::sql::update_statement("rates"),
        "UPDATE rates SET pairs = $1 WHERE id = $2"
    );
}
