use coordinates::db::add_coordinate;
use coordinates::db::QueryOutcome;
use coordinates::errors::MyError;
use coordinates::models::pair_records;
use coordinates::models::x_record;

fn query_error() -> tokio_postgres::Error {
    "this is not a connection string"
        .parse::<tokio_postgres::Config>()
        .unwrap_err()
}

fn pool_timeout() -> deadpool::managed::PoolError<tokio_postgres::Error> {
    deadpool::managed::PoolError::Timeout(deadpool::managed::TimeoutType::Wait)
}

#[test]
fn empty_rows_yield_not_found() {
    let r = add_coordinate(QueryOutcome::Rows(Vec::new()));
    assert!(matches!(r, Err(MyError::NotFound)));
}

#[test]
fn not_found_comes_from_no_other_outcome() {
    let rec = x_record(1);
    let ok = add_coordinate(QueryOutcome::Rows(vec![Ok(rec)]));
    assert!(!matches!(ok, Err(MyError::NotFound)));

    let decode_failure = add_coordinate(QueryOutcome::Rows(vec![Err(
        tokio_pg_mapper::Error::ColumnNotFound,
    )]));
    assert!(!matches!(decode_failure, Err(MyError::NotFound)));

    let statement_failure = add_coordinate(QueryOutcome::Failed(query_error()));
    assert!(!matches!(statement_failure, Err(MyError::NotFound)));
}

#[test]
fn returned_row_round_trips() {
    let (rx, _) = pair_records(42, 0);
    let r = add_coordinate(QueryOutcome::Rows(vec![Ok(rx)]));
    match r {
        Ok(stored) => {
            assert_eq!(stored.value, 42);
            assert_eq!(stored.axis, "x");
        }
        Err(_) => panic!("expected the returned row back"),
    }
}

#[test]
fn last_returned_row_wins() {
    let (rx, ry) = pair_records(1, 2);
    let r = add_coordinate(QueryOutcome::Rows(vec![Ok(rx), Ok(ry)]));
    match r {
        Ok(stored) => {
            assert_eq!(stored.value, 2);
            assert_eq!(stored.axis, "y");
        }
        Err(_) => panic!("expected the last row back"),
    }
}

#[test]
fn statement_failure_is_query_error() {
    let r = add_coordinate(QueryOutcome::Failed(query_error()));
    assert!(matches!(r, Err(MyError::PGError(_))));
}

#[test]
fn undecodable_row_is_mapping_error() {
    let (rx, _) = pair_records(1, 2);
    let r = add_coordinate(QueryOutcome::Rows(vec![
        Ok(rx),
        Err(tokio_pg_mapper::Error::ColumnNotFound),
    ]));
    assert!(matches!(r, Err(MyError::PGMError(_))));
}

#[test]
fn not_found_responds_absent_and_opaque() {
    let r = MyError::NotFound.error_response();
    assert_eq!(r.status, 404);
    assert_eq!(r.body, "");
}

#[test]
fn query_error_responds_internal_and_opaque() {
    let r = MyError::PGError(query_error()).error_response();
    assert_eq!(r.status, 500);
    assert_eq!(r.body, "");
}

#[test]
fn mapping_error_responds_internal_and_opaque() {
    let r = MyError::PGMError(tokio_pg_mapper::Error::ColumnNotFound).error_response();
    assert_eq!(r.status, 500);
    assert_eq!(r.body, "");
}

#[test]
fn pool_error_alone_exposes_detail() {
    let r = MyError::PoolError(pool_timeout()).error_response();
    assert_eq!(r.status, 500);
    assert_eq!(
        r.body,
        "Timeout occurred while waiting for a slot to become available"
    );
}
