use vstd::prelude::*;
use vstd::string::StringExecFns;

use crate::errors::MyError;
use crate::models::Coordinate;

verus! {

/// One row's decoding outcome, as handed back by the row mapper.
pub type RowResult = Result<Coordinate, tokio_pg_mapper::Error>;

/// What a single insert's execution came back with: a statement failure, or
/// the returned rows with each row's decoding outcome.
pub enum QueryOutcome {
    Failed(tokio_postgres::Error),
    Rows(Vec<RowResult>),
}

/// The statement text for one insert against the coordinates table,
/// returning the inserted row. The field list is resolved against the
/// record's declared fields on every call; no statement text is cached
/// across calls.
pub fn insert_statement(table_fields: &str) -> (r: String)
    ensures
        r@ == "INSERT INTO coordinates(value, axis) VALUES ($1, $2) RETURNING "@ + table_fields@
            + ";"@,
{
    let mut s = "INSERT INTO coordinates(value, axis) VALUES ($1, $2) RETURNING ".to_owned();
    s.append(table_fields);
    s.append(";");
    s
}

/// Classification of a returned row sequence: the first row that fails to
/// decode is a decoding failure; an empty sequence is an absent resource;
/// otherwise the last decoded row is the result.
pub open spec fn insert_result(rows: Seq<RowResult>) -> Result<Coordinate, MyError>
    decreases rows.len(),
{
    if rows.len() == 0 {
        Err(MyError::NotFound)
    } else if rows[0] is Err {
        Err(MyError::PGMError(rows[0]->Err_0))
    } else if rows.len() == 1 {
        Ok(rows[0]->Ok_0)
    } else {
        insert_result(rows.drop_first())
    }
}

/// Classification of a whole insert execution: a statement failure is
/// surfaced as such; otherwise the rows decide.
pub open spec fn outcome_result(o: QueryOutcome) -> Result<Coordinate, MyError> {
    match o {
        QueryOutcome::Failed(e) => Err(MyError::PGError(e)),
        QueryOutcome::Rows(rows) => insert_result(rows@),
    }
}

proof fn lemma_insert_result_all_ok(rows: Seq<RowResult>)
    requires
        rows.len() > 0,
        forall|j: int| 0 <= j < rows.len() ==> rows[j] is Ok,
    ensures
        insert_result(rows) == Ok::<Coordinate, MyError>(rows.last()->Ok_0),
    decreases rows.len(),
{
    if rows.len() > 1 {
        lemma_insert_result_all_ok(rows.drop_first());
        assert(rows.drop_first().last() == rows.last());
    }
}

proof fn lemma_insert_result_first_err(rows: Seq<RowResult>, k: int)
    requires
        0 <= k < rows.len(),
        forall|j: int| 0 <= j < k ==> rows[j] is Ok,
        rows[k] is Err,
    ensures
        insert_result(rows) == Err::<Coordinate, MyError>(MyError::PGMError(rows[k]->Err_0)),
    decreases k,
{
    if k > 0 {
        lemma_insert_result_first_err(rows.drop_first(), k - 1);
    }
}

/// Law: an insert whose execution returns zero rows is classified as an
/// absent resource, and no other row sequence is.
pub proof fn lemma_not_found_iff_empty(rows: Seq<RowResult>)
    ensures
        insert_result(rows) == Err::<Coordinate, MyError>(MyError::NotFound) <==> rows.len() == 0,
    decreases rows.len(),
{
    if rows.len() > 1 && rows[0] is Ok {
        lemma_not_found_iff_empty(rows.drop_first());
    }
}

/// Law: when the engine returns exactly the inserted record, the insert
/// call returns that record unchanged.
pub proof fn lemma_insert_round_trip(rec: Coordinate)
    ensures
        insert_result(seq![Ok::<Coordinate, tokio_pg_mapper::Error>(rec)]) == Ok::<
            Coordinate,
            MyError,
        >(rec),
{
}

/// Classifies one insert execution: the statement failure, the first row
/// that fails to decode, the absence of any returned row, or the last
/// returned row, in that order of precedence.
#[verifier::loop_isolation(false)]
pub fn add_coordinate(outcome: QueryOutcome) -> (r: Result<Coordinate, MyError>)
    ensures
        r == outcome_result(outcome),
{
    match outcome {
        QueryOutcome::Failed(e) => Err(MyError::PGError(e)),
        QueryOutcome::Rows(rows) => {
            let ghost orig = rows@;
            let mut rows = rows;
            let mut last: Option<Coordinate> = None;
            while rows.len() > 0
                invariant
                    rows@ =~= orig.skip(orig.len() - rows@.len()),
                    rows@.len() <= orig.len(),
                    forall|j: int| 0 <= j < orig.len() - rows@.len() ==> orig[j] is Ok,
                    if orig.len() - rows@.len() == 0 {
                        last is None
                    } else {
                        last == Some(orig[orig.len() - rows@.len() - 1]->Ok_0)
                    },
                decreases rows@.len(),
            {
                let ghost k = orig.len() - rows@.len();
                let row = rows.remove(0);
                proof {
                    assert(row == orig[k]);
                    assert(rows@ =~= orig.skip(k + 1));
                }
                match row {
                    Ok(c) => {
                        last = Some(c);
                    },
                    Err(e) => {
                        proof {
                            lemma_insert_result_first_err(orig, k);
                        }
                        return Err(MyError::PGMError(e));
                    },
                }
            }
            match last {
                Some(c) => {
                    proof {
                        lemma_insert_result_all_ok(orig);
                    }
                    Ok(c)
                },
                None => Err(MyError::NotFound),
            }
        },
    }
}

} // verus!
