use vstd::prelude::*;

verus! {

/// One persisted value on one axis. Each generated sample pair becomes two
/// such records, one per axis; the pairing is implicit in generation order
/// and is not represented in storage.
pub struct Coordinate {
    pub value: i16,
    pub axis: String,
}

impl Coordinate {
    /// The record carries the x-axis tag.
    pub open spec fn is_x(self) -> bool {
        self.axis@ == "x"@
    }

    /// The record carries the y-axis tag.
    pub open spec fn is_y(self) -> bool {
        self.axis@ == "y"@
    }

    /// A well-formed record is tagged with exactly one of the two axes.
    pub open spec fn wf(self) -> bool {
        self.is_x() || self.is_y()
    }
}

/// The x record of one sample pair: the sample's index on the x axis.
pub fn x_record(value: i16) -> (r: Coordinate)
    ensures
        r.value == value,
        r.is_x(),
{
    Coordinate { value, axis: "x".to_owned() }
}

/// The y record of one sample pair: the sample's amplitude value,
/// already truncated toward zero to the storage width.
pub fn y_record(value: i16) -> (r: Coordinate)
    ensures
        r.value == value,
        r.is_y(),
{
    Coordinate { value, axis: "y".to_owned() }
}

/// Both records of one sample pair: exactly one x record and one y record,
/// carrying the pair's two truncated components.
pub fn pair_records(x: i16, y: i16) -> (r: (Coordinate, Coordinate))
    ensures
        r.0.value == x,
        r.0.is_x(),
        r.1.value == y,
        r.1.is_y(),
{
    (x_record(x), y_record(y))
}

/// Record `j` of the flattened record sequence for the samples `ys`:
/// even positions carry the sample index on the x axis, odd positions the
/// truncated y component of that sample.
pub open spec fn sample_record_ok(ys: Seq<i16>, rs: Seq<Coordinate>, j: int) -> bool {
    if j % 2 == 0 {
        rs[j].is_x() && rs[j].value == (j / 2) as i16
    } else {
        rs[j].is_y() && rs[j].value == ys[j / 2]
    }
}

/// `rs` is the full record sequence for the samples `ys`: two records per
/// sample, interleaved x then y in generation order.
pub open spec fn is_sample_records(ys: Seq<i16>, rs: Seq<Coordinate>) -> bool {
    &&& rs.len() == 2 * ys.len()
    &&& forall|j: int| 0 <= j < rs.len() ==> #[trigger] sample_record_ok(ys, rs, j)
}

/// Flattens the truncated samples into their record sequence. The y
/// components arrive already truncated toward zero; the x component of
/// sample `i` is `i` itself, which the sample-count bound keeps within the
/// storage width.
pub fn records_for_samples(ys: &Vec<i16>) -> (rs: Vec<Coordinate>)
    requires
        ys@.len() <= 0x7fff,
    ensures
        is_sample_records(ys@, rs@),
{
    let mut rs: Vec<Coordinate> = Vec::new();
    let mut i: usize = 0;
    while i < ys.len()
        invariant
            i <= ys@.len(),
            ys@.len() <= 0x7fff,
            rs@.len() == 2 * i,
            forall|j: int| 0 <= j < rs@.len() ==> #[trigger] sample_record_ok(ys@, rs@, j),
        decreases ys@.len() - i,
    {
        let ghost prev = rs@;
        let (rx, ry) = pair_records(i as i16, ys[i]);
        rs.push(rx);
        rs.push(ry);
        proof {
            assert forall|j: int| 0 <= j < rs@.len() implies #[trigger] sample_record_ok(
                ys@,
                rs@,
                j,
            ) by {
                if j < prev.len() {
                    assert(sample_record_ok(ys@, prev, j));
                    assert(rs@[j] == prev[j]);
                }
            }
        }
        i = i + 1;
    }
    rs
}

} // verus!
