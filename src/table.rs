use vstd::prelude::*;
use crate::format::{score_text, score_text_spec};
use crate::record::{views, ReviewRecord, ReviewView};
use crate::sentiment::label_spec;

verus! {

#[verifier::external_type_specification]
#[verifier::external_body]
pub struct ExCsvError(csv::Error);

/// The bytes of one CSV record holding `fields`, in the csv crate's default
/// format.
pub uninterp spec fn csv_record(fields: Seq<Seq<char>>) -> Seq<u8>;

/// Relies on csv's Writer::from_writer, Writer::write_record and
/// Writer::into_inner: encodes one record into memory in the default format
/// (comma delimiter, quoting where needed, newline terminator). A fresh
/// writer has no field count to hold its first record to, and writing to a
/// `Vec<u8>` does not fail, so the result is always `Ok`.
#[verifier::external_body]
fn encode_record(fields: &Vec<String>) -> (r: Result<Vec<u8>, csv::Error>)
    ensures
        r is Ok,
        r matches Ok(b) ==> b@ == csv_record(fields@.map_values(|f: String| f@)),
{
    let mut writer = csv::Writer::from_writer(Vec::new());
    writer.write_record(fields)?;
    writer.into_inner().map_err(|e| csv::Error::from(e.into_error()))
}

/// Why a table could not be written.
#[derive(Clone, Copy, Debug, PartialEq, Eq, Structural)]
pub enum TableError {
    /// The CSV encoder refused a record.
    Encoding,
}

/// The header of the review table.
pub open spec fn header_fields() -> Seq<Seq<char>> {
    seq!["Review"@, "Score"@, "Sentiment"@]
}

/// The fields of the table row of one review: its text, its score and its class.
pub open spec fn row_fields(r: ReviewView) -> Seq<Seq<char>> {
    seq![r.text, score_text_spec(r.score), label_spec(r.sentiment)]
}

/// The encoded rows of `rs`, in order.
pub open spec fn rows_bytes(rs: Seq<ReviewView>) -> Seq<u8>
    decreases rs.len(),
{
    if rs.len() == 0 {
        Seq::empty()
    } else {
        rows_bytes(rs.drop_last()) + csv_record(row_fields(rs.last()))
    }
}

/// The review table of a corpus: the header, then one row per review in
/// corpus order.
pub open spec fn table_bytes(rs: Seq<ReviewView>) -> Seq<u8> {
    csv_record(header_fields()) + rows_bytes(rs)
}

fn encode(fields: &Vec<String>) -> (r: Result<Vec<u8>, TableError>)
    ensures
        r is Ok,
        r matches Ok(b) ==> b@ == csv_record(fields@.map_values(|f: String| f@)),
{
    match encode_record(fields) {
        Ok(b) => Ok(b),
        Err(_) => Err(TableError::Encoding),
    }
}

/// The fields of the table row of one review.
pub fn table_row(rec: &ReviewRecord) -> (r: Vec<String>)
    ensures
        r@.map_values(|f: String| f@) == row_fields(rec@),
{
    let fields = vec![rec.text().clone(), score_text(rec.score()), rec.sentiment().label()];
    assert(fields@.map_values(|f: String| f@) =~= row_fields(rec@));
    fields
}

/// The bytes of the review table of `corpus`; encoding never fails.
pub fn csv_table(corpus: &Vec<ReviewRecord>) -> (r: Result<Vec<u8>, TableError>)
    ensures
        r is Ok,
        r matches Ok(b) ==> b@ == table_bytes(views(corpus@)),
{
    let header = vec![
        String::from_str("Review"),
        String::from_str("Score"),
        String::from_str("Sentiment"),
    ];
    assert(header@.map_values(|f: String| f@) =~= header_fields());
    let mut out = encode(&header)?;
    let ghost vs = views(corpus@);
    let mut i: usize = 0;
    while i < corpus.len()
        invariant
            i <= corpus@.len(),
            vs == views(corpus@),
            out@ == csv_record(header_fields()) + rows_bytes(vs.take(i as int)),
        decreases corpus@.len() - i,
    {
        let fields = table_row(&corpus[i]);
        let mut row = encode(&fields)?;
        assert(vs.take(i + 1).drop_last() =~= vs.take(i as int));
        out.append(&mut row);
        assert(out@ =~= csv_record(header_fields()) + rows_bytes(vs.take(i + 1)));
        i += 1;
    }
    assert(vs.take(i as int) =~= vs);
    Ok(out)
}

} // verus!
