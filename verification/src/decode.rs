//! The decode layer: decompresses a fetched byte stream, splits it into a
//! header row and data rows of raw text fields, and checks the header
//! against a declared schema. Row-to-record decoding lives with the records.

use vstd::prelude::*;
use crate::types::str_eq;

verus! {

/// What the compressed byte stream inflates to, or `None` where the bytes
/// are not a valid compressed stream. A name for what
/// `flate2::read::GzDecoder` produces: the result depends on the bytes
/// alone.
pub uninterp spec fn gunzip_of(d: Seq<u8>) -> Option<Seq<u8>>;

/// Relies on flate2::read::GzDecoder and std::io::Read::read_to_end:
/// inflates a gzip stream fully, or fails on malformed input.
#[verifier::external_body]
pub fn gunzip(data: &Vec<u8>) -> (r: Option<Vec<u8>>)
    ensures
        match r {
            Some(out) => gunzip_of(data@) == Some(out@),
            None => gunzip_of(data@) is None,
        },
{
    let mut out: Vec<u8> = Vec::new();
    let mut dec = flate2::read::GzDecoder::new(data.as_slice());
    match std::io::Read::read_to_end(&mut dec, &mut out) {
        Ok(_) => Some(out),
        Err(_) => None,
    }
}

/// What the delimited text parses to: the header row and the data rows,
/// each a sequence of fields; `None` where the text is malformed (for one,
/// a row whose field count differs from the header's). A name for what
/// `csv::Reader` produces: the result depends on the bytes alone.
pub uninterp spec fn csv_rows_of(d: Seq<u8>) -> Option<(Seq<Seq<char>>, Seq<Seq<Seq<char>>>)>;

/// Relies on csv::Reader::from_reader, headers and records: the first row
/// names the fields, every following row holds that many fields, and any
/// malformed row is an error.
#[verifier::external_body]
pub fn csv_rows(data: &Vec<u8>) -> (r: Option<(Vec<String>, Vec<Vec<String>>)>)
    ensures
        match r {
            Some(p) => csv_rows_of(data@) == Some((p.0.deep_view(), p.1.deep_view())),
            None => csv_rows_of(data@) is None,
        },
{
    let mut rdr = csv::Reader::from_reader(data.as_slice());
    let header: Vec<String> = match rdr.headers() {
        Ok(h) => h.iter().map(|f| f.to_string()).collect(),
        Err(_) => return None,
    };
    let mut rows: Vec<Vec<String>> = Vec::new();
    for rec in rdr.records() {
        match rec {
            Ok(row) => rows.push(row.iter().map(|f| f.to_string()).collect()),
            Err(_) => return None,
        }
    }
    Some((header, rows))
}

/// The result of decompressing and splitting one fetched table stream.
pub open spec fn spec_table_rows(bytes: Seq<u8>) -> Option<(Seq<Seq<char>>, Seq<Seq<Seq<char>>>)> {
    match gunzip_of(bytes) {
        Some(text) => csv_rows_of(text),
        None => None,
    }
}

/// Decompresses a fetched table stream and splits it into header and rows.
pub fn read_table_rows(bytes: &Vec<u8>) -> (r: Option<(Vec<String>, Vec<Vec<String>>)>)
    ensures
        match r {
            Some(p) => spec_table_rows(bytes@) == Some((p.0.deep_view(), p.1.deep_view())),
            None => spec_table_rows(bytes@) is None,
        },
{
    match gunzip(bytes) {
        Some(text) => csv_rows(&text),
        None => None,
    }
}

/// Whether a header row names exactly the declared schema's fields, in
/// order; a header with a missing, extra, renamed or reordered column is
/// rejected, which makes the schema closed.
pub fn check_header(header: &Vec<String>, schema: &Vec<&'static str>) -> (r: bool)
    ensures
        r == (header.deep_view() == schema.deep_view()),
{
    if header.len() != schema.len() {
        proof {
            assert(header.deep_view().len() == header@.len());
            assert(schema.deep_view().len() == schema@.len());
        }
        return false;
    }
    let n = header.len();
    let mut i: usize = 0;
    while i < n
        invariant
            n == header@.len(),
            n == schema@.len(),
            i <= n,
            forall|j: int| 0 <= j < i ==> header.deep_view()[j] == schema.deep_view()[j],
        decreases n - i,
    {
        if !str_eq(header[i].as_str(), schema[i]) {
            proof {
                assert(header.deep_view()[i as int] == header@[i as int]@);
                assert(schema.deep_view()[i as int] == schema@[i as int]@);
                assert(header.deep_view() != schema.deep_view());
            }
            return false;
        }
        i = i + 1;
    }
    proof {
        assert(header.deep_view() =~= schema.deep_view());
    }
    true
}

} // verus!
