use crate::station::Station;
use vstd::prelude::*;

verus! {

/// The bytes that the CSV writer produces for one record of these fields.
pub uninterp spec fn csv_record_of(fields: Seq<Seq<char>>) -> Seq<u8>;

/// What the CSV reader (first row taken as the header) finds in these bytes:
/// the header's fields and each later row's fields, or `None` where it
/// reports an error.
pub uninterp spec fn csv_table_of(bytes: Seq<u8>) -> Option<(Seq<Seq<char>>, Seq<Seq<Seq<char>>>)>;

/// Relies on `csv::Writer::write_record` and `csv::Writer::into_inner` over a
/// fresh in-memory writer: the bytes of one record of two fields, with the
/// default delimiter, quoting and terminator. Writing into a `Vec` does not
/// fail, and a fresh writer has no earlier record to disagree with in length,
/// so the writer reports no error.
#[verifier::external_body]
fn csv_record(first: &str, second: &str) -> (r: Option<Vec<u8>>)
    ensures
        r is Some,
        r matches Some(b) ==> b@ == csv_record_of(seq![first@, second@]),
{
    let mut writer = csv::Writer::from_writer(Vec::new());
    writer.write_record([first, second]).ok()?;
    writer.into_inner().ok()
}

/// Relies on `csv::Reader::headers` and `csv::Reader::records` over a reader
/// on these bytes with the default settings: the header's fields and each
/// row's fields, or `None` where the reader reports an error.
#[verifier::external_body]
fn csv_table(bytes: &[u8]) -> (r: Option<(Vec<String>, Vec<Vec<String>>)>)
    ensures
        match r {
            Some((header, rows)) => csv_table_of(bytes@) == Some((header.deep_view(), rows.deep_view())),
            None => csv_table_of(bytes@).is_none(),
        },
{
    let mut reader = csv::Reader::from_reader(bytes);
    let header = reader.headers().ok()?.iter().map(String::from).collect();
    let rows = reader.records().map(|row| row.map(|rec| rec.iter().map(String::from).collect()));
    Some((header, rows.collect::<Result<Vec<Vec<String>>, csv::Error>>().ok()?))
}

/// The header row of the station file.
pub open spec fn header_fields() -> Seq<Seq<char>> {
    seq!["name"@, "url"@]
}

/// The records of these stations, one after the other.
pub open spec fn rows_bytes(stations: Seq<Station>) -> Seq<u8>
    decreases stations.len(),
{
    if stations.len() == 0 {
        Seq::empty()
    } else {
        let last = stations.last();
        rows_bytes(stations.drop_last()) + csv_record_of(seq![last.name@, last.url@])
    }
}

/// The station file for these stations: the header record followed by one
/// record per station, in order (the header alone for an empty list).
pub open spec fn table_bytes(stations: Seq<Station>) -> Seq<u8> {
    csv_record_of(header_fields()) + rows_bytes(stations)
}

/// Encodes the stations as the station file's contents.
pub fn encode_stations(stations: &Vec<Station>) -> (r: Option<Vec<u8>>)
    ensures
        r is Some,
        r matches Some(b) ==> b@ == table_bytes(stations@),
{
    let mut out = match csv_record("name", "url") {
        Some(b) => b,
        None => return None,
    };
    let mut i: usize = 0;
    while i < stations.len()
        invariant
            i <= stations.len(),
            out@ == csv_record_of(header_fields()) + rows_bytes(stations@.take(i as int)),
        decreases stations.len() - i,
    {
        let mut rec = match csv_record(stations[i].name.as_str(), stations[i].url.as_str()) {
            Some(b) => b,
            None => return None,
        };
        proof {
            let next = stations@.take(i + 1);
            assert(next.drop_last() =~= stations@.take(i as int));
            assert(next.last() == stations@[i as int]);
        }
        out.append(&mut rec);
        i = i + 1;
    }
    proof {
        assert(stations@.take(stations@.len() as int) =~= stations@);
    }
    Some(out)
}

/// How many header fields equal `label`.
pub open spec fn label_count(header: Seq<Seq<char>>, label: Seq<char>) -> nat
    decreases header.len(),
{
    if header.len() == 0 {
        0
    } else {
        label_count(header.drop_last(), label) + if header.last() == label {
            1nat
        } else {
            0nat
        }
    }
}

/// The first index of a header field equal to `label`.
pub open spec fn label_index(header: Seq<Seq<char>>, label: Seq<char>) -> Option<int>
    decreases header.len(),
{
    if header.len() == 0 {
        None
    } else {
        match label_index(header.drop_last(), label) {
            Some(k) => Some(k),
            None => if header.last() == label {
                Some(header.len() - 1)
            } else {
                None
            },
        }
    }
}

/// The column that a field named `label` is read from: the one header field
/// with that name. A missing or repeated name has none.
pub open spec fn column_of(header: Seq<Seq<char>>, label: Seq<char>) -> Option<int> {
    if label_count(header, label) == 1 {
        label_index(header, label)
    } else {
        None
    }
}

/// The stations that a table holds: each row read as a station through the
/// `name` and `url` columns, in order. Where a row cannot be read so (a
/// column is missing or repeated, or the row is too short), there are none
/// at all.
pub open spec fn table_stations(header: Seq<Seq<char>>, rows: Seq<Seq<Seq<char>>>) -> Seq<(Seq<char>, Seq<char>)> {
    match (column_of(header, "name"@), column_of(header, "url"@)) {
        (Some(n), Some(u)) => if forall|k: int| 0 <= k < rows.len() ==> n < rows[k].len() && u < rows[k].len() {
            rows.map_values(|row: Seq<Seq<char>>| (row[n], row[u]))
        } else {
            Seq::empty()
        },
        _ => Seq::empty(),
    }
}

/// The stations that the station file holds: those of the table the CSV
/// reader finds, or none where it cannot read the bytes.
pub open spec fn file_stations(bytes: Seq<u8>) -> Seq<(Seq<char>, Seq<char>)> {
    match csv_table_of(bytes) {
        Some((header, rows)) => table_stations(header, rows),
        None => Seq::empty(),
    }
}

/// The views of a list of stations.
pub open spec fn station_views(stations: Seq<Station>) -> Seq<(Seq<char>, Seq<char>)> {
    stations.map_values(|s: Station| s@)
}

fn find_column(header: &Vec<String>, label: &String) -> (r: Option<usize>)
    ensures
        r.is_some() == column_of(header.deep_view(), label@).is_some(),
        r matches Some(k) ==> column_of(header.deep_view(), label@) == Some(k as int),
{
    let ghost h = header.deep_view();
    let mut count: usize = 0;
    let mut first: Option<usize> = None;
    let mut i: usize = 0;
    while i < header.len()
        invariant
            i <= header.len(),
            h == header.deep_view(),
            count == label_count(h.take(i as int), label@),
            count <= i,
            match label_index(h.take(i as int), label@) {
                Some(k) => first == Some(k as usize) && 0 <= k < i,
                None => first.is_none(),
            },
        decreases header.len() - i,
    {
        proof {
            assert(h.take(i + 1).drop_last() =~= h.take(i as int));
        }
        if header[i] == *label {
            count = count + 1;
            if first.is_none() {
                first = Some(i);
            }
        }
        i = i + 1;
    }
    proof {
        assert(h.take(i as int) =~= h);
    }
    if count == 1 {
        first
    } else {
        None
    }
}

/// Reads the stations out of a table that the CSV reader produced: the
/// fields under the `name` and `url` header columns of each row, in order;
/// none at all where some row cannot be read so.
pub fn stations_from_table(header: &Vec<String>, rows: &Vec<Vec<String>>) -> (r: Vec<Station>)
    ensures
        station_views(r@) == table_stations(header.deep_view(), rows.deep_view()),
{
    let ghost rs = rows.deep_view();
    let name_col = find_column(header, &"name".to_owned());
    let url_col = find_column(header, &"url".to_owned());
    let (n, u) = match (name_col, url_col) {
        (Some(n), Some(u)) => (n, u),
        _ => {
            proof {
                assert(station_views(Seq::empty()) =~= Seq::empty());
            }
            return Vec::new();
        },
    };
    let mut out: Vec<Station> = Vec::new();
    let mut i: usize = 0;
    while i < rows.len()
        invariant
            i <= rows.len(),
            rs == rows.deep_view(),
            column_of(header.deep_view(), "name"@) == Some(n as int),
            column_of(header.deep_view(), "url"@) == Some(u as int),
            forall|k: int| 0 <= k < i ==> n < rs[k].len() && u < rs[k].len(),
            out@.len() == i,
            forall|k: int| 0 <= k < i ==> #[trigger] out@[k]@ == (rs[k][n as int], rs[k][u as int]),
        decreases rows.len() - i,
    {
        let row = &rows[i];
        assert(rs[i as int] == row.deep_view());
        if n >= row.len() || u >= row.len() {
            proof {
                assert(station_views(Seq::empty()) =~= Seq::empty());
            }
            return Vec::new();
        }
        let station = Station::new(row[n].clone(), row[u].clone());
        proof {
            assert(station@ == (rs[i as int][n as int], rs[i as int][u as int]));
        }
        out.push(station);
        i = i + 1;
    }
    proof {
        assert(station_views(out@) =~= rs.map_values(|row: Seq<Seq<char>>| (row[n as int], row[u as int])));
    }
    out
}

/// Reads the station file's contents. Bytes that the CSV reader rejects, or
/// whose rows do not all give a station, give the empty list.
pub fn load_stations(bytes: &[u8]) -> (r: Vec<Station>)
    ensures
        station_views(r@) == file_stations(bytes@),
{
    match csv_table(bytes) {
        Some((header, rows)) => stations_from_table(&header, &rows),
        None => {
            proof {
                assert(station_views(Seq::empty()) =~= Seq::empty());
            }
            Vec::new()
        },
    }
}

/// The station file written for a list depends on the stations' names and
/// addresses alone, in order: two lists with the same views (such as two
/// loads of the same file) are saved as the same bytes.
pub proof fn lemma_saved_bytes_follow_views(a: Seq<Station>, b: Seq<Station>)
    requires
        station_views(a) == station_views(b),
    ensures
        rows_bytes(a) == rows_bytes(b),
        table_bytes(a) == table_bytes(b),
    decreases a.len(),
{
    assert(a.len() == station_views(a).len());
    if a.len() > 0 {
        assert(station_views(a.drop_last()) =~= station_views(a).drop_last());
        assert(station_views(b.drop_last()) =~= station_views(b).drop_last());
        assert(a.last()@ == station_views(a).last());
        assert(b.last()@ == station_views(b).last());
        lemma_saved_bytes_follow_views(a.drop_last(), b.drop_last());
    }
}

} // verus!
