//! The row materializer: converts one database row, via its column metadata,
//! into an ordered JSON-compatible document, applying per-type decoding rules
//! — notably the reconstruction of fixed-point decimals from their scaled
//! integer representation.

use vstd::prelude::*;
use crate::data_service::DataService;
use crate::model::{JsonVal, RowDocument};
use crate::text::{dec_digits, zero_pad, u128_string, padded_u128_string};

verus! {

// ---------------------------------------------------------------------------
// Fixed-point decimal reconstruction
// ---------------------------------------------------------------------------

/// Ten to the power `n`.
pub open spec fn pow10(n: nat) -> int
    decreases n,
{
    if n == 0 {
        1
    } else {
        10 * pow10((n - 1) as nat)
    }
}

pub proof fn lemma_pow10_pos(n: nat)
    ensures
        pow10(n) >= 1,
    decreases n,
{
    if n > 0 {
        lemma_pow10_pos((n - 1) as nat);
    }
}

pub proof fn lemma_pow10_mono(a: nat, b: nat)
    requires
        a <= b,
    ensures
        pow10(a) <= pow10(b),
    decreases b,
{
    if a < b {
        lemma_pow10_mono(a, (b - 1) as nat);
        lemma_pow10_pos((b - 1) as nat);
    }
}

/// The value of ten to the power thirty-eight, the largest scale a decimal
/// column can carry.
pub proof fn lemma_pow10_38()
    ensures
        pow10(38) == 100000000000000000000000000000000000000int,
{
    reveal_with_fuel(pow10, 40);
}

/// The decimal string of a scaled integer: the truncated quotient as signed
/// integer text, a dot, then the remainder of the magnitude zero-padded to
/// `scale` digits.
pub open spec fn spec_decimal_string(raw: int, scale: nat) -> Seq<char> {
    let divisor = pow10(scale);
    let magnitude = if raw >= 0 {
        raw
    } else {
        -raw
    };
    let quotient = magnitude / divisor;
    let remainder = magnitude % divisor;
    let sign = if raw < 0 && quotient != 0 {
        seq!['-']
    } else {
        Seq::<char>::empty()
    };
    sign + dec_digits(quotient) + seq!['.'] + zero_pad(dec_digits(remainder), scale as int)
}

/// Reconstructs the decimal string of a scaled integer, as the engine's
/// rendering of `raw / 10^scale` with exactly `scale` fractional digits.
pub fn decimal_string(raw: i128, scale: u8) -> (r: String)
    requires
        scale <= 38,
        raw != i128::MIN,
    ensures
        r@ == spec_decimal_string(raw as int, scale as nat),
{
    let mut divisor: u128 = 1;
    let mut k: u8 = 0;
    while k < scale
        invariant
            k <= scale,
            scale <= 38,
            divisor == pow10(k as nat),
        decreases scale - k,
    {
        proof {
            lemma_pow10_mono(k as nat + 1, 38);
            lemma_pow10_38();
        }
        divisor = divisor * 10;
        k += 1;
    }
    proof {
        lemma_pow10_pos(scale as nat);
    }
    let magnitude: u128 = if raw >= 0 {
        raw as u128
    } else {
        (-raw) as u128
    };
    let quotient = magnitude / divisor;
    let remainder = magnitude % divisor;
    let mut s = String::new();
    if raw < 0 && quotient != 0 {
        proof {
            reveal_strlit("-");
        }
        s.append("-");
    }
    let digits = u128_string(quotient);
    s.append(digits.as_str());
    proof {
        reveal_strlit(".");
    }
    s.append(".");
    let frac = padded_u128_string(remainder, scale as usize);
    s.append(frac.as_str());
    proof {
        assert(s@ =~= spec_decimal_string(raw as int, scale as nat));
    }
    s
}

// ---------------------------------------------------------------------------
// The cell model and its dispatch
// ---------------------------------------------------------------------------

/// The family a driver-reported column type falls into; `Other` is the
/// deliberate fallback for every unrecognized type.
#[derive(Debug, Clone, Copy, PartialEq, Eq, Structural)]
pub enum ColumnKind {
    Text,
    Integer,
    Boolean,
    DateTime,
    Binary,
    Decimal,
    Other,
}

/// An integer code for each column family, used to speak about a row's
/// metadata.
pub open spec fn kind_code(k: ColumnKind) -> int {
    match k {
        ColumnKind::Text => 0,
        ColumnKind::Integer => 1,
        ColumnKind::Boolean => 2,
        ColumnKind::DateTime => 3,
        ColumnKind::Binary => 4,
        ColumnKind::Decimal => 5,
        ColumnKind::Other => 6,
    }
}

/// What a typed read of one cell produced: the value under the type the
/// column family calls for, or `Missing` when the read failed or found NULL.
#[derive(Debug, Clone, PartialEq)]
pub enum CellData {
    Missing,
    Text(String),
    Integer(i32),
    Boolean(bool),
    Stamp(String),
    Binary(Vec<u8>),
    Decimal(i128, u8),
}

/// One column of a row: its name, its family, and what its typed read
/// produced.
#[derive(Debug, Clone, PartialEq)]
pub struct ColumnCell {
    pub name: String,
    pub kind: ColumnKind,
    pub data: CellData,
}

/// The per-type decoding rule: the JSON scalar a cell materializes to.
/// Every mismatch between family and read data degrades to null, an
/// unrecognized family is always null, and a decimal cell is rendered
/// through `spec_decimal_string` whenever its scaled integer is readable.
pub open spec fn spec_cell_matches(kind: ColumnKind, data: CellData, v: JsonVal) -> bool {
    match kind {
        ColumnKind::Text => match data {
            CellData::Text(s) => v matches JsonVal::Str(t) && t@ == s@,
            _ => v is Null,
        },
        ColumnKind::Integer => match data {
            CellData::Integer(n) => v == JsonVal::Int(n),
            _ => v is Null,
        },
        ColumnKind::Boolean => match data {
            CellData::Boolean(b) => v == JsonVal::Bool(b),
            _ => v is Null,
        },
        ColumnKind::DateTime => match data {
            CellData::Stamp(s) => v matches JsonVal::Str(t) && t@ == s@,
            _ => v is Null,
        },
        ColumnKind::Binary => match data {
            CellData::Binary(b) => v matches JsonVal::Bytes(c) && c@ == b@,
            _ => v is Null,
        },
        ColumnKind::Decimal => match data {
            CellData::Decimal(raw, scale) => if scale <= 38 && raw != i128::MIN {
                v matches JsonVal::Num(t) && t@ == spec_decimal_string(raw as int, scale as nat)
            } else {
                v is Null
            },
            _ => v is Null,
        },
        ColumnKind::Other => v is Null,
    }
}

/// Law: a cell of an unrecognized column type materializes as JSON null,
/// whatever its read produced.
pub proof fn lemma_unknown_kind_is_null(data: CellData, v: JsonVal)
    requires
        spec_cell_matches(ColumnKind::Other, data, v),
    ensures
        v is Null,
{
}

/// Applies the per-type decoding rule to one cell.
pub fn cell_value(cell: &ColumnCell) -> (v: JsonVal)
    ensures
        spec_cell_matches(cell.kind, cell.data, v),
{
    match cell.kind {
        ColumnKind::Text => match &cell.data {
            CellData::Text(s) => JsonVal::Str(s.clone()),
            _ => JsonVal::Null,
        },
        ColumnKind::Integer => match &cell.data {
            CellData::Integer(n) => JsonVal::Int(*n),
            _ => JsonVal::Null,
        },
        ColumnKind::Boolean => match &cell.data {
            CellData::Boolean(b) => JsonVal::Bool(*b),
            _ => JsonVal::Null,
        },
        ColumnKind::DateTime => match &cell.data {
            CellData::Stamp(s) => JsonVal::Str(s.clone()),
            _ => JsonVal::Null,
        },
        ColumnKind::Binary => match &cell.data {
            CellData::Binary(b) => JsonVal::Bytes(b.clone()),
            _ => JsonVal::Null,
        },
        ColumnKind::Decimal => match &cell.data {
            CellData::Decimal(raw, scale) => {
                if *scale <= 38 && *raw != i128::MIN {
                    JsonVal::Num(decimal_string(*raw, *scale))
                } else {
                    JsonVal::Null
                }
            },
            _ => JsonVal::Null,
        },
        ColumnKind::Other => JsonVal::Null,
    }
}

/// Converts a sequence of read cells into the ordered document, one field
/// per cell under the cell's column name, no cell ever omitted.
pub fn row_to_document(cells: &Vec<ColumnCell>) -> (r: RowDocument)
    ensures
        r.fields@.len() == cells@.len(),
        forall|i: int|
            0 <= i < cells@.len() ==> (#[trigger] r.fields@[i]).0@ == cells@[i].name@
                && spec_cell_matches(cells@[i].kind, cells@[i].data, r.fields@[i].1),
{
    let mut fields: Vec<(String, JsonVal)> = Vec::new();
    let n = cells.len();
    let mut i: usize = 0;
    while i < n
        invariant
            i <= n,
            n == cells@.len(),
            fields@.len() == i,
            forall|j: int|
                0 <= j < i ==> (#[trigger] fields@[j]).0@ == cells@[j].name@ && spec_cell_matches(
                    cells@[j].kind,
                    cells@[j].data,
                    fields@[j].1,
                ),
        decreases n - i,
    {
        let value = cell_value(&cells[i]);
        fields.push((cells[i].name.clone(), value));
        i += 1;
    }
    RowDocument { fields }
}

// ---------------------------------------------------------------------------
// The trusted surface over a driver row
// ---------------------------------------------------------------------------

#[verifier::external_type_specification]
#[verifier::external_body]
pub struct ExRow(tiberius::Row);

/// A driver row's column metadata: for each column, in order, its name and
/// the integer code of its family.
pub uninterp spec fn row_meta(r: tiberius::Row) -> Seq<(Seq<char>, int)>;

/// The row's cells under the driver's text read: per column, what
/// `try_get::<&str>` yields, `None` where the read fails or finds NULL. A
/// function of the row value alone, as every typed read of an owned row is.
pub uninterp spec fn row_texts(r: tiberius::Row) -> Seq<Option<Seq<char>>>;

/// The row's cells under the driver's 32-bit integer read.
pub uninterp spec fn row_ints(r: tiberius::Row) -> Seq<Option<int>>;

/// The row's cells under the driver's boolean read.
pub uninterp spec fn row_bools(r: tiberius::Row) -> Seq<Option<bool>>;

/// The row's cells under the driver's timestamp read, rendered as text.
pub uninterp spec fn row_stamps(r: tiberius::Row) -> Seq<Option<Seq<char>>>;

/// The row's cells under the driver's binary read.
pub uninterp spec fn row_blobs(r: tiberius::Row) -> Seq<Option<Seq<u8>>>;

/// The row's cells under the driver's decimal read: the scaled integer and
/// its scale.
pub uninterp spec fn row_decimals(r: tiberius::Row) -> Seq<Option<(int, int)>>;

/// The view of an optional owned string.
pub open spec fn opt_text_view(o: Option<String>) -> Option<Seq<char>> {
    match o {
        Some(s) => Some(s@),
        None => None,
    }
}

/// The value of an optional 32-bit integer.
pub open spec fn opt_int_view(o: Option<i32>) -> Option<int> {
    match o {
        Some(n) => Some(n as int),
        None => None,
    }
}

/// The view of an optional byte vector.
pub open spec fn opt_bytes_view(o: Option<Vec<u8>>) -> Option<Seq<u8>> {
    match o {
        Some(b) => Some(b@),
        None => None,
    }
}

/// The values of an optional scaled integer and scale.
pub open spec fn opt_numeric_view(o: Option<(i128, u8)>) -> Option<(int, int)> {
    match o {
        Some(p) => Some((p.0 as int, p.1 as int)),
        None => None,
    }
}

/// Relies on tiberius `Row::columns`: the number of columns of the row.
#[verifier::external_body]
fn row_width(row: &tiberius::Row) -> (r: usize)
    ensures
        r == row_meta(*row).len(),
{
    row.columns().len()
}

/// Relies on tiberius `Row::columns` and `Column::name`: the name of one
/// column.
#[verifier::external_body]
fn column_name(row: &tiberius::Row, i: usize) -> (r: String)
    requires
        i < row_meta(*row).len(),
    ensures
        r@ == row_meta(*row)[i as int].0,
{
    row.columns()[i].name().to_string()
}

/// Relies on tiberius `Row::columns` and `Column::column_type`: the family of
/// one column, telling the driver's type variants apart one arm each.
#[verifier::external_body]
fn column_kind(row: &tiberius::Row, i: usize) -> (r: ColumnKind)
    requires
        i < row_meta(*row).len(),
    ensures
        kind_code(r) == row_meta(*row)[i as int].1,
{
    match row.columns()[i].column_type() {
        tiberius::ColumnType::NVarchar => ColumnKind::Text,
        tiberius::ColumnType::BigVarChar => ColumnKind::Text,
        tiberius::ColumnType::Text => ColumnKind::Text,
        tiberius::ColumnType::Int4 => ColumnKind::Integer,
        tiberius::ColumnType::Int8 => ColumnKind::Integer,
        tiberius::ColumnType::Intn => ColumnKind::Integer,
        tiberius::ColumnType::Bit => ColumnKind::Boolean,
        tiberius::ColumnType::Datetimen => ColumnKind::DateTime,
        tiberius::ColumnType::BigBinary => ColumnKind::Binary,
        tiberius::ColumnType::Numericn => ColumnKind::Decimal,
        _ => ColumnKind::Other,
    }
}

/// Relies on tiberius `Row::try_get::<&str>`: `Some` only when the cell holds
/// text; an error or NULL reads as `None`. The read is deterministic in the
/// row, so its outcome carries the cell's name.
#[verifier::external_body]
fn get_text(row: &tiberius::Row, i: usize) -> (r: Option<String>)
    requires
        i < row_meta(*row).len(),
    ensures
        opt_text_view(r) == row_texts(*row)[i as int],
{
    match row.try_get::<&str, usize>(i) {
        Ok(Some(v)) => Some(v.to_string()),
        _ => None,
    }
}

/// Relies on tiberius `Row::try_get::<i32>`: an error or NULL reads as
/// `None`.
#[verifier::external_body]
fn get_int(row: &tiberius::Row, i: usize) -> (r: Option<i32>)
    requires
        i < row_meta(*row).len(),
    ensures
        opt_int_view(r) == row_ints(*row)[i as int],
{
    match row.try_get::<i32, usize>(i) {
        Ok(v) => v,
        Err(_) => None,
    }
}

/// Relies on tiberius `Row::try_get::<bool>`: an error or NULL reads as
/// `None`.
#[verifier::external_body]
fn get_bool(row: &tiberius::Row, i: usize) -> (r: Option<bool>)
    requires
        i < row_meta(*row).len(),
    ensures
        r == row_bools(*row)[i as int],
{
    match row.try_get::<bool, usize>(i) {
        Ok(v) => v,
        Err(_) => None,
    }
}

/// Relies on tiberius `Row::try_get::<chrono::NaiveDateTime>`, rendered in
/// chrono's ISO 8601 text shape — the same shape its JSON serialization
/// uses; an error or NULL reads as `None`. Tiberius's conversion to a
/// timestamp adds an unchecked duration and can panic on a day count no
/// conforming server sends; the exposure is the driver's own.
#[verifier::external_body]
fn get_stamp(row: &tiberius::Row, i: usize) -> (r: Option<String>)
    requires
        i < row_meta(*row).len(),
    ensures
        opt_text_view(r) == row_stamps(*row)[i as int],
{
    match row.try_get::<chrono::NaiveDateTime, usize>(i) {
        Ok(Some(v)) => Some(format!("{:?}", v)),
        _ => None,
    }
}

/// Relies on tiberius `Row::try_get::<&[u8]>`: an error or NULL reads as
/// `None`.
#[verifier::external_body]
fn get_bytes(row: &tiberius::Row, i: usize) -> (r: Option<Vec<u8>>)
    requires
        i < row_meta(*row).len(),
    ensures
        opt_bytes_view(r) == row_blobs(*row)[i as int],
{
    match row.try_get::<&[u8], usize>(i) {
        Ok(Some(v)) => Some(v.to_vec()),
        _ => None,
    }
}

/// Relies on tiberius `Row::try_get::<Numeric>` and `Numeric::value` /
/// `Numeric::scale`: the scaled integer and scale of a decimal cell; an
/// error or NULL reads as `None`.
#[verifier::external_body]
fn get_numeric(row: &tiberius::Row, i: usize) -> (r: Option<(i128, u8)>)
    requires
        i < row_meta(*row).len(),
    ensures
        opt_numeric_view(r) == row_decimals(*row)[i as int],
{
    match row.try_get::<tiberius::numeric::Numeric, usize>(i) {
        Ok(Some(v)) => Some((v.value(), v.scale())),
        _ => None,
    }
}

/// What reading column `i` of a row produced: the cell carries the column's
/// name and family, and the value of the typed read the family calls for,
/// `Missing` where that read gave none.
pub open spec fn spec_cell_read(r: tiberius::Row, i: int, cell: ColumnCell) -> bool {
    let code = row_meta(r)[i].1;
    &&& cell.name@ == row_meta(r)[i].0
    &&& kind_code(cell.kind) == code
    &&& if code == kind_code(ColumnKind::Text) {
        match row_texts(r)[i] {
            Some(s) => cell.data matches CellData::Text(t) && t@ == s,
            None => cell.data is Missing,
        }
    } else if code == kind_code(ColumnKind::Integer) {
        match row_ints(r)[i] {
            Some(n) => cell.data matches CellData::Integer(v) && v as int == n,
            None => cell.data is Missing,
        }
    } else if code == kind_code(ColumnKind::Boolean) {
        match row_bools(r)[i] {
            Some(b) => cell.data == CellData::Boolean(b),
            None => cell.data is Missing,
        }
    } else if code == kind_code(ColumnKind::DateTime) {
        match row_stamps(r)[i] {
            Some(s) => cell.data matches CellData::Stamp(t) && t@ == s,
            None => cell.data is Missing,
        }
    } else if code == kind_code(ColumnKind::Binary) {
        match row_blobs(r)[i] {
            Some(s) => cell.data matches CellData::Binary(b) && b@ == s,
            None => cell.data is Missing,
        }
    } else if code == kind_code(ColumnKind::Decimal) {
        match row_decimals(r)[i] {
            Some(p) => cell.data matches CellData::Decimal(raw, scale) && raw as int == p.0
                && scale as int == p.1,
            None => cell.data is Missing,
        }
    } else {
        cell.data is Missing
    }
}

/// The JSON scalar column `i` of row `r` materializes to — a function of the
/// row's column metadata and its named typed readings alone.
pub open spec fn spec_row_value(r: tiberius::Row, i: int, v: JsonVal) -> bool {
    let code = row_meta(r)[i].1;
    if code == kind_code(ColumnKind::Text) {
        match row_texts(r)[i] {
            Some(s) => v matches JsonVal::Str(t) && t@ == s,
            None => v is Null,
        }
    } else if code == kind_code(ColumnKind::Integer) {
        match row_ints(r)[i] {
            Some(n) => v matches JsonVal::Int(m) && m as int == n,
            None => v is Null,
        }
    } else if code == kind_code(ColumnKind::Boolean) {
        match row_bools(r)[i] {
            Some(b) => v == JsonVal::Bool(b),
            None => v is Null,
        }
    } else if code == kind_code(ColumnKind::DateTime) {
        match row_stamps(r)[i] {
            Some(s) => v matches JsonVal::Str(t) && t@ == s,
            None => v is Null,
        }
    } else if code == kind_code(ColumnKind::Binary) {
        match row_blobs(r)[i] {
            Some(s) => v matches JsonVal::Bytes(b) && b@ == s,
            None => v is Null,
        }
    } else if code == kind_code(ColumnKind::Decimal) {
        match row_decimals(r)[i] {
            Some(p) => if 0 <= p.1 <= 38 && p.0 != i128::MIN as int {
                v matches JsonVal::Num(t) && t@ == spec_decimal_string(p.0, p.1 as nat)
            } else {
                v is Null
            },
            None => v is Null,
        }
    } else {
        v is Null
    }
}

/// Reads every cell of a driver row under the typed read its column family
/// calls for.
fn read_row(row: &tiberius::Row) -> (r: Vec<ColumnCell>)
    ensures
        r@.len() == row_meta(*row).len(),
        forall|i: int| 0 <= i < r@.len() ==> spec_cell_read(*row, i, #[trigger] r@[i]),
{
    let width = row_width(row);
    let mut cells: Vec<ColumnCell> = Vec::new();
    let mut i: usize = 0;
    while i < width
        invariant
            i <= width,
            width == row_meta(*row).len(),
            cells@.len() == i,
            forall|j: int| 0 <= j < i ==> spec_cell_read(*row, j, #[trigger] cells@[j]),
        decreases width - i,
    {
        let name = column_name(row, i);
        let kind = column_kind(row, i);
        let data = match kind {
            ColumnKind::Text => match get_text(row, i) {
                Some(s) => CellData::Text(s),
                None => CellData::Missing,
            },
            ColumnKind::Integer => match get_int(row, i) {
                Some(v) => CellData::Integer(v),
                None => CellData::Missing,
            },
            ColumnKind::Boolean => match get_bool(row, i) {
                Some(b) => CellData::Boolean(b),
                None => CellData::Missing,
            },
            ColumnKind::DateTime => match get_stamp(row, i) {
                Some(s) => CellData::Stamp(s),
                None => CellData::Missing,
            },
            ColumnKind::Binary => match get_bytes(row, i) {
                Some(b) => CellData::Binary(b),
                None => CellData::Missing,
            },
            ColumnKind::Decimal => match get_numeric(row, i) {
                Some(p) => CellData::Decimal(p.0, p.1),
                None => CellData::Missing,
            },
            ColumnKind::Other => CellData::Missing,
        };
        cells.push(ColumnCell { name, kind, data });
        i += 1;
    }
    cells
}

impl DataService {
    /// Converts one driver row into its ordered document: one field per
    /// column under the column's name, each value fixed by the column
    /// family's rule from the row's typed readings, and an unrecognized
    /// family always null.
    pub fn row_to_json(row: &tiberius::Row) -> (r: RowDocument)
        ensures
            r.fields@.len() == row_meta(*row).len(),
            forall|i: int|
                0 <= i < r.fields@.len() ==> (#[trigger] r.fields@[i]).0@ == row_meta(*row)[i].0,
            forall|i: int|
                0 <= i < r.fields@.len() ==> spec_row_value(*row, i, (#[trigger] r.fields@[i]).1),
            forall|i: int|
                0 <= i < r.fields@.len() && row_meta(*row)[i].1 == kind_code(ColumnKind::Other)
                    ==> (#[trigger] r.fields@[i]).1 is Null,
    {
        let cells = read_row(row);
        let doc = row_to_document(&cells);
        proof {
            assert forall|i: int| 0 <= i < doc.fields@.len() implies spec_row_value(
                *row,
                i,
                (#[trigger] doc.fields@[i]).1,
            ) by {
                let cell = cells@[i];
                let v = doc.fields@[i].1;
                assert(spec_cell_read(*row, i, cell));
                assert(spec_cell_matches(cell.kind, cell.data, v));
                match cell.kind {
                    ColumnKind::Text => {},
                    ColumnKind::Integer => {},
                    ColumnKind::Boolean => {},
                    ColumnKind::DateTime => {},
                    ColumnKind::Binary => {},
                    ColumnKind::Decimal => {},
                    ColumnKind::Other => {},
                }
            }
            assert forall|i: int|
                0 <= i < doc.fields@.len() && row_meta(*row)[i].1 == kind_code(
                    ColumnKind::Other,
                ) implies (#[trigger] doc.fields@[i]).1 is Null by {
                assert(kind_code(cells@[i].kind) == kind_code(ColumnKind::Other));
                assert(cells@[i].kind == ColumnKind::Other);
                lemma_unknown_kind_is_null(cells@[i].data, doc.fields@[i].1);
            }
        }
        doc
    }
}

} // verus!
