//! Reading the analysis' four tab-separated exports into conflict records.

use vstd::prelude::*;
use crate::record::{ConflictInfo, ConflictType, environment_code, environment_from_token, environment_of};
use crate::text::{opt_text, parse_u32_radix, parse_u32_spec, strip_hex_prefixes, trim_hex_prefixes};

verus! {

/// The records of a delimited text, each as its list of fields; `None` where
/// the text is not a valid table.
pub uninterp spec fn csv_records_of(text: Seq<char>, delimiter: u8, has_headers: bool) -> Option<
    Seq<Seq<Seq<char>>>,
>;

/// The first capture group of the leftmost match of `pattern` in `text`;
/// `None` where the pattern is not valid, nothing matches, or the group is
/// not part of the match.
pub uninterp spec fn regex_group_of(pattern: Seq<char>, text: Seq<char>) -> Option<Seq<char>>;

/// The fields of a row as texts.
pub open spec fn row_view(row: Vec<String>) -> Seq<Seq<char>> {
    row@.map_values(|f: String| f@)
}

/// The rows of a table as texts.
pub open spec fn table_view(t: Vec<Vec<String>>) -> Seq<Seq<Seq<char>>> {
    t@.map_values(|row: Vec<String>| row_view(row))
}

/// Relies on csv::ReaderBuilder (delimiter, has_headers, from_reader) and
/// StringRecord: the records of `text` as lists of fields, `None` on the first
/// record that the reader rejects.
#[verifier::external_body]
fn read_records(text: &str, delimiter: u8, has_headers: bool) -> (r: Option<Vec<Vec<String>>>)
    ensures
        match r {
            Some(t) => csv_records_of(text@, delimiter, has_headers) == Some(table_view(t)),
            None => csv_records_of(text@, delimiter, has_headers) is None,
        },
{
    let mut rdr = csv::ReaderBuilder::new().delimiter(delimiter).has_headers(has_headers)
        .from_reader(text.as_bytes());
    let mut rows = Vec::new();
    for rec in rdr.records() {
        match rec {
            Ok(rec) => rows.push(rec.iter().map(String::from).collect()),
            Err(_) => return None,
        }
    }
    Some(rows)
}

/// Relies on regex::Regex::new and Regex::captures: group 1 of the leftmost
/// match of `pattern` in `text`.
#[verifier::external_body]
fn first_group(pattern: &str, text: &str) -> (r: Option<String>)
    ensures
        match r {
            Some(g) => regex_group_of(pattern@, text@) == Some(g@),
            None => regex_group_of(pattern@, text@) is None,
        },
{
    match regex::Regex::new(pattern) {
        Ok(re) => match re.captures(text) {
            Some(caps) => match caps.get(1) {
                Some(m) => Some(String::from(m.as_str())),
                None => None,
            },
            None => None,
        },
        Err(_) => None,
    }
}

/// The pattern that finds a slot numeral inside free text.
pub open spec fn slot_pattern() -> Seq<char> {
    "0x(\\d+)"@
}

/// Why a row of an export was refused.
#[derive(Debug, Clone, Copy, PartialEq, Eq, Structural)]
pub enum RowError {
    /// The row has fewer fields than its file's layout reads.
    MissingColumn,
    /// The selector field is not a `0x`-prefixed hexadecimal `u32`.
    BadSelector,
    /// The argument-word field is not a decimal `u32`.
    BadValue,
    /// The slot field holds no `0x<digits>` numeral.
    MissingSlot,
}

/// Why loading the exports failed; the kind names the export.
#[derive(Debug, Clone, Copy, PartialEq, Eq, Structural)]
pub enum LoadError {
    /// The export is not a valid tab-separated table.
    Table(ConflictType),
    /// A row (counted from zero) of the export was refused.
    Row(ConflictType, usize, RowError),
}

/// What a record holds: kind, selector, slot and payload.
pub type RecordModel = (ConflictType, u32, Seq<char>, Option<u32>);

/// The model of a record.
pub open spec fn record_model(c: ConflictInfo) -> RecordModel {
    (c.kind, c.selector, c.slot@, c.value)
}

/// The selector that a field names: `0x` prefixes dropped, then hexadecimal.
pub open spec fn selector_field(f: Seq<char>) -> Option<u32> {
    parse_u32_spec(strip_hex_prefixes(f), 16)
}

/// The column that holds the selector in an export of `kind`.
pub open spec fn selector_column(kind: ConflictType) -> int {
    if kind == ConflictType::NoConflict {
        0
    } else {
        1
    }
}

/// The number of columns that an export of `kind` reads.
pub open spec fn columns_read(kind: ConflictType) -> int {
    match kind {
        ConflictType::Env => 4,
        ConflictType::Var => 4,
        ConflictType::Const => 3,
        _ => 1,
    }
}

/// The record that a row of an export of `kind` gives, or why it is refused.
pub open spec fn row_spec(kind: ConflictType, f: Seq<Seq<char>>) -> Result<RecordModel, RowError> {
    if f.len() < columns_read(kind) {
        Err(RowError::MissingColumn)
    } else if selector_field(f[selector_column(kind)]) is None {
        Err(RowError::BadSelector)
    } else {
        let sel = selector_field(f[selector_column(kind)])->0;
        match kind {
            ConflictType::Env => match regex_group_of(slot_pattern(), f[3]) {
                Some(slot) => Ok(
                    (kind, sel, slot, Some(environment_code(environment_of(f[2])) as u32)),
                ),
                None => Err(RowError::MissingSlot),
            },
            ConflictType::Var => match parse_u32_spec(f[2], 10) {
                None => Err(RowError::BadValue),
                Some(v) => match regex_group_of(slot_pattern(), f[3]) {
                    Some(slot) => Ok((kind, sel, slot, Some(v))),
                    None => Err(RowError::MissingSlot),
                },
            },
            ConflictType::Const => Ok((kind, sel, f[2], None)),
            _ => Ok((kind, sel, Seq::<char>::empty(), None)),
        }
    }
}

/// The records of the rows of an export of `kind`, or the first refusal.
pub open spec fn rows_spec(kind: ConflictType, rows: Seq<Seq<Seq<char>>>) -> Result<
    Seq<RecordModel>,
    LoadError,
>
    decreases rows.len(),
{
    if rows.len() == 0 {
        Ok(Seq::empty())
    } else {
        match rows_spec(kind, rows.drop_last()) {
            Err(e) => Err(e),
            Ok(done) => match row_spec(kind, rows.last()) {
                Err(e) => Err(LoadError::Row(kind, (rows.len() - 1) as usize, e)),
                Ok(m) => Ok(done.push(m)),
            },
        }
    }
}

/// The records of the export text of `kind`, or why it is refused.
pub open spec fn table_spec(kind: ConflictType, text: Seq<char>) -> Result<Seq<RecordModel>, LoadError> {
    match csv_records_of(text, 9, false) {
        None => Err(LoadError::Table(kind)),
        Some(rows) => rows_spec(kind, rows),
    }
}

/// The models of loaded records, or the error.
pub open spec fn loaded_view(r: Result<Vec<ConflictInfo>, LoadError>) -> Result<
    Seq<RecordModel>,
    LoadError,
> {
    match r {
        Ok(v) => Ok(v@.map_values(|c: ConflictInfo| record_model(c))),
        Err(e) => Err(e),
    }
}

fn selector_from_field(f: &str) -> (r: Option<u32>)
    ensures
        r == selector_field(f@),
{
    parse_u32_radix(trim_hex_prefixes(f), 16)
}

fn slot_from_field(f: &str) -> (r: Option<String>)
    ensures
        opt_text(r) == regex_group_of(slot_pattern(), f@),
{
    let pattern = "0x(\\d+)";
    proof {
        assert(pattern@ == slot_pattern());
    }
    first_group(pattern, f)
}

/// The record of one row of an export of `kind`.
pub fn parse_row(kind: ConflictType, f: &Vec<String>) -> (r: Result<ConflictInfo, RowError>)
    requires
        kind == ConflictType::Env || kind == ConflictType::Var || kind == ConflictType::Const
            || kind == ConflictType::NoConflict,
    ensures
        match r {
            Ok(c) => row_spec(kind, row_view(*f)) == Ok::<RecordModel, RowError>(record_model(c)),
            Err(e) => row_spec(kind, row_view(*f)) == Err::<RecordModel, RowError>(e),
        },
        r matches Ok(c) ==> c.well_formed(),
{
    let ghost fv = row_view(*f);
    let need: usize = match kind {
        ConflictType::Env => 4,
        ConflictType::Var => 4,
        ConflictType::Const => 3,
        _ => 1,
    };
    if f.len() < need {
        return Err(RowError::MissingColumn);
    }
    let col: usize = if kind == ConflictType::NoConflict {
        0
    } else {
        1
    };
    assert(fv[col as int] == f@[col as int]@);
    let selector = match selector_from_field(f[col].as_str()) {
        Some(s) => s,
        None => {
            return Err(RowError::BadSelector);
        },
    };
    match kind {
        ConflictType::Env => {
            assert(fv[2] == f@[2]@ && fv[3] == f@[3]@);
            let env = environment_from_token(f[2].as_str());
            match slot_from_field(f[3].as_str()) {
                Some(slot) => Ok(ConflictInfo { kind, selector, slot, value: Some(env.code()) }),
                None => Err(RowError::MissingSlot),
            }
        },
        ConflictType::Var => {
            assert(fv[2] == f@[2]@ && fv[3] == f@[3]@);
            match parse_u32_radix(f[2].as_str(), 10) {
                None => Err(RowError::BadValue),
                Some(v) => match slot_from_field(f[3].as_str()) {
                    Some(slot) => Ok(ConflictInfo { kind, selector, slot, value: Some(v) }),
                    None => Err(RowError::MissingSlot),
                },
            }
        },
        ConflictType::Const => {
            assert(fv[2] == f@[2]@);
            Ok(ConflictInfo { kind, selector, slot: f[2].clone(), value: None })
        },
        _ => {
            let slot = String::new();
            assert(slot@ =~= Seq::<char>::empty());
            Ok(ConflictInfo { kind, selector, slot, value: None })
        },
    }
}

/// The records of the export text of `kind`, in row order.
pub fn parse_table(kind: ConflictType, text: &str, out: &mut Vec<ConflictInfo>) -> (r: Result<(), LoadError>)
    requires
        kind == ConflictType::Env || kind == ConflictType::Var || kind == ConflictType::Const
            || kind == ConflictType::NoConflict,
    ensures
        match table_spec(kind, text@) {
            Ok(ms) => r is Ok && final(out)@.map_values(|c: ConflictInfo| record_model(c))
                == old(out)@.map_values(|c: ConflictInfo| record_model(c)) + ms,
            Err(e) => r == Err::<(), LoadError>(e),
        },
        forall|j: int| 0 <= j < old(out)@.len() ==> (#[trigger] old(out)@[j]).well_formed()
            ==> final(out)@[j].well_formed(),
        (forall|j: int| 0 <= j < old(out)@.len() ==> (#[trigger] old(out)@[j]).well_formed()) ==> (
        forall|j: int| 0 <= j < final(out)@.len() ==> (#[trigger] final(out)@[j]).well_formed()),
{
    let rows = match read_records(text, 9, false) {
        Some(rows) => rows,
        None => {
            return Err(LoadError::Table(kind));
        },
    };
    let ghost tv = table_view(rows);
    let ghost start = old(out)@.map_values(|c: ConflictInfo| record_model(c));
    let mut i: usize = 0;
    while i < rows.len()
        invariant
            i <= rows@.len(),
            tv == table_view(rows),
            out@.len() >= old(out)@.len(),
            forall|j: int| 0 <= j < old(out)@.len() ==> #[trigger] out@[j] == old(out)@[j],
            (forall|j: int| 0 <= j < old(out)@.len() ==> (#[trigger] old(out)@[j]).well_formed())
                ==> (forall|j: int| 0 <= j < out@.len() ==> (#[trigger] out@[j]).well_formed()),
            csv_records_of(text@, 9, false) == Some(tv),
            kind == ConflictType::Env || kind == ConflictType::Var || kind == ConflictType::Const
                || kind == ConflictType::NoConflict,
            rows_spec(kind, tv.subrange(0, i as int)) is Ok,
            out@.map_values(|c: ConflictInfo| record_model(c)) == start + rows_spec(
                kind,
                tv.subrange(0, i as int),
            )->Ok_0,
        decreases rows@.len() - i,
    {
        let ghost after = tv.subrange(0, i + 1);
        assert(after.drop_last() =~= tv.subrange(0, i as int));
        assert(after.last() == row_view(rows@[i as int]));
        match parse_row(kind, &rows[i]) {
            Ok(c) => {
                let ghost prev = out@;
                out.push(c);
                assert(out@.map_values(|c: ConflictInfo| record_model(c)) =~= prev.map_values(
                    |c: ConflictInfo| record_model(c),
                ).push(record_model(c)));
            },
            Err(e) => {
                assert(row_spec(kind, after.last()) == Err::<RecordModel, RowError>(e));
                assert(rows_spec(kind, after) == Err::<Seq<RecordModel>, LoadError>(
                    LoadError::Row(kind, i, e),
                ));
                proof {
                    lemma_rows_error_persists(kind, tv, i + 1);
                }
                return Err(LoadError::Row(kind, i, e));
            },
        }
        i = i + 1;
    }
    assert(tv.subrange(0, i as int) =~= tv);
    Ok(())
}

proof fn lemma_rows_error_persists(kind: ConflictType, rows: Seq<Seq<Seq<char>>>, n: int)
    requires
        0 <= n <= rows.len(),
        rows_spec(kind, rows.subrange(0, n)) is Err,
    ensures
        rows_spec(kind, rows) == rows_spec(kind, rows.subrange(0, n)),
    decreases rows.len() - n,
{
    if n < rows.len() {
        let next = rows.subrange(0, n + 1);
        assert(next.drop_last() =~= rows.subrange(0, n));
        lemma_rows_error_persists(kind, rows, n + 1);
    } else {
        assert(rows.subrange(0, n) =~= rows);
    }
}

/// All records of the four exports, in file order (environment, argument,
/// constant, conflict-free) and row order within a file.
pub open spec fn load_spec(env: Seq<char>, var: Seq<char>, cons: Seq<char>, none: Seq<char>) -> Result<
    Seq<RecordModel>,
    LoadError,
> {
    match table_spec(ConflictType::Env, env) {
        Err(e) => Err(e),
        Ok(a) => match table_spec(ConflictType::Var, var) {
            Err(e) => Err(e),
            Ok(b) => match table_spec(ConflictType::Const, cons) {
                Err(e) => Err(e),
                Ok(c) => match table_spec(ConflictType::NoConflict, none) {
                    Err(e) => Err(e),
                    Ok(d) => Ok(a + b + c + d),
                },
            },
        },
    }
}

/// Loads the records of the four exports, given as texts: the environment,
/// argument, constant and conflict-free findings. The first refused export or
/// row ends the load.
pub fn parse_conflict_info(env: &str, var: &str, cons: &str, none: &str) -> (r: Result<
    Vec<ConflictInfo>,
    LoadError,
>)
    ensures
        loaded_view(r) == load_spec(env@, var@, cons@, none@),
        r matches Ok(v) ==> forall|j: int| 0 <= j < v@.len() ==> (#[trigger] v@[j]).well_formed(),
{
    let mut out: Vec<ConflictInfo> = Vec::new();
    assert(out@.map_values(|c: ConflictInfo| record_model(c)) =~= Seq::<RecordModel>::empty());
    parse_table(ConflictType::Env, env, &mut out)?;
    parse_table(ConflictType::Var, var, &mut out)?;
    parse_table(ConflictType::Const, cons, &mut out)?;
    parse_table(ConflictType::NoConflict, none, &mut out)?;
    proof {
        let a = table_spec(ConflictType::Env, env@)->Ok_0;
        let b = table_spec(ConflictType::Var, var@)->Ok_0;
        let c = table_spec(ConflictType::Const, cons@)->Ok_0;
        let d = table_spec(ConflictType::NoConflict, none@)->Ok_0;
        assert(Seq::<RecordModel>::empty() + a + b + c + d =~= a + b + c + d);
    }
    Ok(out)
}

} // verus!
