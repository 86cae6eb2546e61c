//! The conflict record: one finding of the analysis, its wire codes and its
//! JSON form.

use vstd::prelude::*;
use crate::text::{decimal_of, push_decimal, same_text};

verus! {

/// What kind of context reaches a storage slot.
#[derive(Debug, Clone, Copy, PartialEq, Eq, Structural)]
pub enum ConflictType {
    /// Reserved: never produced by loading.
    All,
    /// Reserved: never produced by loading.
    Len,
    /// A value of the transaction environment (caller, origin, time, ...).
    Env,
    /// A word of the call's arguments.
    Var,
    /// A constant slot.
    Const,
    /// The method touches no conflicting slot.
    NoConflict,
}

/// Which environment value reaches a slot.
#[derive(Debug, Clone, Copy, PartialEq, Eq, Structural)]
pub enum EnvironmentType {
    Caller,
    Origin,
    Now,
    BlockNumber,
    Address,
    Unknown,
}

/// The wire code of a conflict kind: its position in the declaration.
pub open spec fn kind_code(k: ConflictType) -> nat {
    match k {
        ConflictType::All => 0,
        ConflictType::Len => 1,
        ConflictType::Env => 2,
        ConflictType::Var => 3,
        ConflictType::Const => 4,
        ConflictType::NoConflict => 5,
    }
}

/// The wire code of an environment value: its position in the declaration.
pub open spec fn environment_code(e: EnvironmentType) -> nat {
    match e {
        EnvironmentType::Caller => 0,
        EnvironmentType::Origin => 1,
        EnvironmentType::Now => 2,
        EnvironmentType::BlockNumber => 3,
        EnvironmentType::Address => 4,
        EnvironmentType::Unknown => 5,
    }
}

impl ConflictType {
    /// The wire code of the kind.
    pub fn code(&self) -> (r: u8)
        ensures
            r as nat == kind_code(*self),
    {
        match self {
            ConflictType::All => 0,
            ConflictType::Len => 1,
            ConflictType::Env => 2,
            ConflictType::Var => 3,
            ConflictType::Const => 4,
            ConflictType::NoConflict => 5,
        }
    }
}

impl EnvironmentType {
    /// The wire code of the environment value.
    pub fn code(&self) -> (r: u32)
        ensures
            r as nat == environment_code(*self),
    {
        match self {
            EnvironmentType::Caller => 0,
            EnvironmentType::Origin => 1,
            EnvironmentType::Now => 2,
            EnvironmentType::BlockNumber => 3,
            EnvironmentType::Address => 4,
            EnvironmentType::Unknown => 5,
        }
    }
}

/// The environment value that an opcode name of the analysis stands for;
/// any name it does not know is `Unknown`.
pub open spec fn environment_of(token: Seq<char>) -> EnvironmentType {
    if token == "CALLER"@ {
        EnvironmentType::Caller
    } else if token == "ORIGIN"@ {
        EnvironmentType::Origin
    } else if token == "TIMESTAMP"@ {
        EnvironmentType::Now
    } else if token == "NUMBER"@ {
        EnvironmentType::BlockNumber
    } else if token == "ADDRESS"@ {
        EnvironmentType::Address
    } else {
        EnvironmentType::Unknown
    }
}

/// Maps an environment opcode name to its environment value.
pub fn environment_from_token(token: &str) -> (r: EnvironmentType)
    ensures
        r == environment_of(token@),
{
    if same_text(token, "CALLER") {
        EnvironmentType::Caller
    } else if same_text(token, "ORIGIN") {
        EnvironmentType::Origin
    } else if same_text(token, "TIMESTAMP") {
        EnvironmentType::Now
    } else if same_text(token, "NUMBER") {
        EnvironmentType::BlockNumber
    } else if same_text(token, "ADDRESS") {
        EnvironmentType::Address
    } else {
        EnvironmentType::Unknown
    }
}

/// One finding: the method it belongs to (by selector), the slot, and a
/// payload whose meaning depends on the kind.
#[derive(Debug, Clone)]
pub struct ConflictInfo {
    pub kind: ConflictType,
    pub selector: u32,
    pub slot: String,
    /// For `Var` the index of the 32-byte argument word; for `Env` the code of
    /// the environment value.
    pub value: Option<u32>,
}

impl ConflictInfo {
    /// The payload is present exactly for environment and argument findings.
    pub open spec fn well_formed(&self) -> bool {
        self.value is Some <==> (self.kind == ConflictType::Env || self.kind == ConflictType::Var)
    }

    /// A copy equal to `self`.
    pub fn duplicate(&self) -> (r: ConflictInfo)
        ensures
            r == *self,
    {
        ConflictInfo {
            kind: self.kind,
            selector: self.selector,
            slot: self.slot.clone(),
            value: self.value,
        }
    }
}

/// The JSON string literal of a text.
pub uninterp spec fn json_string_of(s: Seq<char>) -> Seq<char>;

/// Relies on serde_json::to_string on a string slice: the quoted and escaped
/// JSON string for `s`, which depends on `s` alone. Writing a string into
/// memory cannot fail there.
#[verifier::external_body]
fn json_quote(s: &str) -> (r: String)
    ensures
        r@ == json_string_of(s@),
{
    serde_json::to_string(s).unwrap()
}

/// The JSON object of a record up to its optional `value` key; the selector is
/// never written.
pub open spec fn record_head(r: ConflictInfo) -> Seq<char> {
    "{\"kind\":"@ + decimal_of(kind_code(r.kind)) + ",\"slot\":"@ + json_string_of(r.slot@)
}

/// The JSON object of a record: `value` is written only when present.
pub open spec fn record_json(r: ConflictInfo) -> Seq<char> {
    record_head(r) + match r.value {
        Some(v) => ",\"value\":"@ + decimal_of(v as nat),
        None => Seq::<char>::empty(),
    } + "}"@
}

/// The records' JSON objects, joined by commas.
pub open spec fn records_json_items(s: Seq<ConflictInfo>) -> Seq<char>
    decreases s.len(),
{
    if s.len() == 0 {
        Seq::<char>::empty()
    } else if s.len() == 1 {
        record_json(s[0])
    } else {
        records_json_items(s.drop_last()) + ","@ + record_json(s.last())
    }
}

/// The JSON array of the records, in order.
pub open spec fn records_json(s: Seq<ConflictInfo>) -> Seq<char> {
    "["@ + records_json_items(s) + "]"@
}

/// Appends the JSON object of `r` to `out`.
pub fn push_record_json(out: &mut String, r: &ConflictInfo)
    ensures
        final(out)@ == old(out)@ + record_json(*r),
{
    let ghost start = out@;
    out.append("{\"kind\":");
    push_decimal(out, r.kind.code() as u32);
    out.append(",\"slot\":");
    let quoted = json_quote(r.slot.as_str());
    out.append(quoted.as_str());
    let ghost head = out@;
    assert(head =~= start + record_head(*r));
    match r.value {
        Some(v) => {
            out.append(",\"value\":");
            push_decimal(out, v);
        },
        None => {},
    }
    out.append("}");
    assert(out@ =~= start + record_json(*r));
}

/// The JSON array of `records`, each written without its selector and with
/// `value` only where present.
pub fn records_to_json(records: &Vec<ConflictInfo>) -> (r: String)
    ensures
        r@ == records_json(records@),
{
    let mut out = String::new();
    out.append("[");
    let mut i: usize = 0;
    while i < records.len()
        invariant
            i <= records@.len(),
            out@ == "["@ + records_json_items(records@.subrange(0, i as int)),
        decreases records@.len() - i,
    {
        let ghost before = records@.subrange(0, i as int);
        let ghost after = records@.subrange(0, i + 1);
        assert(after.drop_last() =~= before);
        if i > 0 {
            out.append(",");
        } else {
            assert(before =~= Seq::<ConflictInfo>::empty());
        }
        push_record_json(&mut out, &records[i]);
        assert(out@ =~= "["@ + records_json_items(after));
        i = i + 1;
    }
    assert(records@.subrange(0, i as int) =~= records@);
    out.append("]");
    out
}

/// A well-formed record of a constant or conflict-free finding is written
/// without a `value` key; one of an environment or argument finding always
/// carries it.
pub proof fn lemma_value_key_by_kind(r: ConflictInfo)
    requires
        r.well_formed(),
    ensures
        (r.kind == ConflictType::Const || r.kind == ConflictType::NoConflict) ==> record_json(r)
            == record_head(r) + "}"@,
        (r.kind == ConflictType::Env || r.kind == ConflictType::Var) ==> record_json(r)
            == record_head(r) + ",\"value\":"@ + decimal_of(r.value->0 as nat) + "}"@,
{
    if r.value is None {
        assert(record_json(r) =~= record_head(r) + "}"@);
    }
}

} // verus!
