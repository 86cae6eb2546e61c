//! Matching findings to method entries by selector, and the annotation of a
//! whole interface description.

use vstd::prelude::*;
use crate::record::{ConflictInfo, records_json, records_to_json};
use crate::selector::{get_method_id, selector_of};
use crate::signature::{MethodEntry, entry_signature, get_method_signature};
use crate::text::{opt_text, same_text};

verus! {

/// The records that belong to `selector`, in their order.
pub open spec fn matching(records: Seq<ConflictInfo>, selector: u32) -> Seq<ConflictInfo> {
    records.filter(|c: ConflictInfo| c.selector == selector)
}

/// The entry is a callable function: it has a name and its type is `function`.
pub open spec fn is_callable(e: MethodEntry) -> bool {
    e.name is Some && e.entry_type is Some && e.entry_type->0@ == "function"@
}

/// A callable entry whose signature cannot be formed.
pub open spec fn is_malformed(e: MethodEntry) -> bool {
    is_callable(e) && entry_signature(e) is None
}

/// The records attached to an entry: those of its selector, for a callable
/// entry with at least one of them; nothing otherwise.
pub open spec fn attachment(e: MethodEntry, records: Seq<ConflictInfo>, gm: bool) -> Option<
    Seq<ConflictInfo>,
> {
    if is_callable(e) && entry_signature(e) is Some {
        let m = matching(records, selector_of(entry_signature(e)->0, gm));
        if m.len() > 0 {
            Some(m)
        } else {
            None
        }
    } else {
        None
    }
}

/// The `conflictFields` value added to an entry, as JSON text.
pub open spec fn attachment_json(e: MethodEntry, records: Seq<ConflictInfo>, gm: bool) -> Option<
    Seq<char>,
> {
    match attachment(e, records, gm) {
        Some(m) => Some(records_json(m)),
        None => None,
    }
}

/// Why an interface description could not be annotated.
#[derive(Debug, Clone, Copy, PartialEq, Eq, Structural)]
pub enum AbiError {
    /// The callable entry at this index lacks its inputs or the components of
    /// a tuple input.
    MalformedMethod(usize),
}

/// The records of `records` whose selector is `selector`, in order.
pub fn select_conflicts(records: &Vec<ConflictInfo>, selector: u32) -> (r: Vec<ConflictInfo>)
    ensures
        r@ == matching(records@, selector),
{
    let mut out: Vec<ConflictInfo> = Vec::new();
    let mut i: usize = 0;
    while i < records.len()
        invariant
            i <= records@.len(),
            out@ == matching(records@.subrange(0, i as int), selector),
        decreases records@.len() - i,
    {
        let ghost before = records@.subrange(0, i as int);
        assert(records@.subrange(0, i + 1) =~= before.push(records@[i as int]));
        proof {
            before.lemma_filter_push(records@[i as int], |c: ConflictInfo| c.selector == selector);
        }
        if records[i].selector == selector {
            out.push(records[i].duplicate());
        }
        i = i + 1;
    }
    assert(records@.subrange(0, i as int) =~= records@);
    out
}

fn is_function_entry(e: &MethodEntry) -> (r: bool)
    ensures
        r == is_callable(*e),
{
    match (&e.name, &e.entry_type) {
        (Some(_), Some(t)) => same_text(t.as_str(), "function"),
        _ => false,
    }
}

/// The records attached to one entry: for a callable entry, those of the
/// selector of its canonical signature when there is at least one.
pub fn entry_conflicts(e: &MethodEntry, records: &Vec<ConflictInfo>, gm: bool) -> (r: Result<
    Option<Vec<ConflictInfo>>,
    (),
>)
    ensures
        r is Err <==> is_malformed(*e),
        r matches Ok(o) ==> match o {
            Some(v) => attachment(*e, records@, gm) == Some(v@),
            None => attachment(*e, records@, gm) is None,
        },
{
    if !is_function_entry(e) {
        return Ok(None);
    }
    let signature = match get_method_signature(e) {
        Some(s) => s,
        None => {
            return Err(());
        },
    };
    let selector = get_method_id(signature.as_str(), gm);
    let found = select_conflicts(records, selector);
    if found.len() > 0 {
        Ok(Some(found))
    } else {
        Ok(None)
    }
}

/// For each entry of an interface description, in order, the JSON text of the
/// `conflictFields` value to add to it, or `None` where nothing is added.
/// Fails on the first callable entry whose signature cannot be formed.
pub fn annotate(entries: &Vec<MethodEntry>, records: &Vec<ConflictInfo>, gm: bool) -> (r: Result<
    Vec<Option<String>>,
    AbiError,
>)
    ensures
        r is Ok <==> forall|i: int| 0 <= i < entries@.len() ==> !is_malformed(#[trigger] entries@[i]),
        r matches Err(AbiError::MalformedMethod(k)) ==> k < entries@.len() && is_malformed(
            entries@[k as int],
        ) && forall|i: int| 0 <= i < k ==> !is_malformed(#[trigger] entries@[i]),
        r matches Ok(out) ==> out@.len() == entries@.len() && forall|i: int|
            0 <= i < entries@.len() ==> opt_text(#[trigger] out@[i]) == attachment_json(
                entries@[i],
                records@,
                gm,
            ),
{
    let mut out: Vec<Option<String>> = Vec::new();
    let mut i: usize = 0;
    while i < entries.len()
        invariant
            i <= entries@.len(),
            out@.len() == i,
            forall|k: int| 0 <= k < i ==> !is_malformed(#[trigger] entries@[k]),
            forall|k: int|
                0 <= k < i ==> opt_text(#[trigger] out@[k]) == attachment_json(
                    entries@[k],
                    records@,
                    gm,
                ),
        decreases entries@.len() - i,
    {
        match entry_conflicts(&entries[i], records, gm) {
            Err(()) => {
                return Err(AbiError::MalformedMethod(i));
            },
            Ok(None) => {
                out.push(None);
            },
            Ok(Some(found)) => {
                out.push(Some(records_to_json(&found)));
            },
        }
        i = i + 1;
    }
    Ok(out)
}

/// A record is attached to a callable entry with a canonical signature
/// exactly when it is among the records and its selector is the selector of
/// that signature in the run's mode.
pub proof fn lemma_join(e: MethodEntry, records: Seq<ConflictInfo>, gm: bool, r: ConflictInfo)
    requires
        is_callable(e),
        entry_signature(e) is Some,
    ensures
        (attachment(e, records, gm) matches Some(m) && m.contains(r)) <==> (records.contains(r)
            && r.selector == selector_of(entry_signature(e)->0, gm)),
{
    let sel = selector_of(entry_signature(e)->0, gm);
    let pred = |c: ConflictInfo| c.selector == sel;
    let m = records.filter(pred);
    if m.contains(r) {
        records.lemma_filter_contains_rev(pred, r);
        let k = choose|k: int| 0 <= k < m.len() && m[k] == r;
        records.lemma_filter_pred(pred, k);
    }
    if records.contains(r) && r.selector == sel {
        let k = choose|k: int| 0 <= k < records.len() && records[k] == r;
        records.lemma_filter_contains(pred, k);
        assert(m.len() > 0);
    }
}

/// Entries whose canonical signatures share a selector receive the same
/// records: a collision of the truncated digest attaches a record to both.
pub proof fn lemma_shared_selector(
    e1: MethodEntry,
    e2: MethodEntry,
    records: Seq<ConflictInfo>,
    gm: bool,
)
    requires
        is_callable(e1),
        is_callable(e2),
        entry_signature(e1) is Some,
        entry_signature(e2) is Some,
        selector_of(entry_signature(e1)->0, gm) == selector_of(entry_signature(e2)->0, gm),
    ensures
        attachment(e1, records, gm) == attachment(e2, records, gm),
{
}

/// An entry whose type is not `function` (an event, a constructor, ...)
/// receives nothing, whatever its selector would be.
pub proof fn lemma_non_function_untouched(e: MethodEntry, records: Seq<ConflictInfo>, gm: bool)
    requires
        !(e.entry_type matches Some(t) && t@ == "function"@),
    ensures
        attachment(e, records, gm) is None,
        attachment_json(e, records, gm) is None,
{
}

/// A callable entry that no record matches gains no field, not even an empty
/// list.
pub proof fn lemma_no_match_untouched(e: MethodEntry, records: Seq<ConflictInfo>, gm: bool)
    requires
        entry_signature(e) is Some,
        matching(records, selector_of(entry_signature(e)->0, gm)).len() == 0,
    ensures
        attachment(e, records, gm) is None,
        attachment_json(e, records, gm) is None,
{
}

} // verus!
