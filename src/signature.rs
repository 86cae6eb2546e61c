//! Method entries of an interface description and their canonical signatures.

use vstd::prelude::*;
use crate::text::{opt_text, same_text};

verus! {

/// A declared parameter: its type, and for a tuple the types of its
/// immediate components.
#[derive(Debug, Clone)]
pub struct Param {
    pub ty: String,
    /// The component types, where the descriptor lists them.
    pub components: Option<Vec<String>>,
}

/// What the annotation reads of one entry of the interface description.
#[derive(Debug, Clone)]
pub struct MethodEntry {
    /// The `name` field, where it is a string.
    pub name: Option<String>,
    /// The `type` field, where it is a string.
    pub entry_type: Option<String>,
    /// The `inputs` field, where it is a list of parameters each with a
    /// string type.
    pub inputs: Option<Vec<Param>>,
}

/// The texts of `ts`, joined by commas.
pub open spec fn join_types(ts: Seq<String>) -> Seq<char>
    decreases ts.len(),
{
    if ts.len() == 0 {
        Seq::<char>::empty()
    } else if ts.len() == 1 {
        ts[0]@
    } else {
        join_types(ts.drop_last()) + ","@ + ts.last()@
    }
}

/// The parameter is a tuple.
pub open spec fn is_tuple(p: Param) -> bool {
    p.ty@ == "tuple"@
}

/// A tuple parameter lists its components.
pub open spec fn param_complete(p: Param) -> bool {
    is_tuple(p) ==> p.components is Some
}

/// The canonical text of one parameter: its type verbatim, but a tuple as its
/// components' own types in parentheses, one level deep.
pub open spec fn param_text(p: Param) -> Seq<char> {
    if is_tuple(p) {
        "("@ + join_types(p.components->0@) + ")"@
    } else {
        p.ty@
    }
}

/// The canonical texts of the parameters, joined by commas.
pub open spec fn params_text(ps: Seq<Param>) -> Seq<char>
    decreases ps.len(),
{
    if ps.len() == 0 {
        Seq::<char>::empty()
    } else if ps.len() == 1 {
        param_text(ps[0])
    } else {
        params_text(ps.drop_last()) + ","@ + param_text(ps.last())
    }
}

/// The canonical signature `name(type1,type2,...)`.
pub open spec fn signature_text(name: Seq<char>, ps: Seq<Param>) -> Seq<char> {
    name + "("@ + params_text(ps) + ")"@
}

/// The canonical signature of an entry, where it has a name, its inputs, and
/// the components of each tuple input.
pub open spec fn entry_signature(e: MethodEntry) -> Option<Seq<char>> {
    if e.name is Some && e.inputs is Some && forall|i: int|
        0 <= i < e.inputs->0@.len() ==> param_complete(#[trigger] e.inputs->0@[i]) {
        Some(signature_text(e.name->0@, e.inputs->0@))
    } else {
        None
    }
}

fn push_joined(out: &mut String, ts: &Vec<String>)
    ensures
        final(out)@ == old(out)@ + join_types(ts@),
{
    let ghost start = out@;
    let mut j: usize = 0;
    while j < ts.len()
        invariant
            j <= ts@.len(),
            out@ == start + join_types(ts@.subrange(0, j as int)),
        decreases ts@.len() - j,
    {
        let ghost after = ts@.subrange(0, j + 1);
        assert(after.drop_last() =~= ts@.subrange(0, j as int));
        if j > 0 {
            out.append(",");
        }
        out.append(ts[j].as_str());
        assert(out@ =~= start + join_types(after));
        j = j + 1;
    }
    assert(ts@.subrange(0, j as int) =~= ts@);
}

/// The canonical signature of a method named `name` with parameters
/// `inputs`; `None` where a tuple parameter lists no components.
pub fn canonical_signature(name: &str, inputs: &Vec<Param>) -> (r: Option<String>)
    ensures
        r is Some <==> forall|i: int| 0 <= i < inputs@.len() ==> param_complete(#[trigger] inputs@[i]),
        r is Some ==> r->0@ == signature_text(name@, inputs@),
{
    let mut out = String::from_str(name);
    out.append("(");
    let mut i: usize = 0;
    while i < inputs.len()
        invariant
            i <= inputs@.len(),
            forall|k: int| 0 <= k < i ==> param_complete(#[trigger] inputs@[k]),
            out@ == name@ + "("@ + params_text(inputs@.subrange(0, i as int)),
        decreases inputs@.len() - i,
    {
        let ghost before = out@;
        let ghost after = inputs@.subrange(0, i + 1);
        assert(after.drop_last() =~= inputs@.subrange(0, i as int));
        if i > 0 {
            out.append(",");
        }
        let p = &inputs[i];
        if same_text(p.ty.as_str(), "tuple") {
            match &p.components {
                Some(cs) => {
                    out.append("(");
                    push_joined(&mut out, cs);
                    out.append(")");
                },
                None => {
                    return None;
                },
            }
        } else {
            out.append(p.ty.as_str());
        }
        assert(out@ =~= name@ + "("@ + params_text(after));
        i = i + 1;
    }
    assert(inputs@.subrange(0, i as int) =~= inputs@);
    out.append(")");
    Some(out)
}

/// The canonical signature of a method entry; `None` where the entry lacks a
/// name, its inputs, or the components of a tuple input.
pub fn get_method_signature(method: &MethodEntry) -> (r: Option<String>)
    ensures
        opt_text(r) == entry_signature(*method),
{
    match (&method.name, &method.inputs) {
        (Some(name), Some(inputs)) => canonical_signature(name.as_str(), inputs),
        _ => None,
    }
}

} // verus!
