//! When an operation of the family is offered on a builder, and which
//! builder it returns.
//!
//! A builder type is named by its tag arguments, one marker for each field:
//! an instantiation. An operation is declared on a pattern of tag arguments,
//! in which a marker stands for itself and a parameter for any type, the
//! same one wherever the parameter occurs. The operation is offered on the
//! instantiations that match its pattern.

use vstd::prelude::*;
use crate::generics::{TagArg, TagArgSpec};
use crate::search::{is_least, least, lemma_least};

verus! {

/// At which slots of a pattern the parameter `param` stands.
pub open spec fn holds_param(pattern: Seq<TagArgSpec>, param: Seq<char>) -> spec_fn(int) -> bool {
    |j: int| pattern[j] == TagArgSpec::Param(param)
}

/// The first slot of the pattern that holds the parameter `param`, or the
/// length of the pattern where none does. Matching binds the parameter to
/// what the instantiation has in this slot.
pub open spec fn first_slot(pattern: Seq<TagArgSpec>, param: Seq<char>) -> int {
    least(0, pattern.len() as int, holds_param(pattern, param))
}

/// Whether the slot `j` of the instantiation agrees with the pattern: it is
/// the marker that the pattern names, or it is what the parameter is bound
/// to.
pub open spec fn slot_fits(pattern: Seq<TagArgSpec>, inst: Seq<Seq<char>>, j: int) -> bool {
    match pattern[j] {
        TagArgSpec::Marker(m) => inst[j] == m,
        TagArgSpec::Param(p) => inst[j] == inst[first_slot(pattern, p)],
    }
}

/// Whether the instantiation fits the pattern: an operation declared on
/// the pattern is offered on it.
pub open spec fn fits(pattern: Seq<TagArgSpec>, inst: Seq<Seq<char>>) -> bool {
    &&& pattern.len() == inst.len()
    &&& forall|j: int| 0 <= j < pattern.len() ==> slot_fits(pattern, inst, j)
}

/// Whether every parameter of `result` occurs in `pattern`: an operation
/// that returns `result` from `pattern` names no type that matching leaves
/// open.
pub open spec fn scoped(result: Seq<TagArgSpec>, pattern: Seq<TagArgSpec>) -> bool {
    forall|j: int|
        0 <= j < result.len() ==> (#[trigger] result[j] matches TagArgSpec::Param(p) ==> first_slot(
            pattern,
            p,
        ) < pattern.len())
}

/// What the slot `j` of `result` stands for once `pattern` has matched
/// `inst`.
pub open spec fn substituted_slot(
    result: Seq<TagArgSpec>,
    pattern: Seq<TagArgSpec>,
    inst: Seq<Seq<char>>,
    j: int,
) -> Seq<char> {
    match result[j] {
        TagArgSpec::Marker(m) => m,
        TagArgSpec::Param(p) => inst[first_slot(pattern, p)],
    }
}

/// The instantiation that `result` stands for once `pattern` has matched
/// `inst`.
pub open spec fn substituted(
    result: Seq<TagArgSpec>,
    pattern: Seq<TagArgSpec>,
    inst: Seq<Seq<char>>,
) -> Seq<Seq<char>> {
    Seq::new(result.len(), |j: int| substituted_slot(result, pattern, inst, j))
}

/// Finds the first slot of the pattern that holds the parameter `param`.
pub fn find_slot(pattern: &Vec<TagArg>, param: &String) -> (r: usize)
    ensures
        r == first_slot(pattern.deep_view(), param@),
        r <= pattern.len(),
{
    let ghost pat = pattern.deep_view();
    let ghost p = holds_param(pat, param@);
    let mut j: usize = 0;
    while j < pattern.len()
        invariant
            j <= pattern.len(),
            pat == pattern.deep_view(),
            p == holds_param(pat, param@),
            forall|l: int| 0 <= l < j ==> !#[trigger] p(l),
        decreases pattern.len() - j,
    {
        assert(pat[j as int] == pattern[j as int].deep_view());
        let found = match &pattern[j] {
            TagArg::Param(q) => *q == *param,
            TagArg::Marker(_) => false,
        };
        if found {
            proof {
                assert(p(j as int));
                assert(is_least(j as int, 0, pat.len() as int, p));
                lemma_least(j as int, 0, pat.len() as int, p);
            }
            return j;
        }
        assert(!p(j as int));
        j = j + 1;
    }
    proof {
        assert(is_least(j as int, 0, pat.len() as int, p));
        lemma_least(j as int, 0, pat.len() as int, p);
    }
    j
}

/// Decides whether an operation declared on `pattern` is offered on the
/// builder with the tag arguments `inst`.
pub fn admits(pattern: &Vec<TagArg>, inst: &Vec<String>) -> (r: bool)
    ensures
        r == fits(pattern.deep_view(), inst.deep_view()),
{
    let ghost pat = pattern.deep_view();
    let ghost ins = inst.deep_view();
    if pattern.len() != inst.len() {
        return false;
    }
    let mut j: usize = 0;
    while j < pattern.len()
        invariant
            j <= pattern.len(),
            pattern.len() == inst.len(),
            pat == pattern.deep_view(),
            ins == inst.deep_view(),
            forall|l: int| 0 <= l < j ==> slot_fits(pat, ins, l),
        decreases pattern.len() - j,
    {
        assert(pat[j as int] == pattern[j as int].deep_view());
        assert(ins[j as int] == inst[j as int]@);
        let agrees = match &pattern[j] {
            TagArg::Marker(m) => inst[j] == *m,
            TagArg::Param(p) => {
                let k = find_slot(pattern, p);
                proof {
                    let holds = holds_param(pat, p@);
                    lemma_least(k as int, 0, pat.len() as int, holds);
                    assert(holds(j as int));
                    assert(k <= j);
                    assert(ins[k as int] == inst[k as int]@);
                }
                inst[j] == inst[k]
            },
        };
        if !agrees {
            assert(!slot_fits(pat, ins, j as int));
            return false;
        }
        j = j + 1;
    }
    true
}

/// Names the builder that an operation returns: `result`, with each
/// parameter replaced by what it was bound to when `pattern` matched `inst`.
pub fn substitute(result: &Vec<TagArg>, pattern: &Vec<TagArg>, inst: &Vec<String>) -> (r: Vec<
    String,
>)
    requires
        fits(pattern.deep_view(), inst.deep_view()),
        scoped(result.deep_view(), pattern.deep_view()),
    ensures
        r.deep_view() == substituted(result.deep_view(), pattern.deep_view(), inst.deep_view()),
{
    let ghost res = result.deep_view();
    let ghost pat = pattern.deep_view();
    let ghost ins = inst.deep_view();
    let mut out: Vec<String> = Vec::new();
    let mut j: usize = 0;
    while j < result.len()
        invariant
            j <= result.len(),
            res == result.deep_view(),
            pat == pattern.deep_view(),
            ins == inst.deep_view(),
            pat.len() == ins.len(),
            scoped(res, pat),
            out.len() == j,
            forall|l: int| 0 <= l < j ==> #[trigger] out[l]@ == substituted_slot(res, pat, ins, l),
        decreases result.len() - j,
    {
        assert(res[j as int] == result[j as int].deep_view());
        let name = match &result[j] {
            TagArg::Marker(m) => m.clone(),
            TagArg::Param(p) => {
                let k = find_slot(pattern, p);
                assert(k < pattern.len());
                assert(ins[k as int] == inst[k as int]@);
                inst[k].clone()
            },
        };
        out.push(name);
        j = j + 1;
    }
    assert(out.deep_view() =~= substituted(res, pat, ins));
    out
}

} // verus!
