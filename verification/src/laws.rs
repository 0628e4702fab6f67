//! The binding-map laws of the layer, stated and proved over the same
//! spec functions the statement contracts use.

use vstd::prelude::*;

use crate::statement::{bound_named, bound_positional, param_slot};
use crate::value::{bound_value_model, BindOutputModel, ValueModel};

verus! {

/// What the engine reads at a parameter slot: its bound cell, or SQL
/// NULL for a slot that has never been bound.
pub open spec fn effective_binding(m: Map<int, ValueModel>, col: int) -> ValueModel {
    if m.dom().contains(col) {
        m[col]
    } else {
        ValueModel::Null
    }
}

proof fn lemma_bound_positional_at(
    pre: Map<int, ValueModel>,
    outs: Seq<BindOutputModel>,
    k: int,
    col: int,
)
    requires
        0 <= k <= outs.len(),
    ensures
        1 <= col <= k ==> bound_positional(pre, outs, k).dom().contains(col) && bound_positional(
            pre,
            outs,
            k,
        )[col] == bound_value_model(outs[col - 1]),
        !(1 <= col <= k) ==> bound_positional(pre, outs, k).dom().contains(col)
            == pre.dom().contains(col) && (pre.dom().contains(col) ==> bound_positional(
            pre,
            outs,
            k,
        )[col] == pre[col]),
    decreases k,
{
    if k > 0 {
        lemma_bound_positional_at(pre, outs, k - 1, col);
    }
}

/// Law: binding exactly the declared positional values gives every
/// declared slot exactly the value supplied for it, later values over
/// earlier ones playing no role because the indices are distinct.
pub proof fn lemma_positional_binding_covers(
    pre: Map<int, ValueModel>,
    outs: Seq<BindOutputModel>,
    col: int,
)
    requires
        1 <= col <= outs.len(),
    ensures
        bound_positional(pre, outs, outs.len() as int).dom().contains(col),
        bound_positional(pre, outs, outs.len() as int)[col] == bound_value_model(outs[col - 1]),
        effective_binding(bound_positional(pre, outs, outs.len() as int), col)
            == bound_value_model(outs[col - 1]),
{
    lemma_bound_positional_at(pre, outs, outs.len() as int, col);
}

/// Law: positional binding touches exactly the declared slots; any slot
/// outside `1 ..= outs.len()` reads afterwards as it read before.
pub proof fn lemma_positional_binding_leaves_rest(
    pre: Map<int, ValueModel>,
    outs: Seq<BindOutputModel>,
    col: int,
)
    requires
        !(1 <= col <= outs.len()),
    ensures
        effective_binding(bound_positional(pre, outs, outs.len() as int), col)
            == effective_binding(pre, col),
{
    lemma_bound_positional_at(pre, outs, outs.len() as int, col);
}

proof fn lemma_bound_named_untouched(
    pre: Map<int, ValueModel>,
    params: Seq<Seq<u8>>,
    pairs: Seq<(Seq<u8>, BindOutputModel)>,
    k: int,
    col: int,
)
    requires
        0 <= k <= pairs.len(),
        forall|j: int|
            0 <= j < k ==> param_slot(params, (#[trigger] pairs[j]).0) != Some(col),
    ensures
        bound_named(pre, params, pairs, k).dom().contains(col) == pre.dom().contains(col),
        pre.dom().contains(col) ==> bound_named(pre, params, pairs, k)[col] == pre[col],
    decreases k,
{
    if k > 0 {
        lemma_bound_named_untouched(pre, params, pairs, k - 1, col);
    }
}

/// Law: a named binding call touches only the slots its names resolve
/// to.  A parameter omitted from the call keeps exactly the value it had
/// before the call.
pub proof fn lemma_unbound_parameters_are_reused(
    pre: Map<int, ValueModel>,
    params: Seq<Seq<u8>>,
    pairs: Seq<(Seq<u8>, BindOutputModel)>,
    col: int,
)
    requires
        forall|j: int|
            0 <= j < pairs.len() ==> param_slot(params, (#[trigger] pairs[j]).0) != Some(col),
    ensures
        effective_binding(bound_named(pre, params, pairs, pairs.len() as int), col)
            == effective_binding(pre, col),
{
    lemma_bound_named_untouched(pre, params, pairs, pairs.len() as int, col);
}

/// Law: a parameter that has never been bound and is omitted from a
/// named binding call still reads as SQL NULL on first use.
pub proof fn lemma_unbound_parameters_are_null(
    pre: Map<int, ValueModel>,
    params: Seq<Seq<u8>>,
    pairs: Seq<(Seq<u8>, BindOutputModel)>,
    col: int,
)
    requires
        !pre.dom().contains(col),
        forall|j: int|
            0 <= j < pairs.len() ==> param_slot(params, (#[trigger] pairs[j]).0) != Some(col),
    ensures
        effective_binding(bound_named(pre, params, pairs, pairs.len() as int), col)
            == ValueModel::Null,
{
    lemma_bound_named_untouched(pre, params, pairs, pairs.len() as int, col);
}

/// Law: a slot that one of the names of a named binding call resolves
/// to ends up holding the value supplied with the last such name.
pub proof fn lemma_named_binding_binds(
    pre: Map<int, ValueModel>,
    params: Seq<Seq<u8>>,
    pairs: Seq<(Seq<u8>, BindOutputModel)>,
    j: int,
)
    requires
        0 <= j < pairs.len(),
        param_slot(params, pairs[j].0) is Some,
        forall|k: int|
            j < k < pairs.len() ==> param_slot(params, (#[trigger] pairs[k]).0) != param_slot(
                params,
                pairs[j].0,
            ),
    ensures
        effective_binding(
            bound_named(pre, params, pairs, pairs.len() as int),
            param_slot(params, pairs[j].0)->Some_0,
        ) == bound_value_model(pairs[j].1),
{
    let col = param_slot(params, pairs[j].0)->Some_0;
    assert(bound_named(pre, params, pairs, j + 1).dom().contains(col) && bound_named(
        pre,
        params,
        pairs,
        j + 1,
    )[col] == bound_value_model(pairs[j].1));
    lemma_bound_named_untouched(
        bound_named(pre, params, pairs, j + 1),
        params,
        pairs,
        0,
        col,
    );
    lemma_bound_named_later(pre, params, pairs, j + 1, pairs.len() as int, col);
}

proof fn lemma_bound_named_later(
    pre: Map<int, ValueModel>,
    params: Seq<Seq<u8>>,
    pairs: Seq<(Seq<u8>, BindOutputModel)>,
    k0: int,
    k: int,
    col: int,
)
    requires
        0 <= k0 <= k <= pairs.len(),
        forall|j: int|
            k0 <= j < k ==> param_slot(params, (#[trigger] pairs[j]).0) != Some(col),
        bound_named(pre, params, pairs, k0).dom().contains(col),
    ensures
        bound_named(pre, params, pairs, k).dom().contains(col),
        bound_named(pre, params, pairs, k)[col] == bound_named(pre, params, pairs, k0)[col],
    decreases k - k0,
{
    if k > k0 {
        lemma_bound_named_later(pre, params, pairs, k0, k - 1, col);
    }
}

} // verus!
