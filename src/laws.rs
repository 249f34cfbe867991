//! Properties of the engine, proved over the contracts' spec functions.
use vstd::prelude::*;
use crate::ast::{Item, ItemKind, Method, Receiver, Span, TypeExpr, TypeKind};
use crate::diagnostic::{diag, DiagnosticView, Reason, Severity};
use crate::engine::{as_outcome, bound_symbols, collision_report, expansion, item_span, method_outcomes, outcome_views, public_methods, Outcome, OutcomeView};
use crate::marshal::MarshalTable;
use crate::receiver::{mode_skip, receiver_mode};
use crate::symbols::first_repeat;
use crate::synth::{
    ascii_lower, first_failure, has_lifetimes, has_type_params, method_outcome, path_string,
    resolve,
};

verus! {

pub open spec fn all_resolve(params: Seq<TypeExpr>, table: MarshalTable) -> bool {
    forall|i: int| 0 <= i < params.len() ==> (#[trigger] resolve(params[i], table)) is Ok
}

proof fn lemma_no_failure(params: Seq<TypeExpr>, table: MarshalTable)
    requires
        all_resolve(params, table),
    ensures
        first_failure(params, table) is None,
    decreases params.len(),
{
    if params.len() > 0 {
        assert(resolve(params[0], table) is Ok);
        assert forall|i: int| 0 <= i < params.drop_first().len() implies
            (#[trigger] resolve(params.drop_first()[i], table)) is Ok by {
            assert(params.drop_first()[i] == params[i + 1]);
            assert(resolve(params[i + 1], table) is Ok);
        }
        lemma_no_failure(params.drop_first(), table);
    }
}

proof fn lemma_failure_at(params: Seq<TypeExpr>, table: MarshalTable, j: int)
    requires
        0 <= j < params.len(),
        all_resolve(params.take(j), table),
        resolve(params[j], table) is Err,
    ensures
        first_failure(params, table) == Some(resolve(params[j], table)->Err_0),
    decreases j,
{
    if j > 0 {
        assert(params.take(j)[0] == params[0]);
        assert(resolve(params.take(j)[0], table) is Ok);
        let rest = params.drop_first();
        assert forall|i: int| 0 <= i < rest.take(j - 1).len() implies
            (#[trigger] resolve(rest.take(j - 1)[i], table)) is Ok by {
            assert(rest.take(j - 1)[i] == params.take(j)[i + 1]);
            assert(resolve(params.take(j)[i + 1], table) is Ok);
        }
        assert(rest[j - 1] == params[j]);
        lemma_failure_at(rest, table, j - 1);
    }
}

/// A static method whose parameter types all resolve is bound, with no
/// receiver argument, under the symbol `lowercase(type) + "_" + method`.
pub proof fn lemma_static_method_binds(tyname: Seq<char>, m: Method, table: MarshalTable)
    requires
        m.receiver is Absent,
        all_resolve(m.params@, table),
    ensures
        method_outcome(tyname, m, table) is Ok,
        method_outcome(tyname, m, table)->Ok_0.skip == 0,
        method_outcome(tyname, m, table)->Ok_0.symbol == ascii_lower(tyname) + "_"@ + m.ident@,
{
    lemma_no_failure(m.params@, table);
}

/// A method taking `&self` or `&mut self` with no named lifetime, whose
/// parameter types all resolve, is bound with one receiver argument; the
/// marshalled arguments are exactly its other parameters, in order.
pub proof fn lemma_reference_receiver_skips_one(tyname: Seq<char>, m: Method, table: MarshalTable)
    requires
        m.receiver matches Receiver::Ref { lifetime, mutable } && lifetime is None,
        all_resolve(m.params@, table),
    ensures
        method_outcome(tyname, m, table) is Ok,
        method_outcome(tyname, m, table)->Ok_0.skip == 1,
        method_outcome(tyname, m, table)->Ok_0.args.len() == m.params@.len(),
        forall|i: int|
            0 <= i < m.params@.len() ==> method_outcome(tyname, m, table)->Ok_0.args[i]
                == #[trigger] resolve(m.params@[i], table)->Ok_0,
{
    lemma_no_failure(m.params@, table);
}

/// A method taking `self` by value, `self` with an explicit type, or a
/// reference with a named lifetime is skipped with one warning at the method.
pub proof fn lemma_rejected_receiver_warns(tyname: Seq<char>, m: Method, table: MarshalTable)
    requires
        m.receiver is Value || m.receiver is Explicit
            || (m.receiver matches Receiver::Ref { lifetime, mutable } && lifetime is Some),
    ensures
        method_outcome(tyname, m, table) is Err,
        method_outcome(tyname, m, table)->Err_0.severity == Severity::Warning,
        method_outcome(tyname, m, table)->Err_0.span == m.span,
{
}

/// In an inherent impl block, a method with such a receiver yields one
/// warning and no descriptor, while every other public method still yields
/// its own outcome.
pub proof fn lemma_rejected_receiver_spares_siblings(attr: Span, item: Item, table: MarshalTable, k: int)
    requires
        item.kind matches ItemKind::Impl(b) && b.trait_name is None,
        0 <= k < public_methods(item.kind->Impl_0.methods@).len(),
        ({
            let m = public_methods(item.kind->Impl_0.methods@)[k];
            m.receiver is Value || m.receiver is Explicit
                || (m.receiver matches Receiver::Ref { lifetime, mutable } && lifetime is Some)
        }),
    ensures
        expansion(attr, item, table).len() >= public_methods(item.kind->Impl_0.methods@).len(),
        expansion(attr, item, table)[k] matches OutcomeView::Report(d) && d.severity == Severity::Warning,
        forall|j: int|
            0 <= j < public_methods(item.kind->Impl_0.methods@).len() && j != k
                ==> #[trigger] expansion(attr, item, table)[j]
                == as_outcome(method_outcome(item.ident@, public_methods(item.kind->Impl_0.methods@)[j], table)),
{
}

/// A parameter whose path has no rule skips the method with one warning
/// that cites the path, provided the parameters before it resolve; no
/// partial descriptor is produced.
pub proof fn lemma_unsupported_param_warns(tyname: Seq<char>, m: Method, table: MarshalTable, j: int)
    requires
        mode_skip(receiver_mode(m.receiver)) is Ok,
        0 <= j < m.params@.len(),
        all_resolve(m.params@.take(j), table),
        m.params@[j].kind matches TypeKind::Path(p) && !p.bounded && !has_lifetimes(p)
            && !has_type_params(p) && table.get(path_string(p)) is None,
    ensures
        method_outcome(tyname, m, table) == Err::<crate::synth::DescriptorView, DiagnosticView>(
            diag(Reason::UnsupportedType, m.params@[j].span, path_string(m.params@[j].kind->Path_0)),
        ),
        method_outcome(tyname, m, table)->Err_0.severity == Severity::Warning,
{
    lemma_failure_at(m.params@, table, j);
}

/// An item that is not an impl block yields exactly one error and nothing else.
pub proof fn lemma_non_impl_item(attr: Span, item: Item, table: MarshalTable)
    requires
        item.kind is Other,
    ensures
        expansion(attr, item, table).len() == 1,
        expansion(attr, item, table)[0] == OutcomeView::Report(
            diag(Reason::NotImpl, item_span(attr, item), Seq::empty()),
        ),
        expansion(attr, item, table)[0]->Report_0.severity == Severity::Error,
{
}

/// An impl of a trait yields exactly one error and nothing else.
pub proof fn lemma_trait_impl(attr: Span, item: Item, table: MarshalTable)
    requires
        item.kind matches ItemKind::Impl(b) && b.trait_name is Some,
    ensures
        expansion(attr, item, table).len() == 1,
        expansion(attr, item, table)[0] == OutcomeView::Report(
            diag(Reason::TraitImpl, item_span(attr, item), Seq::empty()),
        ),
        expansion(attr, item, table)[0]->Report_0.severity == Severity::Error,
{
}

/// An inherent impl yields one outcome for each public method, in order:
/// its descriptor or its warning. At most one more outcome follows, the
/// error for a symbol that two of those descriptors share.
pub proof fn lemma_inherent_impl(attr: Span, item: Item, table: MarshalTable)
    requires
        item.kind matches ItemKind::Impl(b) && b.trait_name is None,
    ensures
        ({
            let per = method_outcomes(item.ident@, item.kind->Impl_0.methods@, table);
            &&& expansion(attr, item, table) == per + collision_report(item_span(attr, item), per)
            &&& per.len() == public_methods(item.kind->Impl_0.methods@).len()
            &&& forall|j: int|
                0 <= j < per.len() ==> #[trigger] expansion(attr, item, table)[j]
                    == as_outcome(method_outcome(item.ident@, public_methods(item.kind->Impl_0.methods@)[j], table))
            &&& first_repeat(bound_symbols(per)) is None ==> expansion(attr, item, table) == per
        }),
{
}

proof fn lemma_bound_symbol_listed(o: Seq<OutcomeView>, i: int)
    requires
        0 <= i < o.len(),
        o[i] is Bound,
    ensures
        bound_symbols(o).contains(o[i]->Bound_0.symbol),
    decreases o.len(),
{
    let rest = o.drop_last();
    if i < o.len() - 1 {
        assert(rest[i] == o[i]);
        lemma_bound_symbol_listed(rest, i);
        let w = choose|w: int| 0 <= w < bound_symbols(rest).len() && bound_symbols(rest)[w] == o[i]->Bound_0.symbol;
        assert(bound_symbols(o)[w] == o[i]->Bound_0.symbol);
    } else {
        assert(bound_symbols(o).last() == o[i]->Bound_0.symbol);
    }
}

proof fn lemma_shared_symbol_repeats(o: Seq<OutcomeView>, i: int, j: int)
    requires
        0 <= i < j < o.len(),
        o[i] is Bound,
        o[j] is Bound,
        o[i]->Bound_0.symbol == o[j]->Bound_0.symbol,
    ensures
        first_repeat(bound_symbols(o)) is Some,
    decreases o.len(),
{
    let rest = o.drop_last();
    assert(rest[i] == o[i]);
    if j < o.len() - 1 {
        assert(rest[j] == o[j]);
        lemma_shared_symbol_repeats(rest, i, j);
        if o.last() is Bound {
            assert(bound_symbols(o).drop_last() =~= bound_symbols(rest));
        }
    } else {
        lemma_bound_symbol_listed(rest, i);
        assert(bound_symbols(o).drop_last() =~= bound_symbols(rest));
        assert(bound_symbols(o).last() == o[j]->Bound_0.symbol);
    }
}

/// When two public methods of an inherent impl are both bound under one
/// symbol, the run ends with one error that cites the first symbol bound twice.
pub proof fn lemma_symbol_collision_reported(attr: Span, item: Item, table: MarshalTable, i: int, j: int)
    requires
        item.kind matches ItemKind::Impl(b) && b.trait_name is None,
        0 <= i < j < public_methods(item.kind->Impl_0.methods@).len(),
        ({
            let ms = public_methods(item.kind->Impl_0.methods@);
            &&& method_outcome(item.ident@, ms[i], table) is Ok
            &&& method_outcome(item.ident@, ms[j], table) is Ok
            &&& method_outcome(item.ident@, ms[i], table)->Ok_0.symbol
                == method_outcome(item.ident@, ms[j], table)->Ok_0.symbol
        }),
    ensures
        ({
            let per = method_outcomes(item.ident@, item.kind->Impl_0.methods@, table);
            let e = expansion(attr, item, table);
            &&& first_repeat(bound_symbols(per)) is Some
            &&& e.len() == per.len() + 1
            &&& e.last() == OutcomeView::Report(
                diag(Reason::SymbolCollision, item_span(attr, item), first_repeat(bound_symbols(per))->0),
            )
            &&& e.last()->Report_0.severity == Severity::Error
        }),
{
    let per = method_outcomes(item.ident@, item.kind->Impl_0.methods@, table);
    lemma_shared_symbol_repeats(per, i, j);
}

/// Two runs over the same item and table yield the same outcomes.
pub proof fn lemma_runs_agree(attr: Span, item: Item, table: MarshalTable, first: Seq<Outcome>, second: Seq<Outcome>)
    requires
        outcome_views(first) == expansion(attr, item, table),
        outcome_views(second) == expansion(attr, item, table),
    ensures
        outcome_views(first) == outcome_views(second),
{
}

} // verus!
