//! The entry point: one run over an annotated item.
use vstd::prelude::*;
use crate::ast::{Item, ItemKind, Method, Span};
use crate::diagnostic::{diag, Diagnostic, DiagnosticView, Reason};
use crate::marshal::MarshalTable;
use crate::symbols::{contains_symbol, first_repeat, string_views};
use crate::synth::{method_outcome, process_method, BindingDescriptor, DescriptorView};

verus! {

/// What the run yields for one unit: a descriptor to emit, or a diagnostic.
#[derive(Clone, Debug)]
pub enum Outcome {
    Bound(BindingDescriptor),
    Report(Diagnostic),
}

pub enum OutcomeView {
    Bound(DescriptorView),
    Report(DiagnosticView),
}

impl View for Outcome {
    type V = OutcomeView;

    open spec fn view(&self) -> OutcomeView {
        match self {
            Outcome::Bound(d) => OutcomeView::Bound(d@),
            Outcome::Report(d) => OutcomeView::Report(d@),
        }
    }
}

pub open spec fn outcome_views(v: Seq<Outcome>) -> Seq<OutcomeView> {
    v.map_values(|o: Outcome| o@)
}

pub open spec fn as_outcome(r: Result<DescriptorView, DiagnosticView>) -> OutcomeView {
    match r {
        Ok(d) => OutcomeView::Bound(d),
        Err(d) => OutcomeView::Report(d),
    }
}

pub open spec fn is_public(m: Method) -> bool {
    m.public
}

pub open spec fn public_methods(ms: Seq<Method>) -> Seq<Method> {
    ms.filter(|m: Method| is_public(m))
}

/// One outcome for each public method, in declaration order.
pub open spec fn method_outcomes(tyname: Seq<char>, ms: Seq<Method>, table: MarshalTable) -> Seq<OutcomeView> {
    public_methods(ms).map_values(|m: Method| as_outcome(method_outcome(tyname, m, table)))
}

/// The symbols of the descriptors among `o`, in order.
pub open spec fn bound_symbols(o: Seq<OutcomeView>) -> Seq<Seq<char>>
    decreases o.len(),
{
    if o.len() == 0 {
        Seq::empty()
    } else {
        let rest = bound_symbols(o.drop_last());
        match o.last() {
            OutcomeView::Bound(d) => rest.push(d.symbol),
            OutcomeView::Report(_) => rest,
        }
    }
}

/// The error that follows the per-method outcomes `o` when two of their
/// descriptors share a symbol; it cites the first symbol seen twice.
pub open spec fn collision_report(span: Span, o: Seq<OutcomeView>) -> Seq<OutcomeView> {
    match first_repeat(bound_symbols(o)) {
        Some(x) => seq![OutcomeView::Report(diag(Reason::SymbolCollision, span, x))],
        None => Seq::empty(),
    }
}

pub open spec fn opt_string_view(o: Option<String>) -> Option<Seq<char>> {
    match o {
        Some(s) => Some(s@),
        None => None,
    }
}

/// Where an error about the whole item is reported: from the attribute to
/// the end of the item.
pub open spec fn item_span(attr: Span, item: Item) -> Span {
    Span { lo: attr.lo, hi: item.span.hi }
}

/// What one run over `item`, annotated by the attribute at `attr`, yields.
pub open spec fn expansion(attr: Span, item: Item, table: MarshalTable) -> Seq<OutcomeView> {
    match item.kind {
        ItemKind::Other => seq![OutcomeView::Report(diag(Reason::NotImpl, item_span(attr, item), Seq::empty()))],
        ItemKind::Impl(b) => {
            if b.trait_name is Some {
                seq![OutcomeView::Report(diag(Reason::TraitImpl, item_span(attr, item), Seq::empty()))]
            } else {
                let per = method_outcomes(item.ident@, b.methods@, table);
                per + collision_report(item_span(attr, item), per)
            }
        },
    }
}

/// Generates bindings for the item that carries the attribute at `attr`.
/// An item that is not an inherent impl block yields one error; otherwise each
/// public method yields its descriptor or the warning that skips it, and one
/// error follows when two of those descriptors share a symbol.
pub fn autobind(attr: Span, item: &Item, table: &MarshalTable) -> (r: Vec<Outcome>)
    ensures
        outcome_views(r@) == expansion(attr, *item, *table),
{
    let err_span = Span { lo: attr.lo, hi: item.span.hi };
    let block = match &item.kind {
        ItemKind::Impl(b) => b,
        ItemKind::Other => {
            let d = Diagnostic::new(Reason::NotImpl, err_span, String::new());
            let r = vec![Outcome::Report(d)];
            assert(outcome_views(r@) =~= expansion(attr, *item, *table));
            return r;
        },
    };
    if block.trait_name.is_some() {
        let d = Diagnostic::new(Reason::TraitImpl, err_span, String::new());
        let r = vec![Outcome::Report(d)];
        assert(outcome_views(r@) =~= expansion(attr, *item, *table));
        return r;
    }
    let ghost per = method_outcomes(item.ident@, block.methods@, *table);
    assert(expansion(attr, *item, *table) == per + collision_report(item_span(attr, *item), per));
    let methods = &block.methods;
    let n = methods.len();
    let mut out: Vec<Outcome> = Vec::new();
    let mut seen: Vec<String> = Vec::new();
    let mut repeat: Option<String> = None;
    let mut i: usize = 0;
    assert(methods@.subrange(0, 0) =~= Seq::<Method>::empty());
    proof {
        reveal(Seq::filter);
    }
    assert(outcome_views(out@) =~= method_outcomes(item.ident@, methods@.subrange(0, 0), *table));
    while i < n
        invariant
            n == methods@.len(),
            i <= n,
            outcome_views(out@) == method_outcomes(item.ident@, methods@.subrange(0, i as int), *table),
            string_views(seen@) == bound_symbols(outcome_views(out@)),
            opt_string_view(repeat) == first_repeat(string_views(seen@)),
        decreases n - i,
    {
        let m = &methods[i];
        let ghost prev = methods@.subrange(0, i as int);
        let ghost next = methods@.subrange(0, i + 1);
        proof {
            reveal(Seq::filter);
            assert(next.drop_last() =~= prev);
            assert(next.last() == *m);
        }
        if m.public {
            let r = process_method(&item.ident, m, table);
            let ghost before = out@;
            let ghost seen_before = seen@;
            match r {
                Ok(d) => {
                    let sym = d.symbol.clone();
                    if repeat.is_none() && contains_symbol(&seen, &sym) {
                        repeat = Some(sym.clone());
                    }
                    seen.push(sym);
                    out.push(Outcome::Bound(d));
                    proof {
                        let ov = outcome_views(out@);
                        assert(ov.drop_last() =~= outcome_views(before));
                        assert(string_views(seen@).drop_last() =~= string_views(seen_before));
                        assert(string_views(seen@) =~= string_views(seen_before).push(out@.last()@->Bound_0.symbol));
                    }
                },
                Err(d) => {
                    out.push(Outcome::Report(d));
                    proof {
                        assert(outcome_views(out@).drop_last() =~= outcome_views(before));
                    }
                },
            }
            proof {
                let o = as_outcome(method_outcome(item.ident@, *m, *table));
                assert(out@ == before.push(out@.last()));
                assert(out@.last()@ == o);
                assert(public_methods(next) == public_methods(prev).push(*m));
                assert(method_outcomes(item.ident@, next, *table)
                    =~= method_outcomes(item.ident@, prev, *table).push(o));
                assert(outcome_views(out@) =~= outcome_views(before).push(o));
            }
        } else {
            assert(public_methods(next) == public_methods(prev));
        }
        i = i + 1;
    }
    assert(methods@.subrange(0, n as int) =~= methods@);
    assert(outcome_views(out@) == per);
    let ghost before = out@;
    match repeat {
        Some(sym) => {
            out.push(Outcome::Report(Diagnostic::new(Reason::SymbolCollision, err_span, sym)));
            assert(outcome_views(out@) =~= per + collision_report(item_span(attr, *item), per));
        },
        None => {
            assert(outcome_views(out@) =~= per + collision_report(item_span(attr, *item), per));
        },
    }
    out
}

} // verus!
