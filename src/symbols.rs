//! Uniqueness of generated symbols: within one impl block, and across the
//! descriptors of several blocks that end up in one unit.
use vstd::prelude::*;
use crate::ast::Span;
use crate::diagnostic::{diag, Diagnostic, Reason};
use crate::synth::BindingDescriptor;

verus! {

pub open spec fn string_views(v: Seq<String>) -> Seq<Seq<char>> {
    v.map_values(|s: String| s@)
}

/// The first symbol of `s` that an earlier entry already has.
pub open spec fn first_repeat(s: Seq<Seq<char>>) -> Option<Seq<char>>
    decreases s.len(),
{
    if s.len() == 0 {
        None
    } else {
        match first_repeat(s.drop_last()) {
            Some(x) => Some(x),
            None => if s.drop_last().contains(s.last()) { Some(s.last()) } else { None },
        }
    }
}

/// Whether `sym` is among `seen`.
pub fn contains_symbol(seen: &Vec<String>, sym: &String) -> (r: bool)
    ensures
        r == string_views(seen@).contains(sym@),
{
    let n = seen.len();
    let mut i: usize = 0;
    while i < n
        invariant
            n == seen@.len(),
            i <= n,
            forall|k: int| 0 <= k < i ==> (#[trigger] seen@[k])@ != sym@,
        decreases n - i,
    {
        if seen[i] == *sym {
            assert(string_views(seen@)[i as int] == sym@);
            return true;
        }
        i = i + 1;
    }
    assert forall|k: int| 0 <= k < string_views(seen@).len() implies #[trigger] string_views(seen@)[k] != sym@ by {
        assert(seen@[k]@ != sym@);
    }
    false
}

pub open spec fn same_symbol(d: Seq<BindingDescriptor>, i: int, j: int) -> bool {
    d[i].symbol@ == d[j].symbol@
}

/// No two of the first `n` descriptors share a symbol.
pub open spec fn distinct_upto(d: Seq<BindingDescriptor>, n: int) -> bool {
    forall|i: int, j: int| 0 <= i < j < n ==> !#[trigger] same_symbol(d, i, j)
}

/// The first collision: the earliest descriptor whose symbol an earlier one
/// already has, paired with the first of those earlier ones.
pub fn find_collision(d: &Vec<BindingDescriptor>) -> (r: Option<(usize, usize)>)
    ensures
        match r {
            None => distinct_upto(d@, d@.len() as int),
            Some((i, j)) => {
                &&& i < j < d@.len()
                &&& same_symbol(d@, i as int, j as int)
                &&& distinct_upto(d@, j as int)
                &&& forall|k: int| 0 <= k < i ==> !#[trigger] same_symbol(d@, k, j as int)
            },
        },
{
    let n = d.len();
    let mut j: usize = 0;
    while j < n
        invariant
            n == d@.len(),
            j <= n,
            distinct_upto(d@, j as int),
        decreases n - j,
    {
        let mut i: usize = 0;
        while i < j
            invariant
                n == d@.len(),
                i <= j < n,
                distinct_upto(d@, j as int),
                forall|k: int| 0 <= k < i ==> !#[trigger] same_symbol(d@, k, j as int),
            decreases j - i,
        {
            if d[i].symbol == d[j].symbol {
                return Some((i, j));
            }
            i = i + 1;
        }
        assert forall|a: int, b: int| 0 <= a < b < j + 1 implies !#[trigger] same_symbol(d@, a, b) by {
            if b < j {
                assert(!same_symbol(d@, a, b));
            }
        }
        j = j + 1;
    }
    None
}

/// Reports the first collision among `d` as an error at `at`, citing the
/// shared symbol; `None` when every symbol is unique. `autobind` checks the
/// descriptors of one impl block; this checks those gathered from several,
/// where types whose names differ only in case collide.
pub fn check_symbols(d: &Vec<BindingDescriptor>, at: Span) -> (r: Option<Diagnostic>)
    ensures
        match r {
            None => distinct_upto(d@, d@.len() as int),
            Some(e) => exists|i: int, j: int|
                0 <= i < j < d@.len() && #[trigger] same_symbol(d@, i, j) && distinct_upto(d@, j)
                    && e@ == diag(Reason::SymbolCollision, at, d@[j].symbol@),
        },
{
    match find_collision(d) {
        None => None,
        Some((_, j)) => Some(Diagnostic::new(Reason::SymbolCollision, at, d[j].symbol.clone())),
    }
}

} // verus!
