//! Resolution of parameter types and assembly of binding descriptors.
use vstd::prelude::*;
use crate::ast::{Method, Span, PathSegment, TypeExpr, TypeKind, TypePath};
use crate::diagnostic::{diag, Diagnostic, DiagnosticView, Reason};
use crate::marshal::{rule_views, MarshalRule, MarshalTable, RuleView};
use crate::receiver::{classify_receiver, mode_skip, receiver_mode, receiver_skip};

verus! {

pub open spec fn lower_char(c: char) -> char {
    if 'A' <= c && c <= 'Z' {
        ((c as u32) + 32) as char
    } else {
        c
    }
}

pub open spec fn ascii_lower(s: Seq<char>) -> Seq<char> {
    s.map_values(|c: char| lower_char(c))
}

/// Relies on str::to_ascii_lowercase: ASCII letters 'A' to 'Z' become 'a' to 'z',
/// every other character is kept.
#[verifier::external_body]
fn ascii_lowercase(s: &str) -> (r: String)
    ensures
        r@ == ascii_lower(s@),
{
    s.to_ascii_lowercase()
}

/// The identifiers of `segs`, concatenated in order.
pub open spec fn segments_text(segs: Seq<PathSegment>) -> Seq<char>
    decreases segs.len(),
{
    if segs.len() == 0 {
        Seq::empty()
    } else {
        segments_text(segs.drop_last()) + segs.last().ident@
    }
}

/// The string a type path is looked up under: `::` for a global path, then
/// the segments' identifiers.
pub open spec fn path_string(p: TypePath) -> Seq<char> {
    (if p.global { "::"@ } else { Seq::empty() }) + segments_text(p.segments@)
}

pub open spec fn has_lifetimes(p: TypePath) -> bool {
    exists|i: int|
        #![trigger p.segments@[i]]
        0 <= i < p.segments@.len() && p.segments@[i].lifetimes@.len() > 0
}

pub open spec fn has_type_params(p: TypePath) -> bool {
    exists|i: int|
        #![trigger p.segments@[i]]
        0 <= i < p.segments@.len() && p.segments@[i].types@.len() > 0
}

/// The marshalling rule for a type, or the warning that rejects it.
pub open spec fn resolve(t: TypeExpr, table: MarshalTable) -> Result<RuleView, DiagnosticView> {
    match t.kind {
        TypeKind::Other => Err(diag(Reason::UnknownType, t.span, Seq::empty())),
        TypeKind::Path(p) => resolve_path(p, t.span, table),
    }
}

pub open spec fn resolve_path(p: TypePath, span: Span, table: MarshalTable) -> Result<RuleView, DiagnosticView> {
    if p.bounded {
        Err(diag(Reason::PathBounds, span, Seq::empty()))
    } else if has_lifetimes(p) {
        Err(diag(Reason::PathLifetimes, span, Seq::empty()))
    } else if has_type_params(p) {
        Err(diag(Reason::PathTypeParams, span, Seq::empty()))
    } else {
        match table.get(path_string(p)) {
            Some(r) => Ok(r),
            None => Err(diag(Reason::UnsupportedType, span, path_string(p))),
        }
    }
}

pub open spec fn rule_result(r: Result<MarshalRule, Diagnostic>) -> Result<RuleView, DiagnosticView> {
    match r {
        Ok(m) => Ok(m@),
        Err(d) => Err(d@),
    }
}

fn path_text(p: &TypePath) -> (s: String)
    ensures
        s@ == path_string(*p),
{
    let mut s = if p.global { String::from_str("::") } else { String::new() };
    let ghost init = s@;
    let n = p.segments.len();
    let mut i: usize = 0;
    while i < n
        invariant
            n == p.segments@.len(),
            i <= n,
            init == (if p.global { "::"@ } else { Seq::<char>::empty() }),
            s@ == init + segments_text(p.segments@.subrange(0, i as int)),
        decreases n - i,
    {
        assert(p.segments@.subrange(0, i + 1).drop_last() =~= p.segments@.subrange(0, i as int));
        s.append(p.segments[i].ident.as_str());
        assert(s@ =~= init + segments_text(p.segments@.subrange(0, i + 1)));
        i = i + 1;
    }
    assert(p.segments@.subrange(0, n as int) =~= p.segments@);
    s
}

/// Resolves the type of one parameter against the table.
pub fn get_path_for(t: &TypeExpr, table: &MarshalTable) -> (r: Result<MarshalRule, Diagnostic>)
    ensures
        rule_result(r) == resolve(*t, *table),
{
    match &t.kind {
        TypeKind::Path(p) => path_rule(p, t.span, table),
        TypeKind::Other => Err(Diagnostic::new(Reason::UnknownType, t.span, String::new())),
    }
}

fn path_rule(p: &TypePath, span: Span, table: &MarshalTable) -> (r: Result<MarshalRule, Diagnostic>)
    ensures
        rule_result(r) == resolve_path(*p, span, *table),
{
    if p.bounded {
        return Err(Diagnostic::new(Reason::PathBounds, span, String::new()));
    }
    let n = p.segments.len();
    let mut i: usize = 0;
    while i < n
        invariant
            n == p.segments@.len(),
            i <= n,
            !p.bounded,
            forall|j: int| 0 <= j < i ==> (#[trigger] p.segments@[j]).lifetimes@.len() == 0,
        decreases n - i,
    {
        if p.segments[i].lifetimes.len() > 0 {
            assert(p.segments@[i as int].lifetimes@.len() > 0);
            return Err(Diagnostic::new(Reason::PathLifetimes, span, String::new()));
        }
        i = i + 1;
    }
    let mut i: usize = 0;
    while i < n
        invariant
            n == p.segments@.len(),
            i <= n,
            !p.bounded,
            !has_lifetimes(*p),
            forall|j: int| 0 <= j < i ==> (#[trigger] p.segments@[j]).types@.len() == 0,
        decreases n - i,
    {
        if p.segments[i].types.len() > 0 {
            assert(p.segments@[i as int].types@.len() > 0);
            return Err(Diagnostic::new(Reason::PathTypeParams, span, String::new()));
        }
        i = i + 1;
    }
    let path = path_text(p);
    match table.lookup(&path) {
        Some(rule) => Ok(rule),
        None => Err(Diagnostic::new(Reason::UnsupportedType, span, path)),
    }
}

/// The generated symbol: the type's name in ASCII lower case, `_`, and the
/// method's name unchanged.
pub open spec fn symbol(tyname: Seq<char>, method: Seq<char>) -> Seq<char> {
    ascii_lower(tyname) + "_"@ + method
}

pub fn symbol_name(tyname: &String, method: &String) -> (s: String)
    ensures
        s@ == symbol(tyname@, method@),
{
    ascii_lowercase(tyname.as_str()).concat("_").concat(method.as_str())
}

/// The plan for the wrapper's return value.
#[derive(Clone, Debug)]
pub enum ReturnMarshal {
    /// The method returns nothing.
    Nothing,
    Marshalled(MarshalRule),
    /// The return type has no rule; the wrapper does not marshal it.
    Unresolved,
}

pub enum ReturnView {
    Nothing,
    Marshalled(RuleView),
    Unresolved,
}

impl View for ReturnMarshal {
    type V = ReturnView;

    open spec fn view(&self) -> ReturnView {
        match self {
            ReturnMarshal::Nothing => ReturnView::Nothing,
            ReturnMarshal::Marshalled(r) => ReturnView::Marshalled(r@),
            ReturnMarshal::Unresolved => ReturnView::Unresolved,
        }
    }
}

/// The plan for one `extern "C"` wrapper.
#[derive(Clone, Debug)]
pub struct BindingDescriptor {
    pub symbol: String,
    /// How many receiver arguments the wrapper supplies: 0 or 1.
    pub skip: usize,
    /// One rule for each parameter after the receiver, in order.
    pub args: Vec<MarshalRule>,
    pub ret: ReturnMarshal,
}

pub struct DescriptorView {
    pub symbol: Seq<char>,
    pub skip: usize,
    pub args: Seq<RuleView>,
    pub ret: ReturnView,
}

impl View for BindingDescriptor {
    type V = DescriptorView;

    open spec fn view(&self) -> DescriptorView {
        DescriptorView {
            symbol: self.symbol@,
            skip: self.skip,
            args: rule_views(self.args@),
            ret: self.ret@,
        }
    }
}

pub open spec fn descriptor_result(r: Result<BindingDescriptor, Diagnostic>) -> Result<DescriptorView, DiagnosticView> {
    match r {
        Ok(d) => Ok(d@),
        Err(d) => Err(d@),
    }
}

/// The warning for the first parameter that does not resolve, if any.
pub open spec fn first_failure(params: Seq<TypeExpr>, table: MarshalTable) -> Option<DiagnosticView>
    decreases params.len(),
{
    if params.len() == 0 {
        None
    } else {
        match resolve(params[0], table) {
            Err(d) => Some(d),
            Ok(_) => first_failure(params.drop_first(), table),
        }
    }
}

pub open spec fn resolved_rules(params: Seq<TypeExpr>, table: MarshalTable) -> Seq<RuleView> {
    params.map_values(|t: TypeExpr| resolve(t, table)->Ok_0)
}

pub open spec fn return_rule(ret: Option<TypeExpr>, table: MarshalTable) -> ReturnView {
    match ret {
        None => ReturnView::Nothing,
        Some(t) => match resolve(t, table) {
            Ok(r) => ReturnView::Marshalled(r),
            Err(_) => ReturnView::Unresolved,
        },
    }
}

/// What becomes of one public method of the type `tyname`: its descriptor,
/// or the single warning that skips it.
pub open spec fn method_outcome(tyname: Seq<char>, m: Method, table: MarshalTable) -> Result<DescriptorView, DiagnosticView> {
    match mode_skip(receiver_mode(m.receiver)) {
        Err(reason) => Err(diag(reason, m.span, Seq::empty())),
        Ok(skip) => match first_failure(m.params@, table) {
            Some(d) => Err(d),
            None => Ok(
                DescriptorView {
                    symbol: symbol(tyname, m.ident@),
                    skip,
                    args: resolved_rules(m.params@, table),
                    ret: return_rule(m.ret, table),
                },
            ),
        },
    }
}

fn return_marshal(ret: &Option<TypeExpr>, table: &MarshalTable) -> (r: ReturnMarshal)
    ensures
        r@ == return_rule(*ret, *table),
{
    match ret {
        None => ReturnMarshal::Nothing,
        Some(t) => match get_path_for(t, table) {
            Ok(rule) => ReturnMarshal::Marshalled(rule),
            Err(_) => ReturnMarshal::Unresolved,
        },
    }
}

/// Classifies the receiver of `m`, resolves its parameters, and plans its
/// wrapper; stops at the first reason to skip the method.
pub fn process_method(tyname: &String, m: &Method, table: &MarshalTable) -> (r: Result<BindingDescriptor, Diagnostic>)
    ensures
        descriptor_result(r) == method_outcome(tyname@, *m, *table),
{
    let skip = match receiver_skip(classify_receiver(&m.receiver)) {
        Ok(skip) => skip,
        Err(reason) => {
            return Err(Diagnostic::new(reason, m.span, String::new()));
        },
    };
    let n = m.params.len();
    let mut args: Vec<MarshalRule> = Vec::new();
    let mut i: usize = 0;
    assert(m.params@.subrange(0, n as int) =~= m.params@);
    while i < n
        invariant
            n == m.params@.len(),
            i <= n,
            mode_skip(receiver_mode(m.receiver)) == Ok::<usize, Reason>(skip),
            args@.len() == i,
            first_failure(m.params@, *table) == first_failure(m.params@.subrange(i as int, n as int), *table),
            rule_views(args@) == resolved_rules(m.params@.subrange(0, i as int), *table),
        decreases n - i,
    {
        assert(m.params@.subrange(i as int, n as int).drop_first() =~= m.params@.subrange(i + 1, n as int));
        assert(m.params@.subrange(i as int, n as int)[0] == m.params@[i as int]);
        match get_path_for(&m.params[i], table) {
            Ok(rule) => {
                let ghost before = args@;
                let ghost rv = rule@;
                args.push(rule);
                proof {
                    let prev = m.params@.subrange(0, i as int);
                    let next = m.params@.subrange(0, i + 1);
                    assert forall|j: int| 0 <= j < i + 1 implies
                        #[trigger] rule_views(args@)[j] == resolved_rules(next, *table)[j] by {
                        if j < i {
                            assert(args@[j] == before[j]);
                            assert(next[j] == prev[j]);
                            assert(rule_views(before)[j] == resolved_rules(prev, *table)[j]);
                        } else {
                            assert(args@[j]@ == rv);
                            assert(next[j] == m.params@[i as int]);
                        }
                    }
                    assert(rule_views(args@) =~= resolved_rules(next, *table));
                }
            },
            Err(d) => {
                return Err(d);
            },
        }
        i = i + 1;
    }
    assert(m.params@.subrange(0, n as int) =~= m.params@);
    let ret = return_marshal(&m.ret, table);
    let symbol = symbol_name(tyname, &m.ident);
    Ok(BindingDescriptor { symbol, skip, args, ret })
}

} // verus!
