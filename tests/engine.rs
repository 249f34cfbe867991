use autobind::ast::{ImplBlock, Item, ItemKind, Method, PathSegment, Receiver, Span, TypeExpr, TypeKind, TypePath};
use autobind::diagnostic::{Diagnostic, Reason, Severity};
use autobind::engine::{autobind, Outcome};
use autobind::marshal::{MarshalRule, MarshalTable};
use autobind::receiver::{classify_receiver, receiver_skip, ReceiverMode};
use autobind::symbols::{check_symbols, find_collision};
use autobind::synth::{get_path_for, process_method, symbol_name, BindingDescriptor, ReturnMarshal};

fn span(lo: u32, hi: u32) -> Span {
    Span { lo, hi }
}

fn segment(ident: &str) -> PathSegment {
    PathSegment { ident: ident.to_string(), lifetimes: vec![], types: vec![] }
}

fn path_ty(global: bool, idents: &[&str], at: u32) -> TypeExpr {
    TypeExpr {
        kind: TypeKind::Path(TypePath {
            global,
            segments: idents.iter().map(|s| segment(s)).collect(),
            bounded: false,
        }),
        span: span(at, at + 3),
    }
}

fn simple_ty(ident: &str, at: u32) -> TypeExpr {
    path_ty(false, &[ident], at)
}

fn method(ident: &str, receiver: Receiver, params: Vec<TypeExpr>, ret: Option<TypeExpr>, at: u32) -> Method {
    Method { ident: ident.to_string(), public: true, receiver, params, ret, span: span(at, at + 10) }
}

fn by_ref(mutable: bool) -> Receiver {
    Receiver::Ref { lifetime: None, mutable }
}

fn rule(path: &str, c_type: &str, expr: &str) -> MarshalRule {
    MarshalRule { path: path.to_string(), c_type: c_type.to_string(), expr: expr.to_string() }
}

fn int_table() -> MarshalTable {
    let mut t = MarshalTable::new();
    assert!(t.add(rule("int", "c_int", "arg as c_int")));
    t
}

fn inherent(ident: &str, methods: Vec<Method>) -> Item {
    Item { ident: ident.to_string(), kind: ItemKind::Impl(ImplBlock { trait_name: None, methods }), span: span(100, 900) }
}

fn bound(o: &Outcome) -> &BindingDescriptor {
    match o {
        Outcome::Bound(d) => d,
        Outcome::Report(d) => panic!("expected a descriptor, got {:?}", d),
    }
}

fn report(o: &Outcome) -> &Diagnostic {
    match o {
        Outcome::Report(d) => d,
        Outcome::Bound(d) => panic!("expected a diagnostic, got {:?}", d),
    }
}

fn widget() -> Item {
    inherent(
        "Widget",
        vec![
            method("new", Receiver::Absent, vec![simple_ty("int", 11)], Some(simple_ty("Widget", 20)), 10),
            method("get", by_ref(false), vec![], Some(simple_ty("int", 40)), 30),
            method("consume", Receiver::Value, vec![], Some(simple_ty("int", 60)), 50),
        ],
    )
}

#[test]
fn widget_example() {
    let out = autobind(span(90, 95), &widget(), &int_table());
    assert_eq!(out.len(), 3);

    let new = bound(&out[0]);
    assert_eq!(new.symbol, "widget_new");
    assert_eq!(new.skip, 0);
    assert_eq!(new.args.len(), 1);
    assert_eq!(new.args[0].c_type, "c_int");
    assert!(matches!(new.ret, ReturnMarshal::Unresolved));

    let get = bound(&out[1]);
    assert_eq!(get.symbol, "widget_get");
    assert_eq!(get.skip, 1);
    assert_eq!(get.args.len(), 0);
    match &get.ret {
        ReturnMarshal::Marshalled(r) => assert_eq!(r.c_type, "c_int"),
        other => panic!("unexpected return plan {:?}", other),
    }

    let consume = report(&out[2]);
    assert_eq!(consume.severity, Severity::Warning);
    assert_eq!(consume.reason, Reason::ReceiverByValue);
    assert_eq!(consume.span, span(50, 60));
}

#[test]
fn static_method_symbol_lowercases_type_only() {
    let item = inherent("TestStruct", vec![method("MakeOne", Receiver::Absent, vec![], None, 10)]);
    let out = autobind(span(0, 5), &item, &MarshalTable::new());
    assert_eq!(out.len(), 1);
    let d = bound(&out[0]);
    assert_eq!(d.symbol, "teststruct_MakeOne");
    assert_eq!(d.skip, 0);
    assert!(matches!(d.ret, ReturnMarshal::Nothing));
}

#[test]
fn symbol_keeps_non_letters() {
    assert_eq!(symbol_name(&"HTTP_Server2".to_string(), &"Run".to_string()), "http_server2_Run");
    assert_eq!(symbol_name(&"Ärger".to_string(), &"x".to_string()), "Ärger_x");
}

#[test]
fn reference_receivers_skip_one_argument() {
    let table = int_table();
    for mutable in [false, true] {
        let m = method("set", by_ref(mutable), vec![simple_ty("int", 1), simple_ty("int", 5)], None, 0);
        let d = process_method(&"Counter".to_string(), &m, &table).unwrap();
        assert_eq!(d.symbol, "counter_set");
        assert_eq!(d.skip, 1);
        assert_eq!(d.args.len(), 2);
        assert_eq!(d.args[1].path, "int");
    }
}

#[test]
fn receiver_classification() {
    assert_eq!(classify_receiver(&Receiver::Absent), ReceiverMode::Static);
    assert_eq!(classify_receiver(&by_ref(false)), ReceiverMode::RefImmutable);
    assert_eq!(classify_receiver(&by_ref(true)), ReceiverMode::RefMutable);
    let named = Receiver::Ref { lifetime: Some("a".to_string()), mutable: true };
    assert_eq!(classify_receiver(&named), ReceiverMode::RefWithLifetime);
    assert_eq!(classify_receiver(&Receiver::Value), ReceiverMode::ByValue);
    assert_eq!(classify_receiver(&Receiver::Explicit), ReceiverMode::Explicit);

    assert_eq!(receiver_skip(ReceiverMode::Static), Ok(0));
    assert_eq!(receiver_skip(ReceiverMode::RefMutable), Ok(1));
    assert_eq!(receiver_skip(ReceiverMode::RefWithLifetime), Err(Reason::ReceiverLifetime));
    assert_eq!(receiver_skip(ReceiverMode::Explicit), Err(Reason::ReceiverExplicit));
}

#[test]
fn rejected_receivers_warn_once_and_spare_siblings() {
    let item = inherent(
        "Foo",
        vec![
            method("with_lifetime", Receiver::Ref { lifetime: Some("a".to_string()), mutable: false }, vec![], None, 10),
            method("by_value", Receiver::Value, vec![], None, 20),
            method("explicit_self", Receiver::Explicit, vec![], None, 30),
            method("fine", by_ref(false), vec![], None, 40),
        ],
    );
    let out = autobind(span(0, 5), &item, &MarshalTable::new());
    assert_eq!(out.len(), 4);
    let expected = [
        (Reason::ReceiverLifetime, "autobind: cannot generate bindings for method with a lifetime on `self`"),
        (Reason::ReceiverByValue, "autobind: cannot generate bindings for method with by-value `self`"),
        (Reason::ReceiverExplicit, "autobind: cannot generate bindings for method with explicit `self`"),
    ];
    for (i, (reason, text)) in expected.iter().enumerate() {
        let d = report(&out[i]);
        assert_eq!(d.severity, Severity::Warning);
        assert_eq!(d.reason, *reason);
        assert_eq!(d.message(), *text);
    }
    assert_eq!(bound(&out[3]).symbol, "foo_fine");
}

#[test]
fn private_methods_are_ignored() {
    let mut hidden = method("not_public_with_lifetime", Receiver::Ref { lifetime: Some("a".to_string()), mutable: false }, vec![], None, 10);
    hidden.public = false;
    let item = inherent("Foo", vec![hidden, method("shown", Receiver::Absent, vec![], None, 20)]);
    let out = autobind(span(0, 5), &item, &MarshalTable::new());
    assert_eq!(out.len(), 1);
    assert_eq!(bound(&out[0]).symbol, "foo_shown");
}

#[test]
fn empty_impl_yields_nothing() {
    let out = autobind(span(0, 5), &inherent("Foo", vec![]), &MarshalTable::new());
    assert!(out.is_empty());
}

#[test]
fn unsupported_parameter_warns_with_path_and_no_partial_descriptor() {
    let m = method(
        "mix",
        by_ref(false),
        vec![simple_ty("int", 1), path_ty(true, &["foo", "Bar"], 7), simple_ty("Baz", 13)],
        None,
        0,
    );
    let item = inherent("Thing", vec![m]);
    let out = autobind(span(0, 5), &item, &int_table());
    assert_eq!(out.len(), 1);
    let d = report(&out[0]);
    assert_eq!(d.severity, Severity::Warning);
    assert_eq!(d.reason, Reason::UnsupportedType);
    assert_eq!(d.subject, "::fooBar");
    assert_eq!(d.span, span(7, 10));
    assert_eq!(d.message(), "autobind: unsupported type for binding: ::fooBar");
}

#[test]
fn empty_table_rejects_every_path() {
    let m = method("new", Receiver::Absent, vec![simple_ty("int", 1)], None, 0);
    let r = process_method(&"Widget".to_string(), &m, &MarshalTable::new());
    let d = r.unwrap_err();
    assert_eq!(d.reason, Reason::UnsupportedType);
    assert_eq!(d.subject, "int");
}

#[test]
fn composed_path_is_looked_up() {
    let mut table = MarshalTable::new();
    assert!(table.add(rule("::libcc_int", "c_int", "arg")));
    let r = get_path_for(&path_ty(true, &["libc", "c_int"], 0), &table).unwrap();
    assert_eq!(r.path, "::libcc_int");
    assert!(get_path_for(&path_ty(false, &["libc", "c_int"], 0), &table).is_err());
}

#[test]
fn unsupported_type_shapes() {
    let table = int_table();
    let other = TypeExpr { kind: TypeKind::Other, span: span(3, 4) };
    let d = get_path_for(&other, &table).unwrap_err();
    assert_eq!(d.reason, Reason::UnknownType);
    assert_eq!(d.message(), "autobind: unknown type for binding");
    assert_eq!(d.span, span(3, 4));

    let mut bounded = simple_ty("int", 0);
    if let TypeKind::Path(p) = &mut bounded.kind {
        p.bounded = true;
    }
    let d = get_path_for(&bounded, &table).unwrap_err();
    assert_eq!(d.reason, Reason::PathBounds);
    assert_eq!(d.message(), "autobind: currently can't handle bounds on a path");

    let mut with_lifetime = path_ty(false, &["a", "int"], 0);
    if let TypeKind::Path(p) = &mut with_lifetime.kind {
        p.segments[1].lifetimes.push("a".to_string());
        p.segments[0].types.push("u8".to_string());
    }
    let d = get_path_for(&with_lifetime, &table).unwrap_err();
    assert_eq!(d.reason, Reason::PathLifetimes);
    assert_eq!(d.message(), "autobind: currently can't handle lifetimes in a path");

    let mut generic = simple_ty("Vec", 0);
    if let TypeKind::Path(p) = &mut generic.kind {
        p.segments[0].types.push("int".to_string());
    }
    let d = get_path_for(&generic, &table).unwrap_err();
    assert_eq!(d.reason, Reason::PathTypeParams);
    assert_eq!(d.severity, Severity::Warning);
    assert_eq!(d.message(), "autobind: currently can't handle type parameters in a path");
}

#[test]
fn first_bad_parameter_decides() {
    let m = method(
        "f",
        Receiver::Absent,
        vec![TypeExpr { kind: TypeKind::Other, span: span(1, 2) }, simple_ty("Nope", 5)],
        None,
        0,
    );
    let d = process_method(&"T".to_string(), &m, &int_table()).unwrap_err();
    assert_eq!(d.reason, Reason::UnknownType);
    assert_eq!(d.span, span(1, 2));
}

#[test]
fn non_impl_item_is_one_error() {
    let item = Item { ident: "not_an_impl".to_string(), kind: ItemKind::Other, span: span(10, 40) };
    let out = autobind(span(0, 9), &item, &int_table());
    assert_eq!(out.len(), 1);
    let d = report(&out[0]);
    assert_eq!(d.severity, Severity::Error);
    assert_eq!(d.reason, Reason::NotImpl);
    assert_eq!(d.span, span(0, 40));
    assert_eq!(d.message(), "#[autobind] can only be applied to impl blocks");
}

#[test]
fn trait_impl_is_one_error_and_inherent_impl_is_processed() {
    let methods = vec![method("eq", by_ref(false), vec![], None, 10), method("new", Receiver::Absent, vec![], None, 20)];
    let trait_item = Item {
        ident: "Foo".to_string(),
        kind: ItemKind::Impl(ImplBlock { trait_name: Some("PartialEq".to_string()), methods: methods.clone() }),
        span: span(10, 80),
    };
    let out = autobind(span(2, 8), &trait_item, &MarshalTable::new());
    assert_eq!(out.len(), 1);
    let d = report(&out[0]);
    assert_eq!(d.severity, Severity::Error);
    assert_eq!(d.reason, Reason::TraitImpl);
    assert_eq!(d.span, span(2, 80));
    assert_eq!(d.message(), "#[autobind] cannot be applied to impls of traits");

    let out = autobind(span(2, 8), &inherent("Foo", methods), &MarshalTable::new());
    assert_eq!(out.len(), 2);
    assert_eq!(bound(&out[0]).symbol, "foo_eq");
    assert_eq!(bound(&out[1]).symbol, "foo_new");
}

#[test]
fn two_runs_agree() {
    let table = int_table();
    let first = autobind(span(90, 95), &widget(), &table);
    let second = autobind(span(90, 95), &widget(), &table);
    assert_eq!(format!("{:?}", first), format!("{:?}", second));
}

#[test]
fn table_keeps_first_rule_for_a_path() {
    let mut t = MarshalTable::new();
    assert!(t.lookup(&"int".to_string()).is_none());
    assert!(t.add(rule("int", "c_int", "a")));
    assert!(!t.add(rule("int", "c_long", "b")));
    assert!(t.add(rule("long", "c_long", "b")));
    assert_eq!(t.lookup(&"int".to_string()).unwrap().c_type, "c_int");
    assert_eq!(t.lookup(&"long".to_string()).unwrap().c_type, "c_long");
    assert_eq!(t.rules.len(), 2);
}

#[test]
fn diagnostic_constructor_sets_severity() {
    let d = Diagnostic::new(Reason::TraitImpl, span(1, 2), String::new());
    assert_eq!(d.severity, Severity::Error);
    let d = Diagnostic::new(Reason::UnsupportedType, span(1, 2), "Foo".to_string());
    assert_eq!(d.severity, Severity::Warning);
    assert_eq!(d.message(), "autobind: unsupported type for binding: Foo");
}

#[test]
fn differently_cased_types_collide() {
    let a = autobind(span(0, 1), &inherent("Foo", vec![method("new", Receiver::Absent, vec![], None, 1)]), &MarshalTable::new());
    let b = autobind(span(0, 1), &inherent("FOO", vec![method("new", Receiver::Absent, vec![], None, 2)]), &MarshalTable::new());
    let c = autobind(span(0, 1), &inherent("Foo", vec![method("New", Receiver::Absent, vec![], None, 3)]), &MarshalTable::new());
    let all: Vec<BindingDescriptor> = vec![bound(&c[0]).clone(), bound(&a[0]).clone(), bound(&b[0]).clone()];
    assert_eq!(find_collision(&all), Some((1, 2)));
    let e = check_symbols(&all, span(7, 8)).unwrap();
    assert_eq!(e.severity, Severity::Error);
    assert_eq!(e.reason, Reason::SymbolCollision);
    assert_eq!(e.span, span(7, 8));
    assert_eq!(e.message(), "autobind: generated symbol is not unique: foo_new");
}

#[test]
fn unique_symbols_pass() {
    let out = autobind(span(90, 95), &widget(), &int_table());
    let all: Vec<BindingDescriptor> = out.iter().filter_map(|o| match o {
        Outcome::Bound(d) => Some(d.clone()),
        Outcome::Report(_) => None,
    }).collect();
    assert_eq!(all.len(), 2);
    assert_eq!(find_collision(&all), None);
    assert!(check_symbols(&all, span(0, 0)).is_none());
    assert_eq!(find_collision(&vec![]), None);
}

#[test]
fn repeated_method_in_one_impl_reports_collision() {
    let item = inherent(
        "Dup",
        vec![
            method("run", Receiver::Absent, vec![], None, 10),
            method("run", by_ref(false), vec![], None, 20),
            method("stop", Receiver::Value, vec![], None, 30),
            method("stop", Receiver::Value, vec![], None, 40),
            method("run", by_ref(true), vec![], None, 50),
        ],
    );
    let out = autobind(span(1, 5), &item, &MarshalTable::new());
    assert_eq!(out.len(), 6);
    assert_eq!(bound(&out[0]).symbol, "dup_run");
    assert_eq!(bound(&out[1]).symbol, "dup_run");
    assert_eq!(report(&out[2]).reason, Reason::ReceiverByValue);
    assert_eq!(report(&out[3]).reason, Reason::ReceiverByValue);
    assert_eq!(bound(&out[4]).symbol, "dup_run");
    let e = report(&out[5]);
    assert_eq!(e.severity, Severity::Error);
    assert_eq!(e.reason, Reason::SymbolCollision);
    assert_eq!(e.span, span(1, 900));
    assert_eq!(e.message(), "autobind: generated symbol is not unique: dup_run");
}
