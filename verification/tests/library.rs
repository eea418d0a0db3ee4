use dbgify::args::{is_capturable, ArgIdents, Args};
use dbgify::collect::{color_for_type, Color, DebugCollect, StepAction};
use dbgify::meta::ArgMeta;
use dbgify::syntax::{
    call_name, expand_arg_ty, expand_bounds, expand_fn_arg, expand_macro, expand_path, is_mut_arg,
    ArgPat, ArgType, CallReceiver, FnArg, PatIdent, TypeBound,
};
use dbgify::vars::VarRef;
use dbgify::visit::{BodyStmt, VisitDebug};

fn s(x: &str) -> String {
    x.to_string()
}

fn path(segs: &[&str]) -> Vec<String> {
    segs.iter().map(|x| x.to_string()).collect()
}

fn pat(name: &str) -> ArgPat {
    ArgPat::Ident(PatIdent { by_ref: false, mutable: false, ident: s(name) })
}

fn typed(name: &str, ty: ArgType) -> FnArg {
    FnArg::Typed { pat: pat(name), ty }
}

fn mut_ref(ty: ArgType) -> ArgType {
    ArgType::Reference { mutable: true, elem: Box::new(ty) }
}

fn shared_ref(ty: ArgType) -> ArgType {
    ArgType::Reference { mutable: false, elem: Box::new(ty) }
}

fn name_of(ty: ArgType) -> Option<String> {
    expand_arg_ty(&ty)
}

#[test]
fn arg_meta_gives_back_its_parts() {
    let m = ArgMeta::new(s("String"), s("test"));
    assert_eq!(m.type_ref(), "String");
    assert_eq!(m.scope_ref(), "test");
    let d = m.duplicate();
    assert_eq!(d.type_ref(), "String");
    assert_eq!(d.scope_ref(), "test");
}

#[test]
fn type_names_of_each_form() {
    assert_eq!(name_of(ArgType::Slice), Some(s("Vec")));
    assert_eq!(name_of(ArgType::Array), Some(s("Vec")));
    assert_eq!(name_of(ArgType::Ptr), Some(s("Ptr")));
    assert_eq!(name_of(ArgType::BareFn), Some(s("Fn")));
    assert_eq!(name_of(ArgType::Never), Some(s("Never")));
    assert_eq!(name_of(ArgType::Tuple), Some(s("Tuple")));
    assert_eq!(name_of(ArgType::Infer), Some(s("Underscore")));
    assert_eq!(name_of(ArgType::Path { path: path(&["std", "string", "String"]) }), Some(s("String")));
    assert_eq!(name_of(ArgType::Path { path: vec![] }), None);
    assert_eq!(name_of(ArgType::Macro { path: path(&["my", "ty"]) }), Some(s("ty")));
    assert_eq!(name_of(mut_ref(ArgType::Path { path: path(&["String"]) })), Some(s("String")));
    assert_eq!(
        name_of(ArgType::Paren { elem: Box::new(shared_ref(ArgType::Slice)) }),
        Some(s("Vec"))
    );
    assert_eq!(name_of(ArgType::Group { elem: Box::new(ArgType::Tuple) }), Some(s("Tuple")));
    let bounds = vec![
        TypeBound::Trait { path: path(&["std", "fmt", "Debug"]) },
        TypeBound::Trait { path: path(&["Send"]) },
    ];
    assert_eq!(name_of(ArgType::TraitObject { bounds }), Some(s("Send")));
    let bounds = vec![TypeBound::Trait { path: path(&["Iterator"]) }, TypeBound::Lifetime];
    assert_eq!(name_of(ArgType::ImplTrait { bounds }), None);
    assert_eq!(name_of(ArgType::ImplTrait { bounds: vec![] }), None);
}

#[test]
fn paths_macros_and_bounds() {
    assert_eq!(expand_path(&path(&["a", "b"])), Some(s("b")));
    assert_eq!(expand_path(&vec![]), None);
    assert_eq!(expand_macro(&path(&["bp"])), Some(s("bp")));
    assert_eq!(expand_bounds(&vec![TypeBound::Lifetime]), None);
    assert_eq!(expand_bounds(&vec![TypeBound::Trait { path: path(&["Fn"]) }]), Some(s("Fn")));
}

#[test]
fn mutability_of_arguments() {
    assert!(is_mut_arg(&FnArg::Receiver { reference: true, mutable: true }));
    assert!(!is_mut_arg(&FnArg::Receiver { reference: true, mutable: false }));
    assert!(is_mut_arg(&typed("x", mut_ref(ArgType::Tuple))));
    assert!(!is_mut_arg(&typed("x", shared_ref(ArgType::Tuple))));
    assert!(!is_mut_arg(&typed("x", ArgType::Paren { elem: Box::new(mut_ref(ArgType::Tuple)) })));
    assert!(!is_mut_arg(&typed("x", ArgType::Path { path: path(&["usize"]) })));
}

#[test]
fn fn_arg_parts() {
    let (p, t) = expand_fn_arg(&typed("y", ArgType::Path { path: path(&["usize"]) }));
    assert_eq!(p.ident, "y");
    assert_eq!(expand_arg_ty(&t), Some(s("usize")));
}

#[test]
fn call_names() {
    let r = CallReceiver::Path { path: path(&["x"]) };
    assert_eq!(call_name(&r), Some(s("x")));
    let r = CallReceiver::MethodCall {
        receiver: Box::new(CallReceiver::MethodCall {
            receiver: Box::new(CallReceiver::Path { path: path(&["self", "v"]) }),
        }),
    };
    assert_eq!(call_name(&r), Some(s("v")));
}

#[test]
fn capturability() {
    assert!(is_capturable(&typed("x", ArgType::Tuple)));
    assert!(!is_capturable(&typed("x", ArgType::Verbatim)));
    assert!(!is_capturable(&typed("x", mut_ref(ArgType::Other))));
    assert!(!is_capturable(&typed("x", ArgType::Path { path: vec![] })));
    assert!(!is_capturable(&FnArg::Typed { pat: ArgPat::Other, ty: ArgType::Tuple }));
    assert!(!is_capturable(&FnArg::Receiver { reference: true, mutable: true }));
}

#[test]
fn table_files_and_replaces() {
    let mut t = DebugCollect::new();
    assert_eq!(t.len(), 0);
    assert!(t.get(&s("x")).is_none());
    t.insert(s("x"), ArgMeta::new(s("String"), s("f")));
    t.insert(s("y"), ArgMeta::new(s("usize"), s("f")));
    assert_eq!(t.len(), 2);
    assert_eq!(t.get(&s("x")).unwrap().type_ref(), "String");
    t.insert(s("x"), ArgMeta::new(s("Vec"), s("g")));
    assert_eq!(t.len(), 2);
    assert_eq!(t.get(&s("x")).unwrap().type_ref(), "Vec");
    assert_eq!(t.get(&s("x")).unwrap().scope_ref(), "g");
    assert_eq!(t.get(&s("y")).unwrap().type_ref(), "usize");
    let d: DebugCollect = Default::default();
    assert_eq!(d.len(), 0);
    let entries = t.into_entries();
    assert_eq!(entries.len(), 2);
}

#[test]
fn colours_by_type() {
    assert_eq!(color_for_type("String"), Color::Green);
    assert_eq!(color_for_type("str"), Color::Green);
    assert_eq!(color_for_type("Vec"), Color::White);
    assert_eq!(color_for_type("Tuple"), Color::Blue);
    assert_eq!(color_for_type("usize"), Color::Yellow);
    assert_eq!(color_for_type(""), Color::Yellow);
}

#[test]
fn stepper_decisions() {
    let mut t = DebugCollect::new();
    t.insert(s("x"), ArgMeta::new(s("String"), s("test")));
    t.insert(s("y"), ArgMeta::new(s("usize"), s("test")));
    let a = t.step_action(&s("x"), true);
    assert_eq!(a, StepAction::Show { color: Color::Green });
    assert!(a.ends_step());
    let a = t.step_action(&s("y"), false);
    assert_eq!(a, StepAction::MissingPrinter { color: Color::Yellow });
    assert!(a.ends_step());
    let a = t.step_action(&s("z"), true);
    assert_eq!(a, StepAction::NotInScope);
    assert!(!a.ends_step());
}

#[test]
fn var_ref_slot() {
    let v = vec![1, 2, 3];
    let mut r = VarRef::new();
    assert!(r.get().is_none());
    r.set_ref(&v);
    assert_eq!(r.get(), Some(&vec![1, 2, 3]));
    r.drop_ref();
    assert!(r.get().is_none());
    assert!(r.0.is_none());
}

#[test]
fn args_split_by_mutability() {
    let inputs = vec![
        typed("x", mut_ref(ArgType::Path { path: path(&["String"]) })),
        typed("y", ArgType::Path { path: path(&["usize"]) }),
        typed("z", mut_ref(ArgType::Slice)),
    ];
    let a = Args::new(s("test"), inputs);
    assert_eq!(a.orig_args().len(), 3);
    let m = a.mut_args();
    let n = a.non_mut_args();
    assert_eq!(m.len(), 2);
    assert_eq!(n.len(), 1);
    assert_eq!(expand_fn_arg(&m[0]).0.ident, "x");
    assert_eq!(expand_fn_arg(&m[1]).0.ident, "z");
    assert_eq!(expand_fn_arg(&n[0]).0.ident, "y");
    assert!(a.can_capture());
}

#[test]
fn capture_fills_table_and_names() {
    let inputs = vec![
        typed("x", mut_ref(ArgType::Path { path: path(&["String"]) })),
        typed("y", ArgType::Path { path: path(&["usize"]) }),
    ];
    let a = Args::new(s("test"), inputs);
    let mut t = DebugCollect::new();
    let ids = a.capture_args(&mut t);
    assert_eq!(t.len(), 2);
    assert_eq!(t.get(&s("x")).unwrap().type_ref(), "String");
    assert_eq!(t.get(&s("x")).unwrap().scope_ref(), "test");
    assert_eq!(t.get(&s("y")).unwrap().type_ref(), "usize");
    assert_eq!(ids.mut_string, vec![s("x")]);
    assert_eq!(ids.non_mut_string, vec![s("y")]);
    assert_eq!(ids.mut_under[0].ident, "_x");
    assert_eq!(ids.non_mut_under[0].ident, "_y");
    let (o, p, n) = ids.new_mut_decl();
    assert_eq!(o[0].ident, "x");
    assert_eq!(p[0].ident, "_x");
    assert_eq!(n, vec![s("x")]);
    let (o, p, n) = ids.new_decl();
    assert_eq!(o[0].ident, "y");
    assert_eq!(p[0].ident, "_y");
    assert_eq!(n, vec![s("y")]);
}

#[test]
fn receiver_cannot_be_captured() {
    let a = Args::new(s("add_one"), vec![FnArg::Receiver { reference: true, mutable: true }]);
    assert!(!a.can_capture());
}

#[test]
fn idents_keep_pattern_flags() {
    let p = PatIdent { by_ref: true, mutable: true, ident: s("v") };
    let ids = ArgIdents::new(vec![p], vec![]);
    assert_eq!(ids.non_mut_under[0].ident, "_v");
    assert!(ids.non_mut_under[0].by_ref);
    assert!(ids.non_mut_under[0].mutable);
    assert_eq!(ids.non_mut_string, vec![s("v")]);
    assert!(ids.mut_under.is_empty());
    let (m, n) = ids.arg_string();
    assert!(m.is_empty());
    assert_eq!(n, vec![s("v")]);
    let (m, n) = ids.arg_private();
    assert!(m.is_empty());
    assert_eq!(n[0].ident, "_v");
    let (m, n) = ids.arg_original();
    assert!(m.is_empty());
    assert_eq!(n[0].ident, "v");
}

fn is_step(b: &BodyStmt) -> bool {
    matches!(b, BodyStmt::Step)
}

fn kept_id(b: &BodyStmt) -> Option<usize> {
    match b {
        BodyStmt::Kept { id } => Some(*id),
        _ => None,
    }
}

#[test]
fn body_rewriting() {
    // fn test(x: &mut String, y: usize) { let z = 10; bp!(); x.push_str(" world"); }
    let inputs = vec![
        typed("x", mut_ref(ArgType::Path { path: path(&["String"]) })),
        typed("y", ArgType::Path { path: path(&["usize"]) }),
    ];
    let mut v = VisitDebug::for_function(s("test"), inputs);
    assert!(v.is_func());
    v.visit_macro(&path(&["bp"]));
    assert!(v.fn_body().is_empty());
    v.visit_stmt(0);
    v.visit_macro(&path(&["println"]));
    v.visit_stmt(1);
    v.visit_macro(&path(&["dbgify", "bp"]));
    v.visit_stmt(2);
    v.visit_method_call(&CallReceiver::Path { path: path(&["x"]) }, 7);
    let body = v.fn_body();
    assert_eq!(body.len(), 3);
    assert_eq!(kept_id(&body[0]), Some(0));
    assert!(is_step(&body[1]));
    match &body[2] {
        BodyStmt::UnsafeCall { target, site } => {
            assert_eq!(target, "_x");
            assert_eq!(*site, 7);
        }
        _ => panic!("expected the rewritten method call last"),
    }
    assert!(v.is_ready());
    let plan = v.debugable().unwrap();
    assert_eq!(plan.body.len(), 3);
    assert_eq!(kept_id(&plan.body[0]), Some(0));
    assert!(is_step(&plan.body[1]));
    assert_eq!(plan.collect.len(), 2);
    assert_eq!(plan.collect.get(&s("x")).unwrap().type_ref(), "String");
    assert_eq!(plan.idents.mut_string, vec![s("x")]);
    assert_eq!(plan.idents.non_mut_string, vec![s("y")]);
}

#[test]
fn readme_example_pauses_between_statements() {
    // fn test(x: &mut String) { let _y = 0; bp!(); x.push_str(" world"); }
    let inputs = vec![typed("x", mut_ref(ArgType::Path { path: path(&["String"]) }))];
    let mut v = VisitDebug::for_function(s("test"), inputs);
    v.visit_stmt(0);
    v.visit_stmt(1);
    v.visit_macro(&path(&["bp"]));
    v.visit_stmt(2);
    v.visit_method_call(&CallReceiver::Path { path: path(&["x"]) }, 0);
    let plan = v.debugable().unwrap();
    assert_eq!(plan.body.len(), 3);
    assert_eq!(kept_id(&plan.body[0]), Some(0));
    assert!(is_step(&plan.body[1]));
    assert!(matches!(&plan.body[2], BodyStmt::UnsafeCall { target, .. } if target == "_x"));
    assert_eq!(plan.idents.mut_string, vec![s("x")]);
    assert!(plan.collect.get(&s("x")).is_some());
}

#[test]
fn default_state_is_empty() {
    let v: VisitDebug = Default::default();
    assert!(!v.is_func());
    assert!(v.fn_body().is_empty());
    assert!(v.debugable().is_none());
}

#[test]
fn tab_completion() {
    let mut t = DebugCollect::new();
    t.insert(s("xylophone"), ArgMeta::new(s("String"), s("f")));
    t.insert(s("xenon"), ArgMeta::new(s("usize"), s("f")));
    t.insert(s("yak"), ArgMeta::new(s("usize"), s("f")));
    assert_eq!(t.complete(&s("xy")), Some(s("xylophone")));
    assert_eq!(t.complete(&s("y")), Some(s("yak")));
    assert_eq!(t.complete(&s("x")), None);
    assert_eq!(t.complete(&s("z")), None);
    assert_eq!(t.complete(&s("yak")), Some(s("yak")));
    assert_eq!(t.complete(&s("yakk")), None);
    let one = {
        let mut u = DebugCollect::new();
        u.insert(s("x"), ArgMeta::new(s("String"), s("f")));
        u
    };
    assert_eq!(one.complete(&s("")), Some(s("x")));
}

#[test]
fn closures_are_kept() {
    let mut v = VisitDebug::for_closure();
    assert!(!v.is_func());
    v.visit_stmt(0);
    assert!(v.is_ready());
    assert!(v.debugable().is_none());
}
