//! The parts of a function signature that the instrumentation reads, held as
//! plain values: argument patterns, argument types and the receivers of method
//! calls. Paths are kept as the sequence of their segments' identifiers.
use vstd::prelude::*;

verus! {

/// One bound of a trait object or of an `impl Trait` type.
pub enum TypeBound {
    /// A trait bound, with the identifiers of its path's segments.
    Trait { path: Vec<String> },
    Lifetime,
}

/// The shape of an argument's type.
pub enum ArgType {
    Slice,
    Array,
    Ptr,
    Reference { mutable: bool, elem: Box<ArgType> },
    BareFn,
    Never,
    Tuple,
    Path { path: Vec<String> },
    TraitObject { bounds: Vec<TypeBound> },
    ImplTrait { bounds: Vec<TypeBound> },
    Paren { elem: Box<ArgType> },
    Group { elem: Box<ArgType> },
    Infer,
    Macro { path: Vec<String> },
    /// Tokens that the parser kept verbatim.
    Verbatim,
    /// Any type form not listed above.
    Other,
}

/// An identifier pattern: `x`, `mut x`, `ref x`.
pub struct PatIdent {
    pub by_ref: bool,
    pub mutable: bool,
    pub ident: String,
}

/// The pattern of a typed argument.
pub enum ArgPat {
    Ident(PatIdent),
    /// Any other pattern (tuples, wildcards, ...).
    Other,
}

/// One argument of a function signature.
pub enum FnArg {
    /// `self`, `mut self`, `&self`, `&mut self`: `reference` is set for the
    /// borrowed forms, `mutable` when the `mut` keyword is present.
    Receiver { reference: bool, mutable: bool },
    Typed { pat: ArgPat, ty: ArgType },
}

/// The receiver expression of a method call.
pub enum CallReceiver {
    /// A path expression, with the identifiers of its segments.
    Path { path: Vec<String> },
    /// A method call whose own receiver is given.
    MethodCall { receiver: Box<CallReceiver> },
    /// Any other expression.
    Other,
}

// ---------------------------------------------------------------------------
// Mathematical views
// ---------------------------------------------------------------------------

pub enum TypeBoundView {
    Trait { path: Seq<Seq<char>> },
    Lifetime,
}

pub enum ArgTypeView {
    Slice,
    Array,
    Ptr,
    Reference { mutable: bool, elem: Box<ArgTypeView> },
    BareFn,
    Never,
    Tuple,
    Path { path: Seq<Seq<char>> },
    TraitObject { bounds: Seq<TypeBoundView> },
    ImplTrait { bounds: Seq<TypeBoundView> },
    Paren { elem: Box<ArgTypeView> },
    Group { elem: Box<ArgTypeView> },
    Infer,
    Macro { path: Seq<Seq<char>> },
    Verbatim,
    Other,
}

pub struct PatIdentView {
    pub by_ref: bool,
    pub mutable: bool,
    pub ident: Seq<char>,
}

pub enum ArgPatView {
    Ident(PatIdentView),
    Other,
}

pub enum FnArgView {
    Receiver { reference: bool, mutable: bool },
    Typed { pat: ArgPatView, ty: ArgTypeView },
}

/// The identifiers of a path, as character sequences.
pub open spec fn idents_view(v: Seq<String>) -> Seq<Seq<char>> {
    v.map_values(|s: String| s@)
}

pub open spec fn bounds_view(v: Seq<TypeBound>) -> Seq<TypeBoundView> {
    v.map_values(|b: TypeBound| b@)
}

impl View for TypeBound {
    type V = TypeBoundView;

    open spec fn view(&self) -> TypeBoundView {
        match self {
            TypeBound::Trait { path } => TypeBoundView::Trait { path: idents_view(path@) },
            TypeBound::Lifetime => TypeBoundView::Lifetime,
        }
    }
}

pub open spec fn arg_type_view(t: ArgType) -> ArgTypeView
    decreases t,
{
    match t {
        ArgType::Slice => ArgTypeView::Slice,
        ArgType::Array => ArgTypeView::Array,
        ArgType::Ptr => ArgTypeView::Ptr,
        ArgType::Reference { mutable, elem } => ArgTypeView::Reference {
            mutable,
            elem: Box::new(arg_type_view(*elem)),
        },
        ArgType::BareFn => ArgTypeView::BareFn,
        ArgType::Never => ArgTypeView::Never,
        ArgType::Tuple => ArgTypeView::Tuple,
        ArgType::Path { path } => ArgTypeView::Path { path: idents_view(path@) },
        ArgType::TraitObject { bounds } => ArgTypeView::TraitObject { bounds: bounds_view(bounds@) },
        ArgType::ImplTrait { bounds } => ArgTypeView::ImplTrait { bounds: bounds_view(bounds@) },
        ArgType::Paren { elem } => ArgTypeView::Paren { elem: Box::new(arg_type_view(*elem)) },
        ArgType::Group { elem } => ArgTypeView::Group { elem: Box::new(arg_type_view(*elem)) },
        ArgType::Infer => ArgTypeView::Infer,
        ArgType::Macro { path } => ArgTypeView::Macro { path: idents_view(path@) },
        ArgType::Verbatim => ArgTypeView::Verbatim,
        ArgType::Other => ArgTypeView::Other,
    }
}

impl View for ArgType {
    type V = ArgTypeView;

    open spec fn view(&self) -> ArgTypeView {
        arg_type_view(*self)
    }
}

impl View for PatIdent {
    type V = PatIdentView;

    open spec fn view(&self) -> PatIdentView {
        PatIdentView { by_ref: self.by_ref, mutable: self.mutable, ident: self.ident@ }
    }
}

impl View for ArgPat {
    type V = ArgPatView;

    open spec fn view(&self) -> ArgPatView {
        match self {
            ArgPat::Ident(p) => ArgPatView::Ident(p@),
            ArgPat::Other => ArgPatView::Other,
        }
    }
}

impl View for FnArg {
    type V = FnArgView;

    open spec fn view(&self) -> FnArgView {
        match self {
            FnArg::Receiver { reference, mutable } => FnArgView::Receiver {
                reference: *reference,
                mutable: *mutable,
            },
            FnArg::Typed { pat, ty } => FnArgView::Typed { pat: pat@, ty: ty@ },
        }
    }
}

/// The views of a sequence of arguments.
pub open spec fn args_view(v: Seq<FnArg>) -> Seq<FnArgView> {
    v.map_values(|a: FnArg| a@)
}

/// The views of a sequence of identifier patterns.
pub open spec fn pats_view(v: Seq<PatIdent>) -> Seq<PatIdentView> {
    v.map_values(|p: PatIdent| p@)
}

/// The view of an optional string.
pub open spec fn opt_view(o: Option<String>) -> Option<Seq<char>> {
    match o {
        Some(s) => Some(s@),
        None => None,
    }
}

// ---------------------------------------------------------------------------
// What the instrumentation reads of them
// ---------------------------------------------------------------------------

/// The identifier of the last segment of a path, if it has one.
pub open spec fn last_ident(path: Seq<Seq<char>>) -> Option<Seq<char>> {
    if path.len() == 0 {
        None
    } else {
        Some(path.last())
    }
}

/// The name of the last bound, when that bound is a trait.
pub open spec fn bound_name(bounds: Seq<TypeBoundView>) -> Option<Seq<char>> {
    if bounds.len() == 0 {
        None
    } else {
        match bounds.last() {
            TypeBoundView::Trait { path } => last_ident(path),
            TypeBoundView::Lifetime => None,
        }
    }
}

/// Whether a type can be named: it does not lead (through references,
/// parentheses and groups) to verbatim tokens or to an unknown type form.
pub open spec fn type_nameable(t: ArgTypeView) -> bool
    decreases t,
{
    match t {
        ArgTypeView::Reference { elem, .. } => type_nameable(*elem),
        ArgTypeView::Paren { elem } => type_nameable(*elem),
        ArgTypeView::Group { elem } => type_nameable(*elem),
        ArgTypeView::Verbatim => false,
        ArgTypeView::Other => false,
        _ => true,
    }
}

/// The name under which the stepper files a variable of type `t`:
/// slices and arrays are `Vec`, references, parentheses and groups are seen
/// through, paths and macros give their last identifier, trait objects and
/// `impl Trait` types the last identifier of their last bound.
pub open spec fn filed_type_name(t: ArgTypeView) -> Option<Seq<char>>
    decreases t,
{
    match t {
        ArgTypeView::Slice => Some("Vec"@),
        ArgTypeView::Array => Some("Vec"@),
        ArgTypeView::Ptr => Some("Ptr"@),
        ArgTypeView::Reference { elem, .. } => filed_type_name(*elem),
        ArgTypeView::BareFn => Some("Fn"@),
        ArgTypeView::Never => Some("Never"@),
        ArgTypeView::Tuple => Some("Tuple"@),
        ArgTypeView::Path { path } => last_ident(path),
        ArgTypeView::TraitObject { bounds } => bound_name(bounds),
        ArgTypeView::ImplTrait { bounds } => bound_name(bounds),
        ArgTypeView::Paren { elem } => filed_type_name(*elem),
        ArgTypeView::Group { elem } => filed_type_name(*elem),
        ArgTypeView::Infer => Some("Underscore"@),
        ArgTypeView::Macro { path } => last_ident(path),
        ArgTypeView::Verbatim => None,
        ArgTypeView::Other => None,
    }
}

/// An argument is borrowed mutably: a receiver written with `mut`, or a typed
/// argument whose type is a `&mut` reference.
pub open spec fn is_mut_arg_spec(a: FnArgView) -> bool {
    match a {
        FnArgView::Receiver { mutable, .. } => mutable,
        FnArgView::Typed { ty, .. } => match ty {
            ArgTypeView::Reference { mutable, .. } => mutable,
            _ => false,
        },
    }
}

/// A typed argument bound by an identifier pattern.
pub open spec fn is_ident_arg(a: FnArgView) -> bool {
    a matches FnArgView::Typed { pat: ArgPatView::Ident(_), .. }
}

/// The identifier pattern of a typed argument.
pub open spec fn arg_ident(a: FnArgView) -> PatIdentView
    recommends
        is_ident_arg(a),
{
    match a {
        FnArgView::Typed { pat: ArgPatView::Ident(p), .. } => p,
        _ => arbitrary(),
    }
}

/// The type of a typed argument.
pub open spec fn arg_type(a: FnArgView) -> ArgTypeView
    recommends
        is_ident_arg(a),
{
    match a {
        FnArgView::Typed { ty, .. } => ty,
        _ => arbitrary(),
    }
}

/// The variable name that a call's receiver starts from: the last identifier
/// of a path, looked for through nested method calls.
pub open spec fn call_name_spec(r: CallReceiver) -> Option<Seq<char>>
    decreases r,
{
    match r {
        CallReceiver::Path { path } => last_ident(idents_view(path@)),
        CallReceiver::MethodCall { receiver } => call_name_spec(*receiver),
        CallReceiver::Other => None,
    }
}

/// Whether looking for the name of a receiver stops at a path (and not at
/// some other expression).
pub open spec fn call_name_defined(r: CallReceiver) -> bool
    decreases r,
{
    match r {
        CallReceiver::Path { .. } => true,
        CallReceiver::MethodCall { receiver } => call_name_defined(*receiver),
        CallReceiver::Other => false,
    }
}

// ---------------------------------------------------------------------------
// Copies
// ---------------------------------------------------------------------------

/// A copy of a sequence of identifiers.
pub fn copy_idents(v: &Vec<String>) -> (r: Vec<String>)
    ensures
        r@ == v@,
{
    let mut r: Vec<String> = Vec::new();
    let mut i: usize = 0;
    while i < v.len()
        invariant
            i <= v.len(),
            r@ == v@.take(i as int),
        decreases v.len() - i,
    {
        r.push(v[i].clone());
        i = i + 1;
        assert(r@ =~= v@.take(i as int));
    }
    assert(v@.take(v.len() as int) =~= v@);
    r
}

impl TypeBound {
    pub fn duplicate(&self) -> (r: Self)
        ensures
            r@ == self@,
    {
        match self {
            TypeBound::Trait { path } => TypeBound::Trait { path: copy_idents(path) },
            TypeBound::Lifetime => TypeBound::Lifetime,
        }
    }
}

/// A copy of a sequence of bounds.
pub fn copy_bounds(v: &Vec<TypeBound>) -> (r: Vec<TypeBound>)
    ensures
        bounds_view(r@) == bounds_view(v@),
{
    let mut r: Vec<TypeBound> = Vec::new();
    let mut i: usize = 0;
    while i < v.len()
        invariant
            i <= v.len(),
            r.len() == i,
            forall|j: int| 0 <= j < i ==> (#[trigger] r@[j])@ == v@[j]@,
        decreases v.len() - i,
    {
        r.push(v[i].duplicate());
        i = i + 1;
    }
    assert(bounds_view(r@) =~= bounds_view(v@));
    r
}

impl ArgType {
    pub fn duplicate(&self) -> (r: Self)
        ensures
            r@ == self@,
        decreases self,
    {
        match self {
            ArgType::Slice => ArgType::Slice,
            ArgType::Array => ArgType::Array,
            ArgType::Ptr => ArgType::Ptr,
            ArgType::Reference { mutable, elem } => ArgType::Reference {
                mutable: *mutable,
                elem: Box::new((&**elem).duplicate()),
            },
            ArgType::BareFn => ArgType::BareFn,
            ArgType::Never => ArgType::Never,
            ArgType::Tuple => ArgType::Tuple,
            ArgType::Path { path } => ArgType::Path { path: copy_idents(path) },
            ArgType::TraitObject { bounds } => ArgType::TraitObject { bounds: copy_bounds(bounds) },
            ArgType::ImplTrait { bounds } => ArgType::ImplTrait { bounds: copy_bounds(bounds) },
            ArgType::Paren { elem } => ArgType::Paren { elem: Box::new((&**elem).duplicate()) },
            ArgType::Group { elem } => ArgType::Group { elem: Box::new((&**elem).duplicate()) },
            ArgType::Infer => ArgType::Infer,
            ArgType::Macro { path } => ArgType::Macro { path: copy_idents(path) },
            ArgType::Verbatim => ArgType::Verbatim,
            ArgType::Other => ArgType::Other,
        }
    }
}

impl PatIdent {
    pub fn duplicate(&self) -> (r: Self)
        ensures
            r@ == self@,
    {
        PatIdent { by_ref: self.by_ref, mutable: self.mutable, ident: self.ident.clone() }
    }
}

impl ArgPat {
    pub fn duplicate(&self) -> (r: Self)
        ensures
            r@ == self@,
    {
        match self {
            ArgPat::Ident(p) => ArgPat::Ident(p.duplicate()),
            ArgPat::Other => ArgPat::Other,
        }
    }
}

impl FnArg {
    pub fn duplicate(&self) -> (r: Self)
        ensures
            r@ == self@,
    {
        match self {
            FnArg::Receiver { reference, mutable } => FnArg::Receiver {
                reference: *reference,
                mutable: *mutable,
            },
            FnArg::Typed { pat, ty } => FnArg::Typed { pat: pat.duplicate(), ty: ty.duplicate() },
        }
    }
}

// ---------------------------------------------------------------------------
// Reading them
// ---------------------------------------------------------------------------

/// The identifier of the last segment of a path.
pub fn expand_path(path: &Vec<String>) -> (r: Option<String>)
    ensures
        opt_view(r) == last_ident(idents_view(path@)),
{
    if path.len() == 0 {
        None
    } else {
        Some(path[path.len() - 1].clone())
    }
}

/// The identifier of the last segment of a macro's path.
pub fn expand_macro(path: &Vec<String>) -> (r: Option<String>)
    ensures
        opt_view(r) == last_ident(idents_view(path@)),
{
    expand_path(path)
}

/// The identifier of the trait of the last bound, if that bound is a trait.
pub fn expand_bounds(bounds: &Vec<TypeBound>) -> (r: Option<String>)
    ensures
        opt_view(r) == bound_name(bounds_view(bounds@)),
{
    if bounds.len() == 0 {
        None
    } else {
        match &bounds[bounds.len() - 1] {
            TypeBound::Trait { path } => expand_path(path),
            TypeBound::Lifetime => None,
        }
    }
}

/// The name under which a variable of type `ty` is filed.
pub fn expand_arg_ty(ty: &ArgType) -> (r: Option<String>)
    requires
        type_nameable(ty@),
    ensures
        opt_view(r) == filed_type_name(ty@),
    decreases ty,
{
    match ty {
        ArgType::Slice => Some(String::from_str("Vec")),
        ArgType::Array => Some(String::from_str("Vec")),
        ArgType::Ptr => Some(String::from_str("Ptr")),
        ArgType::Reference { elem, .. } => expand_arg_ty(&**elem),
        ArgType::BareFn => Some(String::from_str("Fn")),
        ArgType::Never => Some(String::from_str("Never")),
        ArgType::Tuple => Some(String::from_str("Tuple")),
        ArgType::Path { path } => expand_path(path),
        ArgType::TraitObject { bounds } => expand_bounds(bounds),
        ArgType::ImplTrait { bounds } => expand_bounds(bounds),
        ArgType::Paren { elem } => expand_arg_ty(&**elem),
        ArgType::Group { elem } => expand_arg_ty(&**elem),
        ArgType::Infer => Some(String::from_str("Underscore")),
        ArgType::Macro { path } => expand_macro(path),
        ArgType::Verbatim => None,
        ArgType::Other => None,
    }
}

/// Whether an argument is borrowed mutably.
pub fn is_mut_arg(arg: &FnArg) -> (r: bool)
    ensures
        r == is_mut_arg_spec(arg@),
{
    match arg {
        FnArg::Receiver { mutable, .. } => *mutable,
        FnArg::Typed { ty, .. } => match ty {
            ArgType::Reference { mutable, .. } => *mutable,
            _ => false,
        },
    }
}

/// The identifier pattern and the type of a typed argument.
pub fn expand_fn_arg(arg: &FnArg) -> (r: (PatIdent, ArgType))
    requires
        is_ident_arg(arg@),
    ensures
        r.0@ == arg_ident(arg@),
        r.1@ == arg_type(arg@),
{
    match arg {
        FnArg::Typed { pat: ArgPat::Ident(p), ty } => (p.duplicate(), ty.duplicate()),
        _ => {
            assert(false);
            (PatIdent { by_ref: false, mutable: false, ident: String::new() }, ArgType::Other)
        },
    }
}

/// Whether the variable a method call starts from can be found: the receiver
/// leads to a path, and that path has a segment.
pub fn call_target_known(receiver: &CallReceiver) -> (r: bool)
    ensures
        r == (call_name_defined(*receiver) && call_name_spec(*receiver) is Some),
    decreases receiver,
{
    match receiver {
        CallReceiver::Path { path } => path.len() > 0,
        CallReceiver::MethodCall { receiver } => call_target_known(&**receiver),
        CallReceiver::Other => false,
    }
}

/// The variable a method call starts from.
pub fn call_name(receiver: &CallReceiver) -> (r: Option<String>)
    requires
        call_name_defined(*receiver),
    ensures
        opt_view(r) == call_name_spec(*receiver),
    decreases receiver,
{
    match receiver {
        CallReceiver::Path { path } => expand_path(path),
        CallReceiver::MethodCall { receiver } => call_name(&**receiver),
        CallReceiver::Other => None,
    }
}

/// References, parentheses and groups are transparent to the filed type
/// name: `&T`, `&mut T`, `(T)` and a group of `T` are filed as `T` is.
pub proof fn law_filed_name_sees_through(elem: ArgTypeView, mutable: bool)
    ensures
        filed_type_name(ArgTypeView::Reference { mutable, elem: Box::new(elem) }) == filed_type_name(elem),
        filed_type_name(ArgTypeView::Paren { elem: Box::new(elem) }) == filed_type_name(elem),
        filed_type_name(ArgTypeView::Group { elem: Box::new(elem) }) == filed_type_name(elem),
        type_nameable(ArgTypeView::Reference { mutable, elem: Box::new(elem) }) == type_nameable(elem),
{
}

/// A trait object or an `impl Trait` type whose last bound is a trait with a
/// non-empty path is filed under that path's last identifier (both forms
/// alike), and can be named.
pub proof fn law_filed_name_of_bounds(bounds: Seq<TypeBoundView>, p: Seq<Seq<char>>)
    requires
        bounds.len() > 0,
        bounds.last() == (TypeBoundView::Trait { path: p }),
        p.len() > 0,
    ensures
        filed_type_name(ArgTypeView::ImplTrait { bounds }) == Some(p[p.len() - 1]),
        filed_type_name(ArgTypeView::TraitObject { bounds }) == Some(p[p.len() - 1]),
        type_nameable(ArgTypeView::ImplTrait { bounds }),
        type_nameable(ArgTypeView::TraitObject { bounds }),
{
}

/// A trait object or an `impl Trait` type without bounds, or whose last bound
/// is a lifetime or a trait with an empty path, gets no name.
pub proof fn law_no_name_without_trait_bound(bounds: Seq<TypeBoundView>)
    requires
        bounds.len() == 0 || bounds.last() is Lifetime || (bounds.last() matches TypeBoundView::Trait { path } && path.len() == 0),
    ensures
        filed_type_name(ArgTypeView::ImplTrait { bounds }) is None,
        filed_type_name(ArgTypeView::TraitObject { bounds }) is None,
{
}

/// A path type and a macro type are filed under the last identifier of their
/// path, and get no name when the path is empty.
pub proof fn law_filed_name_of_paths(p: Seq<Seq<char>>)
    ensures
        p.len() > 0 ==> filed_type_name(ArgTypeView::Path { path: p }) == Some(p[p.len() - 1]),
        p.len() > 0 ==> filed_type_name(ArgTypeView::Macro { path: p }) == Some(p[p.len() - 1]),
        p.len() == 0 ==> filed_type_name(ArgTypeView::Path { path: p }) is None,
        p.len() == 0 ==> filed_type_name(ArgTypeView::Macro { path: p }) is None,
        type_nameable(ArgTypeView::Path { path: p }),
        type_nameable(ArgTypeView::Macro { path: p }),
{
}

/// The fixed names: slices and arrays are `Vec`, raw pointers `Ptr`, function
/// pointers `Fn`, the never type `Never`, tuples `Tuple` and `_` is
/// `Underscore`; verbatim tokens and unknown forms get no name and cannot be
/// named.
pub proof fn law_filed_name_of_fixed_forms()
    ensures
        filed_type_name(ArgTypeView::Slice) == Some("Vec"@),
        filed_type_name(ArgTypeView::Array) == Some("Vec"@),
        filed_type_name(ArgTypeView::Ptr) == Some("Ptr"@),
        filed_type_name(ArgTypeView::BareFn) == Some("Fn"@),
        filed_type_name(ArgTypeView::Never) == Some("Never"@),
        filed_type_name(ArgTypeView::Tuple) == Some("Tuple"@),
        filed_type_name(ArgTypeView::Infer) == Some("Underscore"@),
        filed_type_name(ArgTypeView::Verbatim) is None,
        filed_type_name(ArgTypeView::Other) is None,
        type_nameable(ArgTypeView::Slice) && type_nameable(ArgTypeView::Array)
            && type_nameable(ArgTypeView::Ptr) && type_nameable(ArgTypeView::BareFn)
            && type_nameable(ArgTypeView::Never) && type_nameable(ArgTypeView::Tuple)
            && type_nameable(ArgTypeView::Infer),
        !type_nameable(ArgTypeView::Verbatim),
        !type_nameable(ArgTypeView::Other),
{
}

/// A type that gets a name can be named: the only types that cannot are those
/// that lead to verbatim tokens or unknown forms, and those get no name.
pub proof fn law_named_types_are_nameable(t: ArgTypeView)
    ensures
        filed_type_name(t) is Some ==> type_nameable(t),
    decreases t,
{
    match t {
        ArgTypeView::Reference { elem, .. } => law_named_types_are_nameable(*elem),
        ArgTypeView::Paren { elem } => law_named_types_are_nameable(*elem),
        ArgTypeView::Group { elem } => law_named_types_are_nameable(*elem),
        _ => {},
    }
}

/// Whether an argument is borrowed mutably depends on its type alone for a
/// typed argument (a `&mut` reference, whatever its pattern), and on the
/// `mut` keyword for a receiver.
pub proof fn law_mut_is_the_borrow(
    pat: ArgPatView,
    ty: ArgTypeView,
    other_pat: ArgPatView,
    reference: bool,
    mutable: bool,
)
    ensures
        is_mut_arg_spec(FnArgView::Typed { pat, ty }) == (ty matches ArgTypeView::Reference {
            mutable: m,
            ..
        } && m),
        is_mut_arg_spec(FnArgView::Typed { pat, ty }) == is_mut_arg_spec(
            FnArgView::Typed { pat: other_pat, ty },
        ),
        is_mut_arg_spec(FnArgView::Receiver { reference, mutable }) == mutable,
{
}

/// The variable a method call starts from is the last identifier of the path
/// at the root of its receiver chain, however many calls are chained.
pub proof fn law_call_name_is_root_path(p: Vec<String>, r: CallReceiver)
    ensures
        idents_view(p@).len() > 0 ==> call_name_spec(CallReceiver::Path { path: p }) == Some(
            p@[p@.len() - 1]@,
        ),
        call_name_spec(CallReceiver::MethodCall { receiver: Box::new(r) }) == call_name_spec(r),
        call_name_spec(CallReceiver::Other) is None,
{
}

} // verus!
