//! The arguments of an instrumented function: which are borrowed mutably, and
//! what the stepper records of each.
use vstd::prelude::*;

use crate::collect::DebugCollect;
use crate::meta::{ArgMeta, ArgMetaView};
use crate::syntax::{
    arg_ident, arg_type, args_view, copy_idents, expand_arg_ty, expand_fn_arg, filed_type_name,
    is_ident_arg, is_mut_arg, is_mut_arg_spec, pats_view, type_nameable, ArgPat, ArgType, FnArg,
    FnArgView, PatIdent, PatIdentView,
};

verus! {

broadcast use vstd::seq_lib::group_seq_properties;

// ---------------------------------------------------------------------------
// Specifications
// ---------------------------------------------------------------------------

/// The arguments that are borrowed mutably, in their order.
pub open spec fn mut_args_of(s: Seq<FnArgView>) -> Seq<FnArgView> {
    s.filter(|a: FnArgView| is_mut_arg_spec(a))
}

/// The other arguments, in their order.
pub open spec fn non_mut_args_of(s: Seq<FnArgView>) -> Seq<FnArgView> {
    s.filter(|a: FnArgView| !is_mut_arg_spec(a))
}

/// The identifier patterns of a sequence of arguments.
pub open spec fn arg_idents_of(s: Seq<FnArgView>) -> Seq<PatIdentView> {
    s.map_values(|a: FnArgView| arg_ident(a))
}

/// The stepper can record an argument: it is bound by an identifier and its
/// type has a name.
pub open spec fn capturable(a: FnArgView) -> bool {
    &&& is_ident_arg(a)
    &&& type_nameable(arg_type(a))
    &&& filed_type_name(arg_type(a)) is Some
}

/// The record that the stepper keeps of an argument of the function `scope`.
pub open spec fn arg_record(a: FnArgView, scope: Seq<char>) -> ArgMetaView {
    ArgMetaView { ty: filed_type_name(arg_type(a)).unwrap(), scope }
}

/// The table `m` after filing each argument of `s`, in order, under its name.
pub open spec fn captured(
    m: Map<Seq<char>, ArgMetaView>,
    s: Seq<FnArgView>,
    scope: Seq<char>,
) -> Map<Seq<char>, ArgMetaView>
    decreases s.len(),
{
    if s.len() == 0 {
        m
    } else {
        captured(m, s.drop_last(), scope).insert(
            arg_ident(s.last()).ident,
            arg_record(s.last(), scope),
        )
    }
}

/// The identifier pattern with `_` put before its identifier.
pub open spec fn underscored(p: PatIdentView) -> PatIdentView {
    PatIdentView { by_ref: p.by_ref, mutable: p.mutable, ident: seq!['_'] + p.ident }
}

/// The identifiers of a sequence of patterns.
pub open spec fn pat_names(s: Seq<PatIdentView>) -> Seq<Seq<char>> {
    s.map_values(|p: PatIdentView| p.ident)
}

/// The views of a sequence of strings.
pub open spec fn strings_view(s: Seq<String>) -> Seq<Seq<char>> {
    s.map_values(|x: String| x@)
}

// ---------------------------------------------------------------------------
// Lemmas on filtering
// ---------------------------------------------------------------------------

/// Filtering keeps a property that every element has.
proof fn lemma_filter_keeps(s: Seq<FnArgView>, p: spec_fn(FnArgView) -> bool, q: spec_fn(FnArgView) -> bool)
    requires
        forall|i: int| 0 <= i < s.len() ==> q(#[trigger] s[i]),
    ensures
        forall|i: int| 0 <= i < s.filter(p).len() ==> q(#[trigger] s.filter(p)[i]),
    decreases s.len(),
{
    reveal(Seq::filter);
    if s.len() > 0 {
        let t = s.drop_last();
        assert forall|i: int| 0 <= i < t.len() implies q(#[trigger] t[i]) by {
            assert(t[i] == s[i]);
        }
        lemma_filter_keeps(t, p, q);
        assert(q(s[s.len() - 1]));
        let ft = t.filter(p);
        assert forall|i: int| 0 <= i < s.filter(p).len() implies q(#[trigger] s.filter(p)[i]) by {
            if i < ft.len() {
                assert(s.filter(p)[i] == ft[i]);
            }
        }
    }
}

/// One step of a filter over a growing prefix.
proof fn lemma_filter_take_step(s: Seq<FnArgView>, p: spec_fn(FnArgView) -> bool, i: int)
    requires
        0 <= i < s.len(),
    ensures
        s.take(i + 1).filter(p) == if p(s[i]) {
            s.take(i).filter(p).push(s[i])
        } else {
            s.take(i).filter(p)
        },
{
    reveal(Seq::filter);
    assert(s.take(i + 1).drop_last() =~= s.take(i));
}

/// The two parts of the split are as long together as the arguments.
pub proof fn law_split_len(s: Seq<FnArgView>)
    ensures
        mut_args_of(s).len() + non_mut_args_of(s).len() == s.len(),
    decreases s.len(),
{
    reveal(Seq::filter);
    if s.len() > 0 {
        law_split_len(s.drop_last());
    }
}

/// Splitting the arguments neither loses nor duplicates one: together the
/// two parts hold each argument exactly as often as the signature does.
pub proof fn law_split_is_partition(s: Seq<FnArgView>)
    ensures
        mut_args_of(s).to_multiset().add(non_mut_args_of(s).to_multiset()) =~= s.to_multiset(),
        forall|i: int| 0 <= i < mut_args_of(s).len() ==> is_mut_arg_spec(#[trigger] mut_args_of(s)[i]),
        forall|i: int|
            0 <= i < non_mut_args_of(s).len() ==> !is_mut_arg_spec(#[trigger] non_mut_args_of(s)[i]),
    decreases s.len(),
{
    broadcast use vstd::multiset::group_multiset_axioms;
    broadcast use vstd::seq_lib::group_to_multiset_ensures;
    reveal(Seq::filter);
    if s.len() > 0 {
        let t = s.drop_last();
        law_split_is_partition(t);
        assert(s =~= t.push(s.last()));
    }
    broadcast use vstd::seq_lib::group_filter_ensures;
}

// ---------------------------------------------------------------------------
// The names of the captured arguments
// ---------------------------------------------------------------------------

/// The identifier patterns of the arguments, and what the instrumentation
/// derives from them: the patterns renamed with a leading `_` (the copies the
/// printers hold) and the names under which the printers are registered.
pub struct ArgIdents {
    pub non_mut_args: Vec<PatIdent>,
    pub mut_args: Vec<PatIdent>,
    pub mut_under: Vec<PatIdent>,
    pub non_mut_under: Vec<PatIdent>,
    pub mut_string: Vec<String>,
    pub non_mut_string: Vec<String>,
}

/// A copy of a sequence of identifier patterns.
pub fn copy_pats(v: &Vec<PatIdent>) -> (r: Vec<PatIdent>)
    ensures
        pats_view(r@) == pats_view(v@),
{
    let mut r: Vec<PatIdent> = Vec::new();
    let mut i: usize = 0;
    while i < v.len()
        invariant
            i <= v.len(),
            r.len() == i,
            forall|j: int| 0 <= j < i ==> (#[trigger] r@[j])@ == v@[j]@,
        decreases v.len() - i,
    {
        r.push(v[i].duplicate());
        i = i + 1;
    }
    assert(pats_view(r@) =~= pats_view(v@));
    r
}

/// The patterns with `_` put before each identifier.
fn underscore_all(v: &Vec<PatIdent>) -> (r: Vec<PatIdent>)
    ensures
        pats_view(r@) == pats_view(v@).map_values(|p: PatIdentView| underscored(p)),
{
    let mut r: Vec<PatIdent> = Vec::new();
    let mut i: usize = 0;
    proof {
        reveal_strlit("_");
    }
    while i < v.len()
        invariant
            i <= v.len(),
            r.len() == i,
            "_"@ == seq!['_'],
            forall|j: int| 0 <= j < i ==> (#[trigger] r@[j])@ == underscored(v@[j]@),
        decreases v.len() - i,
    {
        let mut name = String::from_str("_");
        name.append(v[i].ident.as_str());
        r.push(PatIdent { by_ref: v[i].by_ref, mutable: v[i].mutable, ident: name });
        i = i + 1;
    }
    assert(pats_view(r@) =~= pats_view(v@).map_values(|p: PatIdentView| underscored(p)));
    r
}

/// The identifiers of the patterns.
fn names_of(v: &Vec<PatIdent>) -> (r: Vec<String>)
    ensures
        strings_view(r@) == pat_names(pats_view(v@)),
{
    let mut r: Vec<String> = Vec::new();
    let mut i: usize = 0;
    while i < v.len()
        invariant
            i <= v.len(),
            r.len() == i,
            forall|j: int| 0 <= j < i ==> (#[trigger] r@[j])@ == v@[j].ident@,
        decreases v.len() - i,
    {
        r.push(v[i].ident.clone());
        i = i + 1;
    }
    assert(strings_view(r@) =~= pat_names(pats_view(v@)));
    r
}

/// A copy of a sequence of strings.
fn copy_strings(v: &Vec<String>) -> (r: Vec<String>)
    ensures
        r@ == v@,
{
    copy_idents(v)
}

impl ArgIdents {
    /// `self` holds `non_mut` and `mut_` and what is derived from them.
    pub open spec fn built_from(self, non_mut: Seq<PatIdentView>, mut_: Seq<PatIdentView>) -> bool {
        &&& pats_view(self.non_mut_args@) == non_mut
        &&& pats_view(self.mut_args@) == mut_
        &&& pats_view(self.non_mut_under@) == non_mut.map_values(|p: PatIdentView| underscored(p))
        &&& pats_view(self.mut_under@) == mut_.map_values(|p: PatIdentView| underscored(p))
        &&& strings_view(self.non_mut_string@) == pat_names(non_mut)
        &&& strings_view(self.mut_string@) == pat_names(mut_)
    }

    pub fn new(non_mut_args: Vec<PatIdent>, mut_args: Vec<PatIdent>) -> (r: Self)
        ensures
            r.built_from(pats_view(non_mut_args@), pats_view(mut_args@)),
    {
        let non_mut_under = underscore_all(&non_mut_args);
        let non_mut_string = names_of(&non_mut_args);
        let mut_under = underscore_all(&mut_args);
        let mut_string = names_of(&mut_args);
        ArgIdents { non_mut_args, mut_args, mut_under, non_mut_under, mut_string, non_mut_string }
    }

    /// The printer names: those of the mutably borrowed arguments, then the others.
    pub fn arg_string(&self) -> (r: (Vec<String>, Vec<String>))
        ensures
            r.0@ == self.mut_string@,
            r.1@ == self.non_mut_string@,
    {
        (copy_strings(&self.mut_string), copy_strings(&self.non_mut_string))
    }

    /// The renamed patterns: those of the mutably borrowed arguments, then the others.
    pub fn arg_private(&self) -> (r: (Vec<PatIdent>, Vec<PatIdent>))
        ensures
            pats_view(r.0@) == pats_view(self.mut_under@),
            pats_view(r.1@) == pats_view(self.non_mut_under@),
    {
        (copy_pats(&self.mut_under), copy_pats(&self.non_mut_under))
    }

    /// The patterns as written: those of the mutably borrowed arguments, then the others.
    pub fn arg_original(&self) -> (r: (Vec<PatIdent>, Vec<PatIdent>))
        ensures
            pats_view(r.0@) == pats_view(self.mut_args@),
            pats_view(r.1@) == pats_view(self.non_mut_args@),
    {
        (copy_pats(&self.mut_args), copy_pats(&self.non_mut_args))
    }

    /// For the mutably borrowed arguments: the patterns, the renamed
    /// patterns and the printer names.
    pub fn new_mut_decl(&self) -> (r: (Vec<PatIdent>, Vec<PatIdent>, Vec<String>))
        ensures
            pats_view(r.0@) == pats_view(self.mut_args@),
            pats_view(r.1@) == pats_view(self.mut_under@),
            r.2@ == self.mut_string@,
    {
        let (m_a, _) = self.arg_original();
        let (p_a, _) = self.arg_private();
        let (s_a, _) = self.arg_string();
        (m_a, p_a, s_a)
    }

    /// For the other arguments: the patterns, the renamed patterns and the
    /// printer names.
    pub fn new_decl(&self) -> (r: (Vec<PatIdent>, Vec<PatIdent>, Vec<String>))
        ensures
            pats_view(r.0@) == pats_view(self.non_mut_args@),
            pats_view(r.1@) == pats_view(self.non_mut_under@),
            r.2@ == self.non_mut_string@,
    {
        let (_, o_a) = self.arg_original();
        let (_, p_a) = self.arg_private();
        let (_, s_a) = self.arg_string();
        (o_a, p_a, s_a)
    }
}

// ---------------------------------------------------------------------------
// The arguments of one function
// ---------------------------------------------------------------------------

/// The arguments of the function `scope`, as written, and split into those
/// that are borrowed mutably and the others.
pub struct Args {
    orig_args: Vec<FnArg>,
    mut_args: Vec<FnArg>,
    args: Vec<FnArg>,
    scope: String,
}

/// A copy of a sequence of arguments.
pub fn copy_args(v: &Vec<FnArg>) -> (r: Vec<FnArg>)
    ensures
        args_view(r@) == args_view(v@),
{
    let mut r: Vec<FnArg> = Vec::new();
    let mut i: usize = 0;
    while i < v.len()
        invariant
            i <= v.len(),
            r.len() == i,
            forall|j: int| 0 <= j < i ==> (#[trigger] r@[j])@ == v@[j]@,
        decreases v.len() - i,
    {
        r.push(v[i].duplicate());
        i = i + 1;
    }
    assert(args_view(r@) =~= args_view(v@));
    r
}

impl Args {
    /// The arguments as written.
    pub closed spec fn spec_orig(&self) -> Seq<FnArgView> {
        args_view(self.orig_args@)
    }

    /// The arguments that are borrowed mutably.
    pub closed spec fn spec_mut(&self) -> Seq<FnArgView> {
        args_view(self.mut_args@)
    }

    /// The other arguments.
    pub closed spec fn spec_non_mut(&self) -> Seq<FnArgView> {
        args_view(self.args@)
    }

    /// The name of the function the arguments belong to.
    pub closed spec fn spec_scope(&self) -> Seq<char> {
        self.scope@
    }

    /// The split is that of the arguments as written.
    pub open spec fn wf(&self) -> bool {
        &&& self.spec_mut() == mut_args_of(self.spec_orig())
        &&& self.spec_non_mut() == non_mut_args_of(self.spec_orig())
    }

    /// Every argument as written can be recorded by the stepper.
    pub open spec fn all_capturable(&self) -> bool {
        forall|i: int| 0 <= i < self.spec_orig().len() ==> capturable(#[trigger] self.spec_orig()[i])
    }

    /// The arguments of the function `scope`, split.
    pub fn new(scope: String, args: Vec<FnArg>) -> (r: Self)
        ensures
            r.wf(),
            r.spec_orig() == args_view(args@),
            r.spec_scope() == scope@,
    {
        let ghost av = args_view(args@);
        let mut ret = Args {
            orig_args: Vec::new(),
            mut_args: Vec::new(),
            args: Vec::new(),
            scope,
        };
        let mut i: usize = 0;
        while i < args.len()
            invariant
                i <= args.len(),
                av == args_view(args@),
                ret.scope@ == scope@,
                ret.spec_orig() == Seq::<FnArgView>::empty(),
                ret.spec_mut() == av.take(i as int).filter(|a: FnArgView| is_mut_arg_spec(a)),
                ret.spec_non_mut() == av.take(i as int).filter(|a: FnArgView| !is_mut_arg_spec(a)),
            decreases args.len() - i,
        {
            proof {
                lemma_filter_take_step(av, |a: FnArgView| is_mut_arg_spec(a), i as int);
                lemma_filter_take_step(av, |a: FnArgView| !is_mut_arg_spec(a), i as int);
            }
            ret.push_mut_else(args[i].duplicate());
            i = i + 1;
        }
        assert(av.take(args.len() as int) =~= av);
        ret.orig_args = args;
        ret
    }

    /// Puts `arg` at the end of the part it belongs to.
    fn push_mut_else(&mut self, arg: FnArg)
        ensures
            final(self).spec_orig() == old(self).spec_orig(),
            final(self).spec_scope() == old(self).spec_scope(),
            is_mut_arg_spec(arg@) ==> final(self).spec_mut() == old(self).spec_mut().push(arg@)
                && final(self).spec_non_mut() == old(self).spec_non_mut(),
            !is_mut_arg_spec(arg@) ==> final(self).spec_non_mut() == old(self).spec_non_mut().push(
                arg@,
            ) && final(self).spec_mut() == old(self).spec_mut(),
    {
        if is_mut_arg(&arg) {
            self.mut_args.push(arg);
            assert(args_view(self.mut_args@) =~= args_view(old(self).mut_args@).push(arg@));
        } else {
            self.args.push(arg);
            assert(args_view(self.args@) =~= args_view(old(self).args@).push(arg@));
        }
    }

    /// The arguments that are borrowed mutably.
    pub fn mut_args(&self) -> (r: Vec<FnArg>)
        ensures
            args_view(r@) == self.spec_mut(),
    {
        copy_args(&self.mut_args)
    }

    /// The other arguments.
    pub fn non_mut_args(&self) -> (r: Vec<FnArg>)
        ensures
            args_view(r@) == self.spec_non_mut(),
    {
        copy_args(&self.args)
    }

    /// The arguments as written.
    pub fn orig_args(&self) -> (r: Vec<FnArg>)
        ensures
            args_view(r@) == self.spec_orig(),
    {
        copy_args(&self.orig_args)
    }
}

/// The identifier patterns of arguments that are all bound by identifiers.
fn pat_idents(v: &Vec<FnArg>) -> (r: Vec<PatIdent>)
    requires
        forall|i: int| 0 <= i < v@.len() ==> is_ident_arg(#[trigger] v@[i]@),
    ensures
        pats_view(r@) == arg_idents_of(args_view(v@)),
{
    let mut r: Vec<PatIdent> = Vec::new();
    let mut i: usize = 0;
    while i < v.len()
        invariant
            i <= v.len(),
            r.len() == i,
            forall|j: int| 0 <= j < v@.len() ==> is_ident_arg(#[trigger] v@[j]@),
            forall|j: int| 0 <= j < i ==> (#[trigger] r@[j])@ == arg_ident(v@[j]@),
        decreases v.len() - i,
    {
        let (id, _ty) = expand_fn_arg(&v[i]);
        r.push(id);
        i = i + 1;
    }
    assert(pats_view(r@) =~= arg_idents_of(args_view(v@)));
    r
}

/// Whether the type can be named (it leads to no verbatim tokens and no
/// unknown type form).
fn nameable(ty: &ArgType) -> (r: bool)
    ensures
        r == type_nameable(ty@),
    decreases ty,
{
    match ty {
        ArgType::Reference { elem, .. } => nameable(&**elem),
        ArgType::Paren { elem } => nameable(&**elem),
        ArgType::Group { elem } => nameable(&**elem),
        ArgType::Verbatim => false,
        ArgType::Other => false,
        _ => true,
    }
}

/// Whether the stepper can record the argument.
pub fn is_capturable(arg: &FnArg) -> (r: bool)
    ensures
        r == capturable(arg@),
{
    match arg {
        FnArg::Typed { pat: ArgPat::Ident(_), ty } => {
            if nameable(ty) {
                expand_arg_ty(ty).is_some()
            } else {
                false
            }
        },
        _ => false,
    }
}

impl Args {
    /// Whether every argument can be recorded by the stepper.
    pub fn can_capture(&self) -> (r: bool)
        ensures
            r == self.all_capturable(),
    {
        let mut i: usize = 0;
        while i < self.orig_args.len()
            invariant
                i <= self.orig_args@.len(),
                forall|j: int| 0 <= j < i ==> capturable(#[trigger] self.spec_orig()[j]),
            decreases self.orig_args@.len() - i,
        {
            if !is_capturable(&self.orig_args[i]) {
                assert(!capturable(self.spec_orig()[i as int]));
                return false;
            }
            i = i + 1;
        }
        true
    }

    /// Files every argument in `dbg` under its name, with its type name and
    /// this function as its scope, and returns the names of the arguments,
    /// split as the arguments are.
    pub fn capture_args(&self, dbg: &mut DebugCollect) -> (r: ArgIdents)
        requires
            self.wf(),
            self.all_capturable(),
            old(dbg).wf(),
        ensures
            final(dbg).wf(),
            final(dbg)@ == captured(old(dbg)@, self.spec_orig(), self.spec_scope()),
            r.built_from(arg_idents_of(self.spec_non_mut()), arg_idents_of(self.spec_mut())),
    {
        let ghost s = self.spec_orig();
        let ghost m0 = dbg@;
        let mut i: usize = 0;
        while i < self.orig_args.len()
            invariant
                i <= self.orig_args@.len(),
                s == self.spec_orig(),
                self.all_capturable(),
                dbg.wf(),
                dbg@ == captured(m0, s.take(i as int), self.spec_scope()),
            decreases self.orig_args@.len() - i,
        {
            assert(capturable(s[i as int]));
            let (arg_id, ty) = expand_fn_arg(&self.orig_args[i]);
            let name = arg_id.ident;
            let scope = self.scope.clone();
            let ty_name = expand_arg_ty(&ty);
            let am = ArgMeta::new(ty_name.unwrap(), scope);
            dbg.insert(name, am);
            i = i + 1;
            assert(s.take(i as int).drop_last() =~= s.take(i - 1));
        }
        assert(s.take(self.orig_args@.len() as int) =~= s);
        proof {
            lemma_filter_keeps(s, |a: FnArgView| is_mut_arg_spec(a), |a: FnArgView| capturable(a));
            lemma_filter_keeps(s, |a: FnArgView| !is_mut_arg_spec(a), |a: FnArgView| capturable(a));
            assert forall|j: int| 0 <= j < self.mut_args@.len() implies is_ident_arg(
                #[trigger] self.mut_args@[j]@,
            ) by {
                assert(self.spec_mut()[j] == self.mut_args@[j]@);
            }
            assert forall|j: int| 0 <= j < self.args@.len() implies is_ident_arg(
                #[trigger] self.args@[j]@,
            ) by {
                assert(self.spec_non_mut()[j] == self.args@[j]@);
            }
        }
        let m_args = pat_idents(&self.mut_args);
        let non_m_args = pat_idents(&self.args);
        ArgIdents::new(non_m_args, m_args)
    }
}

/// Filing the arguments files every one of them, under its name, and
/// nothing else: a name is in the table afterwards exactly when it was before
/// or names an argument. When the names of the arguments are distinct, each
/// is filed with its own type name and scope.
pub proof fn law_captured_files_every_arg(
    m: Map<Seq<char>, ArgMetaView>,
    s: Seq<FnArgView>,
    scope: Seq<char>,
    k: Seq<char>,
)
    ensures
        forall|i: int| 0 <= i < s.len() ==> #[trigger] captured(m, s, scope).contains_key(
            arg_ident(s[i]).ident,
        ),
        captured(m, s, scope).contains_key(k) <==> (m.contains_key(k) || exists|i: int|
            0 <= i < s.len() && #[trigger] arg_ident(s[i]).ident == k),
        (forall|i: int, j: int|
            0 <= i < j < s.len() ==> #[trigger] arg_ident(s[i]).ident != #[trigger] arg_ident(
                s[j],
            ).ident) ==> forall|i: int|
            0 <= i < s.len() ==> #[trigger] captured(m, s, scope)[arg_ident(s[i]).ident]
                == arg_record(s[i], scope),
    decreases s.len(),
{
    if s.len() > 0 {
        let t = s.drop_last();
        law_captured_files_every_arg(m, t, scope, k);
        let last = arg_ident(s.last()).ident;
        assert forall|i: int| 0 <= i < s.len() implies #[trigger] captured(
            m,
            s,
            scope,
        ).contains_key(arg_ident(s[i]).ident) by {
            if i < s.len() - 1 {
                assert(t[i] == s[i]);
                assert(captured(m, t, scope).contains_key(arg_ident(t[i]).ident));
            }
        }
        if captured(m, s, scope).contains_key(k) && !m.contains_key(k) {
            if k == last {
                assert(arg_ident(s[s.len() - 1]).ident == k);
            } else {
                assert(captured(m, t, scope).contains_key(k));
                let i = choose|i: int| 0 <= i < t.len() && #[trigger] arg_ident(t[i]).ident == k;
                assert(s[i] == t[i]);
            }
        }
        if exists|i: int| 0 <= i < s.len() && #[trigger] arg_ident(s[i]).ident == k {
            let i = choose|i: int| 0 <= i < s.len() && #[trigger] arg_ident(s[i]).ident == k;
            assert(captured(m, s, scope).contains_key(arg_ident(s[i]).ident));
        }
        if m.contains_key(k) && k != last {
            assert(captured(m, t, scope).contains_key(k));
        }
        if forall|i: int, j: int|
            0 <= i < j < s.len() ==> #[trigger] arg_ident(s[i]).ident != #[trigger] arg_ident(
                s[j],
            ).ident {
            assert forall|i: int, j: int|
                0 <= i < j < t.len() implies #[trigger] arg_ident(t[i]).ident != #[trigger] arg_ident(
                t[j],
            ).ident by {
                assert(t[i] == s[i] && t[j] == s[j]);
            }
            assert forall|i: int| 0 <= i < s.len() implies #[trigger] captured(m, s, scope)[arg_ident(
                s[i],
            ).ident] == arg_record(s[i], scope) by {
                if i < s.len() - 1 {
                    assert(t[i] == s[i]);
                    assert(arg_ident(s[i]).ident != arg_ident(s[s.len() - 1]).ident);
                    assert(captured(m, t, scope)[arg_ident(t[i]).ident] == arg_record(t[i], scope));
                }
            }
        }
    }
}

/// The printer names and renamed patterns correspond one to one with the
/// arguments' patterns: the `i`-th printer name is the `i`-th identifier, the
/// `i`-th renamed pattern is the `i`-th pattern with `_` before its name.
pub proof fn law_idents_correspond(r: ArgIdents, non_mut: Seq<PatIdentView>, mut_: Seq<PatIdentView>)
    requires
        r.built_from(non_mut, mut_),
    ensures
        r.non_mut_string@.len() == non_mut.len(),
        r.mut_string@.len() == mut_.len(),
        r.non_mut_under@.len() == non_mut.len(),
        r.mut_under@.len() == mut_.len(),
        forall|i: int| 0 <= i < non_mut.len() ==> #[trigger] r.non_mut_string@[i]@ == non_mut[i].ident,
        forall|i: int| 0 <= i < mut_.len() ==> #[trigger] r.mut_string@[i]@ == mut_[i].ident,
        forall|i: int|
            0 <= i < non_mut.len() ==> (#[trigger] r.non_mut_under@[i])@ == underscored(non_mut[i]),
        forall|i: int| 0 <= i < mut_.len() ==> (#[trigger] r.mut_under@[i])@ == underscored(mut_[i]),
{
    assert(strings_view(r.non_mut_string@).len() == r.non_mut_string@.len());
    assert(strings_view(r.mut_string@).len() == r.mut_string@.len());
    assert(pats_view(r.non_mut_under@).len() == r.non_mut_under@.len());
    assert(pats_view(r.mut_under@).len() == r.mut_under@.len());
    assert forall|i: int| 0 <= i < non_mut.len() implies #[trigger] r.non_mut_string@[i]@
        == non_mut[i].ident by {
        assert(strings_view(r.non_mut_string@)[i] == pat_names(non_mut)[i]);
    }
    assert forall|i: int| 0 <= i < mut_.len() implies #[trigger] r.mut_string@[i]@
        == mut_[i].ident by {
        assert(strings_view(r.mut_string@)[i] == pat_names(mut_)[i]);
    }
    assert forall|i: int| 0 <= i < non_mut.len() implies (#[trigger] r.non_mut_under@[i])@
        == underscored(non_mut[i]) by {
        assert(pats_view(r.non_mut_under@)[i] == non_mut.map_values(
            |p: PatIdentView| underscored(p),
        )[i]);
    }
    assert forall|i: int| 0 <= i < mut_.len() implies (#[trigger] r.mut_under@[i])@ == underscored(
        mut_[i],
    ) by {
        assert(pats_view(r.mut_under@)[i] == mut_.map_values(|p: PatIdentView| underscored(p))[i]);
    }
}

/// The names of a sequence of arguments.
pub open spec fn arg_names(s: Seq<FnArgView>) -> Seq<Seq<char>> {
    pat_names(arg_idents_of(s))
}

/// The names under which the printers are registered (those of the
/// mutably borrowed arguments and those of the others) are exactly the names
/// that filing the arguments adds to the table.
pub proof fn law_printer_names_match_table(
    m: Map<Seq<char>, ArgMetaView>,
    s: Seq<FnArgView>,
    scope: Seq<char>,
)
    ensures
        forall|k: Seq<char>|
            captured(m, s, scope).contains_key(k) <==> (m.contains_key(k) || arg_names(
                mut_args_of(s),
            ).contains(k) || arg_names(non_mut_args_of(s)).contains(k)),
{
    broadcast use vstd::seq_lib::group_filter_ensures;
    let pm = |a: FnArgView| is_mut_arg_spec(a);
    let pn = |a: FnArgView| !is_mut_arg_spec(a);
    let inside = |a: FnArgView| s.contains(a);
    assert forall|i: int| 0 <= i < s.len() implies inside(#[trigger] s[i]) by {
        assert(s.contains(s[i]));
    }
    lemma_filter_keeps(s, pm, inside);
    lemma_filter_keeps(s, pn, inside);
    assert forall|k: Seq<char>|
        captured(m, s, scope).contains_key(k) <==> (m.contains_key(k) || arg_names(
            mut_args_of(s),
        ).contains(k) || arg_names(non_mut_args_of(s)).contains(k)) by {
        law_captured_files_every_arg(m, s, scope, k);
        let fm = mut_args_of(s);
        let fnm = non_mut_args_of(s);
        if exists|i: int| 0 <= i < s.len() && #[trigger] arg_ident(s[i]).ident == k {
            let i = choose|i: int| 0 <= i < s.len() && #[trigger] arg_ident(s[i]).ident == k;
            if is_mut_arg_spec(s[i]) {
                assert(fm.contains(s[i]));
                let j = choose|j: int| 0 <= j < fm.len() && fm[j] == s[i];
                assert(arg_names(fm)[j] == k);
            } else {
                assert(fnm.contains(s[i]));
                let j = choose|j: int| 0 <= j < fnm.len() && fnm[j] == s[i];
                assert(arg_names(fnm)[j] == k);
            }
        }
        if arg_names(fm).contains(k) {
            let j = choose|j: int| 0 <= j < arg_names(fm).len() && arg_names(fm)[j] == k;
            assert(inside(fm[j]));
            let i = choose|i: int| 0 <= i < s.len() && s[i] == fm[j];
            assert(arg_ident(s[i]).ident == k);
        }
        if arg_names(fnm).contains(k) {
            let j = choose|j: int| 0 <= j < arg_names(fnm).len() && arg_names(fnm)[j] == k;
            assert(inside(fnm[j]));
            let i = choose|i: int| 0 <= i < s.len() && s[i] == fnm[j];
            assert(arg_ident(s[i]).ident == k);
        }
    }
}

/// An identifier-bound argument can be recorded exactly when its type gets
/// a name; other arguments (receivers, other patterns) cannot.
pub proof fn law_capturable_iff_named(a: FnArgView)
    ensures
        capturable(a) <==> (is_ident_arg(a) && filed_type_name(arg_type(a)) is Some),
{
    if is_ident_arg(a) {
        crate::syntax::law_named_types_are_nameable(arg_type(a));
    }
}

/// The record filed for an argument holds its type's name and the function's
/// name, nothing else.
pub proof fn law_arg_record_fields(a: FnArgView, scope: Seq<char>)
    ensures
        arg_record(a, scope).ty == filed_type_name(arg_type(a)).unwrap(),
        arg_record(a, scope).scope == scope,
{
}

/// The renamed pattern keeps the flags and puts exactly one `_` before the
/// identifier.
pub proof fn law_underscored_fields(p: PatIdentView)
    ensures
        underscored(p).by_ref == p.by_ref,
        underscored(p).mutable == p.mutable,
        underscored(p).ident.len() == p.ident.len() + 1,
        underscored(p).ident[0] == '_',
        underscored(p).ident.subrange(1, underscored(p).ident.len() as int) == p.ident,
{
    assert(underscored(p).ident.subrange(1, underscored(p).ident.len() as int) =~= p.ident);
}

/// The two parts of the split are the arguments whose type is a `&mut`
/// reference (or receivers with `mut`) and the others, each in the order of
/// the signature.
pub proof fn law_split_by_borrow(s: Seq<FnArgView>)
    ensures
        forall|i: int|
            0 <= i < mut_args_of(s).len() ==> #[trigger] is_mut_arg_spec(mut_args_of(s)[i]),
        forall|i: int|
            0 <= i < non_mut_args_of(s).len() ==> !#[trigger] is_mut_arg_spec(non_mut_args_of(s)[i]),
        forall|i: int| 0 <= i < s.len() && is_mut_arg_spec(s[i]) ==> #[trigger] mut_args_of(s).contains(s[i]),
        forall|i: int| 0 <= i < s.len() && !is_mut_arg_spec(s[i]) ==> #[trigger] non_mut_args_of(s).contains(s[i]),
{
    broadcast use vstd::seq_lib::group_filter_ensures;
    law_split_is_partition(s);
}

} // verus!
