//! Rewriting the body of an instrumented function.
//!
//! The body's syntax tree is walked by the caller; this module holds what the
//! walk collects and decides what each step of the walk does. The statements
//! are collected in the order in which the walk meets them, which is their
//! order in the source; a break point (a call of the `bp` macro) replaces the
//! statement met last by a call of the stepper, and a method call replaces it
//! by the same call made on the captured copy of the variable it starts from.
use vstd::prelude::*;

use crate::args::{
    arg_idents_of, captured, law_printer_names_match_table, strings_view, ArgIdents, Args,
};
use crate::collect::DebugCollect;
use crate::meta::ArgMetaView;
use crate::syntax::{
    args_view, call_name, call_name_defined, call_name_spec, expand_macro, idents_view, last_ident,
    CallReceiver, FnArg,
};

verus! {

/// A statement of the rewritten body.
pub enum BodyStmt {
    /// The statement met as the `id`-th (counting from 0) by the walk,
    /// as written.
    Kept { id: usize },
    /// A call of the stepper: `dbg.step(&print_map).unwrap();`.
    Step,
    /// The method call met at `site`, made on the captured copy `target`.
    UnsafeCall { target: String, site: usize },
}

pub enum BodyStmtView {
    Kept { id: usize },
    Step,
    UnsafeCall { target: Seq<char>, site: usize },
}

impl View for BodyStmt {
    type V = BodyStmtView;

    open spec fn view(&self) -> BodyStmtView {
        match self {
            BodyStmt::Kept { id } => BodyStmtView::Kept { id: *id },
            BodyStmt::Step => BodyStmtView::Step,
            BodyStmt::UnsafeCall { target, site } => BodyStmtView::UnsafeCall {
                target: target@,
                site: *site,
            },
        }
    }
}

impl BodyStmt {
    pub fn duplicate(&self) -> (r: Self)
        ensures
            r@ == self@,
    {
        match self {
            BodyStmt::Kept { id } => BodyStmt::Kept { id: *id },
            BodyStmt::Step => BodyStmt::Step,
            BodyStmt::UnsafeCall { target, site } => BodyStmt::UnsafeCall {
                target: target.clone(),
                site: *site,
            },
        }
    }
}

/// The views of a sequence of statements.
pub open spec fn stmts_view(s: Seq<BodyStmt>) -> Seq<BodyStmtView> {
    s.map_values(|b: BodyStmt| b@)
}

/// `s` with its last statement replaced by `new`, when it has one.
pub open spec fn replace_last(s: Seq<BodyStmtView>, new: BodyStmtView) -> Seq<BodyStmtView> {
    if s.len() > 0 {
        s.update(s.len() - 1, new)
    } else {
        s
    }
}

/// Whether a macro path names the break point macro.
pub open spec fn is_break_point(path: Seq<Seq<char>>) -> bool {
    last_ident(path) == Some("bp"@)
}

/// The instrumentation of one function or closure.
pub struct VisitDebug {
    is_function: bool,
    stmts: Vec<BodyStmt>,
    args: Option<Args>,
    dbg_col: DebugCollect,
}

/// What the rewritten function is made of: the names of its arguments, the
/// table of inspectable variables and the rewritten statements.
pub struct FnPlan {
    pub idents: ArgIdents,
    pub collect: DebugCollect,
    pub body: Vec<BodyStmt>,
}

impl VisitDebug {
    /// The collected statements, in the order in which they were met.
    pub closed spec fn spec_stmts(&self) -> Seq<BodyStmtView> {
        stmts_view(self.stmts@)
    }

    pub closed spec fn spec_is_func(&self) -> bool {
        self.is_function
    }

    /// The arguments of the function, until they are captured.
    pub closed spec fn spec_args(&self) -> Option<Args> {
        self.args
    }

    /// The table of inspectable variables.
    pub closed spec fn spec_collect(&self) -> Map<Seq<char>, ArgMetaView> {
        self.dbg_col@
    }

    /// The table of inspectable variables is well formed.
    pub closed spec fn spec_collect_wf(&self) -> bool {
        self.dbg_col.wf()
    }

    /// Internal consistency: a function's arguments are split as written,
    /// and the table is well formed.
    pub open spec fn wf(&self) -> bool {
        &&& self.spec_is_func() ==> (self.spec_args() matches Some(a) && a.wf())
        &&& self.spec_collect_wf()
    }

    /// The instrumentation can be completed: for a function, every argument
    /// can be recorded.
    pub open spec fn ready(&self) -> bool {
        self.spec_is_func() ==> (self.spec_args() matches Some(a) && a.all_capturable())
    }

    /// The start of the instrumentation of the function `name` with the
    /// arguments `inputs`: the arguments are stored split as `Args::new`
    /// splits them, nothing is collected yet and the table is empty.
    pub fn for_function(name: String, inputs: Vec<FnArg>) -> (r: Self)
        ensures
            r.wf(),
            r.spec_is_func(),
            r.spec_stmts() == Seq::<BodyStmtView>::empty(),
            r.spec_collect() == Map::<Seq<char>, ArgMetaView>::empty(),
            r.spec_args() matches Some(a) && a.wf() && a.spec_orig() == args_view(inputs@)
                && a.spec_scope() == name@,
    {
        let v = VisitDebug {
            is_function: true,
            stmts: Vec::new(),
            args: Some(Args::new(name, inputs)),
            dbg_col: DebugCollect::new(),
        };
        assert(stmts_view(v.stmts@) =~= Seq::<BodyStmtView>::empty());
        v
    }

    /// The start of the instrumentation of a closure: no arguments are
    /// stored, nothing is collected and the table is empty.
    pub fn for_closure() -> (r: Self)
        ensures
            r.wf(),
            !r.spec_is_func(),
            r.spec_args() is None,
            r.spec_stmts() == Seq::<BodyStmtView>::empty(),
            r.spec_collect() == Map::<Seq<char>, ArgMetaView>::empty(),
    {
        let v = VisitDebug {
            is_function: false,
            stmts: Vec::new(),
            args: None,
            dbg_col: DebugCollect::new(),
        };
        assert(stmts_view(v.stmts@) =~= Seq::<BodyStmtView>::empty());
        v
    }

    /// Whether a function (and not a closure) is instrumented.
    pub fn is_func(&self) -> (r: bool)
        ensures
            r == self.spec_is_func(),
    {
        self.is_function
    }

    /// Whether every argument of the function can be recorded.
    pub fn is_ready(&self) -> (r: bool)
        requires
            self.wf(),
        ensures
            r == self.ready(),
    {
        if self.is_function {
            match &self.args {
                Some(a) => a.can_capture(),
                None => false,
            }
        } else {
            true
        }
    }

    /// Replaces the statement met last by `new`; says whether there was one.
    fn replace_stmt(&mut self, new: BodyStmt) -> (r: bool)
        ensures
            r == (old(self).spec_stmts().len() > 0),
            final(self).spec_stmts() == replace_last(old(self).spec_stmts(), new@),
            final(self).is_function == old(self).is_function,
            final(self).args == old(self).args,
            final(self).dbg_col == old(self).dbg_col,
    {
        let n = self.stmts.len();
        if n > 0 {
            let ghost nv = new@;
            self.stmts.set(n - 1, new);
            assert(stmts_view(self.stmts@) =~= stmts_view(old(self).stmts@).update(n - 1, nv));
            true
        } else {
            false
        }
    }

    /// A statement is met: it goes after those met before.
    pub fn visit_stmt(&mut self, id: usize)
        requires
            old(self).wf(),
        ensures
            final(self).wf(),
            final(self).spec_stmts() == old(self).spec_stmts().push(BodyStmtView::Kept { id }),
            final(self).spec_is_func() == old(self).spec_is_func(),
            final(self).spec_args() == old(self).spec_args(),
            final(self).spec_collect() == old(self).spec_collect(),
    {
        self.stmts.push(BodyStmt::Kept { id });
        assert(stmts_view(self.stmts@) =~= stmts_view(old(self).stmts@).push(
            BodyStmtView::Kept { id },
        ));
    }

    /// A method call is met at `site`: the statement met last becomes that
    /// call made on `_` followed by the variable the call starts from.
    pub fn visit_method_call(&mut self, receiver: &CallReceiver, site: usize)
        requires
            old(self).wf(),
            call_name_defined(*receiver),
            call_name_spec(*receiver) is Some,
        ensures
            final(self).wf(),
            final(self).spec_stmts() == replace_last(
                old(self).spec_stmts(),
                BodyStmtView::UnsafeCall { target: seq!['_'] + call_name_spec(*receiver).unwrap(), site },
            ),
            final(self).spec_is_func() == old(self).spec_is_func(),
            final(self).spec_args() == old(self).spec_args(),
            final(self).spec_collect() == old(self).spec_collect(),
    {
        let ident = call_name(receiver).unwrap();
        let mut target = String::from_str("_");
        proof {
            reveal_strlit("_");
            assert("_"@ =~= seq!['_']);
        }
        target.append(ident.as_str());
        assert(target@ == seq!['_'] + call_name_spec(*receiver).unwrap());
        self.replace_stmt(BodyStmt::UnsafeCall { target, site });
    }

    /// A macro call with the path `path` is met: a break point replaces the
    /// statement met last by a call of the stepper.
    pub fn visit_macro(&mut self, path: &Vec<String>)
        requires
            old(self).wf(),
        ensures
            final(self).wf(),
            final(self).spec_stmts() == if is_break_point(idents_view(path@)) {
                replace_last(old(self).spec_stmts(), BodyStmtView::Step)
            } else {
                old(self).spec_stmts()
            },
            final(self).spec_is_func() == old(self).spec_is_func(),
            final(self).spec_args() == old(self).spec_args(),
            final(self).spec_collect() == old(self).spec_collect(),
    {
        if let Some(mac_path) = expand_macro(path) {
            if mac_path == String::from_str("bp") {
                self.replace_stmt(BodyStmt::Step);
            }
        }
    }

    /// The collected statements, in the order in which they were met: the
    /// body of the rewritten function.
    pub fn fn_body(&self) -> (r: Vec<BodyStmt>)
        ensures
            stmts_view(r@) == self.spec_stmts(),
    {
        let mut r: Vec<BodyStmt> = Vec::new();
        let mut i: usize = 0;
        while i < self.stmts.len()
            invariant
                i <= self.stmts@.len(),
                r.len() == i,
                forall|j: int| 0 <= j < i ==> (#[trigger] r@[j])@ == self.stmts@[j]@,
            decreases self.stmts@.len() - i,
        {
            r.push(self.stmts[i].duplicate());
            i = i + 1;
        }
        assert(stmts_view(r@) =~= stmts_view(self.stmts@));
        r
    }

    /// Files the arguments in the table; they are not kept afterwards.
    fn capture_args(&mut self) -> (r: ArgIdents)
        requires
            old(self).wf(),
            old(self).spec_is_func(),
            old(self).ready(),
        ensures
            final(self).dbg_col.wf(),
            old(self).spec_args() matches Some(a) && final(self).spec_collect() == captured(
                old(self).spec_collect(),
                a.spec_orig(),
                a.spec_scope(),
            ) && r.built_from(arg_idents_of(a.spec_non_mut()), arg_idents_of(a.spec_mut())),
            final(self).stmts == old(self).stmts,
    {
        let args = self.args.take().unwrap();
        args.capture_args(&mut self.dbg_col)
    }

    /// Completes the instrumentation of a function.
    fn build_fn(self) -> (r: FnPlan)
        requires
            self.wf(),
            self.spec_is_func(),
            self.ready(),
        ensures
            r.collect.wf(),
            self.spec_args() matches Some(a) && r.collect@ == captured(
                self.spec_collect(),
                a.spec_orig(),
                a.spec_scope(),
            ) && r.idents.built_from(arg_idents_of(a.spec_non_mut()), arg_idents_of(a.spec_mut())),
            stmts_view(r.body@) == self.spec_stmts(),
    {
        let mut this = self;
        let idents = this.capture_args();
        let body = this.fn_body();
        FnPlan { idents, collect: this.dbg_col, body }
    }

    /// The rewritten function, for a function; nothing for a closure, which
    /// is kept as written. The printers are registered under exactly the
    /// names that the table adds.
    pub fn debugable(self) -> (r: Option<FnPlan>)
        requires
            self.wf(),
            self.ready(),
        ensures
            r is Some == self.spec_is_func(),
            r matches Some(p) ==> p.collect.wf() && stmts_view(p.body@) == self.spec_stmts()
                && (self.spec_args() matches Some(a) && p.collect@ == captured(
                self.spec_collect(),
                a.spec_orig(),
                a.spec_scope(),
            ) && p.idents.built_from(arg_idents_of(a.spec_non_mut()), arg_idents_of(a.spec_mut())))
                && (forall|k: Seq<char>|
                p.collect@.contains_key(k) <==> (self.spec_collect().contains_key(k)
                    || strings_view(p.idents.mut_string@).contains(k) || strings_view(
                    p.idents.non_mut_string@,
                ).contains(k))),
    {
        if self.is_func() {
            let ghost a = self.spec_args()->Some_0;
            let ghost m = self.spec_collect();
            let p = self.build_fn();
            proof {
                law_printer_names_match_table(m, a.spec_orig(), a.spec_scope());
            }
            Some(p)
        } else {
            None
        }
    }
}

impl Default for VisitDebug {
    /// The state before anything is known: no function, no arguments, no
    /// statements and an empty table (the state of a closure's instrumentation).
    fn default() -> (r: Self)
        ensures
            r.wf(),
            !r.spec_is_func(),
            r.spec_args() is None,
            r.spec_stmts() == Seq::<BodyStmtView>::empty(),
            r.spec_collect() == Map::<Seq<char>, ArgMetaView>::empty(),
    {
        VisitDebug::for_closure()
    }
}

/// A break point right after a statement turns that statement into a call of
/// the stepper and leaves the statements met before it as they were; a break
/// point before any statement changes nothing. The same holds of a method
/// call, which turns the statement into that call on the captured copy. The
/// statements stay in the order in which they were met.
pub proof fn law_break_point_replaces_last_stmt(s: Seq<BodyStmtView>, id: usize, call: BodyStmtView)
    ensures
        replace_last(s.push(BodyStmtView::Kept { id }), BodyStmtView::Step) == s.push(
            BodyStmtView::Step,
        ),
        replace_last(s.push(BodyStmtView::Kept { id }), call) == s.push(call),
        replace_last(Seq::<BodyStmtView>::empty(), BodyStmtView::Step) == Seq::<BodyStmtView>::empty(),
        replace_last(s, call).len() == s.len(),
        forall|i: int| 0 <= i < s.len() - 1 ==> #[trigger] replace_last(s, call)[i] == s[i],
{
    assert(s.push(BodyStmtView::Kept { id }).update(s.len() as int, BodyStmtView::Step) =~= s.push(
        BodyStmtView::Step,
    ));
    assert(s.push(BodyStmtView::Kept { id }).update(s.len() as int, call) =~= s.push(call));
}

/// A macro call is a break point exactly when the last identifier of its path
/// is `bp`; any other macro leaves the body as it is.
pub proof fn law_only_bp_breaks(path: Seq<Seq<char>>)
    ensures
        is_break_point(path) <==> (path.len() > 0 && path[path.len() - 1] == "bp"@),
{
}

} // verus!
