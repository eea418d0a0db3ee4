use vstd::prelude::*;

verus! {

/// What the stepper knows of one captured variable: the name of its type
/// (as the instrumentation spelled it) and the function it belongs to.
pub struct ArgMeta {
    ty_str: String,
    scope: String,
}

/// The mathematical content of an [`ArgMeta`].
pub struct ArgMetaView {
    pub ty: Seq<char>,
    pub scope: Seq<char>,
}

impl View for ArgMeta {
    type V = ArgMetaView;

    closed spec fn view(&self) -> ArgMetaView {
        ArgMetaView { ty: self.ty_str@, scope: self.scope@ }
    }
}

impl ArgMeta {
    pub fn new(ty_str: String, scope: String) -> (r: Self)
        ensures
            r@ == (ArgMetaView { ty: ty_str@, scope: scope@ }),
    {
        ArgMeta { ty_str, scope }
    }

    pub fn type_ref(&self) -> (r: &str)
        ensures
            r@ == self@.ty,
    {
        self.ty_str.as_str()
    }

    pub fn scope_ref(&self) -> (r: &str)
        ensures
            r@ == self@.scope,
    {
        self.scope.as_str()
    }

    /// A copy of this record.
    pub fn duplicate(&self) -> (r: Self)
        ensures
            r == *self,
            r@ == self@,
    {
        ArgMeta { ty_str: self.ty_str.clone(), scope: self.scope.clone() }
    }
}

} // verus!
