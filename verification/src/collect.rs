//! The table of inspectable variables and the stepper's decisions.
use vstd::prelude::*;

use crate::meta::{ArgMeta, ArgMetaView};

verus! {

/// The variables that the stepper can show, each under its name.
pub struct DebugCollect {
    entries: Vec<(String, ArgMeta)>,
}

/// The names of a list of entries.
pub open spec fn entry_names(s: Seq<(String, ArgMeta)>) -> Seq<Seq<char>> {
    s.map_values(|e: (String, ArgMeta)| e.0@)
}

/// The map that a list of entries stands for; a later entry wins.
pub open spec fn entries_map(s: Seq<(String, ArgMeta)>) -> Map<Seq<char>, ArgMetaView>
    decreases s.len(),
{
    if s.len() == 0 {
        Map::empty()
    } else {
        entries_map(s.drop_last()).insert(s.last().0@, s.last().1@)
    }
}

/// The names of a list of entries are pairwise distinct.
pub open spec fn names_distinct(s: Seq<(String, ArgMeta)>) -> bool {
    forall|i: int, j: int| 0 <= i < j < s.len() ==> #[trigger] s[i].0@ != #[trigger] s[j].0@
}

/// In a list with distinct names, the map holds each entry under its name, and
/// nothing under a name that no entry has.
proof fn lemma_entries_map(s: Seq<(String, ArgMeta)>)
    requires
        names_distinct(s),
    ensures
        forall|i: int|
            0 <= i < s.len() ==> #[trigger] entries_map(s).contains_key(s[i].0@) && entries_map(
                s,
            )[s[i].0@] == s[i].1@,
        forall|k: Seq<char>|
            entries_map(s).contains_key(k) ==> exists|i: int|
                0 <= i < s.len() && #[trigger] s[i].0@ == k,
    decreases s.len(),
{
    if s.len() > 0 {
        let t = s.drop_last();
        assert(names_distinct(t));
        lemma_entries_map(t);
        assert forall|i: int| 0 <= i < s.len() implies #[trigger] entries_map(s).contains_key(
            s[i].0@,
        ) && entries_map(s)[s[i].0@] == s[i].1@ by {
            if i < s.len() - 1 {
                assert(t[i] == s[i]);
                assert(entries_map(t).contains_key(t[i].0@));
                assert(s[i].0@ != s[s.len() - 1].0@);
            }
        }
        assert forall|k: Seq<char>| entries_map(s).contains_key(k) implies exists|i: int|
            0 <= i < s.len() && #[trigger] s[i].0@ == k by {
            if k != s.last().0@ {
                assert(entries_map(t).contains_key(k));
                let i = choose|i: int| 0 <= i < t.len() && #[trigger] t[i].0@ == k;
                assert(s[i] == t[i]);
            } else {
                assert(s[s.len() - 1].0@ == k);
            }
        }
    }
}

/// Changing the record of one entry changes the map at that name only.
proof fn lemma_entries_map_update(s: Seq<(String, ArgMeta)>, i: int, e: (String, ArgMeta))
    requires
        names_distinct(s),
        0 <= i < s.len(),
        e.0@ == s[i].0@,
    ensures
        names_distinct(s.update(i, e)),
        entries_map(s.update(i, e)) == entries_map(s).insert(e.0@, e.1@),
{
    let u = s.update(i, e);
    assert(names_distinct(u)) by {
        assert forall|a: int, b: int| 0 <= a < b < u.len() implies #[trigger] u[a].0@
            != #[trigger] u[b].0@ by {
            assert(s[a].0@ != s[b].0@);
        }
    }
    lemma_entries_map(s);
    lemma_entries_map(u);
    assert forall|k: Seq<char>| #[trigger] entries_map(u).contains_key(k) == entries_map(
        s,
    ).insert(e.0@, e.1@).contains_key(k) by {
        if entries_map(u).contains_key(k) {
            let j = choose|j: int| 0 <= j < u.len() && #[trigger] u[j].0@ == k;
            assert(s[j].0@ == k);
        }
        if entries_map(s).contains_key(k) {
            let j = choose|j: int| 0 <= j < s.len() && #[trigger] s[j].0@ == k;
            assert(u[j].0@ == k);
        }
        if k == e.0@ {
            assert(u[i].0@ == k);
        }
    }
    assert forall|k: Seq<char>| #[trigger] entries_map(u).contains_key(k) implies entries_map(
        u,
    )[k] == entries_map(s).insert(e.0@, e.1@)[k] by {
        let j = choose|j: int| 0 <= j < u.len() && #[trigger] u[j].0@ == k;
        if j != i {
            assert(s[j] == u[j]);
        }
    }
    assert(entries_map(u) =~= entries_map(s).insert(e.0@, e.1@));
}

impl View for DebugCollect {
    type V = Map<Seq<char>, ArgMetaView>;

    closed spec fn view(&self) -> Map<Seq<char>, ArgMetaView> {
        entries_map(self.entries@)
    }
}

impl DebugCollect {
    /// The table's internal consistency: no name occurs twice.
    pub closed spec fn wf(&self) -> bool {
        names_distinct(self.entries@)
    }

    /// An empty table.
    pub fn new() -> (r: Self)
        ensures
            r.wf(),
            r@ == Map::<Seq<char>, ArgMetaView>::empty(),
    {
        DebugCollect { entries: Vec::new() }
    }

    /// The position of the entry named `name`, if there is one.
    fn find(&self, name: &String) -> (r: Option<usize>)
        requires
            self.wf(),
        ensures
            match r {
                Some(i) => i < self.entries@.len() && self.entries@[i as int].0@ == name@,
                None => !self@.contains_key(name@),
            },
    {
        proof {
            lemma_entries_map(self.entries@);
        }
        let mut i: usize = 0;
        while i < self.entries.len()
            invariant
                i <= self.entries@.len(),
                forall|j: int| 0 <= j < i ==> #[trigger] self.entries@[j].0@ != name@,
            decreases self.entries@.len() - i,
        {
            if self.entries[i].0 == *name {
                return Some(i);
            }
            i = i + 1;
        }
        None
    }

    /// Files `meta` under `name`, replacing what was filed there before.
    pub fn insert(&mut self, name: String, meta: ArgMeta)
        requires
            old(self).wf(),
        ensures
            final(self).wf(),
            final(self)@ == old(self)@.insert(name@, meta@),
    {
        match self.find(&name) {
            Some(i) => {
                proof {
                    lemma_entries_map_update(self.entries@, i as int, (name, meta));
                }
                self.entries.set(i, (name, meta));
            },
            None => {
                proof {
                    lemma_entries_map(self.entries@);
                }
                let ghost prev = self.entries@;
                self.entries.push((name, meta));
                assert(self.entries@.drop_last() =~= prev);
                assert forall|a: int, b: int| 0 <= a < b < self.entries@.len() implies #[trigger] self.entries@[a].0@
                    != #[trigger] self.entries@[b].0@ by {
                    if b == self.entries@.len() - 1 {
                        assert(prev[a] == self.entries@[a]);
                    } else {
                        assert(prev[a] == self.entries@[a] && prev[b] == self.entries@[b]);
                    }
                }
            },
        }
    }

    /// What is filed under `name`.
    pub fn get(&self, name: &String) -> (r: Option<&ArgMeta>)
        requires
            self.wf(),
        ensures
            r.is_some() == self@.contains_key(name@),
            r matches Some(m) ==> m@ == self@[name@],
    {
        match self.find(name) {
            Some(i) => {
                proof {
                    lemma_entries_map(self.entries@);
                    assert(entries_map(self.entries@).contains_key(self.entries@[i as int].0@));
                }
                Some(&self.entries[i].1)
            },
            None => None,
        }
    }

    /// The number of names in the table.
    pub fn len(&self) -> (r: usize)
        requires
            self.wf(),
        ensures
            r == self@.len(),
    {
        proof {
            lemma_entries_map_len(self.entries@);
        }
        self.entries.len()
    }
}

impl Default for DebugCollect {
    fn default() -> (r: Self)
        ensures
            r.wf(),
            r@ == Map::<Seq<char>, ArgMetaView>::empty(),
    {
        DebugCollect::new()
    }
}

impl DebugCollect {
    /// The entries of the table, one per name.
    pub fn into_entries(self) -> (r: Vec<(String, ArgMeta)>)
        requires
            self.wf(),
        ensures
            names_distinct(r@),
            entries_map(r@) == self@,
    {
        self.entries
    }
}

/// The colour in which the stepper shows a value.
#[derive(PartialEq, Eq, Structural, Debug, Clone, Copy)]
pub enum Color {
    Green,
    White,
    Blue,
    Yellow,
}

/// Strings are green, sequences white, tuples blue, everything else yellow.
pub open spec fn color_of(ty: Seq<char>) -> Color {
    if ty == "String"@ {
        Color::Green
    } else if ty == "Vec"@ {
        Color::White
    } else if ty == "Tuple"@ {
        Color::Blue
    } else if ty == "str"@ {
        Color::Green
    } else {
        Color::Yellow
    }
}

/// The colour for a value filed under the type name `ty`.
pub fn color_for_type(ty: &str) -> (r: Color)
    ensures
        r == color_of(ty@),
{
    let t = String::from_str(ty);
    if t == String::from_str("String") {
        Color::Green
    } else if t == String::from_str("Vec") {
        Color::White
    } else if t == String::from_str("Tuple") {
        Color::Blue
    } else if t == String::from_str("str") {
        Color::Green
    } else {
        Color::Yellow
    }
}

/// What the stepper does with one line that the user typed.
#[derive(PartialEq, Eq, Structural, Debug, Clone, Copy)]
pub enum StepAction {
    /// The line names a variable in scope: switch to `color` and print it.
    Show { color: Color },
    /// The line names a variable in scope, but nothing can print it: switch
    /// to `color`, then report the inconsistency.
    MissingPrinter { color: Color },
    /// No variable of that name is in scope: say so and read another line.
    NotInScope,
}

/// The stepper's answer to `line`, given the table and whether a printer is
/// registered under that name.
pub open spec fn step_action_spec(
    table: Map<Seq<char>, ArgMetaView>,
    line: Seq<char>,
    has_printer: bool,
) -> StepAction {
    if table.contains_key(line) {
        let color = color_of(table[line].ty);
        if has_printer {
            StepAction::Show { color }
        } else {
            StepAction::MissingPrinter { color }
        }
    } else {
        StepAction::NotInScope
    }
}

impl StepAction {
    /// Whether the stepper stops reading lines after this action.
    pub open spec fn spec_ends_step(self) -> bool {
        !(self is NotInScope)
    }

    /// Whether the stepper stops reading lines after this action.
    pub fn ends_step(&self) -> (r: bool)
        ensures
            r == self.spec_ends_step(),
    {
        match self {
            StepAction::NotInScope => false,
            _ => true,
        }
    }
}

impl DebugCollect {
    /// What the stepper does when the user types `line`; `has_printer` says
    /// whether a printer is registered under that name.
    pub fn step_action(&self, line: &String, has_printer: bool) -> (r: StepAction)
        requires
            self.wf(),
        ensures
            r == step_action_spec(self@, line@, has_printer),
    {
        match self.get(line) {
            Some(meta) => {
                let color = color_for_type(meta.type_ref());
                if has_printer {
                    StepAction::Show { color }
                } else {
                    StepAction::MissingPrinter { color }
                }
            },
            None => StepAction::NotInScope,
        }
    }
}

/// `name` is filed in the table and starts with `prefix`.
pub open spec fn completes(
    table: Map<Seq<char>, ArgMetaView>,
    prefix: Seq<char>,
    name: Seq<char>,
) -> bool {
    table.contains_key(name) && prefix.is_prefix_of(name)
}

/// Whether `p` is a prefix of `s`.
fn has_prefix(s: &String, p: &String) -> (r: bool)
    ensures
        r == p@.is_prefix_of(s@),
{
    let sl = s.as_str().unicode_len();
    let pl = p.as_str().unicode_len();
    if pl > sl {
        return false;
    }
    let mut i: usize = 0;
    while i < pl
        invariant
            i <= pl,
            pl == p@.len(),
            sl == s@.len(),
            pl <= sl,
            forall|j: int| 0 <= j < i ==> p@[j] == s@[j],
        decreases pl - i,
    {
        if p.as_str().get_char(i) != s.as_str().get_char(i) {
            assert(p@[i as int] != s@.subrange(0, pl as int)[i as int]);
            return false;
        }
        i = i + 1;
    }
    assert(p@ =~= s@.subrange(0, pl as int));
    true
}

impl DebugCollect {
    /// Tab completion: the one filed name that starts with `prefix`, when
    /// exactly one does; nothing when none does or several do.
    pub fn complete(&self, prefix: &String) -> (r: Option<String>)
        requires
            self.wf(),
        ensures
            r matches Some(n) ==> completes(self@, prefix@, n@) && forall|k: Seq<char>|
                completes(self@, prefix@, k) ==> k == n@,
            r is None ==> (forall|k: Seq<char>| !completes(self@, prefix@, k)) || exists|
                k1: Seq<char>,
                k2: Seq<char>,
            | k1 != k2 && completes(self@, prefix@, k1) && completes(self@, prefix@, k2),
    {
        proof {
            lemma_entries_map(self.entries@);
        }
        let ghost es = self.entries@;
        let mut found: Option<usize> = None;
        let mut i: usize = 0;
        while i < self.entries.len()
            invariant
                i <= es.len(),
                es == self.entries@,
                names_distinct(es),
                match found {
                    Some(f) => f < i && prefix@.is_prefix_of(es[f as int].0@) && forall|j: int|
                        0 <= j < i && j != f ==> !prefix@.is_prefix_of(#[trigger] es[j].0@),
                    None => forall|j: int| 0 <= j < i ==> !prefix@.is_prefix_of(#[trigger] es[j].0@),
                },
            decreases es.len() - i,
        {
            if has_prefix(&self.entries[i].0, prefix) {
                match found {
                    Some(f) => {
                        proof {
                            lemma_entries_map(es);
                            assert(es[f as int].0@ != es[i as int].0@);
                            assert(entries_map(es).contains_key(es[f as int].0@));
                            assert(entries_map(es).contains_key(es[i as int].0@));
                            assert(completes(self@, prefix@, es[f as int].0@));
                            assert(completes(self@, prefix@, es[i as int].0@));
                        }
                        return None;
                    },
                    None => {
                        found = Some(i);
                    },
                }
            }
            i = i + 1;
        }
        match found {
            Some(f) => {
                proof {
                    assert(entries_map(es).contains_key(es[f as int].0@));
                    assert forall|k: Seq<char>| completes(self@, prefix@, k) implies k == es[f as int].0@ by {
                        let j = choose|j: int| 0 <= j < es.len() && #[trigger] es[j].0@ == k;
                    }
                }
                Some(self.entries[f].0.clone())
            },
            None => {
                proof {
                    assert forall|k: Seq<char>| !completes(self@, prefix@, k) by {
                        if completes(self@, prefix@, k) {
                            let j = choose|j: int| 0 <= j < es.len() && #[trigger] es[j].0@ == k;
                        }
                    }
                }
                None
            },
        }
    }
}

/// With distinct names, the map has one key per entry.
proof fn lemma_entries_map_len(s: Seq<(String, ArgMeta)>)
    requires
        names_distinct(s),
    ensures
        entries_map(s).dom().finite(),
        entries_map(s).len() == s.len(),
    decreases s.len(),
{
    if s.len() > 0 {
        let t = s.drop_last();
        assert(names_distinct(t));
        lemma_entries_map_len(t);
        lemma_entries_map(t);
        if entries_map(t).contains_key(s.last().0@) {
            let i = choose|i: int| 0 <= i < t.len() && #[trigger] t[i].0@ == s.last().0@;
            assert(s[i].0@ == s[s.len() - 1].0@);
        }
    }
}

/// A lookup after filing gives back what was filed, and filing one name
/// leaves every other name as it was.
pub proof fn law_get_after_insert(
    table: Map<Seq<char>, ArgMetaView>,
    name: Seq<char>,
    meta: ArgMetaView,
    other: Seq<char>,
)
    requires
        other != name,
    ensures
        table.insert(name, meta).contains_key(name),
        table.insert(name, meta)[name] == meta,
        table.insert(name, meta).contains_key(other) == table.contains_key(other),
        table.contains_key(other) ==> table.insert(name, meta)[other] == table[other],
{
}

/// Once a variable is filed, typing its name ends the step and shows it in
/// the colour of its type; a name that is not filed keeps the stepper
/// asking.
pub proof fn law_step_finds_filed(
    table: Map<Seq<char>, ArgMetaView>,
    name: Seq<char>,
    meta: ArgMetaView,
    has_printer: bool,
    missing: Seq<char>,
)
    requires
        !table.contains_key(missing),
        missing != name,
    ensures
        step_action_spec(table.insert(name, meta), name, has_printer).spec_ends_step(),
        has_printer ==> step_action_spec(table.insert(name, meta), name, has_printer)
            == (StepAction::Show { color: color_of(meta.ty) }),
        !has_printer ==> step_action_spec(table.insert(name, meta), name, has_printer)
            == (StepAction::MissingPrinter { color: color_of(meta.ty) }),
        step_action_spec(table.insert(name, meta), missing, has_printer) == StepAction::NotInScope,
        !step_action_spec(table.insert(name, meta), missing, has_printer).spec_ends_step(),
{
}

/// A name that completion offers is always in scope: typing it ends the step.
pub proof fn law_completion_in_scope(
    table: Map<Seq<char>, ArgMetaView>,
    prefix: Seq<char>,
    name: Seq<char>,
    has_printer: bool,
)
    requires
        completes(table, prefix, name),
    ensures
        step_action_spec(table, name, has_printer).spec_ends_step(),
{
}

/// `String` and `str` are shown green, `Vec` white, `Tuple` blue, and every
/// other type name, whatever it starts with, yellow.
pub proof fn law_colors(ty: Seq<char>)
    ensures
        color_of("String"@) == Color::Green,
        color_of("str"@) == Color::Green,
        color_of("Vec"@) == Color::White,
        color_of("Tuple"@) == Color::Blue,
        (ty != "String"@ && ty != "str"@ && ty != "Vec"@ && ty != "Tuple"@) ==> color_of(ty)
            == Color::Yellow,
{
    reveal_strlit("String");
    reveal_strlit("str");
    reveal_strlit("Vec");
    reveal_strlit("Tuple");
    assert("str"@.len() != "String"@.len());
    assert("str"@[0] != "Vec"@[0]);
    assert("str"@.len() != "Tuple"@.len());
    assert("Vec"@.len() != "String"@.len());
    assert("Tuple"@.len() != "String"@.len() && "Tuple"@.len() != "Vec"@.len());
}

} // verus!
