//! The laws of the greeting loop, stated over the spec-level step relation
//! (`next_registry`, `step_lines`) that `Registry::step` is proved against.

use vstd::prelude::*;

use crate::registry::Visitor;
use crate::registry::VisitorView;
use crate::registry::first_match;
use crate::registry::has_match;
use crate::registry::lemma_first_match;
use crate::registry::new_friend_text;
use crate::registry::next_registry;
use crate::registry::notice_text;
use crate::registry::registered_view;
use crate::registry::step_lines;

verus! {

/// Law: a name that matches a record is greeted with the first matching
/// record's exact stored greeting, and the registry — in particular its
/// length — is left as it was.
pub proof fn lemma_known_name_greets(reg: Seq<VisitorView>, name: Seq<char>)
    requires
        has_match(reg, name),
    ensures
        next_registry(reg, name) == reg,
        next_registry(reg, name).len() == reg.len(),
        step_lines(reg, name) == seq![reg[first_match(reg, name)].greeting],
        reg[first_match(reg, name)].name == name,
{
    lemma_first_match(reg, name);
}

/// Law: a non-empty name that matches no record is registered: exactly one
/// record is appended, its name is the supplied (normalized) name, its
/// greeting is the fixed newcomer text, and the notice line is printed.
pub proof fn lemma_unknown_name_registers(reg: Seq<VisitorView>, name: Seq<char>)
    requires
        name.len() != 0,
        !has_match(reg, name),
    ensures
        next_registry(reg, name) == reg.push(registered_view(name)),
        next_registry(reg, name).len() == reg.len() + 1,
        next_registry(reg, name)[reg.len() as int].name == name,
        next_registry(reg, name)[reg.len() as int].greeting == new_friend_text(),
        forall|j: int| 0 <= j < reg.len() ==> next_registry(reg, name)[j] == reg[j],
        step_lines(reg, name) == seq![notice_text(name)],
{
}

/// Law: supplying the same unknown non-empty name twice in succession, the
/// first occurrence prints the notice and registers the name; the second
/// matches the newly created record, is greeted with the newcomer text, and
/// registers nothing further.
pub proof fn lemma_same_name_twice(reg: Seq<VisitorView>, name: Seq<char>)
    requires
        name.len() != 0,
        !has_match(reg, name),
    ensures
        step_lines(reg, name) == seq![notice_text(name)],
        has_match(next_registry(reg, name), name),
        step_lines(next_registry(reg, name), name) == seq![new_friend_text()],
        next_registry(next_registry(reg, name), name) == next_registry(reg, name),
{
    let reg1 = next_registry(reg, name);
    assert(reg1[reg.len() as int].name == name);
    assert(has_match(reg1, name));
    lemma_first_match(reg1, name);
    let fm = first_match(reg1, name);
    if fm < reg.len() {
        assert(reg1[fm] == reg[fm]);
        assert(has_match(reg, name));
        assert(false);
    }
    assert(reg1[fm].greeting == new_friend_text());
}

/// Law: an empty (post-normalization) name that matches no record is the
/// quit sentinel — the registry is not modified and nothing is printed for
/// that iteration.
pub proof fn lemma_quit_sentinel(reg: Seq<VisitorView>, name: Seq<char>)
    requires
        name.len() == 0,
        !has_match(reg, name),
    ensures
        next_registry(reg, name) == reg,
        step_lines(reg, name) == Seq::<Seq<char>>::empty(),
{
}

/// Law: greeting is a pure read of the visitor's stored state — any two
/// results of `Visitor::greet` on the same record (each pinned to the stored
/// greeting by its contract) are the identical line.
pub proof fn lemma_greet_idempotent(v: &Visitor, first: String, second: String)
    requires
        first@ == v@.greeting,
        second@ == v@.greeting,
    ensures
        first@ == second@,
{
}

} // verus!
