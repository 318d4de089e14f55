//! Visitor records and the registry that the greeting loop works on.

use vstd::prelude::*;

use crate::normalize::lower_of;
use crate::normalize::lowercased;
use vstd::string::StringExecFns;

verus! {

/// The mathematical content of a visitor record: its normalized name and its
/// greeting, each as a character sequence.
#[verifier::ext_equal]
pub ghost struct VisitorView {
    pub name: Seq<char>,
    pub greeting: Seq<char>,
}

/// A visitor record: a normalized (lowercased) name used as the lookup key,
/// and a free-form greeting shown when the visitor is recognized.
pub struct Visitor {
    name: String,
    greeting: String,
}

impl View for Visitor {
    type V = VisitorView;

    closed spec fn view(&self) -> VisitorView {
        VisitorView { name: self.name@, greeting: self.greeting@ }
    }
}

impl Visitor {
    /// Builds a visitor: the stored name is the lowercased form of the given
    /// display name (not trimmed), the greeting is stored verbatim.
    pub fn new(name: &str, greeting: &str) -> (v: Visitor)
        ensures
            v@.name == lower_of(name@),
            v@.greeting == greeting@,
    {
        Visitor { name: lowercased(name), greeting: greeting.to_owned() }
    }

    /// Returns the greeting to show for this visitor: the stored greeting
    /// text, verbatim. Pure; the same visitor always yields the same line.
    pub fn greet(&self) -> (r: String)
        ensures
            r@ == self@.greeting,
    {
        self.greeting.clone()
    }

    /// The stored (normalized) name.
    pub fn name(&self) -> (r: &String)
        ensures
            r@ == self@.name,
    {
        &self.name
    }

    /// The stored greeting text.
    pub fn greeting(&self) -> (r: &String)
        ensures
            r@ == self@.greeting,
    {
        &self.greeting
    }
}

/// Whether some record in `reg` has exactly the name `name`.
pub open spec fn has_match(reg: Seq<VisitorView>, name: Seq<char>) -> bool {
    exists|i: int| 0 <= i < reg.len() && reg[i].name == name
}

/// The index of the first record in `reg` whose name is `name`; equals
/// `reg.len()` when there is none.
pub open spec fn first_match(reg: Seq<VisitorView>, name: Seq<char>) -> int
    decreases reg.len(),
{
    if reg.len() == 0 {
        0
    } else if reg[0].name == name {
        0
    } else {
        1 + first_match(reg.subrange(1, reg.len() as int), name)
    }
}

/// `first_match` names the first matching index: it is in range exactly when
/// a match exists, it matches, and nothing before it does.
pub proof fn lemma_first_match(reg: Seq<VisitorView>, name: Seq<char>)
    ensures
        0 <= first_match(reg, name) <= reg.len(),
        first_match(reg, name) < reg.len() <==> has_match(reg, name),
        first_match(reg, name) < reg.len() ==> reg[first_match(reg, name)].name == name,
        forall|j: int| 0 <= j < first_match(reg, name) ==> reg[j].name != name,
    decreases reg.len(),
{
    if reg.len() > 0 && reg[0].name != name {
        let tail = reg.subrange(1, reg.len() as int);
        lemma_first_match(tail, name);
        assert forall|j: int| 0 <= j < first_match(reg, name) implies reg[j].name != name by {
            if j > 0 {
                assert(reg[j] == tail[j - 1]);
            }
        }
        if first_match(reg, name) < reg.len() {
            assert(reg[first_match(reg, name)] == tail[first_match(tail, name)]);
        }
        if has_match(reg, name) {
            let w = choose|i: int| 0 <= i < reg.len() && reg[i].name == name;
            assert(tail[w - 1].name == name);
        }
    }
}

/// The ordered collection of all visitors known during one run: the seeded
/// records first, then each registered newcomer in arrival order.
pub struct Registry {
    visitors: Vec<Visitor>,
}

impl View for Registry {
    type V = Seq<VisitorView>;

    closed spec fn view(&self) -> Seq<VisitorView> {
        Seq::new(self.visitors@.len(), |i: int| self.visitors@[i]@)
    }
}

impl Registry {
    /// The empty registry.
    pub fn new() -> (r: Registry)
        ensures
            r@ == Seq::<VisitorView>::empty(),
    {
        let r = Registry { visitors: Vec::new() };
        proof {
            assert(r@ =~= Seq::<VisitorView>::empty());
        }
        r
    }

    /// How many visitors are on the list.
    pub fn len(&self) -> (n: usize)
        ensures
            n == self@.len(),
    {
        self.visitors.len()
    }

    /// The visitor at position `i`, in insertion order.
    pub fn visitor_at(&self, i: usize) -> (v: &Visitor)
        requires
            i < self@.len(),
        ensures
            v@ == self@[i as int],
    {
        &self.visitors[i]
    }

    /// Appends a visitor at the end of the list.
    pub fn add(&mut self, v: Visitor)
        ensures
            final(self)@ == old(self)@.push(v@),
    {
        self.visitors.push(v);
        proof {
            assert(self@ =~= old(self)@.push(v@));
        }
    }

    /// Finds the first visitor whose stored name equals `name` exactly, and
    /// returns its index; `None` when no record matches.
    pub fn find(&self, name: &String) -> (r: Option<usize>)
        ensures
            r == if has_match(self@, name@) {
                Some(first_match(self@, name@) as usize)
            } else {
                None::<usize>
            },
    {
        proof {
            lemma_first_match(self@, name@);
        }
        let n = self.visitors.len();
        for i in 0..n
            invariant
                n == self@.len(),
                forall|j: int| 0 <= j < i ==> self@[j].name != name@,
                0 <= first_match(self@, name@) <= self@.len(),
                first_match(self@, name@) < self@.len() <==> has_match(self@, name@),
                first_match(self@, name@) < self@.len() ==> self@[first_match(
                    self@,
                    name@,
                )].name == name@,
                forall|j: int| 0 <= j < first_match(self@, name@) ==> self@[j].name != name@,
        {
            if self.visitors[i].name == *name {
                proof {
                    assert(self@[i as int].name == name@);
                    assert(has_match(self@, name@));
                }
                return Some(i);
            }
        }
        None
    }
}

/// The greeting text every newly registered visitor gets.
pub open spec fn new_friend_text() -> Seq<char> {
    "New friend."@
}

/// The notice printed when a non-empty name is not on the list.
pub open spec fn notice_text(name: Seq<char>) -> Seq<char> {
    name + " is not on the visitor list."@
}

/// The record appended for a newly registered name.
pub open spec fn registered_view(name: Seq<char>) -> VisitorView {
    VisitorView { name: name, greeting: new_friend_text() }
}

/// The registry after one loop iteration on the normalized name `name`:
/// unchanged on a match or on the quit sentinel, extended by one newcomer
/// otherwise.
pub open spec fn next_registry(reg: Seq<VisitorView>, name: Seq<char>) -> Seq<VisitorView> {
    if has_match(reg, name) || name.len() == 0 {
        reg
    } else {
        reg.push(registered_view(name))
    }
}

/// The lines one loop iteration prints for the normalized name `name`
/// (prompting aside): the first matching record's greeting, nothing on the
/// quit sentinel, or the not-on-the-list notice.
pub open spec fn step_lines(reg: Seq<VisitorView>, name: Seq<char>) -> Seq<Seq<char>> {
    if has_match(reg, name) {
        seq![reg[first_match(reg, name)].greeting]
    } else if name.len() == 0 {
        Seq::<Seq<char>>::empty()
    } else {
        seq![notice_text(name)]
    }
}

/// What one loop iteration asks the caller to do: print a known visitor's
/// greeting, print the not-on-the-list notice for a newcomer, or stop.
pub enum Outcome {
    Greeted(String),
    Registered(String),
    Quit,
}

/// Builds the not-on-the-list notice line for `name`.
fn notice_line(name: &String) -> (r: String)
    ensures
        r@ == notice_text(name@),
{
    name.clone().concat(" is not on the visitor list.")
}

impl Registry {
    /// The registry a run starts from: the three seeded visitors, in order.
    pub fn seeded() -> (r: Registry)
        ensures
            r@.len() == 3,
            r@[0].name == lower_of("ifan"@),
            r@[0].greeting == "Hello ifan, der mewn."@,
            r@[1].name == lower_of("dafydd"@),
            r@[1].greeting == "Hi pony, the trombone is in the corner"@,
            r@[2].name == lower_of("johnston"@),
            r@[2].greeting == "Hi Johnny, the pumpkin pie is on the tabble"@,
    {
        let mut r = Registry::new();
        r.add(Visitor::new("ifan", "Hello ifan, der mewn."));
        r.add(Visitor::new("dafydd", "Hi pony, the trombone is in the corner"));
        r.add(Visitor::new("johnston", "Hi Johnny, the pumpkin pie is on the tabble"));
        r
    }

    /// One iteration of the greeting loop, on an already normalized name.
    ///
    /// A name that matches is greeted with the first matching record's stored
    /// greeting and changes nothing. Otherwise an empty name is the quit
    /// sentinel and changes nothing, and a non-empty name is registered: a
    /// record with that exact name and the fixed newcomer greeting is
    /// appended, and the notice line is returned for printing.
    pub fn step(&mut self, input: &String) -> (out: Outcome)
        ensures
            final(self)@ == next_registry(old(self)@, input@),
            has_match(old(self)@, input@) ==> out is Greeted && out->Greeted_0@ == old(
                self,
            )@[first_match(old(self)@, input@)].greeting,
            !has_match(old(self)@, input@) && input@.len() == 0 ==> out is Quit,
            !has_match(old(self)@, input@) && input@.len() != 0 ==> out is Registered
                && out->Registered_0@ == notice_text(input@),
    {
        let n = self.visitors.len();
        match self.find(input) {
            Some(i) => {
                proof {
                    lemma_first_match(self@, input@);
                    assert(has_match(self@, input@));
                    assert(self@.len() == n as int);
                    assert(i as int == first_match(self@, input@));
                    assert(self@[i as int] == self.visitors@[i as int]@);
                }
                Outcome::Greeted(self.visitors[i].greet())
            },
            None => {
                if input.as_str().is_empty() {
                    Outcome::Quit
                } else {
                    let notice = notice_line(input);
                    let ghost before = self@;
                    self.visitors.push(
                        Visitor { name: input.clone(), greeting: "New friend.".to_owned() },
                    );
                    proof {
                        assert(self@ =~= before.push(registered_view(input@)));
                    }
                    Outcome::Registered(notice)
                }
            },
        }
    }
}

/// The header line the final report starts with.
pub open spec fn report_header() -> Seq<char> {
    "Final list of visitors:"@
}

/// One line of the final report: a visitor's field names and values.
pub open spec fn report_line(v: VisitorView) -> Seq<char> {
    "name: "@ + v.name + ", greeting: "@ + v.greeting
}

/// Builds the report line for one visitor.
fn report_line_for(v: &Visitor) -> (r: String)
    ensures
        r@ == report_line(v@),
{
    let mut r: String = "name: ".to_owned();
    r.append(v.name.as_str());
    r.append(", greeting: ");
    r.append(v.greeting.as_str());
    proof {
        assert(r@ =~= report_line(v@));
    }
    r
}

impl Registry {
    /// The final report: the header line, then one line per visitor in
    /// insertion order. Pure read, no mutation.
    pub fn report(&self) -> (r: Vec<String>)
        ensures
            r@.len() == self@.len() + 1,
            r@[0]@ == report_header(),
            forall|i: int| 0 <= i < self@.len() ==> r@[i + 1]@ == report_line(self@[i]),
    {
        let mut out: Vec<String> = Vec::new();
        out.push("Final list of visitors:".to_owned());
        let n = self.visitors.len();
        for i in 0..n
            invariant
                n == self@.len(),
                out@.len() == i + 1,
                out@[0]@ == report_header(),
                forall|j: int| 0 <= j < i ==> out@[j + 1]@ == report_line(self@[j]),
        {
            let line = report_line_for(&self.visitors[i]);
            out.push(line);
        }
        out
    }
}

} // verus!
