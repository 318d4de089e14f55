//! A whole session of the greeting loop, replayed over a given sequence of
//! raw input lines: each line is normalized and dispatched in turn, until the
//! quit sentinel or the end of the lines.

use vstd::prelude::*;

use crate::normalize::normalize_input;
use crate::normalize::normalized;
use crate::registry::Outcome;
use crate::registry::Registry;
use crate::registry::VisitorView;
use crate::registry::has_match;
use crate::registry::next_registry;
use crate::registry::step_lines;

verus! {

/// The lines printed and the final registry of a session that starts from
/// `reg` and works through the raw lines `inputs` in order. Each line is
/// normalized; a line whose normalized form is empty and matches no record
/// ends the session; every other line is dispatched and may print.
pub open spec fn session(reg: Seq<VisitorView>, inputs: Seq<Seq<char>>) -> (Seq<Seq<char>>, Seq<
    VisitorView,
>)
    decreases inputs.len(),
{
    if inputs.len() == 0 {
        (Seq::<Seq<char>>::empty(), reg)
    } else {
        let name = normalized(inputs[0]);
        if !has_match(reg, name) && name.len() == 0 {
            (Seq::<Seq<char>>::empty(), reg)
        } else {
            let rest = session(next_registry(reg, name), inputs.subrange(1, inputs.len() as int));
            (step_lines(reg, name) + rest.0, rest.1)
        }
    }
}

/// Runs the greeting loop on the raw lines `inputs`, starting from `reg`:
/// normalizes each line, dispatches it, and collects every printed line
/// (prompts aside), stopping at the quit sentinel. Leaves `reg` as the
/// session's final registry.
#[verifier::loop_isolation(false)]
pub fn run_session(reg: &mut Registry, inputs: &Vec<String>) -> (lines: Vec<String>)
    ensures
        lines.deep_view() == session(old(reg)@, inputs.deep_view()).0,
        final(reg)@ == session(old(reg)@, inputs.deep_view()).1,
{
    let ghost reg0 = old(reg)@;
    let ghost all = inputs.deep_view();
    let mut out: Vec<String> = Vec::new();
    let n = inputs.len();
    let mut i: usize = 0;
    proof {
        assert(all.subrange(0, n as int) =~= all);
        assert(out.deep_view() =~= Seq::<Seq<char>>::empty());
        assert(out.deep_view() + session(reg0, all).0 =~= session(reg0, all).0);
    }
    while i < n
        invariant
            i <= n,
            n == all.len(),
            all == inputs.deep_view(),
            session(reg0, all).0 == out.deep_view() + session(reg@, all.subrange(i as int, n as int)).0,
            session(reg0, all).1 == session(reg@, all.subrange(i as int, n as int)).1,
        decreases n - i,
    {
        let ghost cur = reg@;
        let ghost rest = all.subrange(i as int, n as int);
        let ghost out_before = out.deep_view();
        let name = normalize_input(inputs[i].as_str());
        proof {
            assert(rest[0] == inputs@[i as int].deep_view());
            assert(name@ == normalized(rest[0]));
            assert(rest.subrange(1, rest.len() as int) =~= all.subrange(i + 1, n as int));
        }
        match reg.step(&name) {
            Outcome::Greeted(g) => {
                out.push(g);
                proof {
                    assert(out.deep_view() =~= out_before.push(g@));
                    assert(out.deep_view() + session(reg@, all.subrange(i + 1, n as int)).0
                        =~= out_before + session(cur, rest).0);
                }
            },
            Outcome::Registered(notice) => {
                out.push(notice);
                proof {
                    assert(out.deep_view() =~= out_before.push(notice@));
                    assert(out.deep_view() + session(reg@, all.subrange(i + 1, n as int)).0
                        =~= out_before + session(cur, rest).0);
                }
            },
            Outcome::Quit => {
                proof {
                    assert(session(cur, rest).0 =~= Seq::<Seq<char>>::empty());
                    assert(session(cur, rest).1 == cur);
                    assert(out.deep_view() + session(cur, rest).0 =~= out.deep_view());
                }
                return out;
            },
        }
        i += 1;
    }
    proof {
        assert(all.subrange(n as int, n as int) =~= Seq::<Seq<char>>::empty());
        assert(out.deep_view() + session(reg@, all.subrange(n as int, n as int)).0
            =~= out.deep_view());
    }
    out
}

} // verus!
