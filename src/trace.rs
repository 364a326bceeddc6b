//! The effect of a whole pass over a dump, and what holds of it.

use vstd::prelude::*;
use crate::marker::marker;
use crate::splitter::{Act, State, initial_state, step_spec, use_prefix};

verus! {

/// One output: where it goes, the preamble written first, and the lines
/// routed to it, beginning with its marker line.
pub struct Output {
    pub path: Seq<char>,
    pub preamble: Seq<char>,
    pub body: Seq<char>,
}

impl Output {
    /// Everything written to the output, in order.
    pub open spec fn content(&self) -> Seq<char> {
        self.preamble + self.body
    }
}

/// The outputs of a pass, in the order they were opened, and the state left.
pub struct Pass {
    pub state: State,
    pub outputs: Seq<Output>,
    pub dropped: Seq<char>,
}

/// The outputs after carrying out `a`.
pub open spec fn apply(outs: Seq<Output>, a: Act) -> Seq<Output> {
    match a {
        Act::Open(path, preamble, line) => outs.push(Output { path, preamble, body: line }),
        Act::Write(line) => if outs.len() > 0 {
            let o = outs.last();
            outs.update(outs.len() - 1, Output { path: o.path, preamble: o.preamble, body: o.body + line })
        } else {
            outs
        },
        _ => outs,
    }
}

/// A whole pass over `lines`, each line with its terminator.
pub open spec fn run(root: Seq<char>, only_names: bool, lines: Seq<Seq<char>>) -> Pass
    decreases lines.len(),
{
    if lines.len() == 0 {
        Pass { state: initial_state(), outputs: Seq::empty(), dropped: Seq::empty() }
    } else {
        let p = run(root, only_names, lines.drop_last());
        let sa = step_spec(root, only_names, p.state, lines.last());
        Pass {
            state: sa.0,
            outputs: apply(p.outputs, sa.1),
            dropped: if sa.1 is Drop {
                p.dropped + lines.last()
            } else {
                p.dropped
            },
        }
    }
}

/// The lines, joined.
pub open spec fn joined(lines: Seq<Seq<char>>) -> Seq<char>
    decreases lines.len(),
{
    if lines.len() == 0 {
        Seq::empty()
    } else {
        joined(lines.drop_last()) + lines.last()
    }
}

/// The bodies of the outputs, joined.
pub open spec fn joined_bodies(outs: Seq<Output>) -> Seq<char>
    decreases outs.len(),
{
    if outs.len() == 0 {
        Seq::empty()
    } else {
        joined_bodies(outs.drop_last()) + outs.last().body
    }
}

/// How many of the lines are marker lines.
pub open spec fn marker_count(lines: Seq<Seq<char>>) -> nat
    decreases lines.len(),
{
    if lines.len() == 0 {
        0
    } else {
        marker_count(lines.drop_last()) + if marker(lines.last()) is Some {
            1nat
        } else {
            0nat
        }
    }
}

/// Whether the line at `i` is taken as the terminator of a context switch.
pub open spec fn is_terminator(root: Seq<char>, only_names: bool, lines: Seq<Seq<char>>, i: int) -> bool {
    run(root, only_names, lines.take(i)).state.pending is Some
}

proof fn lemma_no_use_marker(line: Seq<char>)
    requires
        use_prefix().is_prefix_of(line),
    ensures
        marker(line) is None,
{
    reveal_strlit("USE ");
    reveal_strlit("/****** Object:");
    assert(line[0] == line.subrange(0, 4)[0]);
    assert(line[0] == 'U');
    if crate::marker::marker_prefix().is_prefix_of(line) {
        assert(line[0] == line.subrange(0, 15)[0]);
    }
}

/// An output is open exactly when some output has been opened.
proof fn lemma_open(root: Seq<char>, only_names: bool, lines: Seq<Seq<char>>)
    ensures
        run(root, only_names, lines).state.open <==> run(root, only_names, lines).outputs.len() > 0,
    decreases lines.len(),
{
    if lines.len() > 0 {
        lemma_open(root, only_names, lines.drop_last());
    }
}

/// Without context switches, the dropped lines and the outputs' bodies
/// together give back the input unchanged: no line is lost, repeated or
/// moved. (A context switch is replayed into later outputs instead of being
/// written where it stood.)
pub proof fn lemma_lossless(root: Seq<char>, only_names: bool, lines: Seq<Seq<char>>)
    requires
        forall|i: int| 0 <= i < lines.len() ==> !use_prefix().is_prefix_of(#[trigger] lines[i]),
    ensures
        run(root, only_names, lines).dropped + joined_bodies(run(root, only_names, lines).outputs)
            == joined(lines),
        run(root, only_names, lines).state.pending is None,
    decreases lines.len(),
{
    if lines.len() > 0 {
        let init = lines.drop_last();
        assert forall|i: int| 0 <= i < init.len() implies !use_prefix().is_prefix_of(
            #[trigger] init[i],
        ) by {
            assert(init[i] == lines[i]);
        }
        lemma_lossless(root, only_names, init);
        lemma_open(root, only_names, init);
        let p = run(root, only_names, init);
        let l = lines.last();
        assert(!use_prefix().is_prefix_of(lines[lines.len() - 1]));
        let q = run(root, only_names, lines);
        match marker(l) {
            Some(_) => {
                assert(q.outputs.drop_last() =~= p.outputs);
            },
            None => {
                if p.state.open {
                    assert(q.outputs.drop_last() =~= p.outputs.drop_last());
                } else {
                    assert(p.outputs.len() == 0);
                }
            },
        }
        assert(q.dropped + joined_bodies(q.outputs) =~= joined(lines));
    }
}

/// Every line that is not the terminator of a context switch opens an output
/// exactly when it is a marker line; so, where no terminator is a marker line,
/// there are as many outputs as marker lines.
pub proof fn lemma_output_count(root: Seq<char>, only_names: bool, lines: Seq<Seq<char>>)
    requires
        forall|i: int|
            0 <= i < lines.len() && #[trigger] is_terminator(root, only_names, lines, i) ==> marker(
                lines[i],
            ) is None,
    ensures
        run(root, only_names, lines).outputs.len() == marker_count(lines),
    decreases lines.len(),
{
    if lines.len() > 0 {
        let init = lines.drop_last();
        let n = lines.len() - 1;
        assert forall|i: int|
            0 <= i < init.len() && #[trigger] is_terminator(
                root,
                only_names,
                init,
                i,
            ) implies marker(init[i]) is None by {
            assert(init.take(i) =~= lines.take(i));
            assert(is_terminator(root, only_names, lines, i));
        }
        lemma_output_count(root, only_names, init);
        assert(lines.take(n) =~= init);
        assert(is_terminator(root, only_names, lines, n) == run(
            root,
            only_names,
            init,
        ).state.pending is Some);
        let l = lines.last();
        if use_prefix().is_prefix_of(l) {
            lemma_no_use_marker(l);
        }
    }
}

/// Extending the input leaves the outputs already opened where they were:
/// the closed ones unchanged, and the open one at its path with its preamble.
/// Without further context switches, every output opened later gets the same
/// preamble.
proof fn lemma_extend(root: Seq<char>, only_names: bool, x: Seq<Seq<char>>, ys: Seq<Seq<char>>)
    ensures
        ({
            let p = run(root, only_names, x);
            let q = run(root, only_names, x + ys);
            &&& p.outputs.len() <= q.outputs.len()
            &&& forall|i: int|
                0 <= i < p.outputs.len() ==> (#[trigger] q.outputs[i]).path == p.outputs[i].path
                    && q.outputs[i].preamble == p.outputs[i].preamble
            &&& forall|i: int| 0 <= i < p.outputs.len() - 1 ==> #[trigger] q.outputs[i] == p.outputs[i]
            &&& (p.state.pending is None && forall|j: int|
                0 <= j < ys.len() ==> !use_prefix().is_prefix_of(#[trigger] ys[j])) ==> {
                &&& q.state.pending is None
                &&& q.state.preamble == p.state.preamble
                &&& forall|i: int|
                    p.outputs.len() <= i < q.outputs.len() ==> (#[trigger] q.outputs[i]).preamble
                        == p.state.preamble
            }
        }),
    decreases ys.len(),
{
    if ys.len() == 0 {
        assert(x + ys =~= x);
    } else {
        let ys0 = ys.drop_last();
        lemma_extend(root, only_names, x, ys0);
        assert((x + ys).drop_last() =~= x + ys0);
        assert((x + ys).last() == ys.last());
        if forall|j: int| 0 <= j < ys.len() ==> !use_prefix().is_prefix_of(#[trigger] ys[j]) {
            assert forall|j: int| 0 <= j < ys0.len() implies !use_prefix().is_prefix_of(
                #[trigger] ys0[j],
            ) by {
                assert(ys0[j] == ys[j]);
            }
            assert(!use_prefix().is_prefix_of(ys[ys.len() - 1]));
        }
    }
}

/// A context switch, `u` then its terminator `g`, sets the preamble of every
/// output opened after it, up to the next context switch; the outputs opened
/// before it keep theirs, and those already closed are left as they were.
pub proof fn lemma_preamble(
    root: Seq<char>,
    only_names: bool,
    a: Seq<Seq<char>>,
    u: Seq<char>,
    g: Seq<char>,
    b: Seq<Seq<char>>,
)
    requires
        use_prefix().is_prefix_of(u),
        run(root, only_names, a).state.pending is None,
        forall|j: int| 0 <= j < b.len() ==> !use_prefix().is_prefix_of(#[trigger] b[j]),
    ensures
        ({
            let p = run(root, only_names, a);
            let q = run(root, only_names, a + seq![u, g] + b);
            &&& p.outputs.len() <= q.outputs.len()
            &&& forall|i: int|
                0 <= i < p.outputs.len() ==> (#[trigger] q.outputs[i]).path == p.outputs[i].path
                    && q.outputs[i].preamble == p.outputs[i].preamble
            &&& forall|i: int| 0 <= i < p.outputs.len() - 1 ==> #[trigger] q.outputs[i] == p.outputs[i]
            &&& forall|i: int|
                p.outputs.len() <= i < q.outputs.len() ==> (#[trigger] q.outputs[i]).preamble == u
                    + g
            &&& q.state.preamble == u + g
        }),
{
    let au = a.push(u);
    let aug = a + seq![u, g];
    assert(au.drop_last() =~= a);
    assert(aug.drop_last() =~= au);
    assert(aug.last() == g);
    assert(au.last() == u);
    let p = run(root, only_names, a);
    let r1 = run(root, only_names, au);
    assert(step_spec(root, only_names, p.state, u).1 is Context);
    assert(r1.outputs == p.outputs);
    assert(r1.state.pending == Some(u));
    let r = run(root, only_names, aug);
    assert(r.outputs == p.outputs);
    assert(r.state.preamble == u + g);
    assert(aug + b == a + seq![u, g] + b);
    lemma_extend(root, only_names, aug, b);
}

} // verus!
