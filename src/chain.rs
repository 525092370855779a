//! The cursor that walks an ordered chain of middlewares.
//!
//! A chain is built once, in the order in which its middlewares were
//! registered, and shared read-only by every request. A `Next` points into it:
//! running it dispatches to the first middleware that remains, handing that
//! middleware a cursor past itself, or, where none remains, to the transport.
//! A cursor is a plain copyable value, so a middleware may run the rest of the
//! chain as often as it likes.

use vstd::prelude::*;

verus! {

/// A position in a chain of `len` middlewares.
#[derive(Clone, Copy, Debug, PartialEq, Eq, Structural)]
pub struct Next {
    pub pos: usize,
    pub len: usize,
}

/// Where running a cursor leads.
#[derive(Clone, Copy, Debug, PartialEq, Eq, Structural)]
pub enum Dispatch {
    /// Call the middleware at `index`, with `rest` as its continuation.
    Middleware { index: usize, rest: Next },
    /// Every middleware has been passed: send through the transport.
    Transport,
}

impl Next {
    /// A cursor stays within its chain.
    pub open spec fn wf(&self) -> bool {
        self.pos <= self.len
    }

    /// The cursor at the head of a chain of `len` middlewares.
    pub fn new(len: usize) -> (r: Next)
        ensures
            r == (Next { pos: 0, len }),
            r.wf(),
    {
        Next { pos: 0, len }
    }

    /// How many middlewares remain before the transport.
    pub fn remaining(&self) -> (r: usize)
        requires
            self.wf(),
        ensures
            r == self.len - self.pos,
    {
        self.len - self.pos
    }

    /// Where running this cursor leads: the first middleware that remains,
    /// with a cursor just past it, or the transport.
    pub fn run(&self) -> (r: Dispatch)
        requires
            self.wf(),
        ensures
            self.pos < self.len ==> r == (Dispatch::Middleware {
                index: self.pos,
                rest: Next { pos: (self.pos + 1) as usize, len: self.len },
            }),
            self.pos == self.len ==> r == Dispatch::Transport,
            r matches Dispatch::Middleware { rest, .. } ==> rest.wf(),
    {
        if self.pos < self.len {
            Dispatch::Middleware { index: self.pos, rest: Next { pos: self.pos + 1, len: self.len } }
        } else {
            Dispatch::Transport
        }
    }
}

/// What a probe in each middleware and in the transport records.
#[derive(Clone, Copy, Debug, PartialEq, Eq, Structural)]
pub enum Probe {
    /// The middleware at this index was entered.
    Enter(usize),
    /// The transport was called.
    Transport,
    /// The middleware at this index returned.
    Exit(usize),
}

/// What the probes record when the chain runs from position `pos` and every
/// middleware records its entry, runs the rest of the chain once, and records
/// its exit.
pub open spec fn spec_trace(pos: nat, len: nat) -> Seq<Probe>
    decreases len - pos,
{
    if pos < len {
        seq![Probe::Enter(pos as usize)] + spec_trace(pos + 1, len) + seq![Probe::Exit(pos as usize)]
    } else {
        seq![Probe::Transport]
    }
}

/// Runs the chain from `next`, every middleware recording its entry, running
/// the rest once and recording its exit, and returns what was recorded.
pub fn probe_trace(next: Next) -> (r: Vec<Probe>)
    requires
        next.wf(),
    ensures
        r@ == spec_trace(next.pos as nat, next.len as nat),
    decreases next.len - next.pos,
{
    match next.run() {
        Dispatch::Middleware { index, rest } => {
            let mut r: Vec<Probe> = Vec::new();
            r.push(Probe::Enter(index));
            let mut inner = probe_trace(rest);
            r.append(&mut inner);
            r.push(Probe::Exit(index));
            r
        },
        Dispatch::Transport => {
            let mut r: Vec<Probe> = Vec::new();
            r.push(Probe::Transport);
            r
        },
    }
}

/// Chain ordering: with `n` middlewares registered in order, the middlewares
/// are entered in registration order, then the transport is called, then
/// they return in the reverse order.
pub proof fn lemma_chain_order(n: nat)
    requires
        n <= usize::MAX,
    ensures
        spec_trace(0, n).len() == 2 * n + 1,
        forall|i: int| 0 <= i < n ==> #[trigger] spec_trace(0, n)[i] == Probe::Enter(i as usize),
        spec_trace(0, n)[n as int] == Probe::Transport,
        forall|i: int|
            0 <= i < n ==> #[trigger] spec_trace(0, n)[n + 1 + i] == Probe::Exit(
                (n - 1 - i) as usize,
            ),
{
    lemma_trace_from(0, n);
}

proof fn lemma_trace_from(pos: nat, len: nat)
    requires
        pos <= len,
        len <= usize::MAX,
    ensures
        spec_trace(pos, len).len() == 2 * (len - pos) + 1,
        forall|i: int|
            0 <= i < len - pos ==> #[trigger] spec_trace(pos, len)[i] == Probe::Enter(
                (pos + i) as usize,
            ),
        spec_trace(pos, len)[len - pos] == Probe::Transport,
        forall|i: int|
            0 <= i < len - pos ==> #[trigger] spec_trace(pos, len)[len - pos + 1 + i]
                == Probe::Exit((len - 1 - i) as usize),
    decreases len - pos,
{
    if pos < len {
        lemma_trace_from(pos + 1, len);
        let inner = spec_trace(pos + 1, len);
        let t = spec_trace(pos, len);
        let k = len - pos;
        assert(t == seq![Probe::Enter(pos as usize)] + inner + seq![Probe::Exit(pos as usize)]);
        assert forall|i: int| 0 <= i < k implies #[trigger] t[i] == Probe::Enter((pos + i) as usize) by {
            if i > 0 {
                assert(t[i] == inner[i - 1]);
            }
        }
        assert(t[k] == inner[k - 1]);
        assert forall|i: int| 0 <= i < k implies #[trigger] t[k + 1 + i] == Probe::Exit(
            (len - 1 - i) as usize,
        ) by {
            if i < k - 1 {
                assert(t[k + 1 + i] == inner[(k - 1) + 1 + i]);
            }
        }
    }
}

} // verus!
