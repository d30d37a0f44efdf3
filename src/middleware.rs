//! The middleware chain: an append-only list of entries and a cursor over
//! what remains of it.
//!
//! A dispatch starts from `Pipeline::start`. Each `Next::run` names the entry
//! to hand the request to, together with the cursor that entry receives, or
//! says that the chain is exhausted and the endpoint is due.

use vstd::prelude::*;

pub mod logger;
pub mod redirect;

pub use redirect::Redirect;

verus! {

/// One invocation made while a request travels down the chain.
#[derive(Clone, Copy, Debug, PartialEq, Eq, Structural)]
pub enum Stop {
    /// The entry at this position of the chain handles the request.
    Middleware(usize),
    /// The endpoint performs the request.
    Endpoint,
}

/// The remainder of a middleware chain: the entries at positions
/// `start..end`, followed by the endpoint.
#[derive(Clone, Copy, Debug, PartialEq, Eq, Structural)]
pub struct Next {
    pub start: usize,
    pub end: usize,
}

/// What running a cursor leads to.
#[derive(Clone, Copy, Debug, PartialEq, Eq, Structural)]
pub enum Step {
    /// Hand the request to the entry at `index`, which receives `rest` as its
    /// own continuation.
    Handle { index: usize, rest: Next },
    /// Nothing is left of the chain: call the endpoint.
    Endpoint,
}

/// The invocations made, in order, when every entry from `n` onwards runs its
/// continuation exactly once.
pub open spec fn stops_from(n: Next) -> Seq<Stop> {
    Seq::new((n.end - n.start) as nat, |i: int| Stop::Middleware((n.start + i) as usize)).push(
        Stop::Endpoint,
    )
}

impl Next {
    /// A cursor covers positions in order.
    pub open spec fn wf(self) -> bool {
        self.start <= self.end
    }

    /// How many entries remain before the endpoint.
    pub open spec fn remaining(self) -> nat {
        (self.end - self.start) as nat
    }

    /// The step that running this cursor takes.
    pub open spec fn step(self) -> Step {
        if self.start < self.end {
            Step::Handle { index: self.start, rest: Next { start: (self.start + 1) as usize, end: self.end } }
        } else {
            Step::Endpoint
        }
    }

    /// A cursor over a whole chain of `len` entries.
    pub fn new(len: usize) -> (r: Next)
        ensures
            r.wf(),
            r.start == 0,
            r.end == len,
            r.remaining() == len,
    {
        Next { start: 0, end: len }
    }

    /// Runs the cursor: the first remaining entry and the cursor over the rest,
    /// or the endpoint once nothing remains. The cursor itself is a copy and
    /// stays as it was, so it may be run again.
    pub fn run(self) -> (r: Step)
        requires
            self.wf(),
        ensures
            r == self.step(),
            match r {
                Step::Handle { index, rest } => index == self.start && rest.wf() && rest.end
                    == self.end && rest.remaining() + 1 == self.remaining(),
                Step::Endpoint => self.remaining() == 0,
            },
    {
        if self.start < self.end {
            Step::Handle { index: self.start, rest: Next { start: self.start + 1, end: self.end } }
        } else {
            Step::Endpoint
        }
    }
}

/// An ordered, append-only list of middleware entries. The first entry
/// attached is the outermost: it sees the request first and the response last.
pub struct Pipeline<M> {
    entries: Vec<M>,
}

/// One invocation in terms of the entries themselves.
pub enum Call<M> {
    Handle(M),
    Endpoint,
}

/// The invocations made by a dispatch through `entries` in which every entry
/// runs its continuation exactly once.
pub open spec fn calls_of<M>(entries: Seq<M>) -> Seq<Call<M>> {
    entries.map_values(|m: M| Call::Handle(m)).push(Call::Endpoint)
}

/// `outer` wrapping a dispatch that makes the invocations `inner`.
pub open spec fn wrapping<M>(outer: M, inner: Seq<Call<M>>) -> Seq<Call<M>> {
    seq![Call::Handle(outer)] + inner
}

/// Each of `outers`, first one outermost, wrapped around `inner`.
pub open spec fn wrapping_all<M>(outers: Seq<M>, inner: Seq<Call<M>>) -> Seq<Call<M>> {
    outers.map_values(|m: M| Call::Handle(m)) + inner
}

/// Reads a stop of a dispatch as the entry it invokes.
pub open spec fn call_at<M>(entries: Seq<M>, s: Stop) -> Call<M> {
    match s {
        Stop::Middleware(i) => Call::Handle(entries[i as int]),
        Stop::Endpoint => Call::Endpoint,
    }
}

impl<M> View for Pipeline<M> {
    type V = Seq<M>;

    /// The attached entries, outermost first.
    closed spec fn view(&self) -> Seq<M> {
        self.entries@
    }
}

impl<M> Pipeline<M> {
    /// An empty chain.
    pub fn new() -> (r: Pipeline<M>)
        ensures
            r@ == Seq::<M>::empty(),
    {
        Pipeline { entries: Vec::new() }
    }

    /// Appends an entry; it runs after every entry attached before it.
    pub fn attach(&mut self, m: M)
        ensures
            final(self)@ == old(self)@.push(m),
    {
        self.entries.push(m);
    }

    /// How many entries are attached.
    pub fn len(&self) -> (r: usize)
        ensures
            r == self@.len(),
    {
        self.entries.len()
    }

    /// The entry at position `i`.
    pub fn entry(&self, i: usize) -> (r: &M)
        requires
            i < self@.len(),
        ensures
            *r == self@[i as int],
    {
        &self.entries[i]
    }

    /// The attached entries, outermost first.
    pub fn as_slice(&self) -> (r: &[M])
        ensures
            r@ == self@,
    {
        self.entries.as_slice()
    }

    /// The cursor a dispatch starts from: the whole chain, then the endpoint.
    pub fn start(&self) -> (r: Next)
        ensures
            r.wf(),
            r.start == 0,
            r.end == self@.len(),
    {
        Next::new(self.entries.len())
    }

    /// The invocations, in order, of a dispatch in which every entry runs its
    /// continuation once: each entry in attachment order, then the endpoint.
    pub fn dispatch_order(&self) -> (r: Vec<Stop>)
        ensures
            r@ == stops_from(Next { start: 0, end: self@.len() as usize }),
            r@.len() == self@.len() + 1,
    {
        let mut out: Vec<Stop> = Vec::new();
        let mut cur = self.start();
        let n = self.entries.len();
        loop
            invariant
                cur.wf(),
                cur.end == n,
                n == self@.len(),
                out@ == Seq::new(cur.start as nat, |i: int| Stop::Middleware(i as usize)),
            decreases cur.remaining(),
        {
            match cur.run() {
                Step::Handle { index, rest } => {
                    out.push(Stop::Middleware(index));
                    proof {
                        assert(out@ =~= Seq::new(rest.start as nat, |i: int| Stop::Middleware(i as usize)));
                    }
                    cur = rest;
                },
                Step::Endpoint => {
                    out.push(Stop::Endpoint);
                    proof {
                        assert(out@ =~= stops_from(Next { start: 0, end: n }));
                    }
                    return out;
                },
            }
        }
    }
}

/// With `n` entries attached and none of them short-circuiting, a dispatch
/// makes exactly `n + 1` invocations: every entry once in attachment order,
/// then the endpoint, whose response is the one handed back up the chain.
pub proof fn lemma_dispatch_visits_all<M>(entries: Seq<M>)
    requires
        entries.len() <= usize::MAX,
    ensures
        ({
            let stops = stops_from(Next { start: 0, end: entries.len() as usize });
            &&& stops.len() == entries.len() + 1
            &&& forall|i: int| 0 <= i < entries.len() ==> stops[i] == Stop::Middleware(i as usize)
            &&& stops.last() == Stop::Endpoint
            &&& stops.map_values(|s: Stop| call_at(entries, s)) == calls_of(entries)
        }),
{
    let stops = stops_from(Next { start: 0, end: entries.len() as usize });
    assert(stops.map_values(|s: Stop| call_at(entries, s)) =~= calls_of(entries));
}

/// Attaching entries one after another composes as nesting: a chain made of
/// `outers` followed by `inners` behaves as each of `outers`, first one
/// outermost, wrapped around the chain made of `inners` alone. In particular
/// attaching `a` then `b` is `a` wrapping `b` wrapping the endpoint.
pub proof fn lemma_attach_nests<M>(outers: Seq<M>, inners: Seq<M>, a: M, b: M)
    ensures
        calls_of(outers + inners) == wrapping_all(outers, calls_of(inners)),
        calls_of(seq![a, b]) == wrapping(a, wrapping(b, calls_of(Seq::<M>::empty()))),
{
    assert(calls_of(outers + inners) =~= wrapping_all(outers, calls_of(inners)));
    assert(calls_of(seq![a, b]) =~= wrapping(a, wrapping(b, calls_of(Seq::<M>::empty()))));
}

/// Running a cursor is free of effects: two copies of one cursor, run
/// separately, take the same step and walk the same remaining chain, so a
/// middleware that runs its continuation twice gets two full, independent
/// trips through the rest of the chain and the endpoint.
pub proof fn lemma_copies_run_alike(n: Next, copy: Next)
    requires
        n.wf(),
        copy == n,
    ensures
        copy.step() == n.step(),
        stops_from(copy) == stops_from(n),
        n.step() is Endpoint <==> n.remaining() == 0,
        match n.step() {
            Step::Handle { index, rest } => stops_from(n) == seq![Stop::Middleware(index)] + stops_from(rest),
            Step::Endpoint => stops_from(n) == seq![Stop::Endpoint],
        },
{
    match n.step() {
        Step::Handle { index, rest } => {
            assert(stops_from(n) =~= seq![Stop::Middleware(index)] + stops_from(rest));
        },
        Step::Endpoint => {
            assert(stops_from(n) =~= seq![Stop::Endpoint]);
        },
    }
}

} // verus!
