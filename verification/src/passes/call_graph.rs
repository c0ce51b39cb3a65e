//! The call graph of a program: which functions each function calls, and whether the calls
//! can recur.

use indexmap::{IndexMap, IndexSet};

use vstd::prelude::*;
use vstd::set_lib::*;

use crate::span::Symbol;

verus! {

#[verifier::external_type_specification]
#[verifier::external_body]
#[verifier::reject_recursive_types(K)]
#[verifier::reject_recursive_types(V)]
#[verifier::reject_recursive_types(S)]
pub struct ExIndexMap<K, V, S>(IndexMap<K, V, S>);

#[verifier::external_type_specification]
#[verifier::external_body]
#[verifier::reject_recursive_types(T)]
#[verifier::reject_recursive_types(S)]
pub struct ExIndexSet<T, S>(IndexSet<T, S>);

/// What a map from functions to the functions they call holds: each key with its vector of
/// callees, in the order they were added.
pub uninterp spec fn edges_of(m: IndexMap<u32, Vec<u32>>) -> Map<u32, Seq<u32>>;

/// What a set of functions holds, in the order the functions were first inserted.
pub uninterp spec fn set_contents(s: IndexSet<u32>) -> Seq<u32>;

/// Creates an empty map, with `IndexMap::new`.
#[verifier::external_body]
fn new_edges() -> (r: IndexMap<u32, Vec<u32>>)
    ensures
        edges_of(r) == no_edges(),
{
    IndexMap::new()
}

/// Returns the vector of the key, inserting an empty one where the key is absent, with
/// `IndexMap::entry` and `Entry::or_default`: what is written through the returned reference
/// becomes the key's vector.
#[verifier::external_body]
fn edges_entry(m: &mut IndexMap<u32, Vec<u32>>, key: u32) -> (v: &mut Vec<u32>)
    ensures
        v@ == (if edges_of(*old(m)).contains_key(key) { edges_of(*old(m))[key] } else { Seq::<u32>::empty() }),
        edges_of(*final(m)) == edges_of(*old(m)).insert(key, final(v)@),
{
    m.entry(key).or_default()
}

/// Returns the vector of the key, if the key is present, with `IndexMap::get`.
#[verifier::external_body]
fn edges_get(m: &IndexMap<u32, Vec<u32>>, key: u32) -> (r: Option<&Vec<u32>>)
    ensures
        match r {
            Some(v) => edges_of(*m).contains_key(key) && v@ == edges_of(*m)[key],
            None => !edges_of(*m).contains_key(key),
        },
{
    m.get(&key)
}

/// Creates an empty set, with `IndexSet::new`.
#[verifier::external_body]
fn new_seen() -> (s: IndexSet<u32>)
    ensures
        set_contents(s) == Seq::<u32>::empty(),
{
    IndexSet::new()
}

/// Whether the set holds the item, with `IndexSet::contains`.
#[verifier::external_body]
fn seen_contains(s: &IndexSet<u32>, x: u32) -> (b: bool)
    ensures
        b == set_contents(*s).contains(x),
{
    s.contains(&x)
}

/// Inserts the item, last in order, where the set does not hold it yet, with `IndexSet::insert`;
/// returns whether it was inserted.
#[verifier::external_body]
fn seen_insert(s: &mut IndexSet<u32>, x: u32) -> (b: bool)
    ensures
        b == !set_contents(*old(s)).contains(x),
        set_contents(*final(s)) == (if b { set_contents(*old(s)).push(x) } else { set_contents(*old(s)) }),
{
    s.insert(x)
}

/// The graph without edges.
pub open spec fn no_edges() -> Map<u32, Seq<u32>> {
    Map::empty()
}

/// The functions that `v` calls, in the graph.
pub open spec fn succ(g: Map<u32, Seq<u32>>, v: u32) -> Seq<u32> {
    if g.contains_key(v) { g[v] } else { Seq::empty() }
}

/// Whether the sequence is a walk along the calls of the graph.
pub open spec fn is_walk(g: Map<u32, Seq<u32>>, p: Seq<u32>) -> bool {
    &&& p.len() >= 1
    &&& forall|i: int| 0 <= i < p.len() - 1 ==> succ(g, #[trigger] p[i]).contains(p[i + 1])
}

/// Whether some walk from a source function comes back to a function it has passed: a cycle of
/// calls that the sources reach.
pub open spec fn has_reachable_cycle(g: Map<u32, Seq<u32>>, sources: Seq<u32>) -> bool {
    exists|p: Seq<u32>| #[trigger] is_walk(g, p) && sources.contains(p[0])
        && exists|i: int| 0 <= i < p.len() - 1 && p[i] == p.last()
}

/// The functions of the graph: the sources, those that call, and those called.
pub open spec fn nodes(g: Map<u32, Seq<u32>>, sources: Seq<u32>) -> Set<u32> {
    sources.to_set().union(g.dom()).union(g.dom().map(|k: u32| g[k].to_set()).flatten())
}

/// Whether the function is among the first `i` of the sequence.
pub open spec fn among_first(done: Seq<u32>, i: int, c: u32) -> bool {
    exists|j: int| 0 <= j < i && done[j] == c
}

/// Whether each function of the sequence calls only functions that come before it.
spec fn calls_before(g: Map<u32, Seq<u32>>, done: Seq<u32>) -> bool {
    forall|i: int, k: int| 0 <= i < done.len() && 0 <= k < succ(g, done[i]).len()
        ==> among_first(done, i, #[trigger] succ(g, done[i])[k])
}

/// The state of the depth-first search: the functions it has finished, each calling only
/// functions finished before it, and the walk from a source that it is on, which holds no
/// finished function.
spec fn search_inv(g: Map<u32, Seq<u32>>, sources: Seq<u32>, stack: Seq<u32>, done: Seq<u32>) -> bool {
    &&& calls_before(g, done)
    &&& done.no_duplicates()
    &&& stack.no_duplicates()
    &&& forall|x: u32| stack.contains(x) ==> !done.contains(x)
    &&& stack.len() > 0 ==> is_walk(g, stack) && sources.contains(stack[0])
}

/// Finishing a function whose callees are all finished keeps each finished function calling only
/// functions finished before it.
proof fn lemma_calls_before_push(g: Map<u32, Seq<u32>>, done: Seq<u32>, v: u32)
    requires
        calls_before(g, done),
        forall|k: int| 0 <= k < succ(g, v).len() ==> done.contains(#[trigger] succ(g, v)[k]),
    ensures
        calls_before(g, done.push(v)),
{
    let done2 = done.push(v);
    assert forall|i: int, k: int| 0 <= i < done2.len() && 0 <= k < succ(g, done2[i]).len()
        implies among_first(done2, i, #[trigger] succ(g, done2[i])[k]) by {
        if i < done.len() {
            assert(done2[i] == done[i]);
            assert(among_first(done, i, succ(g, done[i])[k]));
            let j = choose|j: int| 0 <= j < i && done[j] == succ(g, done[i])[k];
            assert(done2[j] == done[j]);
        } else {
            assert(done2[i] == v);
            assert(done.contains(succ(g, v)[k]));
            let j = choose|j: int| 0 <= j < done.len() && done[j] == succ(g, v)[k];
            assert(done2[j] == done[j]);
        }
    }
}

/// The functions that the search has yet to reach.
spec fn unvisited(g: Map<u32, Seq<u32>>, sources: Seq<u32>, stack: Seq<u32>, done: Seq<u32>) -> nat {
    nodes(g, sources).difference(done.to_set().union(stack.to_set())).len()
}

/// A graph with finitely many functions that call has finitely many functions.
proof fn lemma_nodes_finite(g: Map<u32, Seq<u32>>, sources: Seq<u32>)
    requires
        g.dom().finite(),
    ensures
        nodes(g, sources).finite(),
{
    let f = |k: u32| g[k].to_set();
    g.dom().lemma_map_finite(f);
    assert forall|s: Set<u32>| g.dom().map(f).contains(s) implies #[trigger] s.finite() by {
        let k = choose|k: u32| g.dom().contains(k) && s == f(k);
        vstd::seq_lib::seq_to_set_is_finite(g[k]);
    }
    g.dom().map(f).lemma_flatten_finite();
    vstd::seq_lib::seq_to_set_is_finite(sources);
}

/// A function called by any function is a function of the graph.
proof fn lemma_succ_in_nodes(g: Map<u32, Seq<u32>>, sources: Seq<u32>, v: u32, c: u32)
    requires
        succ(g, v).contains(c),
    ensures
        nodes(g, sources).contains(c),
{
    let f = |k: u32| g[k].to_set();
    assert(g.dom().contains(v));
    assert(g.dom().map(f).contains(f(v)));
    assert(f(v).contains(c));
}

/// Going one function deeper, to a function not reached yet, leaves fewer to reach.
proof fn lemma_unvisited_decreases(
    g: Map<u32, Seq<u32>>,
    sources: Seq<u32>,
    stack: Seq<u32>,
    done0: Seq<u32>,
    done1: Seq<u32>,
    v: u32,
)
    requires
        g.dom().finite(),
        nodes(g, sources).contains(v),
        !stack.contains(v),
        !done0.contains(v),
        forall|x: u32| done0.contains(x) ==> done1.contains(x),
    ensures
        unvisited(g, sources, stack.push(v), done1) < unvisited(g, sources, stack, done0),
{
    lemma_nodes_finite(g, sources);
    let all = nodes(g, sources);
    let m0 = all.difference(done0.to_set().union(stack.to_set()));
    let m1 = all.difference(done1.to_set().union(stack.push(v).to_set()));
    assert(m0.contains(v));
    assert(m1.subset_of(m0.remove(v))) by {
        assert forall|x: u32| m1.contains(x) implies m0.remove(v).contains(x) by {
            assert(stack.push(v)[stack.len() as int] == v);
            if stack.contains(x) {
                let j = choose|j: int| 0 <= j < stack.len() && stack[j] == x;
                assert(stack.push(v)[j] == x);
            }
        }
    }
    vstd::set_lib::lemma_len_subset(m1, m0.remove(v));
}

/// Along a walk from a finished function every function is finished, each before the one
/// calling it: so no walk from a finished function comes back to a function it has passed.
proof fn lemma_no_cycle_from_done(g: Map<u32, Seq<u32>>, done: Seq<u32>, p: Seq<u32>)
    requires
        calls_before(g, done),
        done.no_duplicates(),
        is_walk(g, p),
        done.contains(p[0]),
    ensures
        forall|i: int| 0 <= i < p.len() - 1 ==> p[i] != p.last(),
{
    lemma_walk_positions(g, done, p);
    assert forall|i: int| 0 <= i < p.len() - 1 implies p[i] != p.last() by {
        let a = choose|a: int| 0 <= a < done.len() && done[a] == p[i];
        let b = choose|b: int| 0 <= b < done.len() && done[b] == p[p.len() - 1];
        assert(position(done, p[i]) == a);
        assert(position(done, p[p.len() - 1]) == b);
    }
}

/// The place of a function among the finished ones.
spec fn position(done: Seq<u32>, x: u32) -> int {
    choose|j: int| 0 <= j < done.len() && done[j] == x
}

/// Along a walk from a finished function, every function is finished, at a place before that of
/// every function before it on the walk.
proof fn lemma_walk_positions(g: Map<u32, Seq<u32>>, done: Seq<u32>, p: Seq<u32>)
    requires
        calls_before(g, done),
        done.no_duplicates(),
        is_walk(g, p),
        done.contains(p[0]),
    ensures
        forall|k: int| 0 <= k < p.len() ==> done.contains(#[trigger] p[k]),
        forall|k: int| 0 <= k < p.len() ==> 0 <= position(done, #[trigger] p[k]) < done.len() && done[position(done, p[k])] == p[k],
        forall|i: int, j: int| 0 <= i < j < p.len() ==> position(done, #[trigger] p[j]) < position(done, #[trigger] p[i]),
    decreases p.len(),
{
    if p.len() == 1 {
        assert(done.contains(p[0]));
    } else {
        let q = p.drop_last();
        assert forall|i: int| 0 <= i < q.len() - 1 implies succ(g, #[trigger] q[i]).contains(q[i + 1]) by {
            assert(succ(g, p[i]).contains(p[i + 1]));
        }
        lemma_walk_positions(g, done, q);
        let n = p.len() - 1;
        let prev = p[n - 1];
        let last = p[n];
        assert(prev == q[n - 1]);
        let a = position(done, prev);
        assert(done[a] == prev);
        assert(succ(g, prev).contains(last));
        let k = choose|k: int| 0 <= k < succ(g, prev).len() && succ(g, prev)[k] == last;
        assert(succ(g, done[a])[k] == last);
        assert(among_first(done, a, succ(g, done[a])[k]));
        let j = choose|j: int| 0 <= j < a && done[j] == succ(g, done[a])[k];
        assert(done.contains(last));
        let b = position(done, last);
        assert(b == j);
        assert forall|k2: int| 0 <= k2 < p.len() implies done.contains(#[trigger] p[k2]) by {
            if k2 < n {
                assert(p[k2] == q[k2]);
            }
        }
        assert forall|k2: int| 0 <= k2 < p.len() implies 0 <= position(done, #[trigger] p[k2]) < done.len() && done[position(done, p[k2])] == p[k2] by {
            if k2 < n {
                assert(p[k2] == q[k2]);
            }
        }
        assert forall|i: int, j2: int| 0 <= i < j2 < p.len() implies position(done, #[trigger] p[j2]) < position(done, #[trigger] p[i]) by {
            if j2 < n {
                assert(p[j2] == q[j2]);
                assert(p[i] == q[i]);
            } else {
                assert(p[i] == q[i]);
                if i < n - 1 {
                    assert(position(done, q[n - 1]) < position(done, q[i]));
                }
            }
        }
    }
}

/// Returns whether the vector holds the function.
fn holds(v: &Vec<u32>, x: u32) -> (b: bool)
    ensures
        b == v@.contains(x),
{
    let mut i: usize = 0;
    while i < v.len()
        invariant
            i <= v@.len(),
            forall|j: int| 0 <= j < i ==> v@[j] != x,
        decreases v@.len() - i,
    {
        if v[i] == x {
            return true;
        }
        i = i + 1;
    }
    false
}

/// A directed graph describing the caller-callee relationships of the program. A node
/// corresponds to a function; an edge `a --> b` to a call of `b` in the body of `a`.
#[derive(Debug)]
pub struct CallGraph {
    /// The source nodes of the graph: the functions of the program.
    sources: Vec<Symbol>,
    /// The edges of the graph: each function with the functions it calls.
    edges: IndexMap<Symbol, Vec<Symbol>>,
}

impl CallGraph {
    /// The source nodes.
    pub closed spec fn spec_sources(&self) -> Seq<Symbol> {
        self.sources@
    }

    /// The edges: each function with the functions it calls, in the order the calls were added.
    pub closed spec fn graph(&self) -> Map<Symbol, Seq<Symbol>> {
        edges_of(self.edges)
    }

    /// Whether the graph has finitely many nodes with calls.
    pub closed spec fn wf(&self) -> bool {
        self.graph().dom().finite()
    }

    /// Creates a graph of the source nodes, without edges.
    pub fn new(sources: Vec<Symbol>) -> (g: CallGraph)
        ensures
            g.wf(),
            g.spec_sources() == sources@,
            g.graph() == Map::<Symbol, Seq<Symbol>>::empty(),
    {
        CallGraph { sources, edges: new_edges() }
    }

    /// Adds an edge: `from` calls `to`.
    pub fn add_edge(&mut self, from: Symbol, to: Symbol)
        requires
            old(self).wf(),
        ensures
            final(self).wf(),
            final(self).spec_sources() == old(self).spec_sources(),
            final(self).graph() == old(self).graph().insert(from, succ(old(self).graph(), from).push(to)),
    {
        let entry = edges_entry(&mut self.edges, from);
        entry.push(to);
    }

    /// Searches depth first from `v`, which is called by the last function of the walk `stack`
    /// (or is a source, where the walk is empty) and has not been reached yet. Returns whether it
    /// found a cycle; where it found none, `v` and every function it reaches are finished.
    fn visit(&self, v: u32, stack: &mut Vec<u32>, done: &mut IndexSet<u32>) -> (found: bool)
        requires
            self.wf(),
            search_inv(self.graph(), self.sources@, old(stack)@, set_contents(*old(done))),
            !set_contents(*old(done)).contains(v),
            !old(stack)@.contains(v),
            old(stack)@.len() == 0 ==> self.sources@.contains(v),
            old(stack)@.len() > 0 ==> succ(self.graph(), old(stack)@.last()).contains(v),
        ensures
            found ==> has_reachable_cycle(self.graph(), self.sources@),
            !found ==> search_inv(self.graph(), self.sources@, final(stack)@, set_contents(*final(done))),
            !found ==> final(stack)@ == old(stack)@,
            !found ==> set_contents(*final(done)).contains(v),
            !found ==> forall|x: u32| set_contents(*old(done)).contains(x) ==> set_contents(*final(done)).contains(x),
        decreases unvisited(self.graph(), self.sources@, old(stack)@, set_contents(*old(done))),
    {
        let ghost g = self.graph();
        let ghost sources = self.sources@;
        let ghost stack0 = stack@;
        let ghost done0 = set_contents(*done);
        proof {
            if stack0.len() > 0 {
                lemma_succ_in_nodes(g, sources, stack0.last(), v);
            }
        }
        stack.push(v);
        proof {
            assert(stack@ == stack0.push(v));
            assert forall|x: u32| stack@.contains(x) implies !done0.contains(x) by {
                if x != v {
                    let j = choose|j: int| 0 <= j < stack@.len() && stack@[j] == x;
                    assert(stack0[j] == x);
                }
            }
            assert(stack@.no_duplicates()) by {
                assert forall|i: int, j: int| 0 <= i < j < stack@.len() implies stack@[i] != stack@[j] by {
                    if j == stack0.len() {
                        assert(stack0.contains(stack@[i]));
                    }
                }
            }
            assert(is_walk(g, stack@) && sources.contains(stack@[0])) by {
                if stack0.len() > 0 {
                    assert(stack@[0] == stack0[0]);
                    assert forall|i: int| 0 <= i < stack@.len() - 1 implies succ(g, #[trigger] stack@[i]).contains(stack@[i + 1]) by {
                        if i < stack0.len() - 1 {
                            assert(stack@[i] == stack0[i] && stack@[i + 1] == stack0[i + 1]);
                        } else {
                            assert(stack@[i] == stack0.last());
                        }
                    }
                }
            }
        }
        let children_opt = edges_get(&self.edges, v);
        if let Some(children) = children_opt {
            let mut i: usize = 0;
            while i < children.len()
                invariant
                    self.wf(),
                    g == self.graph(),
                    sources == self.sources@,
                    children@ == succ(g, v),
                    i <= children@.len(),
                    stack@ == stack0.push(v),
                    stack0 == old(stack)@,
                    done0 == set_contents(*old(done)),
                    !stack0.contains(v),
                    !done0.contains(v),
                    nodes(g, sources).contains(v),
                    search_inv(g, sources, stack@, set_contents(*done)),
                    forall|x: u32| done0.contains(x) ==> set_contents(*done).contains(x),
                    forall|k: int| 0 <= k < i ==> set_contents(*done).contains(#[trigger] children@[k]),
                    unvisited(g, sources, stack0, done0) == unvisited(self.graph(), self.sources@, stack0, done0),
                decreases children@.len() - i,
            {
                let c = children[i];
                if holds(stack, c) {
                    proof {
                        let p = stack@.push(c);
                        let j = choose|j: int| 0 <= j < stack@.len() && stack@[j] == c;
                        assert(p[j] == p.last());
                        assert forall|k: int| 0 <= k < p.len() - 1 implies succ(g, #[trigger] p[k]).contains(p[k + 1]) by {
                            if k < stack@.len() - 1 {
                                assert(p[k] == stack@[k] && p[k + 1] == stack@[k + 1]);
                            } else {
                                assert(p[k] == v);
                                assert(children@[i as int] == c);
                            }
                        }
                        assert(is_walk(g, p));
                        assert(sources.contains(p[0]));
                    }
                    return true;
                }
                if !seen_contains(done, c) {
                    proof {
                        assert(succ(g, stack@.last()).contains(c)) by {
                            assert(children@[i as int] == c);
                        }
                        lemma_succ_in_nodes(g, sources, v, c);
                        lemma_unvisited_decreases(g, sources, stack0, done0, set_contents(*done), v);
                    }
                    if self.visit(c, stack, done) {
                        return true;
                    }
                }
                i = i + 1;
            }
        }
        proof {
            assert forall|k: int| 0 <= k < succ(g, v).len() implies set_contents(*done).contains(#[trigger] succ(g, v)[k]) by {
                if children_opt.is_none() {
                    assert(succ(g, v).len() == 0);
                }
            }
        }
        let ghost done1 = set_contents(*done);
        stack.pop();
        assert(stack@ =~= stack0);
        seen_insert(done, v);
        proof {
            let done2 = set_contents(*done);
            assert(!done1.contains(v));
            assert(done2 == done1.push(v));
            lemma_calls_before_push(g, done1, v);
            assert(done2.no_duplicates()) by {
                assert forall|i: int, j: int| 0 <= i < j < done2.len() implies done2[i] != done2[j] by {
                    if j == done1.len() {
                        assert(done1.contains(done2[i]));
                    }
                }
            }
            assert forall|x: u32| stack@.contains(x) implies !done2.contains(x) by {
                assert(stack0.push(v).contains(x)) by {
                    let j = choose|j: int| 0 <= j < stack0.len() && stack0[j] == x;
                    assert(stack0.push(v)[j] == x);
                }
                if done2.contains(x) {
                    let j = choose|j: int| 0 <= j < done2.len() && done2[j] == x;
                    if j < done1.len() {
                        assert(done1.contains(x));
                    }
                }
            }
            assert(done2.contains(v)) by {
                assert(done2[done1.len() as int] == v);
            }
            assert forall|x: u32| done0.contains(x) implies done2.contains(x) by {
                let j = choose|j: int| 0 <= j < done1.len() && done1[j] == x;
                assert(done2[j] == x);
            }
        }
        false
    }

    /// Detects whether there is a cycle of calls in the graph that a source function reaches.
    pub fn contains_cycle(&self) -> (r: bool)
        requires
            self.wf(),
        ensures
            r == has_reachable_cycle(self.graph(), self.spec_sources()),
    {
        let mut seen = new_seen();
        let mut fringe: Vec<u32> = Vec::new();
        let mut k: usize = 0;
        while k < self.sources.len()
            invariant
                self.wf(),
                k <= self.sources@.len(),
                fringe@.len() == 0,
                search_inv(self.graph(), self.sources@, fringe@, set_contents(seen)),
                forall|j: int| 0 <= j < k ==> set_contents(seen).contains(#[trigger] self.sources@[j]),
            decreases self.sources@.len() - k,
        {
            let s = self.sources[k];
            if !seen_contains(&seen, s) {
                assert(self.sources@.contains(s)) by {
                    assert(self.sources@[k as int] == s);
                }
                if self.visit(s, &mut fringe, &mut seen) {
                    return true;
                }
            }
            k = k + 1;
        }
        proof {
            let g = self.graph();
            let done = set_contents(seen);
            if has_reachable_cycle(g, self.sources@) {
                let p = choose|p: Seq<u32>| #[trigger] is_walk(g, p) && self.sources@.contains(p[0])
                    && exists|i: int| 0 <= i < p.len() - 1 && p[i] == p.last();
                let j = choose|j: int| 0 <= j < self.sources@.len() && self.sources@[j] == p[0];
                assert(done.contains(self.sources@[j]));
                lemma_no_cycle_from_done(g, done, p);
            }
        }
        false
    }
}

/// Adding a call never removes a cycle: a graph with a cycle that the sources reach keeps it
/// when an edge is added.
pub proof fn law_add_edge_keeps_cycles(g: Map<u32, Seq<u32>>, sources: Seq<u32>, from: u32, to: u32)
    requires
        has_reachable_cycle(g, sources),
    ensures
        has_reachable_cycle(g.insert(from, succ(g, from).push(to)), sources),
{
    let g2 = g.insert(from, succ(g, from).push(to));
    let p = choose|p: Seq<u32>| #[trigger] is_walk(g, p) && sources.contains(p[0])
        && exists|i: int| 0 <= i < p.len() - 1 && p[i] == p.last();
    assert forall|i: int| 0 <= i < p.len() - 1 implies succ(g2, #[trigger] p[i]).contains(p[i + 1]) by {
        assert(succ(g, p[i]).contains(p[i + 1]));
        let k = choose|k: int| 0 <= k < succ(g, p[i]).len() && succ(g, p[i])[k] == p[i + 1];
        if p[i] == from {
            assert(succ(g2, p[i])[k] == p[i + 1]);
        } else {
            assert(succ(g2, p[i]) == succ(g, p[i]));
        }
    }
    assert(is_walk(g2, p));
}

/// A source function that calls itself is a cycle.
pub proof fn law_self_call_is_cycle(g: Map<u32, Seq<u32>>, sources: Seq<u32>, s: u32)
    requires
        sources.contains(s),
    ensures
        has_reachable_cycle(g.insert(s, succ(g, s).push(s)), sources),
{
    let g2 = g.insert(s, succ(g, s).push(s));
    let p = seq![s, s];
    assert(succ(g2, s)[succ(g, s).len() as int] == s);
    assert(succ(g2, p[0]).contains(p[1]));
    assert(is_walk(g2, p));
    assert(p[0] == p.last());
}

} // verus!
