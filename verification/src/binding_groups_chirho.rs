//! Binding groups: the strongly connected components of the dependency graph
//! of a module's top-level functions, dependencies first (Tarjan's
//! algorithm).
use vstd::prelude::*;
use crate::expr_refs_chirho::{
    alts_ref_list, arm_ref_list, expr_ref_list, function_refs_chirho, lemma_concat_contains, lemma_mentioned_names_are_referenced, mentions,
    rhs_ref_list, MatchArmChirho, RhsChirho,
};

verus! {

/// A graph on the vertices `0 .. g.len()`: `g[u]` lists the successors of `u`.
/// There is an edge `u -> w` when `w` occurs in `g[u]`.
pub open spec fn edge(g: Seq<Seq<int>>, u: int, w: int) -> bool {
    0 <= u < g.len() && g[u].contains(w)
}

/// Every successor is a vertex.
pub open spec fn graph_wf(g: Seq<Seq<int>>) -> bool {
    forall|u: int, k: int| 0 <= u < g.len() && 0 <= k < g[u].len() ==> 0 <= #[trigger] g[u][k] < g.len()
}

/// `p` is a walk along edges of `g`.
pub open spec fn is_path(g: Seq<Seq<int>>, p: Seq<int>) -> bool {
    &&& p.len() > 0
    &&& forall|i: int| 0 <= i < p.len() ==> 0 <= #[trigger] p[i] < g.len()
    &&& forall|i: int| 0 <= i < p.len() - 1 ==> edge(g, #[trigger] p[i], p[i + 1])
}

/// `w` can be reached from `u` by zero or more edges.
pub open spec fn reach(g: Seq<Seq<int>>, u: int, w: int) -> bool {
    exists|p: Seq<int>| #[trigger] is_path(g, p) && p[0] == u && p[p.len() - 1] == w
}

pub proof fn lemma_reach_refl(g: Seq<Seq<int>>, u: int)
    requires
        0 <= u < g.len(),
    ensures
        reach(g, u, u),
{
    let p = seq![u];
    assert(is_path(g, p));
}

pub proof fn lemma_reach_edge(g: Seq<Seq<int>>, u: int, w: int)
    requires
        graph_wf(g),
        edge(g, u, w),
    ensures
        reach(g, u, w),
{
    let k = choose|k: int| 0 <= k < g[u].len() && g[u][k] == w;
    assert(0 <= g[u][k] < g.len());
    let p = seq![u, w];
    assert(is_path(g, p));
}

pub proof fn lemma_reach_trans(g: Seq<Seq<int>>, u: int, v: int, w: int)
    requires
        reach(g, u, v),
        reach(g, v, w),
    ensures
        reach(g, u, w),
{
    let p = choose|p: Seq<int>| #[trigger] is_path(g, p) && p[0] == u && p[p.len() - 1] == v;
    let q = choose|q: Seq<int>| #[trigger] is_path(g, q) && q[0] == v && q[q.len() - 1] == w;
    let r = p + q.skip(1);
    assert forall|i: int| 0 <= i < r.len() implies 0 <= #[trigger] r[i] < g.len() by {
        if i >= p.len() {
            assert(r[i] == q[i - p.len() + 1]);
        }
    }
    assert forall|i: int| 0 <= i < r.len() - 1 implies edge(g, #[trigger] r[i], r[i + 1]) by {
        if i < p.len() - 1 {
            assert(r[i] == p[i] && r[i + 1] == p[i + 1]);
        } else if i == p.len() - 1 {
            assert(r[i] == q[0] && r[i + 1] == q[1]);
        } else {
            assert(r[i] == q[i - p.len() + 1] && r[i + 1] == q[i - p.len() + 2]);
        }
    }
    assert(is_path(g, r));
    if q.len() == 1 {
        assert(r[r.len() - 1] == p[p.len() - 1]);
    } else {
        assert(r[r.len() - 1] == q[q.len() - 1]);
    }
}

/// A set of vertices that no edge leaves holds everything reachable from its
/// members.
pub proof fn lemma_reach_closed(g: Seq<Seq<int>>, s: spec_fn(int) -> bool, u: int, w: int)
    requires
        forall|a: int, b: int| #[trigger] s(a) && #[trigger] edge(g, a, b) ==> s(b),
        s(u),
        reach(g, u, w),
    ensures
        s(w),
{
    let p = choose|p: Seq<int>| #[trigger] is_path(g, p) && p[0] == u && p[p.len() - 1] == w;
    lemma_path_closed(g, s, p, p.len() - 1);
}

proof fn lemma_path_closed(g: Seq<Seq<int>>, s: spec_fn(int) -> bool, p: Seq<int>, i: int)
    requires
        forall|a: int, b: int| #[trigger] s(a) && #[trigger] edge(g, a, b) ==> s(b),
        is_path(g, p),
        s(p[0]),
        0 <= i < p.len(),
    ensures
        s(p[i]),
    decreases i,
{
    if i > 0 {
        lemma_path_closed(g, s, p, i - 1);
        assert(edge(g, p[i - 1], p[i]));
    }
}

/// How many vertices have no visit number yet (a negative entry).
pub open spec fn unvisited(num: Seq<int>) -> nat
    decreases num.len(),
{
    if num.len() == 0 {
        0
    } else {
        unvisited(num.drop_last()) + (if num.last() < 0 { 1nat } else { 0nat })
    }
}

pub proof fn lemma_unvisited_le(num: Seq<int>)
    ensures
        unvisited(num) <= num.len(),
        (exists|j: int| 0 <= j < num.len() && num[j] < 0) ==> unvisited(num) > 0,
    decreases num.len(),
{
    if num.len() > 0 {
        lemma_unvisited_le(num.drop_last());
        if exists|j: int| 0 <= j < num.len() && num[j] < 0 {
            let j = choose|j: int| 0 <= j < num.len() && num[j] < 0;
            if j < num.len() - 1 {
                assert(num.drop_last()[j] == num[j]);
            }
        }
    }
}

pub proof fn lemma_unvisited_update(num: Seq<int>, i: int, x: int)
    requires
        0 <= i < num.len(),
        num[i] < 0,
        x >= 0,
    ensures
        unvisited(num.update(i, x)) + 1 == unvisited(num),
    decreases num.len(),
{
    if i < num.len() - 1 {
        lemma_unvisited_update(num.drop_last(), i, x);
        assert(num.update(i, x).drop_last() =~= num.drop_last().update(i, x));
    } else {
        assert(num.update(i, x).drop_last() =~= num.drop_last());
    }
}

/// A snapshot of the search: the next visit number, the stack, the stack
/// flags, the visit numbers (negative for a vertex not yet visited), the low
/// links and the groups emitted so far.
pub ghost struct SccV {
    pub index: int,
    pub st: Seq<int>,
    pub on: Seq<bool>,
    pub num: Seq<int>,
    pub low: Seq<int>,
    pub gs: Seq<Seq<int>>,
}

/// `v` belongs to one of the emitted groups.
pub open spec fn emitted(gs: Seq<Seq<int>>, v: int) -> bool {
    exists|k: int| 0 <= k < gs.len() && #[trigger] gs[k].contains(v)
}

/// `v` belongs to an emitted group no later than group `k`.
pub open spec fn emitted_by(gs: Seq<Seq<int>>, v: int, k: int) -> bool {
    exists|k2: int| 0 <= k2 <= k && k2 < gs.len() && #[trigger] gs[k2].contains(v)
}

/// The counter counts the visited vertices, and every visit number is below it.
#[verifier::opaque]
pub open spec fn counted(s: SccV, n: int) -> bool {
    &&& s.num.len() == n && s.on.len() == n && s.low.len() == n
    &&& s.index == n - unvisited(s.num)
    &&& forall|v: int| 0 <= v < n ==> -1 <= #[trigger] s.num[v] < s.index
}

/// The stack holds visited vertices in increasing visit order, and its flags
/// say which vertices it holds.
#[verifier::opaque]
pub open spec fn stack_ok(s: SccV, n: int) -> bool {
    &&& forall|i: int| 0 <= i < s.st.len() ==> 0 <= #[trigger] s.st[i] < n && s.num[s.st[i]] >= 0 && s.on[s.st[i]]
    &&& forall|i: int, j: int| 0 <= i < j < s.st.len() ==> s.num[#[trigger] s.st[i]] < s.num[#[trigger] s.st[j]]
    &&& forall|v: int| 0 <= v < n && #[trigger] s.on[v] ==> s.st.contains(v)
}

/// The emitted groups are nonempty and disjoint, and hold visited vertices off
/// the stack; a visited vertex is on the stack or emitted.
#[verifier::opaque]
pub open spec fn groups_ok(s: SccV, n: int) -> bool {
    &&& forall|k: int| 0 <= k < s.gs.len() ==> (#[trigger] s.gs[k]).len() > 0
    &&& forall|k: int, i: int| 0 <= k < s.gs.len() && 0 <= i < s.gs[k].len() ==> 0 <= #[trigger] s.gs[k][i] < n
        && s.num[s.gs[k][i]] >= 0 && !s.on[s.gs[k][i]]
    &&& forall|k1: int, i1: int, k2: int, i2: int| 0 <= k1 < s.gs.len() && 0 <= i1 < s.gs[k1].len() && 0 <= k2 < s.gs.len()
        && 0 <= i2 < s.gs[k2].len() && (k1 != k2 || i1 != i2) ==> #[trigger] s.gs[k1][i1] != #[trigger] s.gs[k2][i2]
    &&& forall|v: int| 0 <= v < n && #[trigger] s.num[v] >= 0 ==> s.on[v] || emitted(s.gs, v)
}

/// The low link of the vertex at stack position `i` is at most its visit
/// number, and is the visit number of a stack vertex that it reaches.
#[verifier::opaque]
pub open spec fn low_ok_at(s: SccV, g: Seq<Seq<int>>, i: int) -> bool {
    &&& s.low[s.st[i]] <= s.num[s.st[i]]
    &&& exists|j: int| 0 <= j < s.st.len() && #[trigger] s.num[s.st[j]] == s.low[s.st[i]] && reach(g, s.st[i], s.st[j])
}

/// Every stack vertex's low link is as `low_ok_at` says.
#[verifier::opaque]
pub open spec fn lows_ok(s: SccV, g: Seq<Seq<int>>) -> bool {
    forall|i: int| 0 <= i < s.st.len() ==> #[trigger] low_ok_at(s, g, i)
}

proof fn lemma_low_ok_at_intro(s: SccV, g: Seq<Seq<int>>, i: int, j: int)
    requires
        s.low[s.st[i]] <= s.num[s.st[i]],
        0 <= j < s.st.len(),
        s.num[s.st[j]] == s.low[s.st[i]],
        reach(g, s.st[i], s.st[j]),
    ensures
        low_ok_at(s, g, i),
{
    reveal(low_ok_at);
}

proof fn lemma_low_ok_at_elim(s: SccV, g: Seq<Seq<int>>, i: int) -> (j: int)
    requires
        lows_ok(s, g),
        0 <= i < s.st.len(),
    ensures
        s.low[s.st[i]] <= s.num[s.st[i]],
        0 <= j < s.st.len(),
        s.num[s.st[j]] == s.low[s.st[i]],
        reach(g, s.st[i], s.st[j]),
{
    reveal(lows_ok);
    assert(low_ok_at(s, g, i));
    reveal(low_ok_at);
    choose|j: int| 0 <= j < s.st.len() && #[trigger] s.num[s.st[j]] == s.low[s.st[i]] && reach(g, s.st[i], s.st[j])
}

/// An emitted vertex's successors were emitted no later than its group; the
/// members of an emitted group reach each other, and a vertex that reaches a
/// member and is reached from it is a member.
#[verifier::opaque]
pub open spec fn emitted_ok(gs: Seq<Seq<int>>, g: Seq<Seq<int>>) -> bool {
    &&& forall|k: int, i: int, w: int| 0 <= k < gs.len() && 0 <= i < gs[k].len() && #[trigger] edge(g, gs[k][i], w)
        ==> emitted_by(gs, w, k)
    &&& forall|k: int, i: int, j: int| 0 <= k < gs.len() && 0 <= i < gs[k].len() && 0 <= j < gs[k].len()
        ==> reach(g, #[trigger] gs[k][i], #[trigger] gs[k][j])
    &&& forall|k: int, i: int, y: int| 0 <= k < gs.len() && 0 <= i < gs[k].len() && 0 <= y < g.len()
        && #[trigger] reach(g, gs[k][i], y) && #[trigger] reach(g, y, gs[k][i]) ==> gs[k].contains(y)
}

/// A stack vertex whose visit is over (outside `gray`, the visits still in
/// progress) has every successor visited, its low link at most the number of
/// each successor still on the stack, and its low link below its own number.
#[verifier::opaque]
pub open spec fn finished_ok(s: SccV, g: Seq<Seq<int>>, gray: Set<int>) -> bool {
    &&& forall|i: int, w: int| 0 <= i < s.st.len() && !gray.contains(s.st[i]) && #[trigger] edge(g, s.st[i], w)
        ==> s.num[w] >= 0 && (s.on[w] ==> s.low[s.st[i]] <= s.num[w])
    &&& forall|i: int| 0 <= i < s.st.len() && !gray.contains(#[trigger] s.st[i]) ==> s.low[s.st[i]] < s.num[s.st[i]]
}

/// Everything the search keeps, with `gray` the visits in progress.
pub open spec fn scc_inv(s: SccV, g: Seq<Seq<int>>, gray: Set<int>) -> bool {
    &&& counted(s, g.len() as int)
    &&& stack_ok(s, g.len() as int)
    &&& groups_ok(s, g.len() as int)
    &&& lows_ok(s, g)
    &&& emitted_ok(s.gs, g)
    &&& finished_ok(s, g, gray)
}

/// The state after visiting `v`: numbered with the counter, its low link the
/// same, pushed on the stack.
pub open spec fn visit(s: SccV, v: int) -> SccV {
    SccV {
        index: s.index + 1,
        st: s.st.push(v),
        on: s.on.update(v, true),
        num: s.num.update(v, s.index),
        low: s.low.update(v, s.index),
        gs: s.gs,
    }
}

/// The state after setting the low link of `v` to `val`.
pub open spec fn lower(s: SccV, v: int, val: int) -> SccV {
    SccV { low: s.low.update(v, val), ..s }
}

/// The stack from position `p` up, top first.
pub open spec fn popped(st: Seq<int>, p: int) -> Seq<int> {
    Seq::new((st.len() - p) as nat, |i: int| st[st.len() - 1 - i])
}

/// `x` sits on the stack at position `p` or above.
pub open spec fn above(st: Seq<int>, p: int, x: int) -> bool {
    exists|q: int| p <= q < st.len() && st[q] == x
}

/// The state after popping the stack down to position `p` and emitting the
/// popped vertices, top first, as a group.
pub open spec fn pop_group(s: SccV, p: int) -> SccV {
    SccV {
        st: s.st.take(p),
        on: Seq::new(s.on.len(), |v: int| s.on[v] && !above(s.st, p, v)),
        gs: s.gs.push(popped(s.st, p)),
        ..s
    }
}

pub proof fn lemma_popped_contains(st: Seq<int>, p: int, x: int)
    requires
        0 <= p <= st.len(),
    ensures
        popped(st, p).contains(x) <==> above(st, p, x),
{
    if popped(st, p).contains(x) {
        let i = choose|i: int| 0 <= i < popped(st, p).len() && popped(st, p)[i] == x;
        assert(st[st.len() - 1 - i] == x);
    }
    if above(st, p, x) {
        let q = choose|q: int| p <= q < st.len() && st[q] == x;
        assert(popped(st, p)[st.len() - 1 - q] == x);
    }
}

pub proof fn lemma_visit(s: SccV, g: Seq<Seq<int>>, gray: Set<int>, v: int)
    requires
        graph_wf(g),
        scc_inv(s, g, gray),
        0 <= v < g.len(),
        s.num[v] < 0,
    ensures
        scc_inv(visit(s, v), g, gray.insert(v)),
        s.index < g.len(),
{
    assert(graph_wf(g));
    lemma_visit_counted(s, g.len() as int, v);
    lemma_visit_stack(s, g.len() as int, v);
    lemma_visit_groups(s, g.len() as int, v);
    lemma_visit_lows(s, g, v);
    lemma_visit_finished(s, g, gray, v);
}

proof fn lemma_visit_counted(s: SccV, n: int, v: int)
    requires
        counted(s, n),
        0 <= v < n,
        s.num[v] < 0,
    ensures
        counted(visit(s, v), n),
        s.index < n,
{
    reveal(counted);
    lemma_unvisited_le(s.num);
    lemma_unvisited_update(s.num, v, s.index);
}

proof fn lemma_visit_stack(s: SccV, n: int, v: int)
    requires
        counted(s, n),
        stack_ok(s, n),
        0 <= v < n,
        s.num[v] < 0,
    ensures
        stack_ok(visit(s, v), n),
{
    reveal(counted);
    reveal(stack_ok);
    let t = visit(s, v);
    assert forall|i: int| 0 <= i < s.st.len() implies s.st[i] != v by {}
    assert forall|i: int| 0 <= i < t.st.len() implies 0 <= #[trigger] t.st[i] < n && t.num[t.st[i]] >= 0 && t.on[t.st[i]] by {
        if i < s.st.len() {
            assert(t.st[i] == s.st[i]);
        }
    }
    assert forall|i: int, j: int| 0 <= i < j < t.st.len() implies t.num[#[trigger] t.st[i]] < t.num[#[trigger] t.st[j]] by {
        assert(t.st[i] == s.st[i]);
        if j < s.st.len() {
            assert(t.st[j] == s.st[j]);
        }
    }
    assert forall|w: int| 0 <= w < n && #[trigger] t.on[w] implies t.st.contains(w) by {
        if w == v {
            assert(t.st[s.st.len() as int] == v);
        } else {
            let k = choose|k: int| 0 <= k < s.st.len() && s.st[k] == w;
            assert(t.st[k] == w);
        }
    }
}

proof fn lemma_visit_groups(s: SccV, n: int, v: int)
    requires
        counted(s, n),
        groups_ok(s, n),
        0 <= v < n,
        s.num[v] < 0,
    ensures
        groups_ok(visit(s, v), n),
{
    reveal(counted);
    reveal(groups_ok);
    let t = visit(s, v);
    assert forall|w: int| 0 <= w < n && #[trigger] t.num[w] >= 0 implies t.on[w] || emitted(t.gs, w) by {
        if w != v {
            assert(s.num[w] >= 0);
        }
    }
    assert forall|k: int, i: int| 0 <= k < t.gs.len() && 0 <= i < t.gs[k].len() implies 0 <= #[trigger] t.gs[k][i] < n
        && t.num[t.gs[k][i]] >= 0 && !t.on[t.gs[k][i]] by {
        assert(s.num[s.gs[k][i]] >= 0);
    }
}

proof fn lemma_visit_lows(s: SccV, g: Seq<Seq<int>>, v: int)
    requires
        counted(s, g.len() as int),
        stack_ok(s, g.len() as int),
        lows_ok(s, g),
        0 <= v < g.len(),
        s.num[v] < 0,
    ensures
        lows_ok(visit(s, v), g),
{
    let t = visit(s, v);
    lemma_stack_visited(s, g.len() as int);
    assert(s.num.len() == g.len() && s.low.len() == g.len()) by {
        reveal(counted);
    }
    assert forall|i: int| 0 <= i < t.st.len() implies #[trigger] low_ok_at(t, g, i) by {
        if i < s.st.len() {
            let j = lemma_low_ok_at_elim(s, g, i);
            assert(t.st[i] == s.st[i]);
            assert(s.st[i] != v);
            assert(t.st[j] == s.st[j]);
            assert(s.st[j] != v);
            lemma_low_ok_at_intro(t, g, i, j);
        } else {
            lemma_reach_refl(g, v);
            assert(t.st[i] == v);
            lemma_low_ok_at_intro(t, g, i, i);
        }
    }
    reveal(lows_ok);
}

/// Stack vertices are visited vertices.
proof fn lemma_stack_visited(s: SccV, n: int)
    requires
        stack_ok(s, n),
    ensures
        forall|i: int| 0 <= i < s.st.len() ==> 0 <= #[trigger] s.st[i] < n && s.num[s.st[i]] >= 0 && s.on[s.st[i]],
{
    reveal(stack_ok);
}

proof fn lemma_visit_finished(s: SccV, g: Seq<Seq<int>>, gray: Set<int>, v: int)
    requires
        graph_wf(g),
        counted(s, g.len() as int),
        stack_ok(s, g.len() as int),
        finished_ok(s, g, gray),
        0 <= v < g.len(),
        s.num[v] < 0,
    ensures
        finished_ok(visit(s, v), g, gray.insert(v)),
{
    reveal(counted);
    reveal(stack_ok);
    reveal(finished_ok);
    let t = visit(s, v);
    assert forall|i: int, w: int| 0 <= i < t.st.len() && !gray.insert(v).contains(t.st[i]) && #[trigger] edge(g, t.st[i], w)
        implies t.num[w] >= 0 && (t.on[w] ==> t.low[t.st[i]] <= t.num[w]) by {
        if i == s.st.len() {
            assert(t.st[i] == v);
        } else {
            assert(t.st[i] == s.st[i]);
            assert(edge(g, s.st[i], w));
            let k = choose|k: int| 0 <= k < g[s.st[i]].len() && g[s.st[i]][k] == w;
            assert(0 <= g[s.st[i]][k] < g.len());
        }
    }
    assert forall|i: int| 0 <= i < t.st.len() && !gray.insert(v).contains(#[trigger] t.st[i]) implies t.low[t.st[i]] < t.num[t.st[i]] by {
        if i == s.st.len() {
            assert(t.st[i] == v);
        } else {
            assert(t.st[i] == s.st[i]);
        }
    }
}

/// Lowering the low link of a visit in progress to the number of a stack
/// vertex that it reaches keeps everything.
pub proof fn lemma_lower(s: SccV, g: Seq<Seq<int>>, gray: Set<int>, v: int, p: int, val: int)
    requires
        scc_inv(s, g, gray),
        gray.contains(v),
        0 <= p < s.st.len(),
        s.st[p] == v,
        val <= s.low[v],
        exists|j: int| 0 <= j < s.st.len() && s.num[s.st[j]] == val && reach(g, v, s.st[j]),
    ensures
        scc_inv(lower(s, v, val), g, gray),
{
    let t = lower(s, v, val);
    assert(t.st == s.st && t.num == s.num && t.on == s.on && t.gs == s.gs && t.index == s.index);
    assert(counted(t, g.len() as int)) by {
        reveal(counted);
    }
    assert(stack_ok(t, g.len() as int)) by {
        reveal(stack_ok);
        assert(stack_ok(s, g.len() as int));
    }
    assert(groups_ok(t, g.len() as int)) by {
        reveal(groups_ok);
        assert(groups_ok(s, g.len() as int));
    }
    lemma_stack_visited(s, g.len() as int);
    lemma_lower_lows(s, g, gray, v, p, val);
    lemma_lower_finished(s, g, gray, v, val);
}

proof fn lemma_lower_lows(s: SccV, g: Seq<Seq<int>>, gray: Set<int>, v: int, p: int, val: int)
    requires
        counted(s, g.len() as int),
        stack_ok(s, g.len() as int),
        lows_ok(s, g),
        0 <= p < s.st.len(),
        s.st[p] == v,
        val <= s.low[v],
        exists|j: int| 0 <= j < s.st.len() && s.num[s.st[j]] == val && reach(g, v, s.st[j]),
    ensures
        lows_ok(lower(s, v, val), g),
{
    let t = lower(s, v, val);
    lemma_stack_visited(s, g.len() as int);
    assert(s.low.len() == g.len()) by {
        reveal(counted);
    }
    assert forall|i: int| 0 <= i < t.st.len() implies #[trigger] low_ok_at(t, g, i) by {
        let j0 = lemma_low_ok_at_elim(s, g, i);
        if s.st[i] != v {
            lemma_low_ok_at_intro(t, g, i, j0);
        } else {
            let j0 = lemma_low_ok_at_elim(s, g, p);
            let j = choose|j: int| 0 <= j < s.st.len() && s.num[s.st[j]] == val && reach(g, v, s.st[j]);
            lemma_low_ok_at_intro(t, g, i, j);
        }
    }
    reveal(lows_ok);
}

proof fn lemma_lower_finished(s: SccV, g: Seq<Seq<int>>, gray: Set<int>, v: int, val: int)
    requires
        counted(s, g.len() as int),
        stack_ok(s, g.len() as int),
        finished_ok(s, g, gray),
        gray.contains(v),
        0 <= v < g.len(),
    ensures
        finished_ok(lower(s, v, val), g, gray),
{
    let t = lower(s, v, val);
    lemma_stack_visited(s, g.len() as int);
    assert(s.low.len() == g.len()) by {
        reveal(counted);
    }
    assert(t.st == s.st && t.num == s.num && t.on == s.on);
    reveal(finished_ok);
    assert forall|i: int, w: int| 0 <= i < t.st.len() && !gray.contains(t.st[i]) && #[trigger] edge(g, t.st[i], w)
        implies t.num[w] >= 0 && (t.on[w] ==> t.low[t.st[i]] <= t.num[w]) by {
        assert(t.st[i] == s.st[i]);
        assert(s.st[i] != v);
        assert(edge(g, s.st[i], w));
        assert(t.low[s.st[i]] == s.low[s.st[i]]);
    }
    assert forall|i: int| 0 <= i < t.st.len() && !gray.contains(#[trigger] t.st[i]) implies t.low[t.st[i]] < t.num[t.st[i]] by {
        assert(t.st[i] == s.st[i]);
        assert(s.st[i] != v);
        assert(t.low[s.st[i]] == s.low[s.st[i]]);
    }
}

/// A visit that is over and keeps a low link below its number leaves the
/// search's bookkeeping whole without it.
pub proof fn lemma_finish(s: SccV, g: Seq<Seq<int>>, gray: Set<int>, v: int)
    requires
        scc_inv(s, g, gray.insert(v)),
        s.low[v] < s.num[v],
        forall|w: int| #[trigger] edge(g, v, w) ==> s.num[w] >= 0 && (s.on[w] ==> s.low[v] <= s.num[w]),
    ensures
        scc_inv(s, g, gray),
{
    reveal(finished_ok);
    assert forall|i: int, w: int| 0 <= i < s.st.len() && !gray.contains(s.st[i]) && #[trigger] edge(g, s.st[i], w)
        implies s.num[w] >= 0 && (s.on[w] ==> s.low[s.st[i]] <= s.num[w]) by {
        if s.st[i] == v {
            assert(edge(g, v, w));
        }
    }
}

/// Stack vertices are numbered in increasing order, so no vertex occurs twice.
proof fn lemma_stack_mono(s: SccV, n: int)
    requires
        stack_ok(s, n),
    ensures
        forall|i: int, j: int| 0 <= i < j < s.st.len() ==> s.num[#[trigger] s.st[i]] < s.num[#[trigger] s.st[j]],
        forall|i: int, j: int| 0 <= i < s.st.len() && 0 <= j < s.st.len() && i != j ==> #[trigger] s.st[i] != #[trigger] s.st[j],
        forall|v: int| 0 <= v < n && #[trigger] s.on[v] ==> s.st.contains(v),
{
    reveal(stack_ok);
    assert forall|i: int, j: int| 0 <= i < s.st.len() && 0 <= j < s.st.len() && i != j implies #[trigger] s.st[i] != #[trigger] s.st[j] by {
        if i < j {
            assert(s.num[s.st[i]] < s.num[s.st[j]]);
        } else {
            assert(s.num[s.st[j]] < s.num[s.st[i]]);
        }
    }
}

/// The conditions under which the stack from position `p` up is popped as a
/// group: `v` at `p` is its own low link, its visit is over with every edge
/// looked at, the low links above it are no lower, it reaches them all, and
/// no visit in progress sits there.
pub open spec fn root_ready(s: SccV, g: Seq<Seq<int>>, gray: Set<int>, v: int, p: int) -> bool {
    &&& scc_inv(s, g, gray.insert(v))
    &&& graph_wf(g)
    &&& 0 <= p < s.st.len()
    &&& s.st[p] == v
    &&& s.low[v] == s.num[v]
    &&& forall|w: int| #[trigger] edge(g, v, w) ==> s.num[w] >= 0 && (s.on[w] ==> s.low[v] <= s.num[w])
    &&& forall|i: int| p < i < s.st.len() ==> s.low[#[trigger] s.st[i]] >= s.low[v]
    &&& forall|i: int| p <= i < s.st.len() ==> reach(g, v, #[trigger] s.st[i])
    &&& forall|i: int| p <= i < s.st.len() ==> !gray.contains(#[trigger] s.st[i])
}

/// Every vertex from the root's position up reaches the root: its low link
/// leads to a lower stack vertex that is still at or above the root.
proof fn lemma_reach_down(s: SccV, g: Seq<Seq<int>>, gray: Set<int>, v: int, p: int, a: int)
    requires
        root_ready(s, g, gray, v, p),
        p <= a < s.st.len(),
    ensures
        reach(g, s.st[a], v),
    decreases s.num[s.st[a]],
{
    lemma_stack_visited(s, g.len() as int);
    lemma_stack_mono(s, g.len() as int);
    if a == p {
        lemma_reach_refl(g, v);
    } else {
        assert(!gray.insert(v).contains(s.st[a]));
        assert(s.low[s.st[a]] < s.num[s.st[a]]) by {
            reveal(finished_ok);
        }
        let j = lemma_low_ok_at_elim(s, g, a);
        assert(s.low[s.st[a]] >= s.low[v]);
        if j < p {
            assert(s.num[s.st[j]] < s.num[s.st[p]]);
        }
        assert(j >= p);
        if j < a {
            assert(s.num[s.st[j]] < s.num[s.st[a]]);
        }
        assert(j != a);
        if j > a {
            assert(s.num[s.st[a]] < s.num[s.st[j]]);
        }
        lemma_reach_down(s, g, gray, v, p, j);
        lemma_reach_trans(g, s.st[a], s.st[j], v);
    }
}

/// An edge out of the popped part of the stack ends in the popped part or in
/// an emitted group.
proof fn lemma_popped_edge(s: SccV, g: Seq<Seq<int>>, gray: Set<int>, v: int, p: int, q: int, w: int)
    requires
        root_ready(s, g, gray, v, p),
        p <= q < s.st.len(),
        edge(g, s.st[q], w),
    ensures
        above(s.st, p, w) || emitted(s.gs, w),
{
    let n = g.len() as int;
    lemma_stack_visited(s, n);
    lemma_stack_mono(s, n);
    assert(s.num[w] >= 0 && (s.on[w] ==> s.low[s.st[q]] <= s.num[w])) by {
        if q == p {
            assert(edge(g, v, w));
        } else {
            assert(!gray.insert(v).contains(s.st[q]));
            reveal(finished_ok);
        }
    }
    let k = choose|k: int| 0 <= k < g[s.st[q]].len() && g[s.st[q]][k] == w;
    assert(0 <= g[s.st[q]][k] < n);
    if s.on[w] {
        let j = choose|j: int| 0 <= j < s.st.len() && s.st[j] == w;
        assert(s.low[s.st[q]] >= s.low[v]);
        if j < p {
            assert(s.num[s.st[j]] < s.num[s.st[p]]);
        }
    } else {
        reveal(groups_ok);
    }
}

/// Popping a root's part of the stack as a group keeps everything.
pub proof fn lemma_pop_group(s: SccV, g: Seq<Seq<int>>, gray: Set<int>, v: int, p: int)
    requires
        root_ready(s, g, gray, v, p),
    ensures
        scc_inv(pop_group(s, p), g, gray),
{
    let n = g.len() as int;
    let t = pop_group(s, p);
    assert(counted(t, n)) by {
        reveal(counted);
        assert(counted(s, n));
    }
    lemma_pop_stack(s, g, gray, v, p);
    lemma_pop_groups(s, g, gray, v, p);
    lemma_pop_lows(s, g, gray, v, p);
    lemma_pop_finished(s, g, gray, v, p);
    lemma_pop_emitted(s, g, gray, v, p);
}

proof fn lemma_pop_stack(s: SccV, g: Seq<Seq<int>>, gray: Set<int>, v: int, p: int)
    requires
        root_ready(s, g, gray, v, p),
    ensures
        stack_ok(pop_group(s, p), g.len() as int),
{
    let n = g.len() as int;
    let t = pop_group(s, p);
    lemma_stack_visited(s, n);
    lemma_stack_mono(s, n);
    assert(s.on.len() == n) by {
        reveal(counted);
    }
    assert forall|i: int| 0 <= i < t.st.len() implies 0 <= #[trigger] t.st[i] < n && t.num[t.st[i]] >= 0 && t.on[t.st[i]] by {
        assert(t.st[i] == s.st[i]);
        if above(s.st, p, s.st[i]) {
            let q = choose|q: int| p <= q < s.st.len() && s.st[q] == s.st[i];
            assert(s.st[q] != s.st[i]);
        }
    }
    assert forall|i: int, j: int| 0 <= i < j < t.st.len() implies t.num[#[trigger] t.st[i]] < t.num[#[trigger] t.st[j]] by {
        assert(t.st[i] == s.st[i] && t.st[j] == s.st[j]);
    }
    assert forall|w: int| 0 <= w < n && #[trigger] t.on[w] implies t.st.contains(w) by {
        assert(s.on[w]);
        let k = choose|k: int| 0 <= k < s.st.len() && s.st[k] == w;
        assert(k < p);
        assert(t.st[k] == w);
    }
    reveal(stack_ok);
}

proof fn lemma_pop_groups(s: SccV, g: Seq<Seq<int>>, gray: Set<int>, v: int, p: int)
    requires
        root_ready(s, g, gray, v, p),
    ensures
        groups_ok(pop_group(s, p), g.len() as int),
{
    let n = g.len() as int;
    let t = pop_group(s, p);
    let m = s.gs.len() as int;
    let grp = popped(s.st, p);
    lemma_stack_visited(s, n);
    lemma_stack_mono(s, n);
    assert(s.on.len() == n) by {
        reveal(counted);
    }
    assert(groups_ok(s, n));
    reveal(groups_ok);
    assert forall|k: int| 0 <= k < t.gs.len() implies (#[trigger] t.gs[k]).len() > 0 by {
        if k < m {
            assert(t.gs[k] == s.gs[k]);
        }
    }
    assert forall|k: int, i: int| 0 <= k < t.gs.len() && 0 <= i < t.gs[k].len() implies 0 <= #[trigger] t.gs[k][i] < n
        && t.num[t.gs[k][i]] >= 0 && !t.on[t.gs[k][i]] by {
        if k < m {
            assert(t.gs[k] == s.gs[k]);
        } else {
            assert(t.gs[k][i] == s.st[s.st.len() - 1 - i]);
            assert(above(s.st, p, s.st[s.st.len() - 1 - i]));
        }
    }
    assert forall|k1: int, i1: int, k2: int, i2: int| 0 <= k1 < t.gs.len() && 0 <= i1 < t.gs[k1].len() && 0 <= k2 < t.gs.len()
        && 0 <= i2 < t.gs[k2].len() && (k1 != k2 || i1 != i2) implies #[trigger] t.gs[k1][i1] != #[trigger] t.gs[k2][i2] by {
        if k1 < m && k2 < m {
            assert(t.gs[k1] == s.gs[k1] && t.gs[k2] == s.gs[k2]);
        } else if k1 < m {
            assert(t.gs[k1] == s.gs[k1]);
            assert(t.gs[k2][i2] == s.st[s.st.len() - 1 - i2]);
        } else if k2 < m {
            assert(t.gs[k2] == s.gs[k2]);
            assert(t.gs[k1][i1] == s.st[s.st.len() - 1 - i1]);
        } else {
            assert(t.gs[k2][i2] == s.st[s.st.len() - 1 - i2]);
            assert(t.gs[k1][i1] == s.st[s.st.len() - 1 - i1]);
        }
    }
    assert forall|w: int| 0 <= w < n && #[trigger] t.num[w] >= 0 implies t.on[w] || emitted(t.gs, w) by {
        if emitted(s.gs, w) {
            let k = choose|k: int| 0 <= k < s.gs.len() && #[trigger] s.gs[k].contains(w);
            assert(t.gs[k] == s.gs[k]);
        } else if above(s.st, p, w) {
            lemma_popped_contains(s.st, p, w);
            assert(t.gs[m] == grp);
        }
    }
}

proof fn lemma_pop_lows(s: SccV, g: Seq<Seq<int>>, gray: Set<int>, v: int, p: int)
    requires
        root_ready(s, g, gray, v, p),
    ensures
        lows_ok(pop_group(s, p), g),
{
    let n = g.len() as int;
    let t = pop_group(s, p);
    lemma_stack_visited(s, n);
    lemma_stack_mono(s, n);
    assert forall|i: int| 0 <= i < t.st.len() implies #[trigger] low_ok_at(t, g, i) by {
        let j = lemma_low_ok_at_elim(s, g, i);
        if j >= p {
            if j > p {
                assert(s.num[s.st[p]] < s.num[s.st[j]]);
            }
            assert(s.num[s.st[i]] < s.num[s.st[p]]);
        }
        assert(t.st[i] == s.st[i] && t.st[j] == s.st[j]);
        lemma_low_ok_at_intro(t, g, i, j);
    }
    reveal(lows_ok);
}

proof fn lemma_pop_finished(s: SccV, g: Seq<Seq<int>>, gray: Set<int>, v: int, p: int)
    requires
        root_ready(s, g, gray, v, p),
    ensures
        finished_ok(pop_group(s, p), g, gray),
{
    let n = g.len() as int;
    let t = pop_group(s, p);
    lemma_stack_visited(s, n);
    lemma_stack_mono(s, n);
    assert(s.on.len() == n) by {
        reveal(counted);
    }
    assert(finished_ok(s, g, gray.insert(v)));
    reveal(finished_ok);
    assert forall|i: int, w: int| 0 <= i < t.st.len() && !gray.contains(t.st[i]) && #[trigger] edge(g, t.st[i], w)
        implies t.num[w] >= 0 && (t.on[w] ==> t.low[t.st[i]] <= t.num[w]) by {
        assert(t.st[i] == s.st[i]);
        assert(s.st[i] != s.st[p]);
        assert(edge(g, s.st[i], w));
        let k = choose|k: int| 0 <= k < g[s.st[i]].len() && g[s.st[i]][k] == w;
        assert(0 <= g[s.st[i]][k] < n);
    }
    assert forall|i: int| 0 <= i < t.st.len() && !gray.contains(#[trigger] t.st[i]) implies t.low[t.st[i]] < t.num[t.st[i]] by {
        assert(t.st[i] == s.st[i]);
        assert(s.st[i] != s.st[p]);
    }
}

proof fn lemma_pop_emitted(s: SccV, g: Seq<Seq<int>>, gray: Set<int>, v: int, p: int)
    requires
        root_ready(s, g, gray, v, p),
    ensures
        emitted_ok(pop_group(s, p).gs, g),
{
    let n = g.len() as int;
    let t = pop_group(s, p);
    let m = s.gs.len() as int;
    let grp = popped(s.st, p);
    let len = s.st.len() as int;
    lemma_stack_visited(s, n);
    assert(emitted_ok(s.gs, g));
    assert(forall|k: int| 0 <= k < m ==> #[trigger] t.gs[k] == s.gs[k]);
    assert(t.gs[m] == grp);
    reveal(emitted_ok);
    assert forall|k: int, i: int, w: int| 0 <= k < t.gs.len() && 0 <= i < t.gs[k].len() && #[trigger] edge(g, t.gs[k][i], w)
        implies emitted_by(t.gs, w, k) by {
        if k < m {
            assert(edge(g, s.gs[k][i], w));
            let k2 = choose|k2: int| 0 <= k2 <= k && k2 < s.gs.len() && #[trigger] s.gs[k2].contains(w);
            assert(t.gs[k2].contains(w));
        } else {
            assert(t.gs[k][i] == s.st[len - 1 - i]);
            lemma_popped_edge(s, g, gray, v, p, len - 1 - i, w);
            if above(s.st, p, w) {
                lemma_popped_contains(s.st, p, w);
                assert(t.gs[m].contains(w));
            } else {
                let k2 = choose|k2: int| 0 <= k2 < s.gs.len() && #[trigger] s.gs[k2].contains(w);
                assert(t.gs[k2].contains(w));
            }
        }
    }
    assert forall|k: int, i: int, j: int| 0 <= k < t.gs.len() && 0 <= i < t.gs[k].len() && 0 <= j < t.gs[k].len()
        implies reach(g, #[trigger] t.gs[k][i], #[trigger] t.gs[k][j]) by {
        if k < m {
            assert(reach(g, s.gs[k][i], s.gs[k][j]));
        } else {
            assert(t.gs[k][i] == s.st[len - 1 - i]);
            assert(t.gs[k][j] == s.st[len - 1 - j]);
            lemma_reach_down(s, g, gray, v, p, len - 1 - i);
            assert(reach(g, v, s.st[len - 1 - j]));
            lemma_reach_trans(g, s.st[len - 1 - i], v, s.st[len - 1 - j]);
        }
    }
    let closed = |z: int| above(s.st, p, z) || emitted(s.gs, z);
    assert forall|a: int, b: int| #[trigger] closed(a) && #[trigger] edge(g, a, b) implies closed(b) by {
        if above(s.st, p, a) {
            let q = choose|q: int| p <= q < s.st.len() && s.st[q] == a;
            lemma_popped_edge(s, g, gray, v, p, q, b);
        } else {
            let k = choose|k: int| 0 <= k < s.gs.len() && #[trigger] s.gs[k].contains(a);
            let i = choose|i: int| 0 <= i < s.gs[k].len() && s.gs[k][i] == a;
            assert(edge(g, s.gs[k][i], b));
            let k2 = choose|k2: int| 0 <= k2 <= k && k2 < s.gs.len() && #[trigger] s.gs[k2].contains(b);
        }
    }
    assert forall|k: int, i: int, y: int| 0 <= k < t.gs.len() && 0 <= i < t.gs[k].len() && 0 <= y < g.len()
        && #[trigger] reach(g, t.gs[k][i], y) && #[trigger] reach(g, y, t.gs[k][i]) implies t.gs[k].contains(y) by {
        if k < m {
            assert(reach(g, s.gs[k][i], y) && reach(g, y, s.gs[k][i]));
        } else {
            let x = s.st[len - 1 - i];
            assert(t.gs[k][i] == x);
            assert(above(s.st, p, x));
            assert(closed(x));
            lemma_reach_closed(g, closed, x, y);
            if above(s.st, p, y) {
                lemma_popped_contains(s.st, p, y);
            } else {
                let k2 = choose|k2: int| 0 <= k2 < s.gs.len() && #[trigger] s.gs[k2].contains(y);
                let i2 = choose|i2: int| 0 <= i2 < s.gs[k2].len() && s.gs[k2][i2] == y;
                assert(reach(g, s.gs[k2][i2], x) && reach(g, x, s.gs[k2][i2]));
                assert(s.gs[k2].contains(x));
                let i3 = choose|i3: int| 0 <= i3 < s.gs[k2].len() && s.gs[k2][i3] == x;
                assert(!s.on[s.gs[k2][i3]]) by {
                    reveal(groups_ok);
                }
                assert(false);
            }
        }
    }
}

/// A visited vertex off the stack is emitted, and stays off the stack while
/// the emitted groups only grow.
proof fn lemma_off_stack_stays(s: SccV, t: SccV, n: int, y: int)
    requires
        groups_ok(s, n),
        groups_ok(t, n),
        0 <= y < n,
        s.num[y] >= 0,
        !s.on[y],
        t.gs.len() >= s.gs.len(),
        forall|k: int| 0 <= k < s.gs.len() ==> #[trigger] t.gs[k] == s.gs[k],
    ensures
        !t.on[y],
{
    reveal(groups_ok);
    assert(s.num[y] >= 0);
    let k = choose|k: int| 0 <= k < s.gs.len() && #[trigger] s.gs[k].contains(y);
    assert(t.gs[k] == s.gs[k]);
    let i = choose|i: int| 0 <= i < t.gs[k].len() && t.gs[k][i] == y;
    assert(!t.on[t.gs[k][i]]);
}

/// An edge's target is a vertex.
proof fn lemma_edge_target(g: Seq<Seq<int>>, u: int, w: int)
    requires
        graph_wf(g),
        edge(g, u, w),
    ensures
        0 <= w < g.len(),
{
    let k = choose|k: int| 0 <= k < g[u].len() && g[u][k] == w;
    assert(0 <= g[u][k] < g.len());
}

/// Indices as integers.
pub open spec fn ints(s: Seq<usize>) -> Seq<int> {
    s.map_values(|x: usize| x as int)
}

/// Visit numbers as integers, `-1` for a vertex not yet visited.
pub open spec fn nums(s: Seq<Option<usize>>) -> Seq<int> {
    s.map_values(|o: Option<usize>| match o {
        Some(k) => k as int,
        None => -1int,
    })
}

/// Adjacency lists (or groups) as sequences of integers.
pub open spec fn lists_view(s: Seq<Vec<usize>>) -> Seq<Seq<int>> {
    s.map_values(|r: Vec<usize>| ints(r@))
}

/// The working state of the search.
struct SccStateChirho {
    index_chirho: usize,
    stack_chirho: Vec<usize>,
    on_stack_chirho: Vec<bool>,
    indices_chirho: Vec<Option<usize>>,
    lowlinks_chirho: Vec<usize>,
    sccs_chirho: Vec<Vec<usize>>,
}

impl View for SccStateChirho {
    type V = SccV;

    closed spec fn view(&self) -> SccV {
        SccV {
            index: self.index_chirho as int,
            st: ints(self.stack_chirho@),
            on: self.on_stack_chirho@,
            num: nums(self.indices_chirho@),
            low: ints(self.lowlinks_chirho@),
            gs: lists_view(self.sccs_chirho@),
        }
    }
}

impl SccStateChirho {
    /// Visits `v` and everything reachable from it that is not yet visited,
    /// emitting each group whose root is found on the way.
    fn strongconnect_chirho(&mut self, adj: &Vec<Vec<usize>>, v: usize, Ghost(gray): Ghost<Set<int>>, Ghost(left): Ghost<nat>)
        requires
            left == unvisited(old(self)@.num),
            graph_wf(lists_view(adj@)),
            scc_inv(old(self)@, lists_view(adj@), gray),
            v < adj.len(),
            old(self)@.num[v as int] < 0,
            forall|x: int| #[trigger] gray.contains(x) ==> old(self)@.st.contains(x),
        ensures
            scc_inv(final(self)@, lists_view(adj@), gray),
            final(self)@.num[v as int] == old(self)@.index,
            final(self)@.index > old(self)@.index,
            forall|x: int| 0 <= x < adj.len() && old(self)@.num[x] >= 0 ==> #[trigger] final(self)@.num[x] == old(self)@.num[x],
            final(self)@.st.len() >= old(self)@.st.len(),
            forall|i: int| 0 <= i < old(self)@.st.len() ==> #[trigger] final(self)@.st[i] == old(self)@.st[i],
            forall|i: int| 0 <= i < old(self)@.st.len() ==> final(self)@.low[#[trigger] old(self)@.st[i]] == old(self)@.low[old(self)@.st[i]],
            forall|i: int| old(self)@.st.len() <= i < final(self)@.st.len() ==> final(self)@.num[#[trigger] final(self)@.st[i]] >= old(self)@.index
                && final(self)@.low[final(self)@.st[i]] >= final(self)@.low[v as int],
            final(self)@.on[v as int] ==> final(self)@.st.len() > old(self)@.st.len() && final(self)@.st[old(self)@.st.len() as int] == v
                && final(self)@.low[v as int] < final(self)@.num[v as int],
            !final(self)@.on[v as int] ==> final(self)@.st == old(self)@.st,
            final(self)@.gs.len() >= old(self)@.gs.len(),
            forall|k: int| 0 <= k < old(self)@.gs.len() ==> #[trigger] final(self)@.gs[k] == old(self)@.gs[k],
            forall|x: int| 0 <= x < adj.len() && #[trigger] final(self)@.num[x] >= 0 && old(self)@.num[x] < 0
                ==> reach(lists_view(adj@), v as int, x),
        decreases left,
    {
        let ghost g = lists_view(adj@);
        let ghost s0 = self@;
        let ghost n = adj.len() as int;
        let ghost p0 = s0.st.len() as int;
        let ghost gray2 = gray.insert(v as int);
        proof {
            lemma_visit(s0, g, gray, v as int);
            reveal(counted);
        }
        let idx = self.index_chirho;
        self.indices_chirho.set(v, Some(idx));
        self.lowlinks_chirho.set(v, idx);
        self.index_chirho = idx + 1;
        self.stack_chirho.push(v);
        self.on_stack_chirho.set(v, true);
        proof {
            let t = visit(s0, v as int);
            assert(self@.num =~= t.num);
            assert(self@.low =~= t.low);
            assert(self@.st =~= t.st);
            assert(self@.on =~= t.on);
            assert(self@ == t);
            lemma_stack_visited(s0, n);
            lemma_reach_refl(g, v as int);
        }
        let succ_len = adj[v].len();
        let mut k: usize = 0;
        while k < succ_len
            invariant
                0 <= k <= succ_len,
                succ_len == adj@[v as int].len(),
                v < adj.len(),
                g == lists_view(adj@),
                n == adj.len(),
                graph_wf(g),
                scc_inv(self@, g, gray2),
                gray2 == gray.insert(v as int),
                forall|x: int| #[trigger] gray.contains(x) ==> s0.st.contains(x),
                s0.num[v as int] < 0,
                counted(s0, n),
                stack_ok(s0, n),
                left == unvisited(s0.num),
                self@.num[v as int] == s0.index,
                self@.index > s0.index,
                self@.st.len() > p0,
                p0 == s0.st.len(),
                self@.st[p0] == v,
                forall|i: int| 0 <= i < p0 ==> #[trigger] self@.st[i] == s0.st[i],
                forall|x: int| 0 <= x < n && s0.num[x] >= 0 ==> #[trigger] self@.num[x] == s0.num[x],
                forall|i: int| 0 <= i < p0 ==> self@.low[#[trigger] s0.st[i]] == s0.low[s0.st[i]],
                forall|i: int| p0 < i < self@.st.len() ==> self@.num[#[trigger] self@.st[i]] >= s0.index
                    && self@.low[self@.st[i]] >= self@.low[v as int],
                self@.gs.len() >= s0.gs.len(),
                forall|k2: int| 0 <= k2 < s0.gs.len() ==> #[trigger] self@.gs[k2] == s0.gs[k2],
                forall|x: int| 0 <= x < n && #[trigger] self@.num[x] >= 0 && s0.num[x] < 0 ==> reach(g, v as int, x),
                forall|j: int| 0 <= j < k ==> self@.num[#[trigger] g[v as int][j]] >= 0
                    && (self@.on[g[v as int][j]] ==> self@.low[v as int] <= self@.num[g[v as int][j]]),
            decreases succ_len - k,
        {
            let w = adj[v][k];
            let ghost sb = self@;
            proof {
                assert(g[v as int][k as int] == w as int);
                assert(0 <= g[v as int][k as int] < n);
                assert(edge(g, v as int, w as int));
                lemma_reach_edge(g, v as int, w as int);
                lemma_stack_visited(sb, n);
                lemma_stack_mono(sb, n);
                reveal(counted);
            }
            if self.indices_chirho[w].is_none() {
                proof {
                    assert forall|x: int| #[trigger] gray2.contains(x) implies sb.st.contains(x) by {
                        if x == v as int {
                            assert(sb.st[p0] == x);
                        } else {
                            let i = choose|i: int| 0 <= i < s0.st.len() && s0.st[i] == x;
                            assert(sb.st[i] == x);
                        }
                    }
                    assert(counted(sb, n) && counted(s0, n));
                    assert(sb.index == n - unvisited(sb.num));
                    assert(s0.index == n - unvisited(s0.num));
                    assert(unvisited(sb.num) < unvisited(s0.num));
                }
                self.strongconnect_chirho(adj, w, Ghost(gray2), Ghost(unvisited(sb.num)));
                let ghost s1 = self@;
                proof {
                    lemma_stack_visited(s1, n);
                    lemma_stack_mono(s1, n);
                }
                if self.on_stack_chirho[w] {
                    let lw = self.lowlinks_chirho[w];
                    let lv = self.lowlinks_chirho[v];
                    if lw < lv {
                        proof {
                            let q = sb.st.len() as int;
                            let j = lemma_low_ok_at_elim(s1, g, q);
                            lemma_reach_trans(g, v as int, w as int, s1.st[j]);
                            lemma_lower(s1, g, gray2, v as int, p0, lw as int);
                        }
                        self.lowlinks_chirho.set(v, lw);
                        proof {
                            assert(self@.low =~= s1.low.update(v as int, lw as int));
                            assert(self@ == lower(s1, v as int, lw as int));
                        }
                    }
                }
                proof {
                    assert forall|j: int| 0 <= j < k + 1 implies self@.num[#[trigger] g[v as int][j]] >= 0
                        && (self@.on[g[v as int][j]] ==> self@.low[v as int] <= self@.num[g[v as int][j]]) by {
                        if j < k {
                            let y = g[v as int][j];
                            assert(0 <= g[v as int][j] < n);
                            if !sb.on[y] {
                                lemma_off_stack_stays(sb, s1, n, y);
                            }
                        }
                    }
                    assert forall|x: int| 0 <= x < n && #[trigger] self@.num[x] >= 0 && s0.num[x] < 0 implies reach(g, v as int, x) by {
                        if sb.num[x] < 0 {
                            lemma_reach_trans(g, v as int, w as int, x);
                        }
                    }
                    assert forall|i: int| p0 < i < self@.st.len() implies self@.num[#[trigger] self@.st[i]] >= s0.index
                        && self@.low[self@.st[i]] >= self@.low[v as int] by {
                        if i < sb.st.len() {
                            assert(self@.st[i] == sb.st[i]);
                        }
                    }
                }
            } else if self.on_stack_chirho[w] {
                let nw = match self.indices_chirho[w] {
                    Some(x) => x,
                    None => 0,
                };
                let lv = self.lowlinks_chirho[v];
                if nw < lv {
                    proof {
                        let j = choose|j: int| 0 <= j < sb.st.len() && sb.st[j] == w as int;
                        lemma_lower(sb, g, gray2, v as int, p0, nw as int);
                    }
                    self.lowlinks_chirho.set(v, nw);
                    proof {
                        assert(self@.low =~= sb.low.update(v as int, nw as int));
                        assert(self@ == lower(sb, v as int, nw as int));
                    }
                }
            }
            proof {
                lemma_stack_visited(s0, n);
                assert forall|i: int| 0 <= i < p0 implies self@.low[#[trigger] s0.st[i]] == s0.low[s0.st[i]] by {
                    assert(sb.st[i] == s0.st[i]);
                    assert(s0.st[i] != v as int);
                }
            }
            k = k + 1;
        }
        let ghost se = self@;
        proof {
            lemma_stack_visited(se, n);
            lemma_stack_mono(se, n);
            assert forall|w: int| #[trigger] edge(g, v as int, w) implies se.num[w] >= 0 && (se.on[w] ==> se.low[v as int] <= se.num[w]) by {
                let j = choose|j: int| 0 <= j < g[v as int].len() && g[v as int][j] == w;
                assert(se.num[g[v as int][j]] >= 0);
            }
            let j = lemma_low_ok_at_elim(se, g, p0);
        }
        if self.lowlinks_chirho[v] == idx {
            proof {
                reveal(counted);
                assert forall|i: int| p0 <= i < se.st.len() implies reach(g, v as int, #[trigger] se.st[i]) by {
                    if i > p0 {
                        assert(se.num[se.st[i]] >= s0.index);
                        assert(s0.num[se.st[i]] < 0);
                    }
                }
                assert forall|i: int| p0 <= i < se.st.len() implies !gray.contains(#[trigger] se.st[i]) by {
                    if gray.contains(se.st[i]) {
                        let j = choose|j: int| 0 <= j < s0.st.len() && s0.st[j] == se.st[i];
                        assert(se.st[j] == s0.st[j]);
                    }
                }
                assert(root_ready(se, g, gray, v as int, p0));
                lemma_pop_group(se, g, gray, v as int, p0);
            }
            let mut scc: Vec<usize> = Vec::new();
            let ghost len0 = se.st.len() as int;
            loop
                invariant_except_break
                    self.stack_chirho.len() > p0,
                invariant
                    n == adj.len(),
                    se.on.len() == n,
                    0 <= p0 < len0,
                    len0 == se.st.len(),
                    se.st[p0] == v,
                    forall|i: int| 0 <= i < len0 && i != p0 ==> #[trigger] se.st[i] != v as int,
                    forall|i: int| 0 <= i < len0 ==> 0 <= #[trigger] se.st[i] < n,
                    self.stack_chirho.len() <= len0,
                    ints(self.stack_chirho@) == se.st.take(self.stack_chirho.len() as int),
                    ints(scc@) == popped(se.st, self.stack_chirho.len() as int),
                    self.on_stack_chirho@ == Seq::new(n as nat, |x: int| se.on[x] && !above(se.st, self.stack_chirho.len() as int, x)),
                    self@.num == se.num,
                    self@.low == se.low,
                    self@.index == se.index,
                    self@.gs == se.gs,
                ensures
                    self.stack_chirho.len() == p0,
                decreases self.stack_chirho.len(),
            {
                let ghost j = self.stack_chirho.len() as int;
                let w = match self.stack_chirho.pop() {
                    Some(x) => x,
                    None => v,
                };
                proof {
                    assert(se.st.take(j)[j - 1] == w as int);
                    assert(ints(self.stack_chirho@) =~= se.st.take(j - 1));
                }
                self.on_stack_chirho.set(w, false);
                let ghost old_scc = scc@;
                scc.push(w);
                proof {
                    assert(ints(scc@) =~= ints(old_scc).push(w as int));
                    assert(ints(old_scc) == popped(se.st, j));
                    assert(ints(scc@) =~= popped(se.st, j - 1));
                    assert forall|x: int| 0 <= x < n implies #[trigger] above(se.st, j - 1, x) == (above(se.st, j, x) || x == w as int) by {
                        if above(se.st, j - 1, x) && !(x == w as int) {
                            let q = choose|q: int| j - 1 <= q < se.st.len() && se.st[q] == x;
                            assert(q != j - 1);
                        }
                        if x == w as int {
                            assert(se.st[j - 1] == x);
                        }
                    }
                    assert(self.on_stack_chirho@ =~= Seq::new(n as nat, |x: int| se.on[x] && !above(se.st, j - 1, x)));
                }
                if w == v {
                    break;
                }
            }
            self.sccs_chirho.push(scc);
            proof {
                let t = pop_group(se, p0);
                assert(self@.st =~= t.st);
                assert(self@.on =~= t.on);
                assert(self@.gs =~= t.gs);
                assert(self@ == t);
                assert(self@.st =~= s0.st);
                assert(above(se.st, p0, v as int));
            }
        } else {
            proof {
                lemma_finish(se, g, gray, v as int);
            }
        }
    }
}

/// The texts of a sequence of strings.
pub open spec fn strs(s: Seq<String>) -> Seq<Seq<char>> {
    s.map_values(|x: String| x@)
}

/// The texts of each function's references.
pub open spec fn refs_view(refs: Seq<Vec<String>>) -> Seq<Seq<Seq<char>>> {
    refs.map_values(|r: Vec<String>| strs(r@))
}

/// The last position of `x` in `s`, or -1 where it does not occur.
pub open spec fn last_pos(s: Seq<Seq<char>>, x: Seq<char>) -> int
    decreases s.len(),
{
    if s.len() == 0 {
        -1
    } else if s.last() == x {
        s.len() - 1
    } else {
        last_pos(s.drop_last(), x)
    }
}

/// The functions that a function named `own` depends on, one entry per
/// reference in `rs`, in order: a reference to a top-level function's name
/// counts and points at the last function declared under that name; a
/// reference to the function's own name, or to no top-level function, does
/// not.
pub open spec fn dep_targets(names: Seq<Seq<char>>, own: Seq<char>, rs: Seq<Seq<char>>) -> Seq<int>
    decreases rs.len(),
{
    if rs.len() == 0 {
        Seq::empty()
    } else {
        let t = dep_targets(names, own, rs.drop_last());
        let r = rs.last();
        if r != own && last_pos(names, r) >= 0 {
            t.push(last_pos(names, r))
        } else {
            t
        }
    }
}

/// The dependency graph of the functions `names`, where `refs[i]` lists the
/// names that the body of function `i` mentions.
pub open spec fn dependency_graph(names: Seq<Seq<char>>, refs: Seq<Seq<Seq<char>>>) -> Seq<Seq<int>> {
    Seq::new(names.len(), |i: int| if i < refs.len() { dep_targets(names, names[i], refs[i]) } else { Seq::empty() })
}

/// `gs` splits the vertices `0 .. n` into nonempty groups: every vertex is in
/// exactly one group.
pub open spec fn is_partition(gs: Seq<Seq<int>>, n: int) -> bool {
    &&& forall|k: int| 0 <= k < gs.len() ==> (#[trigger] gs[k]).len() > 0
    &&& forall|k: int, i: int| 0 <= k < gs.len() && 0 <= i < gs[k].len() ==> 0 <= #[trigger] gs[k][i] < n
    &&& forall|v: int| 0 <= v < n ==> #[trigger] emitted(gs, v)
    &&& forall|k1: int, i1: int, k2: int, i2: int| 0 <= k1 < gs.len() && 0 <= i1 < gs[k1].len() && 0 <= k2 < gs.len()
        && 0 <= i2 < gs[k2].len() && (k1 != k2 || i1 != i2) ==> #[trigger] gs[k1][i1] != #[trigger] gs[k2][i2]
}

/// `gs` is the split of the functions of `g` into binding groups, in an order
/// fit for inference: the groups are the strongly connected components of `g`
/// (every member reaches every member, and whatever reaches a member and is
/// reached from it is a member), and every function a group depends on lies in
/// that group or an earlier one.
pub open spec fn binding_groups_of(gs: Seq<Seq<int>>, g: Seq<Seq<int>>) -> bool {
    &&& is_partition(gs, g.len() as int)
    &&& forall|k: int, i: int, j: int| 0 <= k < gs.len() && 0 <= i < gs[k].len() && 0 <= j < gs[k].len()
        ==> reach(g, #[trigger] gs[k][i], #[trigger] gs[k][j])
    &&& forall|k: int, i: int, y: int| 0 <= k < gs.len() && 0 <= i < gs[k].len() && 0 <= y < g.len()
        && #[trigger] reach(g, gs[k][i], y) && #[trigger] reach(g, y, gs[k][i]) ==> gs[k].contains(y)
    &&& forall|k: int, i: int, w: int| 0 <= k < gs.len() && 0 <= i < gs[k].len() && #[trigger] edge(g, gs[k][i], w)
        ==> emitted_by(gs, w, k)
}

pub proof fn lemma_last_pos(s: Seq<Seq<char>>, x: Seq<char>)
    ensures
        -1 <= last_pos(s, x) < s.len(),
        last_pos(s, x) >= 0 ==> s[last_pos(s, x)] == x,
    decreases s.len(),
{
    if s.len() > 0 && s.last() != x {
        lemma_last_pos(s.drop_last(), x);
    }
}

pub proof fn lemma_dep_targets_range(names: Seq<Seq<char>>, own: Seq<char>, rs: Seq<Seq<char>>)
    ensures
        forall|i: int| 0 <= i < dep_targets(names, own, rs).len() ==> 0 <= #[trigger] dep_targets(names, own, rs)[i] < names.len(),
    decreases rs.len(),
{
    if rs.len() > 0 {
        lemma_dep_targets_range(names, own, rs.drop_last());
        lemma_last_pos(names, rs.last());
        let t = dep_targets(names, own, rs.drop_last());
        assert forall|i: int| 0 <= i < dep_targets(names, own, rs).len() implies 0 <= #[trigger] dep_targets(names, own, rs)[i] < names.len() by {
            if i < t.len() {
                assert(t[i] == dep_targets(names, own, rs)[i]);
            }
        }
    }
}

pub proof fn lemma_dependency_graph_wf(names: Seq<Seq<char>>, refs: Seq<Seq<Seq<char>>>)
    ensures
        graph_wf(dependency_graph(names, refs)),
        dependency_graph(names, refs).len() == names.len(),
{
    let g = dependency_graph(names, refs);
    assert forall|u: int, k: int| 0 <= u < g.len() && 0 <= k < g[u].len() implies 0 <= #[trigger] g[u][k] < g.len() by {
        if u < refs.len() {
            lemma_dep_targets_range(names, names[u], refs[u]);
        }
    }
}

/// Where `name` was declared last among `names`.
fn last_position_chirho(names: &Vec<String>, name: &str) -> (r: Option<usize>)
    ensures
        match r {
            Some(k) => k == last_pos(strs(names@), name@),
            None => last_pos(strs(names@), name@) == -1,
        },
{
    let ghost s = strs(names@);
    let mut i: usize = names.len();
    proof {
        assert(s.take(i as int) =~= s);
    }
    while i > 0
        invariant
            i <= names.len(),
            s == strs(names@),
            last_pos(s, name@) == last_pos(s.take(i as int), name@),
        decreases i,
    {
        proof {
            assert(s.take(i as int).last() == names@[i - 1]@);
            assert(s.take(i as int).drop_last() =~= s.take(i - 1));
        }
        if crate::ty_chirho::str_eq_chirho(names[i - 1].as_str(), name) {
            return Some(i - 1);
        }
        i = i - 1;
    }
    None
}

/// The dependency targets of one function, as `dep_targets` says.
fn dependency_targets_chirho(names: &Vec<String>, own: &str, rs: &Vec<String>) -> (r: Vec<usize>)
    ensures
        ints(r@) == dep_targets(strs(names@), own@, strs(rs@)),
{
    let ghost ns = strs(names@);
    let ghost all = strs(rs@);
    let mut out: Vec<usize> = Vec::new();
    let mut k: usize = 0;
    proof {
        assert(all.take(0) =~= Seq::<Seq<char>>::empty());
        assert(ints(out@) =~= Seq::<int>::empty());
    }
    while k < rs.len()
        invariant
            k <= rs.len(),
            ns == strs(names@),
            all == strs(rs@),
            ints(out@) == dep_targets(ns, own@, all.take(k as int)),
        decreases rs.len() - k,
    {
        proof {
            assert(all.take(k + 1).drop_last() =~= all.take(k as int));
            assert(all.take(k + 1).last() == rs@[k as int]@);
        }
        let ghost before = out@;
        if !crate::ty_chirho::str_eq_chirho(rs[k].as_str(), own) {
            match last_position_chirho(names, rs[k].as_str()) {
                Some(j) => {
                    out.push(j);
                    proof {
                        assert(ints(out@) =~= ints(before).push(j as int));
                    }
                },
                None => {},
            }
        }
        k = k + 1;
    }
    proof {
        assert(all.take(k as int) =~= all);
    }
    out
}

/// The adjacency lists of the dependency graph.
fn dependency_graph_chirho(names: &Vec<String>, refs: &Vec<Vec<String>>) -> (r: Vec<Vec<usize>>)
    ensures
        lists_view(r@) == dependency_graph(strs(names@), refs_view(refs@)),
{
    let ghost want = dependency_graph(strs(names@), refs_view(refs@));
    let mut adj: Vec<Vec<usize>> = Vec::new();
    let mut i: usize = 0;
    while i < names.len()
        invariant
            i <= names.len(),
            want == dependency_graph(strs(names@), refs_view(refs@)),
            lists_view(adj@) == want.take(i as int),
        decreases names.len() - i,
    {
        let ghost before = adj@;
        if i < refs.len() {
            let t = dependency_targets_chirho(names, names[i].as_str(), &refs[i]);
            adj.push(t);
        } else {
            adj.push(Vec::new());
        }
        proof {
            assert(lists_view(adj@) =~= lists_view(before).push(lists_view(adj@)[i as int]));
            assert(lists_view(adj@)[i as int] =~= want[i as int]);
            assert(want.take(i + 1) =~= want.take(i as int).push(want[i as int]));
        }
        i = i + 1;
    }
    proof {
        assert(want.take(i as int) =~= want);
    }
    adj
}

proof fn lemma_unvisited_none(num: Seq<int>)
    requires
        forall|i: int| 0 <= i < num.len() ==> #[trigger] num[i] < 0,
    ensures
        unvisited(num) == num.len(),
    decreases num.len(),
{
    if num.len() > 0 {
        lemma_unvisited_none(num.drop_last());
    }
}

/// Splits the top-level functions `fun_names` into binding groups, given
/// `refs[i]`, the names that the body of function `i` mentions. The groups
/// are the strongly connected components of the dependency graph, each
/// function a group depends on coming in that group or an earlier one, so
/// that the groups can be inferred in the order given.
pub fn binding_groups_by_refs_chirho(fun_names: &Vec<String>, refs: &Vec<Vec<String>>) -> (r: Vec<Vec<usize>>)
    requires
        forall|i: int, j: int| fun_names.len() <= i < refs.len() && 0 <= j < refs@[i].len()
            ==> last_pos(strs(fun_names@), #[trigger] refs@[i]@[j]@) < 0,
    ensures
        binding_groups_of(lists_view(r@), dependency_graph(strs(fun_names@), refs_view(refs@))),
{
    let n = fun_names.len();
    let adj = dependency_graph_chirho(fun_names, refs);
    let ghost g = lists_view(adj@);
    proof {
        lemma_dependency_graph_wf(strs(fun_names@), refs_view(refs@));
    }
    let mut on: Vec<bool> = Vec::new();
    let mut ix: Vec<Option<usize>> = Vec::new();
    let mut low: Vec<usize> = Vec::new();
    let mut i: usize = 0;
    while i < n
        invariant
            i <= n,
            on@.len() == i && ix@.len() == i && low@.len() == i,
            forall|j: int| 0 <= j < i ==> !#[trigger] on@[j],
            forall|j: int| 0 <= j < i ==> #[trigger] ix@[j] is None,
        decreases n - i,
    {
        on.push(false);
        ix.push(None);
        low.push(0);
        i = i + 1;
    }
    let mut st = SccStateChirho {
        index_chirho: 0,
        stack_chirho: Vec::new(),
        on_stack_chirho: on,
        indices_chirho: ix,
        lowlinks_chirho: low,
        sccs_chirho: Vec::new(),
    };
    proof {
        let s = st@;
        assert(g.len() == n);
        assert forall|j: int| 0 <= j < s.num.len() implies #[trigger] s.num[j] < 0 by {
            assert(ix@[j] is None);
        }
        lemma_unvisited_none(s.num);
        assert(counted(s, n as int)) by {
            reveal(counted);
        }
        assert(stack_ok(s, n as int)) by {
            reveal(stack_ok);
        }
        assert(groups_ok(s, n as int)) by {
            reveal(groups_ok);
        }
        assert(lows_ok(s, g)) by {
            reveal(lows_ok);
        }
        assert(emitted_ok(s.gs, g)) by {
            reveal(emitted_ok);
        }
        assert(finished_ok(s, g, Set::empty())) by {
            reveal(finished_ok);
        }
    }
    let mut v: usize = 0;
    while v < n
        invariant
            v <= n,
            n == adj.len(),
            g == lists_view(adj@),
            graph_wf(g),
            scc_inv(st@, g, Set::empty()),
            st@.st.len() == 0,
            forall|u: int| 0 <= u < v ==> #[trigger] st@.num[u] >= 0,
        decreases n - v,
    {
        proof {
            reveal(counted);
            assert(st@.num.len() == n);
        }
        if st.indices_chirho[v].is_none() {
            let ghost sb = st@;
            proof {
                assert(sb.num[v as int] == -1);
                assert(forall|x: int| #[trigger] Set::<int>::empty().contains(x) ==> sb.st.contains(x));
            }
            st.strongconnect_chirho(&adj, v, Ghost(Set::empty()), Ghost(unvisited(sb.num)));
            proof {
                let s1 = st@;
                if s1.on[v as int] {
                    let j = lemma_low_ok_at_elim(s1, g, 0);
                    assert(s1.num[s1.st[j]] >= sb.index);
                }
                reveal(counted);
                assert forall|u: int| 0 <= u < v + 1 implies #[trigger] st@.num[u] >= 0 by {
                    assert(sb.num[u] >= 0 || u == v);
                }
            }
        }
        v = v + 1;
    }
    proof {
        let s = st@;
        reveal(groups_ok);
        reveal(emitted_ok);
        reveal(stack_ok);
        assert forall|x: int| 0 <= x < n implies #[trigger] emitted(s.gs, x) by {
            assert(s.num[x] >= 0);
            if s.on[x] {
                assert(s.st.contains(x));
            }
        }
    }
    st.sccs_chirho
}

/// The names that each declared function's equations refer to.
pub open spec fn decls_refs(ds: Seq<(usize, Vec<MatchArmChirho>)>) -> Seq<Seq<Seq<char>>> {
    ds.map_values(|d: (usize, Vec<MatchArmChirho>)| alts_ref_list(d.1@))
}

/// Splits the top-level functions `fun_names` into binding groups, where
/// `fun_decls[i]` holds the equations of function `i`: what their
/// right-hand sides and `where` bindings refer to makes the dependency graph,
/// whose strongly connected components are the groups, dependencies first.
pub fn binding_groups_chirho(fun_names: &Vec<String>, fun_decls: &Vec<(usize, Vec<MatchArmChirho>)>) -> (r: Vec<Vec<usize>>)
    requires
        forall|i: int, j: int| fun_names.len() <= i < fun_decls.len() && 0 <= j < alts_ref_list(fun_decls@[i].1@).len()
            ==> last_pos(strs(fun_names@), #[trigger] alts_ref_list(fun_decls@[i].1@)[j]) < 0,
    ensures
        binding_groups_of(lists_view(r@), dependency_graph(strs(fun_names@), decls_refs(fun_decls@))),
{
    let mut refs: Vec<Vec<String>> = Vec::new();
    let mut i: usize = 0;
    while i < fun_decls.len()
        invariant
            i <= fun_decls.len(),
            refs_view(refs@) == decls_refs(fun_decls@).take(i as int),
        decreases fun_decls.len() - i,
    {
        let ghost before = refs@;
        let r = function_refs_chirho(&fun_decls[i].1);
        refs.push(r);
        proof {
            assert(refs_view(refs@) =~= refs_view(before).push(strs(refs@[i as int]@)));
            assert(decls_refs(fun_decls@).take(i + 1) =~= decls_refs(fun_decls@).take(i as int).push(decls_refs(fun_decls@)[i as int]));
        }
        i = i + 1;
    }
    proof {
        assert(decls_refs(fun_decls@).take(i as int) =~= decls_refs(fun_decls@));
        assert forall|i: int, j: int| fun_names.len() <= i < refs.len() && 0 <= j < refs@[i].len()
            implies last_pos(strs(fun_names@), #[trigger] refs@[i]@[j]@) < 0 by {
            assert(refs_view(refs@)[i] == strs(refs@[i]@));
            assert(strs(refs@[i]@)[j] == refs@[i]@[j]@);
        }
    }
    binding_groups_by_refs_chirho(fun_names, &refs)
}


/// A reference to another top-level function gives an edge to it.
pub proof fn lemma_dep_targets_include(names: Seq<Seq<char>>, own: Seq<char>, rs: Seq<Seq<char>>, r: Seq<char>)
    requires
        rs.contains(r),
        r != own,
        last_pos(names, r) >= 0,
    ensures
        dep_targets(names, own, rs).contains(last_pos(names, r)),
    decreases rs.len(),
{
    let t = dep_targets(names, own, rs.drop_last());
    if rs.last() == r {
        assert(t.push(last_pos(names, r))[t.len() as int] == last_pos(names, r));
    } else {
        let j = choose|j: int| 0 <= j < rs.len() && rs[j] == r;
        assert(rs.drop_last()[j] == r);
        lemma_dep_targets_include(names, own, rs.drop_last(), r);
        let k = choose|k: int| 0 <= k < t.len() && t[k] == last_pos(names, r);
        if rs.last() != own && last_pos(names, rs.last()) >= 0 {
            assert(t.push(last_pos(names, rs.last()))[k] == last_pos(names, r));
        }
    }
}

/// The references of an equation are among those of all the equations.
pub proof fn lemma_alts_refs_include(ms: Seq<MatchArmChirho>, k: int, r: Seq<char>)
    requires
        0 <= k < ms.len(),
        arm_ref_list(ms[k]).contains(r),
    ensures
        alts_ref_list(ms).contains(r),
    decreases ms.len(),
{
    if k == ms.len() - 1 {
        lemma_concat_contains(alts_ref_list(ms.drop_last()), arm_ref_list(ms.last()), r);
    } else {
        assert(ms.drop_last()[k] == ms[k]);
        lemma_alts_refs_include(ms.drop_last(), k, r);
        lemma_concat_contains(alts_ref_list(ms.drop_last()), arm_ref_list(ms.last()), r);
    }
}

/// A function whose equation's plain right-hand side mentions another
/// top-level function depends on it: the dependency graph has an edge from
/// the first to (the last function declared under) that name, wherever in
/// the body the name stands.
pub proof fn lemma_mention_gives_dependency(names: Seq<Seq<char>>, ds: Seq<(usize, Vec<MatchArmChirho>)>, i: int, k: int, r: Seq<char>)
    requires
        0 <= i < names.len(),
        i < ds.len(),
        0 <= k < ds[i].1@.len(),
        ds[i].1@[k].rhs_chirho is UnguardedChirho,
        mentions(ds[i].1@[k].rhs_chirho->UnguardedChirho_0, r),
        r != names[i],
        last_pos(names, r) >= 0,
    ensures
        dependency_graph(names, decls_refs(ds))[i].contains(last_pos(names, r)),
{
    let m = ds[i].1@[k];
    lemma_mentioned_names_are_referenced(m.rhs_chirho->UnguardedChirho_0, r);
    assert(rhs_ref_list(m.rhs_chirho) == expr_ref_list(m.rhs_chirho->UnguardedChirho_0));
    lemma_concat_contains(rhs_ref_list(m.rhs_chirho), crate::expr_refs_chirho::binds_ref_list(m.where_binds_chirho@), r);
    lemma_alts_refs_include(ds[i].1@, k, r);
    assert(decls_refs(ds)[i] == alts_ref_list(ds[i].1@));
    lemma_dep_targets_include(names, names[i], alts_ref_list(ds[i].1@), r);
}

}
