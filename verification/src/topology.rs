//! Reactor topology: components and the directed cooling-dependency graph
//! between them, with the failure-cascade query ("if this component fails,
//! who overheats?") and the SQL that mirrors it in the database.
//!
//! Component positions are geometry in floating point and are kept by the
//! application next to this graph; the graph holds what the cascade logic
//! reads: ids, kinds and cooling dependencies.

use vstd::prelude::*;
use vstd::set_lib::{lemma_int_range, lemma_len_subset, set_int_range};
use vstd::seq_lib::lemma_seq_contains_after_push;
use crate::text::push_char;

verus! {

/// A component as the graph sees it.
pub struct ComponentModel {
    pub id: Seq<char>,
    pub kind: Seq<char>,
    pub cools_from: Seq<Seq<char>>,
}

/// A graph: its components and its directed edges `(from, to)`, meaning
/// `to` depends on `from` for cooling.
pub struct GraphModel {
    pub nodes: Seq<ComponentModel>,
    pub edges: Seq<(Seq<char>, Seq<char>)>,
}

pub open spec fn str_views(v: Seq<String>) -> Seq<Seq<char>> {
    v.map_values(|s: String| s@)
}

/// There is an edge from `a` to `b`.
pub open spec fn edge(edges: Seq<(Seq<char>, Seq<char>)>, a: Seq<char>, b: Seq<char>) -> bool {
    exists|i: int| 0 <= i < edges.len() && #[trigger] edges[i] == (a, b)
}

/// `p` is a walk of at least one edge.
pub open spec fn is_walk(edges: Seq<(Seq<char>, Seq<char>)>, p: Seq<Seq<char>>) -> bool {
    &&& p.len() >= 2
    &&& forall|i: int| 0 <= i < p.len() - 1 ==> edge(edges, #[trigger] p[i], p[i + 1])
}

/// `b` is reachable from `a` along one or more edges.
pub open spec fn reaches(edges: Seq<(Seq<char>, Seq<char>)>, a: Seq<char>, b: Seq<char>) -> bool {
    exists|p: Seq<Seq<char>>| #[trigger] is_walk(edges, p) && p[0] == a && p.last() == b
}

/// The index of the last component with id `id`, if any.
pub open spec fn find_id(nodes: Seq<ComponentModel>, id: Seq<char>) -> Option<int>
    decreases nodes.len(),
{
    if nodes.len() == 0 {
        None
    } else if nodes.last().id == id {
        Some(nodes.len() - 1)
    } else {
        find_id(nodes.drop_last(), id)
    }
}

/// No two components share an id.
pub open spec fn ids_distinct(nodes: Seq<ComponentModel>) -> bool {
    forall|i: int, j: int| 0 <= i < nodes.len() && 0 <= j < nodes.len() && i != j ==> nodes[i].id != nodes[j].id
}

/// A physical component: an id, a kind and the ids it depends on for cooling.
pub struct Component {
    id: String,
    kind: String,
    cools_from: Vec<String>,
}

impl View for Component {
    type V = ComponentModel;

    closed spec fn view(&self) -> ComponentModel {
        ComponentModel { id: self.id@, kind: self.kind@, cools_from: str_views(self.cools_from@) }
    }
}

impl Component {
    /// A component with no cooling dependencies.
    pub fn new(id: &str, kind: &str) -> (c: Component)
        ensures
            c@ == (ComponentModel { id: id@, kind: kind@, cools_from: Seq::empty() }),
    {
        let c: Component = Component { id: id.to_string(), kind: kind.to_string(), cools_from: Vec::new() };
        assert(c@.cools_from =~= Seq::<Seq<char>>::empty());
        c
    }

    /// The same component depending on `deps` for cooling (replacing any
    /// earlier list).
    pub fn cools_from(self, deps: &[&str]) -> (c: Component)
        ensures
            c@ == (ComponentModel { cools_from: deps@.map_values(|d: &str| d@), ..self@ }),
    {
        let mut v: Vec<String> = Vec::new();
        for i in 0..deps.len()
            invariant
                v@.len() == i,
                forall|j: int| 0 <= j < i ==> #[trigger] v@[j]@ == deps@[j]@,
        {
            v.push(deps[i].to_string());
        }
        let c: Component = Component { id: self.id, kind: self.kind, cools_from: v };
        assert(c@.cools_from =~= deps@.map_values(|d: &str| d@));
        c
    }

    /// The component's id.
    pub fn id(&self) -> (s: &str)
        ensures
            s@ == self@.id,
    {
        self.id.as_str()
    }

    /// The component's kind.
    pub fn kind(&self) -> (s: &str)
        ensures
            s@ == self@.kind,
    {
        self.kind.as_str()
    }
}

/// An in-memory reactor topology graph (directed cooling-dependency edges).
pub struct ReactorGraph {
    nodes: Vec<Component>,
    edges: Vec<(String, String)>,
}

impl View for ReactorGraph {
    type V = GraphModel;

    closed spec fn view(&self) -> GraphModel {
        GraphModel {
            nodes: self.nodes@.map_values(|c: Component| c@),
            edges: self.edges@.map_values(|e: (String, String)| (e.0@, e.1@)),
        }
    }
}

/// The edges that `c` contributes: one from each of its dependencies to it.
pub open spec fn edges_of(c: ComponentModel) -> Seq<(Seq<char>, Seq<char>)> {
    c.cools_from.map_values(|d: Seq<char>| (d, c.id))
}

/// The components after inserting `c`: it replaces the component with the
/// same id, or is appended when there is none.
pub open spec fn insert_component(nodes: Seq<ComponentModel>, c: ComponentModel) -> Seq<ComponentModel> {
    match find_id(nodes, c.id) {
        Some(i) => nodes.update(i, c),
        None => nodes.push(c),
    }
}

proof fn lemma_find_id(nodes: Seq<ComponentModel>, id: Seq<char>)
    ensures
        match find_id(nodes, id) {
            Some(i) => 0 <= i < nodes.len() && nodes[i].id == id && forall|j: int|
                i < j < nodes.len() ==> #[trigger] nodes[j].id != id,
            None => forall|j: int| 0 <= j < nodes.len() ==> #[trigger] nodes[j].id != id,
        },
    decreases nodes.len(),
{
    if nodes.len() > 0 && nodes.last().id != id {
        let d: Seq<ComponentModel> = nodes.drop_last();
        lemma_find_id(d, id);
        match find_id(d, id) {
            Some(i) => {
                assert forall|j: int| i < j < nodes.len() implies #[trigger] nodes[j].id != id by {
                    if j < nodes.len() - 1 {
                        assert(d[j] == nodes[j]);
                    }
                }
            },
            None => {
                assert forall|j: int| 0 <= j < nodes.len() implies #[trigger] nodes[j].id != id by {
                    if j < nodes.len() - 1 {
                        assert(d[j] == nodes[j]);
                    }
                }
            },
        }
    }
}

fn contains_string(v: &Vec<String>, s: &String) -> (r: bool)
    ensures
        r == str_views(v@).contains(s@),
{
    for i in 0..v.len()
        invariant
            forall|j: int| 0 <= j < i ==> v@[j]@ != s@,
    {
        if v[i] == *s {
            assert(str_views(v@)[i as int] == s@);
            return true;
        }
    }
    proof {
        if str_views(v@).contains(s@) {
            let j: int = choose|j: int| 0 <= j < str_views(v@).len() && str_views(v@)[j] == s@;
            assert(v@[j]@ == s@);
        }
    }
    false
}

proof fn lemma_distinct_indices_bounded(idx: Seq<int>, n: int)
    requires
        idx.no_duplicates(),
        0 <= n,
        forall|j: int| 0 <= j < idx.len() ==> 0 <= #[trigger] idx[j] < n,
    ensures
        idx.len() <= n,
{
    idx.unique_seq_to_set();
    lemma_int_range(0, n);
    assert(idx.to_set().subset_of(set_int_range(0, n)));
    lemma_len_subset(idx.to_set(), set_int_range(0, n));
}

proof fn lemma_walk_extend(
    edges: Seq<(Seq<char>, Seq<char>)>,
    start: Seq<char>,
    a: Seq<char>,
    b: Seq<char>,
)
    requires
        a == start || reaches(edges, start, a),
        edge(edges, a, b),
    ensures
        reaches(edges, start, b),
{
    if a == start {
        let p: Seq<Seq<char>> = seq![a, b];
        assert(is_walk(edges, p));
    } else {
        let p: Seq<Seq<char>> = choose|p: Seq<Seq<char>>| #[trigger] is_walk(edges, p) && p[0] == start && p.last() == a;
        let q: Seq<Seq<char>> = p.push(b);
        assert forall|i: int| 0 <= i < q.len() - 1 implies edge(edges, #[trigger] q[i], q[i + 1]) by {
            if i < p.len() - 1 {
                assert(q[i] == p[i] && q[i + 1] == p[i + 1]);
            }
        }
        assert(is_walk(edges, q));
    }
}

proof fn lemma_closed_contains_walk(
    edges: Seq<(Seq<char>, Seq<char>)>,
    start: Seq<char>,
    seen: Seq<Seq<char>>,
    p: Seq<Seq<char>>,
    k: int,
)
    requires
        is_walk(edges, p),
        p[0] == start,
        1 <= k < p.len(),
        forall|i: int|
            0 <= i < edges.len() && (#[trigger] edges[i].0 == start || seen.contains(edges[i].0))
                ==> seen.contains(edges[i].1),
    ensures
        seen.contains(p[k]),
    decreases k,
{
    if k > 1 {
        lemma_closed_contains_walk(edges, start, seen, p, k - 1);
    }
    assert(edge(edges, p[k - 1], p[k]));
    let i: int = choose|i: int| 0 <= i < edges.len() && #[trigger] edges[i] == (p[k - 1], p[k]);
    assert(edges[i].0 == p[k - 1]);
}

impl ReactorGraph {
    /// An empty graph.
    pub fn new() -> (g: ReactorGraph)
        ensures
            g@.nodes == Seq::<ComponentModel>::empty(),
            g@.edges == Seq::<(Seq<char>, Seq<char>)>::empty(),
    {
        let g: ReactorGraph = ReactorGraph { nodes: Vec::new(), edges: Vec::new() };
        assert(g@.nodes =~= Seq::<ComponentModel>::empty());
        assert(g@.edges =~= Seq::<(Seq<char>, Seq<char>)>::empty());
        g
    }

    /// Number of components.
    pub fn len(&self) -> (n: usize)
        ensures
            n == self@.nodes.len(),
    {
        self.nodes.len()
    }

    /// Inserts a component (replacing one with the same id) and registers a
    /// cooling edge from each of its dependencies to it.
    pub fn add(&mut self, c: Component)
        ensures
            final(self)@.edges == old(self)@.edges + edges_of(c@),
            final(self)@.nodes == insert_component(old(self)@.nodes, c@),
    {
        let ghost old_edges: Seq<(Seq<char>, Seq<char>)> = self@.edges;
        let ghost old_nodes: Seq<ComponentModel> = self@.nodes;
        let ghost cm: ComponentModel = c@;
        for i in 0..c.cools_from.len()
            invariant
                cm == c@,
                self@.nodes == old_nodes,
                self@.edges == old_edges + edges_of(cm).take(i as int),
        {
            let dep: String = c.cools_from[i].clone();
            let to: String = c.id.clone();
            let ghost prev: Seq<(String, String)> = self.edges@;
            self.edges.push((dep, to));
            proof {
                assert(edges_of(cm)[i as int] == (cm.cools_from[i as int], cm.id));
                assert(self.edges@ == prev.push((dep, to)));
                assert(dep@ == cm.cools_from[i as int]);
                assert(to@ == cm.id);
                assert(self@.edges =~= prev.map_values(|e: (String, String)| (e.0@, e.1@)).push((dep@, to@)));
                assert(self@.edges =~= old_edges + edges_of(cm).take(i + 1));
            }
        }
        assert(edges_of(cm).take(c.cools_from@.len() as int) =~= edges_of(cm));
        let mut found: Option<usize> = None;
        let mut j: usize = self.nodes.len();
        while j > 0 && found.is_none()
            invariant
                j <= self.nodes@.len(),
                cm == c@,
                self@.nodes == old_nodes,
                found is None ==> forall|k: int| j <= k < self.nodes@.len() ==> #[trigger] self@.nodes[k].id != cm.id,
                found matches Some(i) ==> i < self.nodes@.len() && self@.nodes[i as int].id == cm.id
                    && forall|k: int| i < k < self.nodes@.len() ==> #[trigger] self@.nodes[k].id != cm.id,
            decreases j,
        {
            if self.nodes[j - 1].id == c.id {
                found = Some(j - 1);
            }
            j = j - 1;
        }
        proof {
            lemma_find_id(old_nodes, cm.id);
        }
        match found {
            Some(i) => {
                self.nodes.set(i, c);
                assert(self@.nodes =~= insert_component(old_nodes, cm));
            },
            None => {
                self.nodes.push(c);
                assert(self@.nodes =~= insert_component(old_nodes, cm));
            },
        }
    }
}

impl ReactorGraph {
    /// Every component that ultimately depends on `start` for cooling (every
    /// id reachable from `start` along one or more edges), each once.
    pub fn dependents_of(&self, start: &str) -> (res: Vec<String>)
        ensures
            str_views(res@).no_duplicates(),
            forall|x: Seq<char>| #[trigger] str_views(res@).contains(x) <==> reaches(self@.edges, start@, x),
    {
        let ghost es: Seq<(Seq<char>, Seq<char>)> = self@.edges;
        let ghost st: Seq<char> = start@;
        let n: usize = self.edges.len();
        let mut seen: Vec<String> = Vec::new();
        let mut queue: Vec<String> = Vec::new();
        queue.push(start.to_string());
        let ghost mut idx: Seq<int> = Seq::empty();
        let ghost mut done: Set<Seq<char>> = Set::empty();
        assert(str_views(seen@) =~= Seq::<Seq<char>>::empty());
        assert(str_views(queue@) =~= seq![st]);
        assert(str_views(queue@)[0] == st);
        assert(str_views(queue@).contains(st));
        while queue.len() > 0
            invariant
                es == self@.edges,
                st == start@,
                n == es.len(),
                seen@.len() <= n,
                str_views(seen@).no_duplicates(),
                idx.len() == seen@.len(),
                forall|j: int| 0 <= j < idx.len() ==> 0 <= #[trigger] idx[j] < n && es[idx[j]].1 == seen@[j]@,
                forall|j: int| 0 <= j < seen@.len() ==> reaches(es, st, #[trigger] seen@[j]@),
                forall|j: int|
                    0 <= j < queue@.len() ==> #[trigger] queue@[j]@ == st || str_views(seen@).contains(queue@[j]@),
                forall|a: Seq<char>|
                    #![trigger done.contains(a)]
                    #![trigger str_views(queue@).contains(a)]
                    #![trigger str_views(seen@).contains(a)]
                    (a == st || str_views(seen@).contains(a)) ==> done.contains(a) || str_views(queue@).contains(a),
                forall|i: int| 0 <= i < n && #[trigger] done.contains(es[i].0) ==> str_views(seen@).contains(es[i].1),
            decreases n - seen@.len(), queue@.len(),
        {
            let ghost q_before: Seq<String> = queue@;
            let cur: String = queue.pop().unwrap();
            assert(q_before == queue@.push(cur));
            assert(str_views(q_before) =~= str_views(queue@).push(cur@));
            assert(q_before[q_before.len() - 1] == cur);
            let ghost s0: int = seen@.len() as int;
            let ghost q0: int = queue@.len() as int;
            let mut k: usize = 0;
            while k < n
                invariant
                    es == self@.edges,
                    st == start@,
                    n == es.len(),
                    k <= n,
                    seen@.len() <= n,
                    str_views(seen@).no_duplicates(),
                    idx.len() == seen@.len(),
                    forall|j: int| 0 <= j < idx.len() ==> 0 <= #[trigger] idx[j] < n && es[idx[j]].1 == seen@[j]@,
                    forall|j: int| 0 <= j < seen@.len() ==> reaches(es, st, #[trigger] seen@[j]@),
                    cur@ == st || reaches(es, st, cur@),
                    forall|j: int|
                        0 <= j < queue@.len() ==> #[trigger] queue@[j]@ == st || str_views(seen@).contains(queue@[j]@),
                    forall|a: Seq<char>|
                        #![trigger done.contains(a)]
                        #![trigger str_views(queue@).contains(a)]
                        #![trigger str_views(seen@).contains(a)]
                        (a == st || str_views(seen@).contains(a)) ==> done.contains(a) || str_views(queue@).contains(a)
                            || a == cur@,
                    forall|i: int| 0 <= i < n && #[trigger] done.contains(es[i].0) ==> str_views(seen@).contains(es[i].1),
                    forall|i: int| 0 <= i < k && #[trigger] es[i].0 == cur@ ==> str_views(seen@).contains(es[i].1),
                    seen@.len() >= s0,
                    queue@.len() == q0 + (seen@.len() - s0),
                decreases n - k,
            {
                if self.edges[k].0 == cur {
                    let present: bool = contains_string(&seen, &self.edges[k].1);
                    if !present {
                        let ghost sv0: Seq<Seq<char>> = str_views(seen@);
                        let ghost qv0: Seq<Seq<char>> = str_views(queue@);
                        let ghost b: Seq<char> = es[k as int].1;
                        proof {
                            assert(es[k as int] == (cur@, b));
                            lemma_walk_extend(es, st, cur@, b);
                        }
                        seen.push(self.edges[k].1.clone());
                        queue.push(self.edges[k].1.clone());
                        proof {
                            idx = idx.push(k as int);
                            assert(str_views(seen@) =~= sv0.push(b));
                            assert(str_views(queue@) =~= qv0.push(b));
                            assert forall|x: int, y: int| 0 <= x < idx.len() && 0 <= y < idx.len() && x != y implies idx[x] != idx[y] by {
                                assert(str_views(seen@)[x] == seen@[x]@);
                                assert(str_views(seen@)[y] == seen@[y]@);
                            }
                            assert(idx.no_duplicates());
                            lemma_distinct_indices_bounded(idx, n as int);
                            assert(seen@[seen@.len() - 1]@ == b);
                            assert(str_views(seen@)[seen@.len() - 1] == b);
                            assert(str_views(queue@)[queue@.len() - 1] == b);
                            assert forall|x: Seq<char>| sv0.contains(x) implies #[trigger] str_views(seen@).contains(x) by {
                                lemma_seq_contains_after_push(sv0, b, x);
                            }
                            assert forall|x: Seq<char>| qv0.contains(x) implies #[trigger] str_views(queue@).contains(x) by {
                                lemma_seq_contains_after_push(qv0, b, x);
                            }
                            assert forall|x: Seq<char>| str_views(seen@).contains(x) implies #[trigger] sv0.contains(x) || x == b by {
                                lemma_seq_contains_after_push(sv0, b, x);
                            }
                            assert forall|j: int| 0 <= j < queue@.len() implies #[trigger] queue@[j]@ == st || str_views(seen@).contains(queue@[j]@) by {
                                if j < queue@.len() - 1 {
                                    assert(qv0[j] == queue@[j]@);
                                }
                            }
                        }
                    }
                }
                k = k + 1;
            }
            proof {
                done = done.insert(cur@);
            }
        }
        proof {
            let sv: Seq<Seq<char>> = str_views(seen@);
            assert(str_views(queue@) =~= Seq::<Seq<char>>::empty());
            assert forall|i: int|
                0 <= i < es.len() && (#[trigger] es[i].0 == st || sv.contains(es[i].0))
                implies sv.contains(es[i].1) by {
                assert(done.contains(es[i].0));
            }
            assert forall|x: Seq<char>| #[trigger] sv.contains(x) <==> reaches(es, st, x) by {
                if reaches(es, st, x) {
                    let p: Seq<Seq<char>> = choose|p: Seq<Seq<char>>| #[trigger] is_walk(es, p) && p[0] == st && p.last() == x;
                    lemma_closed_contains_walk(es, st, sv, p, p.len() - 1);
                }
                if sv.contains(x) {
                    let j: int = choose|j: int| 0 <= j < sv.len() && sv[j] == x;
                    assert(seen@[j]@ == x);
                }
            }
        }
        seen
    }
}

/// Law: inserting a component keeps component ids unique, as in a map keyed
/// by id; the inserted component is then the one stored under its id.
pub proof fn law_add_keeps_ids_distinct(nodes: Seq<ComponentModel>, c: ComponentModel)
    requires
        ids_distinct(nodes),
    ensures
        ids_distinct(insert_component(nodes, c)),
        find_id(insert_component(nodes, c), c.id) is Some,
        insert_component(nodes, c)[find_id(insert_component(nodes, c), c.id)->0] == c,
{
    lemma_find_id(nodes, c.id);
    let r: Seq<ComponentModel> = insert_component(nodes, c);
    lemma_find_id(r, c.id);
    match find_id(nodes, c.id) {
        Some(i) => {
            assert(r[i].id == c.id);
            assert(find_id(r, c.id) is Some);
            assert forall|x: int, y: int| 0 <= x < r.len() && 0 <= y < r.len() && x != y implies r[x].id != r[y].id by {
                if x == i {
                    assert(r[y] == nodes[y]);
                } else if y == i {
                    assert(r[x] == nodes[x]);
                } else {
                    assert(r[x] == nodes[x] && r[y] == nodes[y]);
                }
            }
            let k: int = find_id(r, c.id)->0;
            if k != i {
                assert(r[i].id == c.id);
                if k > i {
                    assert(r[k] == nodes[k]);
                }
            }
        },
        None => {
            assert forall|x: int, y: int| 0 <= x < r.len() && 0 <= y < r.len() && x != y implies r[x].id != r[y].id by {
                if x < nodes.len() && y < nodes.len() {
                    assert(r[x] == nodes[x] && r[y] == nodes[y]);
                }
            }
            assert(r.last() == c);
            assert(r[nodes.len() as int].id == c.id);
            assert(find_id(r, c.id) is Some);
        },
    }
}

/// Law: failure cascades compose: whatever depends on something that
/// depends on `a` also depends on `a` (reachability is transitive).
pub proof fn law_cascade_transitive(
    edges: Seq<(Seq<char>, Seq<char>)>,
    a: Seq<char>,
    b: Seq<char>,
    c: Seq<char>,
)
    requires
        reaches(edges, a, b),
        reaches(edges, b, c),
    ensures
        reaches(edges, a, c),
{
    let p: Seq<Seq<char>> = choose|p: Seq<Seq<char>>| #[trigger] is_walk(edges, p) && p[0] == a && p.last() == b;
    let q: Seq<Seq<char>> = choose|q: Seq<Seq<char>>| #[trigger] is_walk(edges, q) && q[0] == b && q.last() == c;
    let w: Seq<Seq<char>> = p + q.drop_first();
    assert forall|i: int| 0 <= i < w.len() - 1 implies edge(edges, #[trigger] w[i], w[i + 1]) by {
        if i < p.len() - 1 {
            assert(w[i] == p[i] && w[i + 1] == p[i + 1]);
        } else if i == p.len() - 1 {
            assert(w[i] == b && w[i] == q[0]);
            assert(w[i + 1] == q[1]);
        } else {
            let k: int = i - p.len() + 1;
            assert(w[i] == q[k] && w[i + 1] == q[k + 1]);
        }
    }
    assert(is_walk(edges, w));
    assert(w.last() == q.last());
}

/// One character inside an SQL string literal: a quote is doubled.
pub open spec fn sql_quote_char(c: char) -> Seq<char> {
    if c == '\'' {
        "''"@
    } else {
        seq![c]
    }
}

/// Text made safe to stand between SQL quotes: every `'` doubled.
pub open spec fn sql_quote(s: Seq<char>) -> Seq<char>
    decreases s.len(),
{
    if s.len() == 0 {
        Seq::empty()
    } else {
        sql_quote(s.drop_last()) + sql_quote_char(s.last())
    }
}

/// Reading an SQL string literal's body back: left to right, `''` is one
/// quote and every other character stands for itself.
pub open spec fn sql_unquote(s: Seq<char>) -> Seq<char>
    decreases s.len(),
{
    if s.len() == 0 {
        Seq::empty()
    } else if s.len() >= 2 && s[0] == '\'' && s[1] == '\'' {
        seq!['\''] + sql_unquote(s.skip(2))
    } else {
        seq![s[0]] + sql_unquote(s.skip(1))
    }
}

/// The recursive query that answers the cascade question in the database,
/// with `start` quoted as an SQL string literal.
pub open spec fn dependents_sql_text(start: Seq<char>) -> Seq<char> {
    "WITH RECURSIVE dep(to_id) AS (
                SELECT to_id FROM reactor_cooling_edge WHERE from_id = '"@ + sql_quote(start) + "'
                UNION ALL
                SELECT e.to_id FROM reactor_cooling_edge e
                JOIN dep d ON e.from_id = d.to_id
            ) SELECT to_id FROM dep"@
}

/// Appends `s` with every quote doubled.
fn push_sql_quoted(out: &mut String, s: &str)
    ensures
        final(out)@ == old(out)@ + sql_quote(s@),
{
    let ghost start: Seq<char> = out@;
    let ghost text: Seq<char> = s@;
    for c in it: s.chars()
        invariant
            it.seq() == text,
            out@ == start + sql_quote(text.take(it.index() as int)),
    {
        let ghost i: int = it.index() as int;
        if c == '\'' {
            out.append("''");
        } else {
            push_char(out, c);
        }
        assert(text.take(i + 1).drop_last() =~= text.take(i));
        assert(out@ =~= start + sql_quote(text.take(i + 1)));
    }
    assert(text.take(text.len() as int) =~= text);
}

proof fn lemma_sql_quote_concat(a: Seq<char>, b: Seq<char>)
    ensures
        sql_quote(a + b) == sql_quote(a) + sql_quote(b),
    decreases b.len(),
{
    if b.len() == 0 {
        assert(a + b =~= a);
        assert(sql_quote(a) + sql_quote(b) =~= sql_quote(a));
    } else {
        lemma_sql_quote_concat(a, b.drop_last());
        assert((a + b).drop_last() =~= a + b.drop_last());
        assert(sql_quote(a + b) =~= sql_quote(a) + sql_quote(b));
    }
}

/// Law: quoting loses nothing and cannot end the literal early: reading
/// the quoted text back as the body of an SQL string literal gives exactly
/// the original text, whatever quotes it holds.
pub proof fn law_sql_unquote_inverts_quote(s: Seq<char>)
    ensures
        sql_unquote(sql_quote(s)) == s,
    decreases s.len(),
{
    reveal_strlit("''");
    if s.len() > 0 {
        let head: Seq<char> = seq![s[0]];
        let rest: Seq<char> = s.skip(1);
        let t: Seq<char> = sql_quote(s);
        assert(head + rest =~= s);
        lemma_sql_quote_concat(head, rest);
        assert(head.drop_last() =~= Seq::<char>::empty());
        assert(sql_quote(head.drop_last()) == Seq::<char>::empty());
        assert(head.last() == s[0]);
        assert(sql_quote(head) =~= sql_quote_char(s[0]));
        law_sql_unquote_inverts_quote(rest);
        if s[0] == '\'' {
            assert(t.skip(2) =~= sql_quote(rest));
        } else {
            assert(t[0] == s[0]);
            assert(t.skip(1) =~= sql_quote(rest));
        }
    }
}

impl ReactorGraph {
    /// DDL mirroring the graph into the database: a component table (with
    /// the geospatial position columns) and a cooling-edge table.
    pub fn ddl() -> (res: Vec<&'static str>)
        ensures
            res@.len() == 2,
            res@[0]@ == "CREATE TABLE reactor_component (
                id   text PRIMARY KEY,
                kind text,
                x    double precision,
                y    double precision,
                z    double precision
            )"@,
            res@[1]@ == "CREATE TABLE reactor_cooling_edge (
                from_id text,
                to_id   text
            )"@,
    {
        let mut res: Vec<&'static str> = Vec::new();
        res.push("CREATE TABLE reactor_component (
                id   text PRIMARY KEY,
                kind text,
                x    double precision,
                y    double precision,
                z    double precision
            )");
        res.push("CREATE TABLE reactor_cooling_edge (
                from_id text,
                to_id   text
            )");
        res
    }

    /// The recursive-CTE query that mirrors [`ReactorGraph::dependents_of`]
    /// over the persisted edge table; `start` is quoted, so no id can break
    /// out of its string literal.
    pub fn dependents_sql(start: &str) -> (sql: String)
        ensures
            sql@ == dependents_sql_text(start@),
    {
        let mut sql: String = String::new();
        sql.append("WITH RECURSIVE dep(to_id) AS (
                SELECT to_id FROM reactor_cooling_edge WHERE from_id = '");
        push_sql_quoted(&mut sql, start);
        sql.append("'
                UNION ALL
                SELECT e.to_id FROM reactor_cooling_edge e
                JOIN dep d ON e.from_id = d.to_id
            ) SELECT to_id FROM dep");
        sql
    }

    /// The components, in insertion order.
    pub fn components(&self) -> (cs: &Vec<Component>)
        ensures
            cs@.map_values(|c: Component| c@) == self@.nodes,
    {
        &self.nodes
    }

    /// The cooling edges `(from, to)`, in insertion order.
    pub fn edges(&self) -> (es: &Vec<(String, String)>)
        ensures
            es@.map_values(|e: (String, String)| (e.0@, e.1@)) == self@.edges,
    {
        &self.edges
    }
}

/// The components of the mock reactor, in insertion order.
pub open spec fn mock_reactor_nodes() -> Seq<ComponentModel> {
    seq![
        ComponentModel { id: "cryoplant"@, kind: "cryoplant"@, cools_from: seq![] },
        ComponentModel { id: "pump_a"@, kind: "coolant_pump"@, cools_from: seq!["cryoplant"@] },
        ComponentModel { id: "pump_b"@, kind: "coolant_pump"@, cools_from: seq!["cryoplant"@] },
        ComponentModel { id: "hts_seg_1"@, kind: "hts_magnet"@, cools_from: seq!["pump_a"@] },
        ComponentModel { id: "hts_seg_2"@, kind: "hts_magnet"@, cools_from: seq!["pump_b"@] },
        ComponentModel { id: "hts_seg_3"@, kind: "hts_magnet"@, cools_from: seq!["pump_a"@, "pump_b"@] },
        ComponentModel { id: "divertor"@, kind: "divertor"@, cools_from: seq!["hts_seg_3"@] },
        ComponentModel { id: "vessel"@, kind: "vacuum_vessel"@, cools_from: seq![] },
    ]
}

/// The cooling edges of the mock reactor, in insertion order.
pub open spec fn mock_reactor_edges() -> Seq<(Seq<char>, Seq<char>)> {
    seq![
        ("cryoplant"@, "pump_a"@),
        ("cryoplant"@, "pump_b"@),
        ("pump_a"@, "hts_seg_1"@),
        ("pump_b"@, "hts_seg_2"@),
        ("pump_a"@, "hts_seg_3"@),
        ("pump_b"@, "hts_seg_3"@),
        ("hts_seg_3"@, "divertor"@),
    ]
}

impl ReactorGraph {
    /// A MAST-U/ITER-class mock reactor: a cryoplant feeding two coolant
    /// pumps, which feed three HTS magnet segments; the third segment cools
    /// the divertor; the vacuum vessel stands alone.
    #[verifier::rlimit(50)]
    pub fn mock_reactor() -> (g: ReactorGraph)
        ensures
            g@.nodes == mock_reactor_nodes(),
            g@.edges == mock_reactor_edges(),
    {
        proof {
            reveal_strlit("cryoplant");
            reveal_strlit("pump_a");
            reveal_strlit("pump_b");
            reveal_strlit("hts_seg_1");
            reveal_strlit("hts_seg_2");
            reveal_strlit("hts_seg_3");
            reveal_strlit("divertor");
            reveal_strlit("vessel");
            assert("pump_a"@.len() != "cryoplant"@.len());
            assert("pump_b"@.len() != "cryoplant"@.len());
            assert("pump_b"@[5] != "pump_a"@[5]);
            assert("hts_seg_1"@[0] != "cryoplant"@[0]);
            assert("hts_seg_1"@.len() != "pump_a"@.len());
            assert("hts_seg_1"@.len() != "pump_b"@.len());
            assert("hts_seg_2"@[0] != "cryoplant"@[0]);
            assert("hts_seg_2"@.len() != "pump_a"@.len());
            assert("hts_seg_2"@.len() != "pump_b"@.len());
            assert("hts_seg_2"@[8] != "hts_seg_1"@[8]);
            assert("hts_seg_3"@[0] != "cryoplant"@[0]);
            assert("hts_seg_3"@.len() != "pump_a"@.len());
            assert("hts_seg_3"@.len() != "pump_b"@.len());
            assert("hts_seg_3"@[8] != "hts_seg_1"@[8]);
            assert("hts_seg_3"@[8] != "hts_seg_2"@[8]);
            assert("divertor"@.len() != "cryoplant"@.len());
            assert("divertor"@.len() != "pump_a"@.len());
            assert("divertor"@.len() != "pump_b"@.len());
            assert("divertor"@.len() != "hts_seg_1"@.len());
            assert("divertor"@.len() != "hts_seg_2"@.len());
            assert("divertor"@.len() != "hts_seg_3"@.len());
            assert("vessel"@.len() != "cryoplant"@.len());
            assert("vessel"@[0] != "pump_a"@[0]);
            assert("vessel"@[0] != "pump_b"@[0]);
            assert("vessel"@.len() != "hts_seg_1"@.len());
            assert("vessel"@.len() != "hts_seg_2"@.len());
            assert("vessel"@.len() != "hts_seg_3"@.len());
            assert("vessel"@.len() != "divertor"@.len());
        }
        let mut g: ReactorGraph = ReactorGraph::new();
        proof {
            lemma_find_id(g@.nodes, "cryoplant"@);
            assert(g@.nodes =~= mock_reactor_nodes().take(0));
        }
        g.add(Component::new("cryoplant", "cryoplant"));
        proof {
            lemma_find_id(g@.nodes, "pump_a"@);
            assert(g@.nodes =~= mock_reactor_nodes().take(1));
        }
        let c: Component = Component::new("pump_a", "coolant_pump").cools_from(&["cryoplant"]);
        assert(c@.cools_from =~= seq!["cryoplant"@]);
        g.add(c);
        proof {
            lemma_find_id(g@.nodes, "pump_b"@);
            assert(g@.nodes =~= mock_reactor_nodes().take(2));
        }
        let c: Component = Component::new("pump_b", "coolant_pump").cools_from(&["cryoplant"]);
        assert(c@.cools_from =~= seq!["cryoplant"@]);
        g.add(c);
        proof {
            lemma_find_id(g@.nodes, "hts_seg_1"@);
            assert(g@.nodes =~= mock_reactor_nodes().take(3));
        }
        let c: Component = Component::new("hts_seg_1", "hts_magnet").cools_from(&["pump_a"]);
        assert(c@.cools_from =~= seq!["pump_a"@]);
        g.add(c);
        proof {
            lemma_find_id(g@.nodes, "hts_seg_2"@);
            assert(g@.nodes =~= mock_reactor_nodes().take(4));
        }
        let c: Component = Component::new("hts_seg_2", "hts_magnet").cools_from(&["pump_b"]);
        assert(c@.cools_from =~= seq!["pump_b"@]);
        g.add(c);
        proof {
            lemma_find_id(g@.nodes, "hts_seg_3"@);
            assert(g@.nodes =~= mock_reactor_nodes().take(5));
        }
        let c: Component = Component::new("hts_seg_3", "hts_magnet").cools_from(&["pump_a", "pump_b"]);
        assert(c@.cools_from =~= seq!["pump_a"@, "pump_b"@]);
        g.add(c);
        proof {
            lemma_find_id(g@.nodes, "divertor"@);
            assert(g@.nodes =~= mock_reactor_nodes().take(6));
        }
        let c: Component = Component::new("divertor", "divertor").cools_from(&["hts_seg_3"]);
        assert(c@.cools_from =~= seq!["hts_seg_3"@]);
        g.add(c);
        proof {
            lemma_find_id(g@.nodes, "vessel"@);
            assert(g@.nodes =~= mock_reactor_nodes().take(7));
        }
        g.add(Component::new("vessel", "vacuum_vessel"));
        assert(g@.nodes =~= mock_reactor_nodes());
        assert(g@.edges =~= mock_reactor_edges());
        g
    }
}

} // verus!
