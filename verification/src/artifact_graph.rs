use vstd::prelude::*;

verus! {

/// The reference lists of a graph given as vectors of node indices.
pub open spec fn graph_view(references: Seq<Vec<usize>>) -> Seq<Seq<usize>> {
    references.map_values(|r: Vec<usize>| r@)
}

/// Every reference names a node of the graph.
pub open spec fn references_in_range(graph: Seq<Seq<usize>>) -> bool {
    forall|i: int, k: int|
        0 <= i < graph.len() && 0 <= k < graph[i].len() ==> #[trigger] graph[i][k] < graph.len()
}

/// `rank` places every referenced node strictly before the node that refers to it.
pub open spec fn is_topological_rank(graph: Seq<Seq<usize>>, rank: Seq<nat>) -> bool {
    &&& rank.len() == graph.len()
    &&& forall|i: int, k: int|
        0 <= i < graph.len() && 0 <= k < graph[i].len() ==> rank[#[trigger] graph[i][k] as int]
            < rank[i]
}

/// The reference graph has no cycle: some ranking orders every reference
/// before its referrer.
pub open spec fn is_acyclic(graph: Seq<Seq<usize>>) -> bool {
    exists|rank: Seq<nat>| is_topological_rank(graph, rank)
}

/// How often `x` occurs in `s`.
pub open spec fn occurrences(s: Seq<usize>, x: usize) -> nat
    decreases s.len(),
{
    if s.len() == 0 {
        0
    } else {
        occurrences(s.drop_last(), x) + if s.last() == x {
            1nat
        } else {
            0nat
        }
    }
}

/// How many entries of `s` are not in `done`.
pub open spec fn pending(s: Seq<usize>, done: Seq<usize>) -> nat
    decreases s.len(),
{
    if s.len() == 0 {
        0
    } else {
        pending(s.drop_last(), done) + if done.contains(s.last()) {
            0nat
        } else {
            1nat
        }
    }
}

proof fn lemma_pending_none_done(s: Seq<usize>)
    ensures
        pending(s, Seq::empty()) == s.len(),
    decreases s.len(),
{
    if s.len() > 0 {
        lemma_pending_none_done(s.drop_last());
    }
}

proof fn lemma_pending_step(s: Seq<usize>, done: Seq<usize>, y: usize)
    requires
        !done.contains(y),
    ensures
        pending(s, done) >= occurrences(s, y),
        pending(s, done.push(y)) == pending(s, done) - occurrences(s, y),
    decreases s.len(),
{
    if s.len() > 0 {
        lemma_pending_step(s.drop_last(), done, y);
        assert(done.push(y).contains(s.last()) == (done.contains(s.last()) || s.last() == y)) by {
            if done.push(y).contains(s.last()) {
                let j = choose|j: int| 0 <= j < done.push(y).len() && done.push(y)[j] == s.last();
                if j < done.len() {
                    assert(done[j] == s.last());
                }
            }
            if done.contains(s.last()) {
                let j = choose|j: int| 0 <= j < done.len() && done[j] == s.last();
                assert(done.push(y)[j] == s.last());
            }
            if s.last() == y {
                assert(done.push(y)[done.len() as int] == y);
            }
        }
    }
}

proof fn lemma_pending_zero(s: Seq<usize>, done: Seq<usize>)
    requires
        pending(s, done) == 0,
    ensures
        forall|k: int| 0 <= k < s.len() ==> done.contains(#[trigger] s[k]),
    decreases s.len(),
{
    if s.len() > 0 {
        lemma_pending_zero(s.drop_last(), done);
        assert forall|k: int| 0 <= k < s.len() implies done.contains(#[trigger] s[k]) by {
            if k < s.len() - 1 {
                assert(s.drop_last()[k] == s[k]);
            }
        }
    }
}

proof fn lemma_pending_positive(s: Seq<usize>, done: Seq<usize>) -> (k: int)
    requires
        pending(s, done) > 0,
    ensures
        0 <= k < s.len(),
        !done.contains(s[k]),
    decreases s.len(),
{
    if done.contains(s.last()) {
        let k = lemma_pending_positive(s.drop_last(), done);
        assert(s.drop_last()[k] == s[k]);
        k
    } else {
        (s.len() - 1) as int
    }
}

proof fn lemma_occurrences_push(s: Seq<usize>, v: usize, x: usize)
    ensures
        occurrences(s.push(v), x) == occurrences(s, x) + if v == x {
            1nat
        } else {
            0nat
        },
{
    assert(s.push(v).drop_last() =~= s);
}

proof fn lemma_occurrences_take(s: Seq<usize>, t: int, x: usize)
    requires
        0 <= t < s.len(),
    ensures
        occurrences(s.take(t + 1), x) == occurrences(s.take(t), x) + if s[t] == x {
            1nat
        } else {
            0nat
        },
        occurrences(s.take(t), x) <= occurrences(s, x),
        s[t] == x ==> occurrences(s.take(t), x) < occurrences(s, x),
    decreases s.len() - t,
{
    assert(s.take(t + 1).drop_last() =~= s.take(t));
    if t + 1 < s.len() {
        lemma_occurrences_take(s, t + 1, x);
    } else {
        assert(s.take(t + 1) =~= s);
    }
}

/// A sequence of distinct values below `n` has at most `n` entries.
proof fn lemma_distinct_bound(s: Seq<usize>, n: int)
    requires
        0 <= n <= usize::MAX + 1,
        s.no_duplicates(),
        forall|i: int| 0 <= i < s.len() ==> s[i] < n,
    ensures
        s.len() <= n,
    decreases n,
{
    if s.len() > 0 {
        assert(s[0] < n);
        if s.contains((n - 1) as usize) {
            let p = choose|p: int| 0 <= p < s.len() && s[p] == (n - 1) as usize;
            let rest = s.remove(p);
            assert forall|i: int| 0 <= i < rest.len() implies rest[i] < n - 1 by {
                if i < p {
                    assert(rest[i] == s[i]);
                } else {
                    assert(rest[i] == s[i + 1]);
                }
            }
            assert(rest.no_duplicates()) by {
                assert forall|i: int, j: int| 0 <= i < rest.len() && 0 <= j < rest.len() && i != j implies rest[i]
                    != rest[j] by {
                    let si = if i < p { i } else { i + 1 };
                    let sj = if j < p { j } else { j + 1 };
                    assert(rest[i] == s[si]);
                    assert(rest[j] == s[sj]);
                }
            }
            lemma_distinct_bound(rest, n - 1);
        } else {
            assert forall|i: int| 0 <= i < s.len() implies s[i] < n - 1 by {
                if s[i] == (n - 1) as usize {
                    assert(s.contains((n - 1) as usize));
                }
            }
            lemma_distinct_bound(s, n - 1);
        }
    }
}

/// A sequence that holds every value below `n` has at least `n` entries.
proof fn lemma_cover_bound(s: Seq<usize>, n: int)
    requires
        0 <= n <= usize::MAX + 1,
        forall|v: usize| v < n ==> s.contains(v),
    ensures
        s.len() >= n,
    decreases n,
{
    if n > 0 {
        assert(s.contains((n - 1) as usize));
        let p = choose|p: int| 0 <= p < s.len() && s[p] == (n - 1) as usize;
        let rest = s.remove(p);
        assert forall|v: usize| v < n - 1 implies rest.contains(v) by {
            assert(s.contains(v));
            let q = choose|q: int| 0 <= q < s.len() && s[q] == v;
            if q < p {
                assert(rest[q] == v);
            } else {
                assert(q != p);
                assert(rest[q - 1] == v);
            }
        }
        lemma_cover_bound(rest, n - 1);
    }
}

/// A ranking cannot order references first when a node outside `done` exists
/// and every node outside `done` refers to another node outside it.
proof fn lemma_no_rank_with_unfinished_node(
    graph: Seq<Seq<usize>>,
    rank: Seq<nat>,
    done: Seq<usize>,
    v: usize,
)
    requires
        rank.len() == graph.len(),
        references_in_range(graph),
        v < graph.len(),
        !done.contains(v),
        forall|x: usize|
            x < graph.len() && !done.contains(x) ==> #[trigger] pending(graph[x as int], done) > 0,
    ensures
        !is_topological_rank(graph, rank),
    decreases rank[v as int],
{
    if is_topological_rank(graph, rank) {
        let k = lemma_pending_positive(graph[v as int], done);
        let r = graph[v as int][k];
        assert(rank[r as int] < rank[v as int]);
        lemma_no_rank_with_unfinished_node(graph, rank, done, r);
    }
}

/// Decides whether the reference graph is acyclic, by repeatedly resolving the
/// nodes whose references are all resolved (Kahn's algorithm).
pub fn references_acyclic(references: &Vec<Vec<usize>>) -> (acyclic: bool)
    requires
        references_in_range(graph_view(references@)),
    ensures
        acyclic == is_acyclic(graph_view(references@)),
{
    let ghost graph = graph_view(references@);
    let n = references.len();
    let mut dependents: Vec<Vec<usize>> = Vec::new();
    let mut remaining: Vec<usize> = Vec::new();
    let mut i: usize = 0;
    while i < n
        invariant
            n == references@.len(),
            graph == graph_view(references@),
            0 <= i <= n,
            dependents@.len() == i,
            remaining@.len() == i,
            forall|x: int| 0 <= x < i ==> (#[trigger] dependents@[x])@.len() == 0,
            forall|x: int| 0 <= x < i ==> #[trigger] remaining@[x] == graph[x].len(),
        decreases n - i,
    {
        dependents.push(Vec::new());
        remaining.push(references[i].len());
        i = i + 1;
    }
    let mut i: usize = 0;
    while i < n
        invariant
            n == references@.len(),
            graph == graph_view(references@),
            references_in_range(graph),
            0 <= i <= n,
            dependents@.len() == n,
            forall|y: int, t: int|
                0 <= y < n && 0 <= t < dependents@[y]@.len() ==> #[trigger] dependents@[y]@[t] < i,
            forall|y: usize, x: usize|
                y < n && x < n ==> #[trigger] occurrences(dependents@[y as int]@, x) == if x < i {
                    occurrences(graph[x as int], y)
                } else {
                    0
                },
        decreases n - i,
    {
        let row = &references[i];
        assert(row@ == graph[i as int]);
        let mut k: usize = 0;
        while k < row.len()
            invariant
                n == references@.len(),
                graph == graph_view(references@),
                references_in_range(graph),
                0 <= i < n,
                row@ == graph[i as int],
                0 <= k <= row@.len(),
                dependents@.len() == n,
                forall|y: int, t: int|
                    0 <= y < n && 0 <= t < dependents@[y]@.len() ==> #[trigger] dependents@[y]@[t]
                        <= i,
                forall|y: usize, x: usize|
                    y < n && x < n ==> #[trigger] occurrences(dependents@[y as int]@, x) == if x
                        < i {
                        occurrences(graph[x as int], y)
                    } else if x == i {
                        occurrences(graph[i as int].take(k as int), y)
                    } else {
                        0
                    },
            decreases row@.len() - k,
        {
            let r = row[k];
            assert(r < n);
            let ghost before = dependents@;
            dependents[r].push(i);
            proof {
                assert forall|y: usize, x: usize| y < n && x < n implies #[trigger] occurrences(
                    dependents@[y as int]@,
                    x,
                ) == if x < i {
                    occurrences(graph[x as int], y)
                } else if x == i {
                    occurrences(graph[i as int].take(k + 1), y)
                } else {
                    0
                } by {
                    lemma_occurrences_take(graph[i as int], k as int, y);
                    if y == r {
                        lemma_occurrences_push(before[y as int]@, i, x);
                    } else {
                        assert(dependents@[y as int] == before[y as int]);
                    }
                }
            }
            k = k + 1;
        }
        proof {
            assert(graph[i as int].take(row@.len() as int) =~= graph[i as int]);
        }
        i = i + 1;
    }
    let mut queue: Vec<usize> = Vec::new();
    let mut x: usize = 0;
    while x < n
        invariant
            n == references@.len(),
            remaining@.len() == n,
            0 <= x <= n,
            queue@.no_duplicates(),
            forall|p: int| 0 <= p < queue@.len() ==> #[trigger] queue@[p] < x,
            forall|v: usize| v < x ==> (remaining@[v as int] == 0 <==> #[trigger] queue@.contains(v)),
        decreases n - x,
    {
        if remaining[x] == 0 {
            proof {
                assert(!queue@.contains(x)) by {
                    if queue@.contains(x) {
                        let p = choose|p: int| 0 <= p < queue@.len() && queue@[p] == x;
                        assert(queue@[p] < x);
                    }
                }
            }
            let ghost before = queue@;
            queue.push(x);
            proof {
                assert forall|v: usize| v < x + 1 implies (remaining@[v as int] == 0
                    <==> #[trigger] queue@.contains(v)) by {
                    if before.contains(v) {
                        let p = choose|p: int| 0 <= p < before.len() && before[p] == v;
                        assert(queue@[p] == v);
                    }
                    if v == x {
                        assert(queue@[before.len() as int] == x);
                    } else if queue@.contains(v) {
                        let p = choose|p: int| 0 <= p < queue@.len() && queue@[p] == v;
                        assert(p < before.len());
                        assert(before[p] == v);
                    }
                }
            }
        } else {
            proof {
                assert forall|v: usize| v < x + 1 implies (remaining@[v as int] == 0
                    <==> #[trigger] queue@.contains(v)) by {
                    if v == x && queue@.contains(v) {
                        let p = choose|p: int| 0 <= p < queue@.len() && queue@[p] == v;
                        assert(queue@[p] < x);
                    }
                }
            }
        }
        x = x + 1;
    }
    proof {
        lemma_pending_none_done_all(graph, remaining@);
        assert(queue@.take(0) =~= Seq::<usize>::empty().take(0));
        lemma_distinct_bound(queue@, n as int);
    }
    let mut head: usize = 0;
    while head < queue.len()
        invariant
            n == references@.len(),
            graph == graph_view(references@),
            references_in_range(graph),
            remaining@.len() == n,
            dependents@.len() == n,
            forall|y: int, t: int|
                0 <= y < n && 0 <= t < dependents@[y]@.len() ==> #[trigger] dependents@[y]@[t] < n,
            forall|y: usize, x: usize|
                y < n && x < n ==> #[trigger] occurrences(dependents@[y as int]@, x) == occurrences(
                    graph[x as int],
                    y,
                ),
            0 <= head <= queue@.len(),
            queue@.len() <= n,
            queue@.no_duplicates(),
            forall|p: int| 0 <= p < queue@.len() ==> #[trigger] queue@[p] < n,
            forall|v: usize| v < n ==> #[trigger] remaining@[v as int] == pending(graph[v as int], queue@.take(head as int)),
            forall|v: usize| v < n ==> (remaining@[v as int] == 0 <==> #[trigger] queue@.contains(v)),
            forall|p: int, k: int|
                0 <= p < head && 0 <= k < graph[queue@[p] as int].len() ==> queue@.take(p).contains(
                    #[trigger] graph[queue@[p] as int][k],
                ),
        decreases n - head,
    {
        let y = queue[head];
        let ghost done = queue@.take(head as int);
        proof {
            assert(queue@.contains(y));
            lemma_pending_zero(graph[y as int], done);
            assert(!done.contains(y)) by {
                if done.contains(y) {
                    let p = choose|p: int| 0 <= p < done.len() && done[p] == y;
                    assert(queue@[p] == queue@[head as int]);
                }
            }
            assert(queue@.take(head + 1) =~= done.push(y));
        }
        head = head + 1;
        let children = &dependents[y];
        let ghost queue_before = queue@;
        let mut t: usize = 0;
        while t < children.len()
            invariant
                n == references@.len(),
                graph == graph_view(references@),
                remaining@.len() == n,
                y < n,
                !done.contains(y),
                children@ == dependents@[y as int]@,
                forall|q: int| 0 <= q < children@.len() ==> #[trigger] children@[q] < n,
                forall|x: usize| x < n ==> #[trigger] occurrences(children@, x) == occurrences(
                    graph[x as int],
                    y,
                ),
                0 <= t <= children@.len(),
                head as int == done.len() + 1,
                queue_before.len() >= head,
                queue@.len() >= queue_before.len(),
                queue@.take(queue_before.len() as int) == queue_before,
                queue_before.take(head as int) == done.push(y),
                queue@.no_duplicates(),
                forall|p: int| 0 <= p < queue@.len() ==> #[trigger] queue@[p] < n,
                forall|v: usize|
                    v < n ==> #[trigger] remaining@[v as int] + occurrences(children@.take(t as int), v)
                        == pending(graph[v as int], done),
                forall|v: usize| v < n ==> (remaining@[v as int] == 0 <==> #[trigger] queue@.contains(v)),
            decreases children@.len() - t,
        {
            let c = children[t];
            proof {
                lemma_occurrences_take(children@, t as int, c);
                lemma_pending_step(graph[c as int], done, y);
            }
            let ghost queue_mid = queue@;
            let left = remaining[c] - 1;
            remaining.set(c, left);
            if left == 0 {
                proof {
                    assert(!queue@.contains(c));
                }
                queue.push(c);
                proof {
                    assert forall|v: usize| v < n implies (remaining@[v as int] == 0
                        <==> #[trigger] queue@.contains(v)) by {
                        if queue_mid.contains(v) {
                            let p = choose|p: int| 0 <= p < queue_mid.len() && queue_mid[p] == v;
                            assert(queue@[p] == v);
                        }
                        if v == c {
                            assert(queue@[queue_mid.len() as int] == c);
                        } else if queue@.contains(v) {
                            let p = choose|p: int| 0 <= p < queue@.len() && queue@[p] == v;
                            assert(p < queue_mid.len());
                            assert(queue_mid[p] == v);
                        }
                    }
                    assert(queue@.take(queue_before.len() as int) =~= queue_mid.take(
                        queue_before.len() as int,
                    ));
                }
            }
            proof {
                assert forall|v: usize| v < n implies #[trigger] remaining@[v as int]
                    + occurrences(children@.take(t + 1), v) == pending(graph[v as int], done) by {
                    lemma_occurrences_take(children@, t as int, v);
                }
            }
            t = t + 1;
        }
        proof {
            assert(children@.take(children@.len() as int) =~= children@);
            assert(queue@.take(head as int) =~= done.push(y)) by {
                assert(queue@.take(head as int) =~= queue_before.take(head as int));
            }
            assert forall|v: usize| v < n implies #[trigger] remaining@[v as int] == pending(
                graph[v as int],
                queue@.take(head as int),
            ) by {
                lemma_pending_step(graph[v as int], done, y);
            }
            assert forall|p: int, k: int|
                0 <= p < head && 0 <= k < graph[queue@[p] as int].len() implies queue@.take(
                p,
            ).contains(#[trigger] graph[queue@[p] as int][k]) by {
                assert(queue@[p] == queue_before[p]);
                assert(queue@.take(p) =~= queue_before.take(p));
                if p == head - 1 {
                    assert(queue@[p] == y);
                    assert(queue@.take(p) =~= done);
                }
            }
            lemma_distinct_bound(queue@, n as int);
        }
    }
    let acyclic = head == n;
    proof {
        let done = queue@.take(head as int);
        assert(done =~= queue@);
        if acyclic {
            lemma_queue_ranks(graph, queue@);
        } else {
            assert(!is_acyclic(graph)) by {
                if is_acyclic(graph) {
                    let rank = choose|rank: Seq<nat>| is_topological_rank(graph, rank);
                    let v = choose_missing(queue@, n as int);
                    assert forall|x: usize| x < graph.len() && !queue@.contains(x) implies #[trigger] pending(
                        graph[x as int],
                        queue@,
                    ) > 0 by {
                        assert(remaining@[x as int] != 0);
                    }
                    lemma_no_rank_with_unfinished_node(graph, rank, queue@, v);
                }
            }
        }
    }
    acyclic
}

proof fn lemma_pending_none_done_all(graph: Seq<Seq<usize>>, remaining: Seq<usize>)
    requires
        remaining.len() == graph.len(),
        forall|x: int| 0 <= x < graph.len() ==> #[trigger] remaining[x] == graph[x].len(),
    ensures
        forall|v: usize|
            v < graph.len() ==> #[trigger] remaining[v as int] == pending(graph[v as int], Seq::<usize>::empty().take(0)),
{
    assert(Seq::<usize>::empty().take(0) =~= Seq::<usize>::empty());
    assert forall|v: usize| v < graph.len() implies #[trigger] remaining[v as int] == pending(
        graph[v as int],
        Seq::<usize>::empty().take(0),
    ) by {
        lemma_pending_none_done(graph[v as int]);
    }
}

/// Some value below `n` is missing from a sequence shorter than `n`.
proof fn choose_missing(s: Seq<usize>, n: int) -> (v: usize)
    requires
        s.len() < n <= usize::MAX + 1,
    ensures
        v < n,
        !s.contains(v),
{
    if forall|v: usize| v < n ==> s.contains(v) {
        lemma_cover_bound(s, n);
    }
    choose|v: usize| v < n && !s.contains(v)
}

/// When the resolution order holds every node, the position in that order is
/// a topological ranking.
proof fn lemma_queue_ranks(graph: Seq<Seq<usize>>, order: Seq<usize>)
    requires
        order.len() == graph.len(),
        graph.len() <= usize::MAX,
        order.no_duplicates(),
        forall|p: int| 0 <= p < order.len() ==> #[trigger] order[p] < graph.len(),
        references_in_range(graph),
        forall|p: int, k: int|
            0 <= p < order.len() && 0 <= k < graph[order[p] as int].len() ==> order.take(p).contains(
                #[trigger] graph[order[p] as int][k],
            ),
    ensures
        is_acyclic(graph),
{
    assert forall|v: usize| v < graph.len() implies order.contains(v) by {
        if !order.contains(v) {
            let shifted = order.map_values(|x: usize| if x > v { (x - 1) as usize } else { x });
            assert forall|i: int, j: int|
                0 <= i < shifted.len() && 0 <= j < shifted.len() && i != j implies shifted[i]
                != shifted[j] by {
                assert(order[i] != v);
                assert(order[j] != v);
            }
            assert forall|i: int| 0 <= i < shifted.len() implies shifted[i] < graph.len() - 1 by {
                assert(order[i] != v);
            }
            lemma_distinct_bound(shifted, graph.len() - 1);
        }
    }
    let rank = Seq::new(graph.len(), |x: int| order.index_of(x as usize) as nat);
    assert forall|i: int, k: int|
        0 <= i < graph.len() && 0 <= k < graph[i].len() implies rank[#[trigger] graph[i][k] as int]
        < rank[i] by {
        assert(order.contains(i as usize));
        let p = order.index_of(i as usize);
        assert(order[p] == i as usize);
        let r = graph[i][k];
        assert(order.take(p).contains(graph[order[p] as int][k]));
        let q = choose|q: int| 0 <= q < order.take(p).len() && order.take(p)[q] == r;
        assert(order[q] == r);
        assert(order.contains(r));
        let q2 = order.index_of(r);
        assert(order[q2] == r);
        assert(q2 == q);
    }
    assert(is_topological_rank(graph, rank));
}

} // verus!
