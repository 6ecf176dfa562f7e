use vstd::prelude::*;

use crate::namemap::NameMap;
use crate::names::{contains_name, copy_names, name_set};
use crate::territory::{ExTerrInfo, ExTerrInfoView, Territory, TerritoryView};

verus! {

/// A value that names the territories it connects to.
pub trait Linked: View + Sized {
    spec fn link_names(v: Self::V) -> Set<Seq<char>>;

    fn links(&self) -> (r: &Vec<String>)
        ensures
            name_set(r@) == Self::link_names(self@),
    ;
}

impl Linked for ExTerrInfo {
    open spec fn link_names(v: ExTerrInfoView) -> Set<Seq<char>> {
        v.conns
    }

    fn links(&self) -> (r: &Vec<String>) {
        &self.conns
    }
}

impl Linked for Territory {
    open spec fn link_names(v: TerritoryView) -> Set<Seq<char>> {
        v.connections
    }

    fn links(&self) -> (r: &Vec<String>) {
        &self.connections
    }
}

/// Hops within which a territory counts as an external of another.
pub const EXTERNAL_HOPS: usize = 3;

/// The names one connection away from a name of `r`.
pub open spec fn neighbours<V: Linked>(adj: Map<Seq<char>, V::V>, r: Set<Seq<char>>) -> Set<
    Seq<char>,
> {
    Set::new(
        |c: Seq<char>|
            exists|e: Seq<char>|
                r.contains(e) && adj.contains_key(e) && V::link_names(adj[e]).contains(c),
    )
}

/// The names at most `k` connections away from `start`, `start` included.
pub open spec fn within<V: Linked>(adj: Map<Seq<char>, V::V>, start: Seq<char>, k: nat) -> Set<
    Seq<char>,
>
    decreases k,
{
    if k == 0 {
        set![start]
    } else {
        let r = within::<V>(adj, start, (k - 1) as nat);
        r.union(neighbours::<V>(adj, r))
    }
}

/// The externals of `start`: the other territories within three connections of it.
pub open spec fn externals_of<V: Linked>(adj: Map<Seq<char>, V::V>, start: Seq<char>) -> Set<
    Seq<char>,
> {
    within::<V>(adj, start, EXTERNAL_HOPS as nat).remove(start)
}

/// The names reached from the first `j` names of `cur` by one connection.
spec fn reached_from<V: Linked>(adj: Map<Seq<char>, V::V>, cur: Seq<String>, j: int) -> Set<
    Seq<char>,
> {
    Set::new(
        |c: Seq<char>|
            exists|jj: int|
                0 <= jj < j && adj.contains_key(cur[jj]@) && #[trigger] V::link_names(
                    adj[cur[jj]@],
                ).contains(c),
    )
}

proof fn lemma_name_set_push(v: Seq<String>, s: String)
    ensures
        name_set(v.push(s)) == name_set(v).insert(s@),
{
    let p = v.push(s);
    assert forall|k: Seq<char>| name_set(p).contains(k) <==> name_set(v).insert(s@).contains(k) by {
        if name_set(p).contains(k) {
            let i = choose|i: int| 0 <= i < p.len() && (#[trigger] p[i])@ == k;
            if i < v.len() {
                assert(v[i] == p[i]);
            }
        }
        if name_set(v).contains(k) {
            let i = choose|i: int| 0 <= i < v.len() && (#[trigger] v[i])@ == k;
            assert(p[i] == v[i]);
        }
        if k == s@ {
            assert(p[v.len() as int] == s);
        }
    }
    assert(name_set(p) =~= name_set(v).insert(s@));
}

proof fn lemma_name_set_take_step(v: Seq<String>, l: int)
    requires
        0 <= l < v.len(),
    ensures
        name_set(v.take(l + 1)) == name_set(v.take(l)).insert(v[l]@),
{
    assert(v.take(l + 1) =~= v.take(l).push(v[l]));
    lemma_name_set_push(v.take(l), v[l]);
}

/// `cur` and everything one connection away from a name of it.
fn expand_once<V: Linked>(cur: &Vec<String>, adj: &NameMap<V>) -> (next: Vec<String>)
    requires
        adj.wf(),
    ensures
        name_set(next@) == name_set(cur@).union(neighbours::<V>(adj@, name_set(cur@))),
{
    let mut next = copy_names(cur);
    let mut j: usize = 0;
    assert(reached_from::<V>(adj@, cur@, 0) =~= Set::empty());
    assert(name_set(next@) =~= name_set(cur@).union(reached_from::<V>(adj@, cur@, 0)));
    while j < cur.len()
        invariant
            adj.wf(),
            j <= cur.len(),
            name_set(next@) == name_set(cur@).union(reached_from::<V>(adj@, cur@, j as int)),
        decreases cur.len() - j,
    {
        let ghost base = name_set(cur@).union(reached_from::<V>(adj@, cur@, j as int));
        match adj.get(&cur[j]) {
            Some(x) => {
                let links = x.links();
                let mut l: usize = 0;
                assert(name_set(links@.take(0)) =~= Set::empty());
                assert(name_set(next@) =~= base.union(name_set(links@.take(0))));
                while l < links.len()
                    invariant
                        l <= links.len(),
                        name_set(next@) == base.union(name_set(links@.take(l as int))),
                    decreases links.len() - l,
                {
                    let c = &links[l];
                    proof {
                        lemma_name_set_take_step(links@, l as int);
                    }
                    if !contains_name(&next, c) {
                        proof {
                            lemma_name_set_push(next@, *c);
                        }
                        next.push(c.clone());
                    }
                    assert(name_set(next@) =~= base.union(name_set(links@.take(l + 1))));
                    l = l + 1;
                }
                assert(links@.take(links.len() as int) =~= links@);
                assert(reached_from::<V>(adj@, cur@, j + 1) =~= reached_from::<V>(adj@, cur@, j as int).union(
                    name_set(links@),
                )) by {
                    assert forall|c: Seq<char>| #[trigger]
                        reached_from::<V>(adj@, cur@, j + 1).contains(c) implies reached_from::<V>(
                        adj@,
                        cur@,
                        j as int,
                    ).union(name_set(links@)).contains(c) by {
                        let jj = choose|jj: int|
                            0 <= jj < j + 1 && adj@.contains_key(cur@[jj]@)
                                && #[trigger] V::link_names(adj@[cur@[jj]@]).contains(c);
                        if jj == j {
                            assert(name_set(links@).contains(c));
                        } else {
                            assert(reached_from::<V>(adj@, cur@, j as int).contains(c));
                        }
                    }
                    assert forall|c: Seq<char>| #[trigger]
                        reached_from::<V>(adj@, cur@, j as int).union(name_set(links@)).contains(
                            c,
                        ) implies reached_from::<V>(adj@, cur@, j + 1).contains(c) by {
                        if name_set(links@).contains(c) {
                            assert(V::link_names(adj@[cur@[j as int]@]).contains(c));
                        } else {
                            let jj = choose|jj: int|
                                0 <= jj < j && adj@.contains_key(cur@[jj]@)
                                    && #[trigger] V::link_names(adj@[cur@[jj]@]).contains(c);
                            assert(V::link_names(adj@[cur@[jj]@]).contains(c));
                        }
                    }
                }
                assert(name_set(next@) =~= name_set(cur@).union(
                    reached_from::<V>(adj@, cur@, j + 1),
                ));
            },
            None => {
                assert(reached_from::<V>(adj@, cur@, j + 1) =~= reached_from::<V>(adj@, cur@, j as int)) by {
                    assert forall|c: Seq<char>| #[trigger]
                        reached_from::<V>(adj@, cur@, j + 1).contains(c) implies reached_from::<V>(
                        adj@,
                        cur@,
                        j as int,
                    ).contains(c) by {
                        let jj = choose|jj: int|
                            0 <= jj < j + 1 && adj@.contains_key(cur@[jj]@)
                                && #[trigger] V::link_names(adj@[cur@[jj]@]).contains(c);
                        assert(jj != j);
                    }
                }
            },
        }
        j = j + 1;
    }
    assert(reached_from::<V>(adj@, cur@, cur.len() as int) =~= neighbours::<V>(adj@, name_set(cur@))) by {
        assert forall|c: Seq<char>| #[trigger]
            neighbours::<V>(adj@, name_set(cur@)).contains(c) implies reached_from::<V>(
            adj@,
            cur@,
            cur.len() as int,
        ).contains(c) by {
            let e = choose|e: Seq<char>|
                name_set(cur@).contains(e) && adj@.contains_key(e) && V::link_names(adj@[e]).contains(c);
            let jj = choose|jj: int| 0 <= jj < cur@.len() && (#[trigger] cur@[jj])@ == e;
            assert(V::link_names(adj@[cur@[jj]@]).contains(c));
        }
        assert forall|c: Seq<char>| #[trigger]
            reached_from::<V>(adj@, cur@, cur.len() as int).contains(c) implies neighbours::<V>(
            adj@,
            name_set(cur@),
        ).contains(c) by {
            let jj = choose|jj: int|
                0 <= jj < cur.len() && adj@.contains_key(cur@[jj]@)
                    && #[trigger] V::link_names(adj@[cur@[jj]@]).contains(c);
            assert(name_set(cur@).contains(cur@[jj]@));
        }
    }
    next
}

/// The names of `v` other than `name`.
fn without_name(v: &Vec<String>, name: &String) -> (r: Vec<String>)
    ensures
        name_set(r@) == name_set(v@).remove(name@),
{
    let mut out: Vec<String> = Vec::new();
    let mut i: usize = 0;
    while i < v.len()
        invariant
            i <= v.len(),
            name_set(out@) == name_set(v@.take(i as int)).remove(name@),
        decreases v.len() - i,
    {
        proof {
            lemma_name_set_take_step(v@, i as int);
        }
        if v[i] != *name {
            proof {
                lemma_name_set_push(out@, v@[i as int]);
            }
            out.push(v[i].clone());
        }
        assert(name_set(out@) =~= name_set(v@.take(i + 1)).remove(name@));
        i = i + 1;
    }
    assert(v@.take(v.len() as int) =~= v@);
    out
}

/// The externals of territory `name`: every other territory within three
/// trade-route connections of it, by the connections of the enrichment data.
pub fn find_externals(name: &String, extradata: &NameMap<ExTerrInfo>) -> (r: Vec<String>)
    requires
        extradata.wf(),
    ensures
        name_set(r@) == externals_of::<ExTerrInfo>(extradata@, name@),
{
    externals_in(name, extradata)
}

/// The other territories within three connections of `name`, by the
/// connections that the values of `adj` name.
pub fn externals_in<V: Linked>(name: &String, extradata: &NameMap<V>) -> (r: Vec<String>)
    requires
        extradata.wf(),
    ensures
        name_set(r@) == externals_of::<V>(extradata@, name@),
{
    let mut cur: Vec<String> = Vec::new();
    cur.push(name.clone());
    proof {
        lemma_name_set_push(Seq::empty(), *name);
        assert(name_set(Seq::<String>::empty()) =~= Set::empty());
        assert(name_set(cur@) =~= within::<V>(extradata@, name@, 0));
    }
    let mut k: usize = 0;
    while k < EXTERNAL_HOPS
        invariant
            extradata.wf(),
            k <= EXTERNAL_HOPS,
            name_set(cur@) == within::<V>(extradata@, name@, k as nat),
        decreases EXTERNAL_HOPS - k,
    {
        cur = expand_once(&cur, extradata);
        k = k + 1;
    }
    without_name(&cur, name)
}

} // verus!
