//! Which containers use each named volume.
use crate::infrastructure::records::{first_name, first_name_of, ContainerSummaryRecord, MountRecord};
use crate::text::{contains_string, str_eq, str_lt, string_of, text_lt, texts};
use vstd::prelude::*;

verus! {

/// A named volume and the names of the containers that mount it.
#[derive(Debug, Clone)]
pub struct VolumeLinks {
    pub volume: String,
    pub containers: Vec<String>,
}

/// The names of the named mounts, in order.
pub open spec fn named_mounts(ms: Seq<MountRecord>) -> Seq<Seq<char>>
    decreases ms.len(),
{
    if ms.len() == 0 {
        Seq::empty()
    } else {
        named_mounts(ms.drop_last()) + match ms.last().name {
            Some(n) => seq![n@],
            None => Seq::empty(),
        }
    }
}

/// The (volume, container name) pairs of one listing entry.
pub open spec fn record_pairs(r: ContainerSummaryRecord) -> Seq<(Seq<char>, Seq<char>)> {
    match r.mounts {
        Some(ms) => named_mounts(ms@).map_values(|v: Seq<char>| (v, first_name(r.names))),
        None => Seq::empty(),
    }
}

/// The (volume, container name) pairs of a listing, in order.
pub open spec fn mount_pairs(rs: Seq<ContainerSummaryRecord>) -> Seq<(Seq<char>, Seq<char>)>
    decreases rs.len(),
{
    if rs.len() == 0 {
        Seq::empty()
    } else {
        mount_pairs(rs.drop_last()) + record_pairs(rs.last())
    }
}

/// Texts in strictly ascending order, each once.
pub open spec fn ascending(s: Seq<Seq<char>>) -> bool {
    &&& forall|i: int| 0 <= i < s.len() - 1 ==> text_lt(#[trigger] s[i], s[i + 1])
    &&& forall|i: int, j: int|
        0 <= i < s.len() && 0 <= j < s.len() && i != j ==> #[trigger] s[i] != #[trigger] s[j]
}

/// Whether some pair names the volume.
pub open spec fn pairs_volume(pairs: Seq<(Seq<char>, Seq<char>)>, volume: Seq<char>) -> bool {
    exists|p: int| 0 <= p < pairs.len() && #[trigger] pairs[p].0 == volume
}

/// Whether some entry is for the volume.
pub open spec fn linked_volume(links: Seq<VolumeLinks>, volume: Seq<char>) -> bool {
    exists|i: int| 0 <= i < links.len() && (#[trigger] links[i]).volume@ == volume
}

/// The links of a set of (volume, container name) pairs: one entry per
/// volume, each listing the names paired with it in ascending order.
pub open spec fn links_of(links: Seq<VolumeLinks>, pairs: Seq<(Seq<char>, Seq<char>)>) -> bool {
    &&& forall|i: int, j: int|
        0 <= i < links.len() && 0 <= j < links.len() && i != j ==> #[trigger] links[i].volume@
            != #[trigger] links[j].volume@
    &&& forall|i: int| 0 <= i < links.len() ==> pairs_volume(pairs, (#[trigger] links[i]).volume@)
    &&& forall|p: int| 0 <= p < pairs.len() ==> linked_volume(links, (#[trigger] pairs[p]).0)
    &&& forall|i: int| 0 <= i < links.len() ==> ascending(texts((#[trigger] links[i]).containers@))
    &&& forall|i: int, name: Seq<char>|
        0 <= i < links.len() ==> (#[trigger] texts(links[i].containers@).contains(name) <==> pairs.contains(
            (links[i].volume@, name),
        ))
}

/// Adds a name to an ascending list, unless it is there already.
fn insert_name(names: &mut Vec<String>, name: &str)
    requires
        ascending(texts(old(names)@)),
    ensures
        ascending(texts(final(names)@)),
        forall|x: Seq<char>|
            #[trigger] texts(final(names)@).contains(x) <==> (texts(old(names)@).contains(x) || x
                == name@),
{
    if contains_string(names, name) {
        return;
    }
    let mut p: usize = 0;
    while p < names.len() && str_lt(names[p].as_str(), name)
        invariant
            p <= names@.len(),
            forall|t: int| 0 <= t < p ==> text_lt(#[trigger] names@[t]@, name@),
        decreases names@.len() - p,
    {
        p = p + 1;
    }
    let ghost before = texts(names@);
    proof {
        if p < before.len() {
            assert(before[p as int] != name@);
            crate::infrastructure::stack_mapper::lemma_text_lt_total(before[p as int], name@);
        }
    }
    names.insert(p, string_of(name));
    proof {
        let after = texts(names@);
        assert(after =~= before.insert(p as int, name@));
        assert forall|i: int| 0 <= i < after.len() - 1 implies text_lt(#[trigger] after[i], after[i + 1]) by {
            if i < p - 1 {
                assert(after[i] == before[i] && after[i + 1] == before[i + 1]);
            } else if i == p - 1 {
                assert(after[i] == before[i] && after[i + 1] == name@);
            } else if i == p {
                assert(after[i] == name@ && after[i + 1] == before[i]);
            } else {
                assert(after[i] == before[i - 1] && after[i + 1] == before[i]);
            }
        }
        assert forall|i: int, j: int|
            0 <= i < after.len() && 0 <= j < after.len() && i != j implies #[trigger] after[i]
            != #[trigger] after[j] by {
            let bi = if i < p {
                i
            } else {
                i - 1
            };
            let bj = if j < p {
                j
            } else {
                j - 1
            };
            if i != p && j != p {
                assert(after[i] == before[bi] && after[j] == before[bj]);
            } else if i == p {
                assert(after[j] == before[bj]);
                assert(before.contains(before[bj]));
            } else {
                assert(after[i] == before[bi]);
                assert(before.contains(before[bi]));
            }
        }
        assert forall|x: Seq<char>| #[trigger] after.contains(x) <==> (before.contains(x) || x
            == name@) by {
            if after.contains(x) {
                let i = choose|i: int| 0 <= i < after.len() && after[i] == x;
                if i < p {
                    assert(after[i] == before[i]);
                } else if i > p {
                    assert(after[i] == before[i - 1]);
                }
            }
            if before.contains(x) {
                let i = choose|i: int| 0 <= i < before.len() && before[i] == x;
                if i < p {
                    assert(after[i] == before[i]);
                } else {
                    assert(after[i + 1] == before[i]);
                }
            }
            if x == name@ {
                assert(after[p as int] == name@);
            }
        }
    }
}

/// The (volume, container name) pairs of a listing.
fn collect_pairs(records: &Vec<ContainerSummaryRecord>) -> (r: Vec<(String, String)>)
    ensures
        r@.map_values(|p: (String, String)| (p.0@, p.1@)) == mount_pairs(records@),
{
    let mut out: Vec<(String, String)> = Vec::new();
    let mut j: usize = 0;
    while j < records.len()
        invariant
            j <= records@.len(),
            out@.map_values(|p: (String, String)| (p.0@, p.1@)) == mount_pairs(
                records@.subrange(0, j as int),
            ),
        decreases records@.len() - j,
    {
        let record = &records[j];
        let name = first_name_of(&record.names);
        let ghost start = out@.map_values(|p: (String, String)| (p.0@, p.1@));
        proof {
            assert(records@.subrange(0, j + 1).drop_last() =~= records@.subrange(0, j as int));
        }
        match &record.mounts {
            Some(ms) => {
                let mut k: usize = 0;
                while k < ms.len()
                    invariant
                        k <= ms@.len(),
                        name@ == first_name(record.names),
                        out@.map_values(|p: (String, String)| (p.0@, p.1@)) == start
                            + named_mounts(ms@.subrange(0, k as int)).map_values(
                            |v: Seq<char>| (v, name@),
                        ),
                    decreases ms@.len() - k,
                {
                    let ghost before = out@;
                    proof {
                        assert(ms@.subrange(0, k + 1).drop_last() =~= ms@.subrange(0, k as int));
                    }
                    match &ms[k].name {
                        Some(v) => {
                            out.push((string_of(v.as_str()), string_of(name.as_str())));
                            proof {
                                let f = |v: Seq<char>| (v, name@);
                                let nm = named_mounts(ms@.subrange(0, k as int));
                                assert(named_mounts(ms@.subrange(0, k + 1)) =~= nm.push(v@));
                                assert(nm.push(v@).map_values(f) =~= nm.map_values(f).push(
                                    (v@, name@),
                                ));
                                assert(out@.map_values(|p: (String, String)| (p.0@, p.1@))
                                    =~= before.map_values(|p: (String, String)| (p.0@, p.1@)).push(
                                    (v@, name@),
                                ));
                            }
                        },
                        None => {
                            proof {
                                assert(named_mounts(ms@.subrange(0, k + 1)) =~= named_mounts(
                                    ms@.subrange(0, k as int),
                                ));
                            }
                        },
                    }
                    k = k + 1;
                }
                proof {
                    assert(ms@.subrange(0, k as int) =~= ms@);
                }
            },
            None => {
                proof {
                    assert(start + Seq::<(Seq<char>, Seq<char>)>::empty() =~= start);
                }
            },
        }
        j = j + 1;
    }
    assert(records@.subrange(0, j as int) =~= records@);
    out
}

/// Adds one (volume, container name) pair to the links.
fn add_pair(
    links: &mut Vec<VolumeLinks>,
    volume: &str,
    name: &str,
    Ghost(pairs): Ghost<Seq<(Seq<char>, Seq<char>)>>,
)
    requires
        links_of(old(links)@, pairs),
    ensures
        links_of(final(links)@, pairs.push((volume@, name@))),
{
    let ghost old_links = links@;
    let ghost np = pairs.push((volume@, name@));
    let mut found: Option<usize> = None;
    let mut i: usize = 0;
    while i < links.len()
        invariant_except_break
            found is None,
        invariant
            i <= links@.len(),
            links@ == old_links,
            forall|t: int| 0 <= t < i ==> (#[trigger] links@[t]).volume@ != volume@,
        ensures
            links@ == old_links,
            found matches Some(k) ==> k < links@.len() && links@[k as int].volume@ == volume@,
            found is None ==> forall|t: int|
                0 <= t < links@.len() ==> (#[trigger] links@[t]).volume@ != volume@,
        decreases links@.len() - i,
    {
        if str_eq(links[i].volume.as_str(), volume) {
            found = Some(i);
            break;
        }
        i = i + 1;
    }
    assert forall|p: int| 0 <= p < pairs.len() implies #[trigger] np[p] == pairs[p] by {}
    match found {
        Some(k) => {
            let mut entry = links.remove(k);
            insert_name(&mut entry.containers, name);
            links.insert(k, entry);
            proof {
                let nl = links@;
                assert(nl =~= old_links.update(k as int, entry));
                assert forall|i: int, j: int|
                    0 <= i < nl.len() && 0 <= j < nl.len() && i != j implies #[trigger] nl[i].volume@
                    != #[trigger] nl[j].volume@ by {
                    assert(old_links[i].volume@ != old_links[j].volume@);
                }
                assert forall|i: int| 0 <= i < nl.len() implies pairs_volume(
                    np,
                    (#[trigger] nl[i]).volume@,
                ) by {
                    assert(pairs_volume(pairs, old_links[i].volume@));
                    let p = choose|p: int| 0 <= p < pairs.len() && #[trigger] pairs[p].0
                        == old_links[i].volume@;
                    assert(np[p] == pairs[p]);
                }
                assert forall|p: int| 0 <= p < np.len() implies linked_volume(
                    nl,
                    (#[trigger] np[p]).0,
                ) by {
                    if p < pairs.len() {
                        assert(np[p] == pairs[p]);
                        assert(linked_volume(old_links, pairs[p].0));
                        let i = choose|i: int| 0 <= i < old_links.len() && (#[trigger] old_links[i]).volume@
                            == pairs[p].0;
                        assert(nl[i].volume@ == old_links[i].volume@);
                    } else {
                        assert(nl[k as int].volume@ == volume@);
                    }
                }
                assert forall|i: int| 0 <= i < nl.len() implies ascending(
                    texts((#[trigger] nl[i]).containers@),
                ) by {
                    if i != k {
                        assert(nl[i] == old_links[i]);
                    }
                }
                assert forall|i: int, x: Seq<char>| 0 <= i < nl.len() implies (
                #[trigger] texts(nl[i].containers@).contains(x) <==> np.contains(
                    (nl[i].volume@, x),
                )) by {
                    assert(pairs.contains((old_links[i].volume@, x)) <==> texts(
                        old_links[i].containers@,
                    ).contains(x));
                    if np.contains((nl[i].volume@, x)) {
                        let p = choose|p: int| 0 <= p < np.len() && np[p] == (nl[i].volume@, x);
                        if p < pairs.len() {
                            assert(pairs[p] == np[p]);
                        }
                    }
                    if pairs.contains((old_links[i].volume@, x)) {
                        let p = choose|p: int| 0 <= p < pairs.len() && pairs[p] == (
                            old_links[i].volume@,
                            x,
                        );
                        assert(np[p] == pairs[p]);
                    }
                    if i == k && x == name@ {
                        assert(np[pairs.len() as int] == (volume@, name@));
                    }
                }
            }
        },
        None => {
            let mut names: Vec<String> = Vec::new();
            names.push(string_of(name));
            let entry = VolumeLinks { volume: string_of(volume), containers: names };
            links.push(entry);
            proof {
                let nl = links@;
                let n = old_links.len() as int;
                assert(nl =~= old_links.push(entry));
                assert(texts(entry.containers@) =~= seq![name@]);
                assert forall|p: int| 0 <= p < pairs.len() implies #[trigger] pairs[p].0 != volume@ by {
                    assert(linked_volume(old_links, pairs[p].0));
                    let i = choose|i: int| 0 <= i < old_links.len() && (#[trigger] old_links[i]).volume@
                        == pairs[p].0;
                    assert(old_links[i].volume@ != volume@);
                }
                assert forall|i: int, j: int|
                    0 <= i < nl.len() && 0 <= j < nl.len() && i != j implies #[trigger] nl[i].volume@
                    != #[trigger] nl[j].volume@ by {
                    if i < n && j < n {
                        assert(old_links[i].volume@ != old_links[j].volume@);
                    } else if i < n {
                        assert(old_links[i].volume@ != volume@);
                    } else {
                        assert(old_links[j].volume@ != volume@);
                    }
                }
                assert forall|i: int| 0 <= i < nl.len() implies pairs_volume(
                    np,
                    (#[trigger] nl[i]).volume@,
                ) by {
                    if i < n {
                        assert(pairs_volume(pairs, old_links[i].volume@));
                        let p = choose|p: int| 0 <= p < pairs.len() && #[trigger] pairs[p].0
                            == old_links[i].volume@;
                        assert(np[p] == pairs[p]);
                    } else {
                        assert(np[pairs.len() as int].0 == volume@);
                    }
                }
                assert forall|p: int| 0 <= p < np.len() implies linked_volume(
                    nl,
                    (#[trigger] np[p]).0,
                ) by {
                    if p < pairs.len() {
                        assert(np[p] == pairs[p]);
                        assert(linked_volume(old_links, pairs[p].0));
                        let i = choose|i: int| 0 <= i < old_links.len() && (#[trigger] old_links[i]).volume@
                            == pairs[p].0;
                        assert(nl[i] == old_links[i]);
                    } else {
                        assert(nl[n].volume@ == volume@);
                    }
                }
                assert forall|i: int| 0 <= i < nl.len() implies ascending(
                    texts((#[trigger] nl[i]).containers@),
                ) by {
                    if i < n {
                        assert(nl[i] == old_links[i]);
                    }
                }
                assert forall|i: int, x: Seq<char>| 0 <= i < nl.len() implies (
                #[trigger] texts(nl[i].containers@).contains(x) <==> np.contains(
                    (nl[i].volume@, x),
                )) by {
                    if i < n {
                        assert(nl[i] == old_links[i]);
                        assert(pairs.contains((old_links[i].volume@, x)) <==> texts(
                            old_links[i].containers@,
                        ).contains(x));
                        if np.contains((nl[i].volume@, x)) {
                            let p = choose|p: int| 0 <= p < np.len() && np[p] == (nl[i].volume@, x);
                            if p < pairs.len() {
                                assert(pairs[p] == np[p]);
                            } else {
                                assert(old_links[i].volume@ != volume@);
                            }
                        }
                        if pairs.contains((old_links[i].volume@, x)) {
                            let p = choose|p: int| 0 <= p < pairs.len() && pairs[p] == (
                                old_links[i].volume@,
                                x,
                            );
                            assert(np[p] == pairs[p]);
                        }
                    } else {
                        assert(nl[i] == entry);
                        if np.contains((volume@, x)) {
                            let p = choose|p: int| 0 <= p < np.len() && np[p] == (volume@, x);
                            if p < pairs.len() {
                                assert(pairs[p] == np[p]);
                            }
                        }
                        if x == name@ {
                            assert(np[pairs.len() as int] == (volume@, name@));
                            assert(texts(entry.containers@)[0] == name@);
                        }
                    }
                }
            }
        },
    }
}

/// Which containers use each named volume: one entry per volume that some
/// container mounts by name, with the first names of those containers
/// (`unknown` for a container without names) in ascending order, each once.
pub fn volume_links_by_name(containers: &Vec<ContainerSummaryRecord>) -> (r: Vec<VolumeLinks>)
    ensures
        links_of(r@, mount_pairs(containers@)),
{
    let pairs = collect_pairs(containers);
    let ghost views = pairs@.map_values(|p: (String, String)| (p.0@, p.1@));
    let mut links: Vec<VolumeLinks> = Vec::new();
    let mut t: usize = 0;
    while t < pairs.len()
        invariant
            t <= pairs@.len(),
            views == pairs@.map_values(|p: (String, String)| (p.0@, p.1@)),
            links_of(links@, views.subrange(0, t as int)),
        decreases pairs@.len() - t,
    {
        proof {
            assert(views.subrange(0, t + 1) =~= views.subrange(0, t as int).push(
                (pairs@[t as int].0@, pairs@[t as int].1@),
            ));
        }
        add_pair(
            &mut links,
            pairs[t].0.as_str(),
            pairs[t].1.as_str(),
            Ghost(views.subrange(0, t as int)),
        );
        t = t + 1;
    }
    assert(views.subrange(0, t as int) =~= views);
    links
}

/// The container names linked to a volume, if any container mounts it.
pub fn links_for<'a>(links: &'a Vec<VolumeLinks>, volume: &str) -> (r: Option<&'a Vec<String>>)
    ensures
        match r {
            Some(names) => exists|i: int|
                0 <= i < links@.len() && links@[i].volume@ == volume@ && links@[i].containers
                    == *names,
            None => forall|i: int| 0 <= i < links@.len() ==> links@[i].volume@ != volume@,
        },
{
    let mut i: usize = 0;
    while i < links.len()
        invariant
            i <= links@.len(),
            forall|t: int| 0 <= t < i ==> links@[t].volume@ != volume@,
        decreases links@.len() - i,
    {
        if str_eq(links[i].volume.as_str(), volume) {
            return Some(&links[i].containers);
        }
        i = i + 1;
    }
    None
}

} // verus!
