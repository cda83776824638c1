//! Grouping of listed time entries: each entry's group key, and the partition
//! of entries by key with groups in the keys' natural order.

use vstd::prelude::*;
use crate::commands::GroupByField;
use crate::text::{decimal, joined, same_text, u32_text};

verus! {

/// Lexicographic order of texts by character, the order of `String`.
pub open spec fn text_less(a: Seq<char>, b: Seq<char>) -> bool
    decreases a.len(),
{
    if a.len() == 0 {
        b.len() > 0
    } else if b.len() == 0 {
        false
    } else if a[0] != b[0] {
        a[0] < b[0]
    } else {
        text_less(a.drop_first(), b.drop_first())
    }
}

/// Of two different texts, one comes first.
pub proof fn lemma_text_less_total(a: Seq<char>, b: Seq<char>)
    requires
        a != b,
    ensures
        text_less(a, b) || text_less(b, a),
    decreases a.len(),
{
    if a.len() == 0 && b.len() == 0 {
        assert(a =~= b);
    } else if a.len() > 0 && b.len() > 0 && a[0] != b[0] {
        assert(a[0] < b[0] || b[0] < a[0]);
    } else if a.len() > 0 && b.len() > 0 && a[0] == b[0] {
        if a.drop_first() == b.drop_first() {
            assert(a =~= seq![a[0]] + a.drop_first());
            assert(b =~= seq![b[0]] + b.drop_first());
        }
        lemma_text_less_total(a.drop_first(), b.drop_first());
    }
}

/// Whether `a` comes before `b`.
pub fn text_lt(a: &str, b: &str) -> (r: bool)
    ensures
        r == text_less(a@, b@),
{
    let n = a.unicode_len();
    let m = b.unicode_len();
    let mut i: usize = 0;
    assert(a@.subrange(0, n as int) == a@);
    assert(b@.subrange(0, m as int) == b@);
    loop
        invariant
            n == a@.len(),
            m == b@.len(),
            i <= n,
            i <= m,
            text_less(a@, b@) == text_less(
                a@.subrange(i as int, n as int),
                b@.subrange(i as int, m as int),
            ),
        decreases n - i,
    {
        if i == n {
            return i < m;
        }
        if i == m {
            return false;
        }
        let x = a.get_char(i);
        let y = b.get_char(i);
        if x != y {
            return x < y;
        }
        assert(a@.subrange(i as int, n as int).drop_first() == a@.subrange(i + 1, n as int));
        assert(b@.subrange(i as int, m as int).drop_first() == b@.subrange(i + 1, m as int));
        i = i + 1;
    }
}

/// The entries that share a group key, by position in the listing.
#[derive(Debug, Clone)]
pub struct KeyGroup {
    pub key: String,
    pub members: Vec<usize>,
}

pub open spec fn sorted_keys(gs: Seq<KeyGroup>) -> bool {
    forall|g: int| 0 <= g < gs.len() - 1 ==> text_less((#[trigger] gs[g]).key@, gs[g + 1].key@)
}

pub open spec fn distinct_keys(gs: Seq<KeyGroup>) -> bool {
    forall|g: int, h: int|
        0 <= g < gs.len() && 0 <= h < gs.len() && g != h ==> (#[trigger] gs[g]).key@ != (
        #[trigger] gs[h]).key@
}

/// Each group is a non-empty increasing list of positions below `bound`
/// whose keys are the group's key.
pub open spec fn members_match(gs: Seq<KeyGroup>, keys: Seq<String>, bound: int) -> bool {
    forall|g: int|
        0 <= g < gs.len() ==> {
            let ms = (#[trigger] gs[g]).members@;
            &&& ms.len() > 0
            &&& forall|j: int|
                0 <= j < ms.len() ==> (#[trigger] ms[j]) < bound && bound <= keys.len()
                    && keys[ms[j] as int]@ == gs[g].key@
            &&& forall|j: int, j2: int| 0 <= j < j2 < ms.len() ==> ms[j] < ms[j2]
        }
}

/// Position `i` is in some group.
pub open spec fn in_some_group(gs: Seq<KeyGroup>, i: int) -> bool {
    exists|g: int| 0 <= g < gs.len() && (#[trigger] gs[g]).members@.contains(i as usize)
}

/// Every position below `n` is in some group.
pub open spec fn covers(gs: Seq<KeyGroup>, n: int) -> bool {
    forall|i: int| 0 <= i < n ==> #[trigger] in_some_group(gs, i)
}

/// A partition of the positions of `keys` by key, in the keys' order.
pub open spec fn is_grouping(gs: Seq<KeyGroup>, keys: Seq<String>) -> bool {
    &&& sorted_keys(gs)
    &&& distinct_keys(gs)
    &&& members_match(gs, keys, keys.len() as int)
    &&& covers(gs, keys.len() as int)
}

/// Partitions the positions of `keys` by key: one group per distinct key, in
/// the keys' natural order, each listing its positions in order.
pub fn group_positions(keys: &Vec<String>) -> (r: Vec<KeyGroup>)
    ensures
        is_grouping(r@, keys@),
{
    let mut groups: Vec<KeyGroup> = Vec::new();
    let mut i: usize = 0;
    while i < keys.len()
        invariant
            i <= keys@.len(),
            sorted_keys(groups@),
            distinct_keys(groups@),
            members_match(groups@, keys@, i as int),
            covers(groups@, i as int),
        decreases keys@.len() - i,
    {
        let k = keys[i].as_str();
        let ghost old_gs = groups@;
        let mut found: Option<usize> = None;
        let mut h: usize = 0;
        while h < groups.len()
            invariant
                groups@ == old_gs,
                h <= groups@.len(),
                found is None ==> forall|x: int| 0 <= x < h ==> (#[trigger] groups@[x]).key@ != k@,
                found is Some ==> found.unwrap() < groups@.len() && groups@[found.unwrap() as int].key@
                    == k@,
            decreases groups@.len() - h,
        {
            if found.is_none() && same_text(groups[h].key.as_str(), k) {
                found = Some(h);
            }
            h = h + 1;
        }
        match found {
            Some(g) => {
                let mut grp = groups.remove(g);
                let ghost old_ms = grp.members@;
                grp.members.push(i);
                groups.insert(g, grp);
                proof {
                    let gs = groups@;
                    assert(gs =~= old_gs.update(g as int, gs[g as int]));
                    assert(gs[g as int].members@ == old_ms.push(i));
                    assert(gs[g as int].key@ == old_gs[g as int].key@);
                    assert forall|x: int| 0 <= x < gs.len() - 1 implies text_less(
                        (#[trigger] gs[x]).key@,
                        gs[x + 1].key@,
                    ) by {
                        assert(text_less(old_gs[x].key@, old_gs[x + 1].key@));
                    }
                    assert forall|x: int, y: int|
                        0 <= x < gs.len() && 0 <= y < gs.len() && x != y implies (
                        #[trigger] gs[x]).key@ != (#[trigger] gs[y]).key@ by {
                        assert(old_gs[x].key@ != old_gs[y].key@);
                    }
                    assert forall|x: int| 0 <= x < gs.len() implies {
                        let ms = (#[trigger] gs[x]).members@;
                        &&& ms.len() > 0
                        &&& forall|j: int|
                            0 <= j < ms.len() ==> (#[trigger] ms[j]) < i + 1 && i + 1 <= keys@.len()
                                && keys@[ms[j] as int]@ == gs[x].key@
                        &&& forall|j: int, j2: int| 0 <= j < j2 < ms.len() ==> ms[j] < ms[j2]
                    } by {
                        let ms = gs[x].members@;
                        if x == g {
                            assert forall|j: int| 0 <= j < ms.len() implies (#[trigger] ms[j]) < i
                                + 1 && i + 1 <= keys@.len() && keys@[ms[j] as int]@ == gs[x].key@ by {
                                if j < old_ms.len() {
                                    assert(ms[j] == old_ms[j]);
                                }
                            }
                            assert forall|j: int, j2: int| 0 <= j < j2 < ms.len() implies ms[j]
                                < ms[j2] by {
                                assert(old_ms[j] < i);
                                if j2 < old_ms.len() {
                                    assert(old_ms[j] < old_ms[j2]);
                                }
                            }
                        } else {
                            assert(gs[x] == old_gs[x]);
                        }
                    }
                    assert forall|p: int| 0 <= p < i + 1 implies #[trigger] in_some_group(gs, p) by {
                        if p < i {
                            assert(in_some_group(old_gs, p));
                            let x = choose|x: int|
                                0 <= x < old_gs.len() && (#[trigger] old_gs[x]).members@.contains(
                                    p as usize,
                                );
                            if x == g {
                                let j = choose|j: int|
                                    0 <= j < old_ms.len() && old_ms[j] == p as usize;
                                assert(gs[x].members@[j] == p as usize);
                                assert(gs[x].members@.contains(p as usize));
                            } else {
                                assert(gs[x] == old_gs[x]);
                            }
                        } else {
                            assert(gs[g as int].members@[old_ms.len() as int] == i);
                            assert(gs[g as int].members@.contains(i));
                        }
                    }
                }
            },
            None => {
                let mut p: usize = 0;
                while p < groups.len() && !text_lt(k, groups[p].key.as_str())
                    invariant
                        groups@ == old_gs,
                        p <= groups@.len(),
                        forall|x: int| 0 <= x < p ==> !text_less(k@, (#[trigger] groups@[x]).key@),
                    decreases groups@.len() - p,
                {
                    p = p + 1;
                }
                let mut ms: Vec<usize> = Vec::new();
                ms.push(i);
                let key = k.to_owned();
                let ghost ng = KeyGroup { key, members: ms };
                groups.insert(p, KeyGroup { key, members: ms });
                proof {
                    let gs = groups@;
                    assert(gs == old_gs.insert(p as int, ng));
                    assert forall|x: int| 0 <= x < gs.len() - 1 implies text_less(
                        (#[trigger] gs[x]).key@,
                        gs[x + 1].key@,
                    ) by {
                        if x + 1 < p {
                            assert(text_less(old_gs[x].key@, old_gs[x + 1].key@));
                        } else if x + 1 == p {
                            assert(old_gs[x].key@ != k@);
                            lemma_text_less_total(old_gs[x].key@, k@);
                        } else if x == p {
                        } else {
                            assert(text_less(old_gs[x - 1].key@, old_gs[x].key@));
                        }
                    }
                    assert forall|x: int, y: int|
                        0 <= x < gs.len() && 0 <= y < gs.len() && x != y implies (
                        #[trigger] gs[x]).key@ != (#[trigger] gs[y]).key@ by {
                        let x0 = if x < p { x } else { x - 1 };
                        let y0 = if y < p { y } else { y - 1 };
                        if x != p && y != p {
                            assert(old_gs[x0].key@ != old_gs[y0].key@);
                        } else if x == p {
                            assert(old_gs[y0].key@ != k@);
                        } else {
                            assert(old_gs[x0].key@ != k@);
                        }
                    }
                    assert forall|x: int| 0 <= x < gs.len() implies {
                        let ms = (#[trigger] gs[x]).members@;
                        &&& ms.len() > 0
                        &&& forall|j: int|
                            0 <= j < ms.len() ==> (#[trigger] ms[j]) < i + 1 && i + 1 <= keys@.len()
                                && keys@[ms[j] as int]@ == gs[x].key@
                        &&& forall|j: int, j2: int| 0 <= j < j2 < ms.len() ==> ms[j] < ms[j2]
                    } by {
                        if x < p {
                            assert(gs[x] == old_gs[x]);
                        } else if x > p {
                            assert(gs[x] == old_gs[x - 1]);
                        }
                    }
                    assert forall|q: int| 0 <= q < i + 1 implies #[trigger] in_some_group(gs, q) by {
                        if q < i {
                            assert(in_some_group(old_gs, q));
                            let x = choose|x: int|
                                0 <= x < old_gs.len() && (#[trigger] old_gs[x]).members@.contains(
                                    q as usize,
                                );
                            let x1 = if x < p { x } else { x + 1 };
                            assert(gs[x1] == old_gs[x]);
                            assert(gs[x1].members@.contains(q as usize));
                        } else {
                            assert(gs[p as int].members@[0] == i);
                            assert(gs[p as int].members@.contains(i));
                        }
                    }
                }
            },
        }
        i = i + 1;
    }
    groups
}

/// What of a time entry a group key can be taken from; `custom_value` is the
/// shown value of the entry's custom field with the grouping field's ID.
#[derive(Debug, Clone)]
pub struct EntryKeys {
    pub user_name: Option<String>,
    pub project_name: Option<String>,
    pub activity_name: String,
    pub issue_id: Option<u32>,
    pub spent_on: String,
    pub custom_value: Option<String>,
}

/// The key an entry is grouped under: the name or value of the field, with
/// `Unknown`, `No Issue` or `-` where the entry has none.
pub open spec fn group_key_of(field: GroupByField, e: EntryKeys) -> Seq<char> {
    match field {
        GroupByField::User => match e.user_name {
            Some(u) => u@,
            None => "Unknown"@,
        },
        GroupByField::Project => match e.project_name {
            Some(p) => p@,
            None => "Unknown"@,
        },
        GroupByField::Activity => e.activity_name@,
        GroupByField::Issue => match e.issue_id {
            Some(n) => "#"@ + decimal(n as nat),
            None => "No Issue"@,
        },
        GroupByField::SpentOn => e.spent_on@,
        GroupByField::CustomField(_) => match e.custom_value {
            Some(c) => c@,
            None => "-"@,
        },
    }
}

fn text_or(o: &Option<String>, fallback: &str) -> (r: String)
    ensures
        r@ == match o {
            Some(s) => s@,
            None => fallback@,
        },
{
    match o {
        Some(s) => s.as_str().to_owned(),
        None => fallback.to_owned(),
    }
}

/// The key an entry is grouped under for `field`.
pub fn group_key(field: GroupByField, e: &EntryKeys) -> (r: String)
    ensures
        r@ == group_key_of(field, *e),
{
    match field {
        GroupByField::User => text_or(&e.user_name, "Unknown"),
        GroupByField::Project => text_or(&e.project_name, "Unknown"),
        GroupByField::Activity => e.activity_name.as_str().to_owned(),
        GroupByField::Issue => match e.issue_id {
            Some(n) => joined("#", u32_text(n).as_str()),
            None => String::from_str("No Issue"),
        },
        GroupByField::SpentOn => e.spent_on.as_str().to_owned(),
        GroupByField::CustomField(_) => text_or(&e.custom_value, "-"),
    }
}

} // verus!
