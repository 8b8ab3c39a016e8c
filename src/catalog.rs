//! The access-point catalog and its display order: strongest signal first,
//! except that the access point in use is always in front.
use vstd::prelude::*;

verus! {

/// A hardware address in colon-separated hex, the key of an access point.
pub type BSSID = String;

/// One access point as the network service reports it.
#[derive(Debug, Clone)]
pub struct AccessPoint {
    /// The network name, not unique.
    pub ssid: String,
    /// The hardware address, unique.
    pub bssid: BSSID,
    /// In MHz.
    pub frequency: u32,
    /// From 0 to 100.
    pub signal_strength: u8,
    /// Whether a password is needed.
    pub is_protected: bool,
    /// The saved connection for this access point, when there is one.
    pub setting_path: Option<String>,
}

impl AccessPoint {
    /// A copy of this access point.
    pub fn snapshot(&self) -> (r: AccessPoint)
        ensures
            r == *self,
    {
        let setting_path = match &self.setting_path {
            Some(p) => Some(p.clone()),
            None => None,
        };
        AccessPoint {
            ssid: self.ssid.clone(),
            bssid: self.bssid.clone(),
            frequency: self.frequency,
            signal_strength: self.signal_strength,
            is_protected: self.is_protected,
            setting_path,
        }
    }
}

/// The view of an optional borrowed BSSID.
pub open spec fn bssid_of(b: Option<&String>) -> Option<Seq<char>> {
    match b {
        Some(s) => Some(s@),
        None => None,
    }
}

/// No entry is stronger than an entry before it.
pub open spec fn strength_sorted(s: Seq<AccessPoint>) -> bool {
    forall|i: int, j: int|
        0 <= i < j < s.len() ==> s[i].signal_strength >= s[j].signal_strength
}

/// Where `x` goes in `t`: after the last entry at least as strong as `x`.
pub open spec fn insert_pos(t: Seq<AccessPoint>, x: AccessPoint) -> nat
    decreases t.len(),
{
    if t.len() == 0 {
        0
    } else if t.last().signal_strength >= x.signal_strength {
        t.len()
    } else {
        insert_pos(t.drop_last(), x)
    }
}

/// `t` with `x` put in its place by strength.
pub open spec fn insert_by_strength(t: Seq<AccessPoint>, x: AccessPoint) -> Seq<AccessPoint> {
    t.insert(insert_pos(t, x) as int, x)
}

/// `s` sorted by falling strength; equal strengths keep their order.
pub open spec fn sort_by_strength(s: Seq<AccessPoint>) -> Seq<AccessPoint>
    decreases s.len(),
{
    if s.len() == 0 {
        s
    } else {
        insert_by_strength(sort_by_strength(s.drop_last()), s.last())
    }
}

/// The index of the first entry of `t` with BSSID `b`, or -1.
pub open spec fn position_of(t: Seq<AccessPoint>, b: Seq<char>) -> int
    decreases t.len(),
{
    if t.len() == 0 {
        -1
    } else if t[0].bssid@ == b {
        0
    } else {
        let p = position_of(t.drop_first(), b);
        if p < 0 {
            -1
        } else {
            p + 1
        }
    }
}

/// `t` with its first entry of BSSID `active` moved to the front.
pub open spec fn pin_to_front(t: Seq<AccessPoint>, active: Option<Seq<char>>) -> Seq<
    AccessPoint,
> {
    match active {
        Some(b) => {
            let k = position_of(t, b);
            if k >= 0 {
                seq![t[k]] + t.remove(k)
            } else {
                t
            }
        },
        None => t,
    }
}

/// The display order of `s` when `active` is the access point in use.
pub open spec fn arrange(s: Seq<AccessPoint>, active: Option<Seq<char>>) -> Seq<AccessPoint> {
    pin_to_front(sort_by_strength(s), active)
}

/// Some entry of `s` has BSSID `b`.
pub open spec fn contains_bssid(s: Seq<AccessPoint>, b: Seq<char>) -> bool {
    exists|i: int| 0 <= i < s.len() && #[trigger] s[i].bssid@ == b
}

/// The catalog order: sorted by falling strength, except that an entry of
/// the active BSSID, when there is one, stands first.
pub open spec fn catalog_ordered(s: Seq<AccessPoint>, active: Option<Seq<char>>) -> bool {
    match active {
        Some(b) => if contains_bssid(s, b) {
            s[0].bssid@ == b && strength_sorted(s.drop_first())
        } else {
            strength_sorted(s)
        },
        None => strength_sorted(s),
    }
}

/// `aps` with the saved connection `c` attached to the first entry of
/// BSSID `b`.
pub open spec fn attach_config(aps: Seq<AccessPoint>, b: Seq<char>, c: String) -> Seq<AccessPoint> {
    let k = position_of(aps, b);
    if k >= 0 {
        aps.update(k, AccessPoint { setting_path: Some(c), ..aps[k] })
    } else {
        aps
    }
}

proof fn lemma_sorted_same_strengths(s: Seq<AccessPoint>, t: Seq<AccessPoint>)
    requires
        s.len() == t.len(),
        forall|i: int| 0 <= i < s.len() ==> #[trigger] s[i].signal_strength == t[i].signal_strength,
    ensures
        strength_sorted(s) == strength_sorted(t),
{
    if strength_sorted(s) {
        assert forall|i: int, j: int| 0 <= i < j < t.len() implies t[i].signal_strength
            >= t[j].signal_strength by {
            assert(s[i].signal_strength >= s[j].signal_strength);
        }
    }
    if strength_sorted(t) {
        assert forall|i: int, j: int| 0 <= i < j < s.len() implies s[i].signal_strength
            >= s[j].signal_strength by {
            assert(t[i].signal_strength >= t[j].signal_strength);
        }
    }
}

/// The catalog order looks at BSSIDs and strengths alone.
pub(crate) proof fn lemma_ordered_same_keys(
    s: Seq<AccessPoint>,
    t: Seq<AccessPoint>,
    active: Option<Seq<char>>,
)
    requires
        s.len() == t.len(),
        forall|i: int|
            0 <= i < s.len() ==> (#[trigger] s[i]).bssid == t[i].bssid && s[i].signal_strength
                == t[i].signal_strength,
    ensures
        catalog_ordered(s, active) == catalog_ordered(t, active),
{
    lemma_sorted_same_strengths(s, t);
    if let Some(b) = active {
        if contains_bssid(s, b) {
            let i = choose|i: int| 0 <= i < s.len() && #[trigger] s[i].bssid@ == b;
            assert(s[i].bssid == t[i].bssid);
        }
        if contains_bssid(t, b) {
            let i = choose|i: int| 0 <= i < t.len() && #[trigger] t[i].bssid@ == b;
            assert(s[i].bssid == t[i].bssid);
        }
        if s.len() > 0 {
            assert(s[0].bssid == t[0].bssid);
            assert forall|i: int| 0 <= i < s.drop_first().len() implies #[trigger] s.drop_first()[i].signal_strength == t.drop_first()[i].signal_strength by {
                assert(s.drop_first()[i] == s[i + 1]);
                assert(t.drop_first()[i] == t[i + 1]);
                assert(s[i + 1].signal_strength == t[i + 1].signal_strength);
            }
            lemma_sorted_same_strengths(s.drop_first(), t.drop_first());
        }
    }
}

proof fn lemma_insert_pos(t: Seq<AccessPoint>, x: AccessPoint)
    requires
        strength_sorted(t),
    ensures
        insert_pos(t, x) <= t.len(),
        forall|i: int|
            0 <= i < insert_pos(t, x) ==> #[trigger] t[i].signal_strength >= x.signal_strength,
        forall|i: int|
            insert_pos(t, x) <= i < t.len() ==> #[trigger] t[i].signal_strength
                < x.signal_strength,
    decreases t.len(),
{
    if t.len() > 0 {
        let n = t.len() - 1;
        if t.last().signal_strength < x.signal_strength {
            let d = t.drop_last();
            assert(strength_sorted(d)) by {
                assert forall|i: int, j: int| 0 <= i < j < d.len() implies d[i].signal_strength
                    >= d[j].signal_strength by {
                    assert(d[i] == t[i] && d[j] == t[j]);
                }
            }
            lemma_insert_pos(d, x);
            assert forall|i: int| 0 <= i < n implies #[trigger] t[i] == d[i] by {}
        } else {
            assert forall|i: int| 0 <= i < t.len() implies #[trigger] t[i].signal_strength
                >= x.signal_strength by {
                if i < n {
                    assert(t[i].signal_strength >= t[n].signal_strength);
                }
            }
        }
    }
}

proof fn lemma_insert_sorted(t: Seq<AccessPoint>, x: AccessPoint)
    requires
        strength_sorted(t),
    ensures
        strength_sorted(insert_by_strength(t, x)),
        insert_by_strength(t, x).to_multiset() == t.to_multiset().insert(x),
{
    broadcast use vstd::seq_lib::to_multiset_insert;

    lemma_insert_pos(t, x);
    let p = insert_pos(t, x) as int;
    t.insert_ensures(p, x);
    let r = insert_by_strength(t, x);
    assert forall|i: int, j: int| 0 <= i < j < r.len() implies r[i].signal_strength
        >= r[j].signal_strength by {
        if i < p && j < p {
        } else if i < p && j == p {
        } else if i < p {
            assert(r[j] == t[j - 1]);
        } else if i == p {
            assert(r[j] == t[j - 1]);
        } else {
            assert(r[i] == t[i - 1]);
            assert(r[j] == t[j - 1]);
        }
    }
}

/// Sorting by strength yields a sorted permutation.
pub proof fn lemma_sort_by_strength(s: Seq<AccessPoint>)
    ensures
        strength_sorted(sort_by_strength(s)),
        sort_by_strength(s).to_multiset() == s.to_multiset(),
        sort_by_strength(s).len() == s.len(),
    decreases s.len(),
{
    broadcast use vstd::seq_lib::group_to_multiset_ensures;

    if s.len() > 0 {
        lemma_sort_by_strength(s.drop_last());
        lemma_insert_sorted(sort_by_strength(s.drop_last()), s.last());
        assert(s =~= s.drop_last().push(s.last()));
        vstd::seq_lib::to_multiset_build(s.drop_last(), s.last());
        vstd::seq_lib::to_multiset_len(sort_by_strength(s));
        vstd::seq_lib::to_multiset_len(s);
    }
}

proof fn lemma_position_of(t: Seq<AccessPoint>, b: Seq<char>)
    ensures
        -1 <= position_of(t, b) < t.len(),
        position_of(t, b) >= 0 ==> t[position_of(t, b)].bssid@ == b,
        forall|j: int|
            0 <= j < t.len() && (position_of(t, b) < 0 || j < position_of(t, b)) ==> #[trigger] t[j].bssid@
                != b,
    decreases t.len(),
{
    if t.len() > 0 && t[0].bssid@ != b {
        lemma_position_of(t.drop_first(), b);
        assert forall|j: int|
            0 <= j < t.len() && (position_of(t, b) < 0 || j < position_of(t, b)) implies #[trigger] t[j].bssid@
            != b by {
            if j > 0 {
                assert(t[j] == t.drop_first()[j - 1]);
            }
        }
    }
}

proof fn lemma_position_of_found(t: Seq<AccessPoint>, b: Seq<char>, k: int)
    requires
        0 <= k <= t.len(),
        forall|j: int| 0 <= j < k ==> #[trigger] t[j].bssid@ != b,
        k < t.len() ==> t[k].bssid@ == b,
    ensures
        position_of(t, b) == if k < t.len() {
            k
        } else {
            -1
        },
    decreases t.len(),
{
    if t.len() > 0 && k > 0 {
        assert forall|j: int| 0 <= j < k - 1 implies #[trigger] t.drop_first()[j].bssid@ != b by {
            assert(t.drop_first()[j] == t[j + 1]);
        }
        lemma_position_of_found(t.drop_first(), b, k - 1);
    }
}

/// The display order is the catalog order, over the same entries.
pub proof fn lemma_arrange_ordered(s: Seq<AccessPoint>, active: Option<Seq<char>>)
    ensures
        catalog_ordered(arrange(s, active), active),
        arrange(s, active).to_multiset() == s.to_multiset(),
        arrange(s, active).len() == s.len(),
{
    broadcast use vstd::seq_lib::group_to_multiset_ensures;

    lemma_sort_by_strength(s);
    let t = sort_by_strength(s);
    let r = arrange(s, active);
    if let Some(b) = active {
        lemma_position_of(t, b);
        let k = position_of(t, b);
        if k >= 0 {
            t.remove_ensures(k);
            assert(r.drop_first() =~= t.remove(k));
            assert(r[0] == t[k]);
            assert(contains_bssid(r, b));
            vstd::seq_lib::to_multiset_remove(t, k);
            vstd::seq_lib::to_multiset_build(t.remove(k), t[k]);
            assert(r =~= seq![t[k]] + t.remove(k));
            assert(seq![t[k]] + t.remove(k) =~= t.remove(k).insert(0, t[k]));
            vstd::seq_lib::to_multiset_insert(t.remove(k), 0, t[k]);
            assert(t.to_multiset().remove(t[k]).insert(t[k]) =~= t.to_multiset()) by {
                broadcast use vstd::multiset::group_multiset_axioms;

                assert(t.to_multiset().count(t[k]) > 0) by {
                    vstd::seq_lib::to_multiset_contains(t, t[k]);
                    assert(t.contains(t[k]));
                }
            }
            assert(strength_sorted(r.drop_first()));
        } else {
            assert(!contains_bssid(r, b));
        }
    }
}

/// The index of the first entry of BSSID `b`.
pub fn find_bssid(aps: &Vec<AccessPoint>, b: &String) -> (r: Option<usize>)
    ensures
        match r {
            Some(k) => k == position_of(aps@, b@) && k < aps.len() && aps@[k as int].bssid@ == b@,
            None => position_of(aps@, b@) == -1,
        },
{
    let mut k: usize = 0;
    while k < aps.len() && !(aps[k].bssid == *b)
        invariant
            k <= aps.len(),
            forall|j: int| 0 <= j < k ==> #[trigger] aps@[j].bssid@ != b@,
        decreases aps.len() - k,
    {
        k += 1;
    }
    proof {
        lemma_position_of_found(aps@, b@, k as int);
    }
    if k < aps.len() {
        Some(k)
    } else {
        None
    }
}

fn insert_in_order(sorted: &mut Vec<AccessPoint>, x: AccessPoint)
    ensures
        final(sorted)@ == insert_by_strength(old(sorted)@, x),
{
    let mut j: usize = sorted.len();
    assert(sorted@.take(j as int) =~= sorted@);
    while j > 0 && sorted[j - 1].signal_strength < x.signal_strength
        invariant
            j <= sorted.len(),
            insert_pos(sorted@, x) == insert_pos(sorted@.take(j as int), x),
        decreases j,
    {
        assert(sorted@.take(j as int).drop_last() =~= sorted@.take(j - 1));
        j -= 1;
    }
    assert(j == 0 ==> sorted@.take(j as int) =~= Seq::<AccessPoint>::empty());
    sorted.insert(j, x);
}

/// Puts `aps` in display order for the active BSSID `active`: by falling
/// strength, equal strengths in their old order, then the first entry of
/// BSSID `active` moved to the front.
pub fn arrange_catalog(aps: &mut Vec<AccessPoint>, active: Option<&String>)
    ensures
        final(aps)@ == arrange(old(aps)@, bssid_of(active)),
{
    let ghost orig = aps@;
    let ghost mut done: int = 0;
    let mut sorted: Vec<AccessPoint> = Vec::new();
    while aps.len() > 0
        invariant
            0 <= done <= orig.len(),
            aps@ == orig.skip(done),
            sorted@ == sort_by_strength(orig.take(done)),
        decreases aps.len(),
    {
        let x = aps.remove(0);
        proof {
            assert(orig.take(done + 1).drop_last() =~= orig.take(done));
            assert(aps@ =~= orig.skip(done + 1));
        }
        insert_in_order(&mut sorted, x);
        proof {
            done = done + 1;
        }
    }
    assert(orig.take(done) =~= orig);
    if let Some(b) = active {
        if let Some(k) = find_bssid(&sorted, b) {
            let ghost t = sorted@;
            let x = sorted.remove(k);
            sorted.insert(0, x);
            assert(sorted@ =~= seq![t[k as int]] + t.remove(k as int));
        }
    }
    *aps = sorted;
}

} // verus!
