use crate::seqs::views;
use vstd::prelude::*;

verus! {

/// What happens to a stored row when a row with the same key arrives.
#[derive(Clone, Copy, Debug, PartialEq, Eq, Structural)]
pub enum ConflictPolicy {
    /// The stored row stays as it is.
    Ignore,
    /// The arriving row replaces the stored one.
    Overwrite,
    /// The arriving row describes a transaction that a block included: it
    /// refreshes the block columns, and takes over the status only where the
    /// stored status is still pending.
    AdvanceFromPending,
    /// The arriving row describes a transaction sealed into a data proposal:
    /// it takes over the status only where the stored status is
    /// `WaitingDissemination`.
    AdvanceFromWaiting,
}

/// A value that can be copied with its view kept.
pub trait Row: View + Sized {
    /// A copy with the same view.
    fn duplicate(&self) -> (r: Self)
        ensures
            r@ == self@,
    ;
}

/// A row that is found again by a key.
pub trait Keyed: Row {
    /// What a row is found again by.
    type Key;

    /// The key of a row.
    spec fn key(v: Self::V) -> Self::Key;

    /// The stored row after a row with the same key has arrived.
    spec fn merged(stored: Self::V, arriving: Self::V, policy: ConflictPolicy) -> Self::V;

    /// A merged row keeps its key, and under `Ignore` it is the stored row.
    proof fn lemma_merged_keeps_key(stored: Self::V, arriving: Self::V, policy: ConflictPolicy)
        requires
            Self::key(stored) == Self::key(arriving),
        ensures
            Self::key(Self::merged(stored, arriving, policy)) == Self::key(stored),
            policy == ConflictPolicy::Ignore ==> Self::merged(stored, arriving, policy) == stored,
    ;

    /// Whether the two rows hold the same key.
    fn same_key(&self, other: &Self) -> (r: bool)
        ensures
            r == (Self::key(self@) == Self::key(other@)),
    ;

    /// The stored row `self` after `arriving` has come under `policy`.
    fn merge(&self, arriving: &Self, policy: ConflictPolicy) -> (r: Self)
        ensures
            r@ == Self::merged(self@, arriving@, policy),
    ;
}

/// `i` is the first place in `t` that holds the key `k`.
pub open spec fn is_first_match<R: Keyed>(t: Seq<R::V>, k: R::Key, i: int) -> bool {
    &&& 0 <= i < t.len()
    &&& R::key(t[i]) == k
    &&& forall|j: int| 0 <= j < i ==> R::key(#[trigger] t[j]) != k
}

/// Whether some row of `t` holds the key `k`.
pub open spec fn has_key<R: Keyed>(t: Seq<R::V>, k: R::Key) -> bool {
    exists|i: int| 0 <= i < t.len() && R::key(#[trigger] t[i]) == k
}

/// The first place in `t` that holds the key `k`, if there is one.
pub open spec fn first_match<R: Keyed>(t: Seq<R::V>, k: R::Key) -> Option<int> {
    if exists|i: int| is_first_match::<R>(t, k, i) {
        Some(choose|i: int| is_first_match::<R>(t, k, i))
    } else {
        None
    }
}

/// No two rows of `t` hold the same key.
pub open spec fn unique_keys<R: Keyed>(t: Seq<R::V>) -> bool {
    forall|i: int, j: int|
        0 <= i < j < t.len() ==> R::key(#[trigger] t[i]) != R::key(#[trigger] t[j])
}

/// The table after one row has arrived under a policy.
pub open spec fn put<R: Keyed>(t: Seq<R::V>, row: R::V, policy: ConflictPolicy) -> Seq<R::V> {
    match first_match::<R>(t, R::key(row)) {
        Some(i) => t.update(i, R::merged(t[i], row, policy)),
        None => t.push(row),
    }
}

/// The table after the rows have arrived one after the other.
pub open spec fn put_all<R: Keyed>(t: Seq<R::V>, rows: Seq<R::V>, policy: ConflictPolicy) -> Seq<
    R::V,
>
    decreases rows.len(),
{
    if rows.len() == 0 {
        t
    } else {
        put::<R>(put_all::<R>(t, rows.drop_last(), policy), rows.last(), policy)
    }
}

/// The table without the rows that hold the key `k`.
pub open spec fn without_key<R: Keyed>(t: Seq<R::V>, k: R::Key) -> Seq<R::V>
    decreases t.len(),
{
    if t.len() == 0 {
        t
    } else if R::key(t.last()) == k {
        without_key::<R>(t.drop_last(), k)
    } else {
        without_key::<R>(t.drop_last(), k).push(t.last())
    }
}

/// A first place that holds a key is the first match for it.
pub proof fn lemma_first_match_is<R: Keyed>(t: Seq<R::V>, k: R::Key, i: int)
    requires
        is_first_match::<R>(t, k, i),
    ensures
        first_match::<R>(t, k) == Some(i),
{
    let j = choose|j: int| is_first_match::<R>(t, k, j);
    assert(is_first_match::<R>(t, k, j));
    if j < i {
        assert(R::key(t[j]) != k);
    } else if i < j {
        assert(R::key(t[i]) != k);
    }
}

/// A key that no row holds has no first match.
pub proof fn lemma_first_match_none<R: Keyed>(t: Seq<R::V>, k: R::Key)
    requires
        !has_key::<R>(t, k),
    ensures
        first_match::<R>(t, k) == None::<int>,
{
    if exists|i: int| is_first_match::<R>(t, k, i) {
        let i = choose|i: int| is_first_match::<R>(t, k, i);
        assert(R::key(t[i]) == k);
    }
}

/// A key that some row holds has a first match.
pub proof fn lemma_first_match_some<R: Keyed>(t: Seq<R::V>, k: R::Key)
    requires
        has_key::<R>(t, k),
    ensures
        first_match::<R>(t, k) is Some,
        is_first_match::<R>(t, k, first_match::<R>(t, k).unwrap()),
    decreases t.len(),
{
    let w = choose|i: int| 0 <= i < t.len() && R::key(#[trigger] t[i]) == k;
    if forall|j: int| 0 <= j < w ==> R::key(#[trigger] t[j]) != k {
        assert(is_first_match::<R>(t, k, w));
        lemma_first_match_is::<R>(t, k, w);
    } else {
        let p = t.take(w);
        let j = choose|j: int| 0 <= j < w && R::key(#[trigger] t[j]) == k;
        assert(p[j] == t[j]);
        assert(has_key::<R>(p, k));
        lemma_first_match_some::<R>(p, k);
        let m = first_match::<R>(p, k).unwrap();
        assert(p[m] == t[m]);
        assert forall|x: int| 0 <= x < m implies R::key(#[trigger] t[x]) != k by {
            assert(p[x] == t[x]);
        }
        assert(is_first_match::<R>(t, k, m));
        lemma_first_match_is::<R>(t, k, m);
    }
}

/// Where the key `k` stands in `table`, if it does.
pub fn position<R: Keyed>(table: &Vec<R>, probe: &R) -> (r: Option<usize>)
    ensures
        match r {
            Some(i) => first_match::<R>(views(table@), R::key(probe@)) == Some(i as int),
            None => first_match::<R>(views(table@), R::key(probe@)) == None::<int>,
        },
        r is Some ==> r.unwrap() < table.len(),
{
    let mut i: usize = 0;
    while i < table.len()
        invariant
            0 <= i <= table.len(),
            forall|j: int| 0 <= j < i ==> R::key(#[trigger] views(table@)[j]) != R::key(probe@),
        decreases table.len() - i,
    {
        if table[i].same_key(probe) {
            proof {
                assert(views(table@)[i as int] == table@[i as int]@);
                assert(is_first_match::<R>(views(table@), R::key(probe@), i as int));
                lemma_first_match_is::<R>(views(table@), R::key(probe@), i as int);
            }
            return Some(i);
        }
        assert(views(table@)[i as int] == table@[i as int]@);
        i = i + 1;
    }
    proof {
        assert(!has_key::<R>(views(table@), R::key(probe@)));
        lemma_first_match_none::<R>(views(table@), R::key(probe@));
    }
    None
}

/// Lets one row arrive in `table` under `policy`.
pub fn put_row<R: Keyed>(table: &mut Vec<R>, row: &R, policy: ConflictPolicy)
    ensures
        views(final(table)@) == put::<R>(views(old(table)@), row@, policy),
{
    match position(table, row) {
        Some(i) => {
            let merged = table[i].merge(row, policy);
            table.set(i, merged);
            assert(views(table@) =~= put::<R>(views(old(table)@), row@, policy));
        },
        None => {
            table.push(row.duplicate());
            assert(views(table@) =~= put::<R>(views(old(table)@), row@, policy));
        },
    }
}

/// Lets the rows arrive in `table`, one after the other, under `policy`.
pub fn put_rows<R: Keyed>(table: &mut Vec<R>, rows: &Vec<R>, policy: ConflictPolicy)
    ensures
        views(final(table)@) == put_all::<R>(views(old(table)@), views(rows@), policy),
{
    let mut i: usize = 0;
    while i < rows.len()
        invariant
            0 <= i <= rows.len(),
            views(table@) == put_all::<R>(views(old(table)@), views(rows@).take(i as int), policy),
        decreases rows.len() - i,
    {
        put_row(table, &rows[i], policy);
        proof {
            let next = views(rows@).take(i + 1);
            assert(next.drop_last() =~= views(rows@).take(i as int));
            assert(next.last() == rows@[i as int]@);
        }
        i = i + 1;
    }
    assert(views(rows@).take(rows.len() as int) =~= views(rows@));
}

/// Adds copies of the rows at the end of `table`.
pub fn append_rows<R: Row>(table: &mut Vec<R>, rows: &Vec<R>)
    ensures
        views(final(table)@) == views(old(table)@) + views(rows@),
{
    let mut i: usize = 0;
    while i < rows.len()
        invariant
            0 <= i <= rows.len(),
            views(table@) == views(old(table)@) + views(rows@).take(i as int),
        decreases rows.len() - i,
    {
        let ghost before = views(table@);
        table.push(rows[i].duplicate());
        proof {
            assert(views(table@) =~= before.push(rows@[i as int]@));
            assert(views(rows@).take(i + 1) =~= views(rows@).take(i as int).push(
                rows@[i as int]@,
            ));
            assert(views(table@) =~= views(old(table)@) + views(rows@).take(i + 1));
        }
        i = i + 1;
    }
    assert(views(rows@).take(rows.len() as int) =~= views(rows@));
}

/// A copy of the rows.
pub fn duplicate_rows<R: Row>(rows: &Vec<R>) -> (r: Vec<R>)
    ensures
        views(r@) == views(rows@),
{
    let mut r: Vec<R> = Vec::new();
    append_rows(&mut r, rows);
    assert(views(r@) =~= views(rows@));
    r
}

/// Takes the rows that hold the key of `probe` out of `table`.
pub fn remove_key<R: Keyed>(table: &mut Vec<R>, probe: &R)
    ensures
        views(final(table)@) == without_key::<R>(views(old(table)@), R::key(probe@)),
{
    let mut kept: Vec<R> = Vec::new();
    let mut i: usize = 0;
    while i < table.len()
        invariant
            0 <= i <= table.len(),
            table@ == old(table)@,
            views(kept@) == without_key::<R>(views(table@).take(i as int), R::key(probe@)),
        decreases table.len() - i,
    {
        proof {
            let next = views(table@).take(i + 1);
            assert(next.drop_last() =~= views(table@).take(i as int));
            assert(next.last() == table@[i as int]@);
        }
        if !table[i].same_key(probe) {
            kept.push(table[i].duplicate());
            assert(views(kept@) =~= without_key::<R>(views(table@).take(i + 1), R::key(probe@)));
        }
        i = i + 1;
    }
    assert(views(table@).take(table.len() as int) =~= views(table@));
    *table = kept;
}

/// Whether no two rows hold the same key.
pub fn all_keys_distinct<R: Keyed>(rows: &Vec<R>) -> (r: bool)
    ensures
        r == unique_keys::<R>(views(rows@)),
{
    let mut j: usize = 0;
    while j < rows.len()
        invariant
            0 <= j <= rows.len(),
            forall|a: int, b: int|
                0 <= a < b < j ==> R::key(#[trigger] views(rows@)[a]) != R::key(
                    #[trigger] views(rows@)[b],
                ),
        decreases rows.len() - j,
    {
        let mut i: usize = 0;
        while i < j
            invariant
                0 <= i <= j < rows.len(),
                forall|a: int|
                    0 <= a < i ==> R::key(#[trigger] views(rows@)[a]) != R::key(
                        views(rows@)[j as int],
                    ),
            decreases j - i,
        {
            assert(views(rows@)[i as int] == rows@[i as int]@);
            assert(views(rows@)[j as int] == rows@[j as int]@);
            if rows[i].same_key(&rows[j]) {
                return false;
            }
            i = i + 1;
        }
        j = j + 1;
    }
    true
}

/// What `put` does, read off the first match.
pub proof fn lemma_put<R: Keyed>(t: Seq<R::V>, row: R::V, policy: ConflictPolicy)
    ensures
        has_key::<R>(t, R::key(row)) ==> {
            let i = first_match::<R>(t, R::key(row)).unwrap();
            &&& is_first_match::<R>(t, R::key(row), i)
            &&& put::<R>(t, row, policy) == t.update(i, R::merged(t[i], row, policy))
            &&& R::key(R::merged(t[i], row, policy)) == R::key(row)
        },
        !has_key::<R>(t, R::key(row)) ==> put::<R>(t, row, policy) == t.push(row),
        put::<R>(t, row, policy).len() >= t.len(),
{
    if has_key::<R>(t, R::key(row)) {
        lemma_first_match_some::<R>(t, R::key(row));
        let i = first_match::<R>(t, R::key(row)).unwrap();
        R::lemma_merged_keeps_key(t[i], row, policy);
    } else {
        lemma_first_match_none::<R>(t, R::key(row));
    }
}

/// A table that holds no key twice still does so after a row has arrived.
pub proof fn lemma_put_unique<R: Keyed>(t: Seq<R::V>, row: R::V, policy: ConflictPolicy)
    requires
        unique_keys::<R>(t),
    ensures
        unique_keys::<R>(put::<R>(t, row, policy)),
{
    lemma_put::<R>(t, row, policy);
    let after = put::<R>(t, row, policy);
    if has_key::<R>(t, R::key(row)) {
        let i = first_match::<R>(t, R::key(row)).unwrap();
        assert forall|a: int, b: int| 0 <= a < b < after.len() implies R::key(
            #[trigger] after[a],
        ) != R::key(#[trigger] after[b]) by {
            assert(R::key(after[a]) == R::key(t[a]));
            assert(R::key(after[b]) == R::key(t[b]));
        }
    } else {
        assert forall|a: int, b: int| 0 <= a < b < after.len() implies R::key(
            #[trigger] after[a],
        ) != R::key(#[trigger] after[b]) by {
            if b == t.len() {
                assert(R::key(t[a]) != R::key(row));
            } else {
                assert(R::key(after[a]) == R::key(t[a]));
                assert(R::key(after[b]) == R::key(t[b]));
            }
        }
    }
}

/// A table that holds no key twice still does so after rows have arrived.
pub proof fn lemma_put_all_unique<R: Keyed>(t: Seq<R::V>, rows: Seq<R::V>, policy: ConflictPolicy)
    requires
        unique_keys::<R>(t),
    ensures
        unique_keys::<R>(put_all::<R>(t, rows, policy)),
    decreases rows.len(),
{
    if rows.len() > 0 {
        lemma_put_all_unique::<R>(t, rows.drop_last(), policy);
        lemma_put_unique::<R>(put_all::<R>(t, rows.drop_last(), policy), rows.last(), policy);
    }
}

/// After a row has arrived its key is stored, and the keys that were stored
/// still are, each at its place.
pub proof fn lemma_put_keeps_keys<R: Keyed>(t: Seq<R::V>, row: R::V, policy: ConflictPolicy)
    ensures
        has_key::<R>(put::<R>(t, row, policy), R::key(row)),
        put::<R>(t, row, policy).len() >= t.len(),
        forall|i: int|
            0 <= i < t.len() ==> R::key(#[trigger] put::<R>(t, row, policy)[i]) == R::key(t[i]),
        forall|k: R::Key| has_key::<R>(t, k) ==> has_key::<R>(put::<R>(t, row, policy), k),
{
    lemma_put::<R>(t, row, policy);
    let after = put::<R>(t, row, policy);
    if has_key::<R>(t, R::key(row)) {
        let i = first_match::<R>(t, R::key(row)).unwrap();
        assert(R::key(after[i]) == R::key(row));
    } else {
        assert(R::key(after[t.len() as int]) == R::key(row));
    }
    assert forall|k: R::Key| has_key::<R>(t, k) implies has_key::<R>(after, k) by {
        let w = choose|i: int| 0 <= i < t.len() && R::key(#[trigger] t[i]) == k;
        assert(R::key(after[w]) == k);
    }
}

/// After rows have arrived their keys are stored, and the keys that were
/// stored still are, each at its place.
pub proof fn lemma_put_all_keeps_keys<R: Keyed>(
    t: Seq<R::V>,
    rows: Seq<R::V>,
    policy: ConflictPolicy,
)
    ensures
        put_all::<R>(t, rows, policy).len() >= t.len(),
        forall|i: int|
            0 <= i < t.len() ==> R::key(#[trigger] put_all::<R>(t, rows, policy)[i]) == R::key(
                t[i],
            ),
        forall|k: R::Key| has_key::<R>(t, k) ==> has_key::<R>(put_all::<R>(t, rows, policy), k),
        forall|j: int|
            0 <= j < rows.len() ==> has_key::<R>(
                put_all::<R>(t, rows, policy),
                R::key(#[trigger] rows[j]),
            ),
    decreases rows.len(),
{
    if rows.len() > 0 {
        let before = put_all::<R>(t, rows.drop_last(), policy);
        lemma_put_all_keeps_keys::<R>(t, rows.drop_last(), policy);
        lemma_put_keeps_keys::<R>(before, rows.last(), policy);
        let after = put_all::<R>(t, rows, policy);
        assert forall|i: int| 0 <= i < t.len() implies R::key(#[trigger] after[i]) == R::key(
            t[i],
        ) by {
            assert(R::key(before[i]) == R::key(t[i]));
        }
        assert forall|j: int| 0 <= j < rows.len() implies has_key::<R>(
            after,
            R::key(#[trigger] rows[j]),
        ) by {
            if j < rows.len() - 1 {
                assert(rows.drop_last()[j] == rows[j]);
                assert(has_key::<R>(before, R::key(rows.drop_last()[j])));
            }
        }
    }
}

/// Rows whose keys are all stored change nothing where stored rows are left
/// alone.
pub proof fn lemma_put_all_ignored<R: Keyed>(t: Seq<R::V>, rows: Seq<R::V>)
    requires
        forall|j: int| 0 <= j < rows.len() ==> has_key::<R>(t, R::key(#[trigger] rows[j])),
    ensures
        put_all::<R>(t, rows, ConflictPolicy::Ignore) == t,
    decreases rows.len(),
{
    if rows.len() > 0 {
        assert forall|j: int| 0 <= j < rows.drop_last().len() implies has_key::<R>(
            t,
            R::key(#[trigger] rows.drop_last()[j]),
        ) by {
            assert(rows.drop_last()[j] == rows[j]);
        }
        lemma_put_all_ignored::<R>(t, rows.drop_last());
        assert(has_key::<R>(t, R::key(rows[rows.len() - 1])));
        lemma_put::<R>(t, rows.last(), ConflictPolicy::Ignore);
        let i = first_match::<R>(t, R::key(rows.last())).unwrap();
        R::lemma_merged_keeps_key(t[i], rows.last(), ConflictPolicy::Ignore);
        assert(t.update(i, t[i]) =~= t);
    }
}

/// Letting the same rows arrive a second time changes nothing where stored
/// rows are left alone.
pub proof fn lemma_put_all_ignore_twice<R: Keyed>(t: Seq<R::V>, rows: Seq<R::V>)
    ensures
        put_all::<R>(
            put_all::<R>(t, rows, ConflictPolicy::Ignore),
            rows,
            ConflictPolicy::Ignore,
        ) == put_all::<R>(t, rows, ConflictPolicy::Ignore),
{
    lemma_put_all_keeps_keys::<R>(t, rows, ConflictPolicy::Ignore);
    lemma_put_all_ignored::<R>(put_all::<R>(t, rows, ConflictPolicy::Ignore), rows);
}

/// Taking a key out of a table leaves no row with it, and no key twice
/// where there was none.
pub proof fn lemma_without_key<R: Keyed>(t: Seq<R::V>, k: R::Key)
    ensures
        !has_key::<R>(without_key::<R>(t, k), k),
        forall|other: R::Key| #[trigger]
            has_key::<R>(without_key::<R>(t, k), other) ==> has_key::<R>(t, other),
        unique_keys::<R>(t) ==> unique_keys::<R>(without_key::<R>(t, k)),
    decreases t.len(),
{
    if t.len() > 0 {
        let rest = t.drop_last();
        lemma_without_key::<R>(rest, k);
        let w = without_key::<R>(rest, k);
        let after = without_key::<R>(t, k);
        assert forall|other: R::Key| has_key::<R>(after, other) implies has_key::<R>(t, other) by {
            let i = choose|i: int| 0 <= i < after.len() && R::key(#[trigger] after[i]) == other;
            if i < w.len() {
                assert(after[i] == w[i]);
                assert(has_key::<R>(w, other));
                let j = choose|j: int| 0 <= j < rest.len() && R::key(#[trigger] rest[j]) == other;
                assert(t[j] == rest[j]);
            } else {
                assert(R::key(t[t.len() - 1]) == other);
            }
        }
        if has_key::<R>(after, k) {
            let i = choose|i: int| 0 <= i < after.len() && R::key(#[trigger] after[i]) == k;
            if i < w.len() {
                assert(after[i] == w[i]);
                assert(has_key::<R>(w, k));
            }
        }
        if unique_keys::<R>(t) {
            assert forall|a: int, b: int| 0 <= a < b < rest.len() implies R::key(
                #[trigger] rest[a],
            ) != R::key(#[trigger] rest[b]) by {
                assert(rest[a] == t[a]);
                assert(rest[b] == t[b]);
            }
            assert forall|a: int, b: int| 0 <= a < b < after.len() implies R::key(
                #[trigger] after[a],
            ) != R::key(#[trigger] after[b]) by {
                if b < w.len() {
                    assert(after[a] == w[a]);
                    assert(after[b] == w[b]);
                } else {
                    assert(after[a] == w[a]);
                    assert(has_key::<R>(w, R::key(after[a])));
                    assert(has_key::<R>(rest, R::key(after[a])));
                    let j = choose|j: int|
                        0 <= j < rest.len() && R::key(#[trigger] rest[j]) == R::key(after[a]);
                    assert(rest[j] == t[j]);
                    assert(R::key(t[j]) != R::key(t[t.len() - 1]));
                }
            }
        }
    }
}

/// A stored row whose key does not arrive stays as it is.
pub proof fn lemma_put_all_untouched<R: Keyed>(
    t: Seq<R::V>,
    rows: Seq<R::V>,
    policy: ConflictPolicy,
    i: int,
)
    requires
        0 <= i < t.len(),
        forall|j: int| 0 <= j < rows.len() ==> R::key(#[trigger] rows[j]) != R::key(t[i]),
    ensures
        put_all::<R>(t, rows, policy).len() >= t.len(),
        put_all::<R>(t, rows, policy)[i] == t[i],
    decreases rows.len(),
{
    if rows.len() > 0 {
        let head = rows.drop_last();
        assert forall|j: int| 0 <= j < head.len() implies R::key(#[trigger] head[j]) != R::key(
            t[i],
        ) by {
            assert(head[j] == rows[j]);
        }
        lemma_put_all_untouched::<R>(t, head, policy, i);
        let mid = put_all::<R>(t, head, policy);
        lemma_put::<R>(mid, rows.last(), policy);
        assert(R::key(rows[rows.len() - 1]) != R::key(t[i]));
    }
}

/// Every row of a table that rows have arrived in was stored before or
/// holds the key of one of the rows that arrived.
pub proof fn lemma_put_all_keys_arrived<R: Keyed>(
    t: Seq<R::V>,
    rows: Seq<R::V>,
    policy: ConflictPolicy,
)
    ensures
        forall|i: int|
            t.len() <= i < put_all::<R>(t, rows, policy).len() ==> has_key::<R>(
                rows,
                R::key(#[trigger] put_all::<R>(t, rows, policy)[i]),
            ),
    decreases rows.len(),
{
    if rows.len() > 0 {
        let head = rows.drop_last();
        lemma_put_all_keys_arrived::<R>(t, head, policy);
        lemma_put_all_keeps_keys::<R>(t, head, policy);
        let mid = put_all::<R>(t, head, policy);
        lemma_put::<R>(mid, rows.last(), policy);
        lemma_put_keeps_keys::<R>(mid, rows.last(), policy);
        let after = put_all::<R>(t, rows, policy);
        assert forall|i: int| t.len() <= i < after.len() implies has_key::<R>(
            rows,
            R::key(#[trigger] after[i]),
        ) by {
            if i < mid.len() {
                assert(R::key(after[i]) == R::key(mid[i]));
                assert(has_key::<R>(head, R::key(mid[i])));
                let j = choose|j: int|
                    0 <= j < head.len() && R::key(#[trigger] head[j]) == R::key(mid[i]);
                assert(rows[j] == head[j]);
            } else {
                assert(after[i] == rows.last());
                assert(R::key(rows[rows.len() - 1]) == R::key(after[i]));
            }
        }
    }
}

} // verus!
