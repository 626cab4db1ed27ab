//! Index suggestions from recorded query patterns: which columns an index should hold
//! and in which order.
//!
//! Measuring selectivities and weighing benefit against cost happen with the caller,
//! which holds the database connection; this module arranges the columns of an index.

use vstd::prelude::*;

verus! {

/// The most columns an index gets once query columns fill up; the filtering columns
/// themselves are never dropped.
pub const MAX_INDEX_COLUMNS: usize = 5;

/// A query that runs against the table, with the columns it filters on and the ones it reads.
pub struct QueryPattern {
    pub sql: String,
    /// Executions per second.
    pub frequency: i32,
    /// Columns used in the WHERE clause.
    pub columns: Vec<String>,
    /// Columns in the SELECT list.
    pub select_columns: Vec<String>,
}

/// The texts of a sequence of strings.
pub open spec fn texts(v: Seq<String>) -> Seq<Seq<char>> {
    v.map_values(|s: String| s@)
}

/// The texts of a sequence of string slices.
pub open spec fn slice_texts(v: Seq<&str>) -> Seq<Seq<char>> {
    v.map_values(|s: &str| s@)
}

fn owned_strings(items: &[&str]) -> (out: Vec<String>)
    ensures
        texts(out@) == slice_texts(items@),
{
    let mut out: Vec<String> = Vec::new();
    let n = items.len();
    for i in 0..n
        invariant
            n == items@.len(),
            out@.len() == i,
            forall|j: int| 0 <= j < i ==> #[trigger] out@[j]@ == items@[j]@,
    {
        out.push(items[i].to_string());
    }
    assert(texts(out@) =~= slice_texts(items@));
    out
}

impl QueryPattern {
    /// A pattern for `sql`, run `frequency` times a second, filtering on `where_cols`
    /// and reading `select_cols`.
    pub fn new(sql: &str, frequency: i32, where_cols: &[&str], select_cols: &[&str]) -> (p: Self)
        ensures
            p.sql@ == sql@,
            p.frequency == frequency,
            texts(p.columns@) == slice_texts(where_cols@),
            texts(p.select_columns@) == slice_texts(select_cols@),
    {
        QueryPattern {
            sql: sql.to_string(),
            frequency,
            columns: owned_strings(where_cols),
            select_columns: owned_strings(select_cols),
        }
    }
}

/// Collects the query patterns of one table; `C` is the connection the caller
/// measures the table through.
pub struct IndexDesigner<C> {
    conn: C,
    table: String,
    query_patterns: Vec<QueryPattern>,
}

impl<C> IndexDesigner<C> {
    /// The connection the designer was created with.
    pub closed spec fn connection(&self) -> C {
        self.conn
    }

    /// The table the patterns query.
    pub closed spec fn table_name(&self) -> Seq<char> {
        self.table@
    }

    /// The recorded patterns, oldest first.
    pub closed spec fn patterns(&self) -> Seq<QueryPattern> {
        self.query_patterns@
    }

    /// A designer for `table` with no patterns yet.
    pub fn new(conn: C, table: &str) -> (d: Self)
        ensures
            d.connection() == conn,
            d.table_name() == table@,
            d.patterns() == Seq::<QueryPattern>::empty(),
    {
        IndexDesigner { conn, table: table.to_string(), query_patterns: Vec::new() }
    }

    /// Records a query pattern after those already recorded.
    pub fn add_query_pattern(
        &mut self,
        sql: &str,
        frequency: i32,
        where_cols: &[&str],
        select_cols: &[&str],
    )
        ensures
            final(self).connection() == old(self).connection(),
            final(self).table_name() == old(self).table_name(),
            final(self).patterns().len() == old(self).patterns().len() + 1,
            final(self).patterns().take(old(self).patterns().len() as int) == old(self).patterns(),
            final(self).patterns().last().sql@ == sql@,
            final(self).patterns().last().frequency == frequency,
            texts(final(self).patterns().last().columns@) == slice_texts(where_cols@),
            texts(final(self).patterns().last().select_columns@) == slice_texts(select_cols@),
    {
        let p = QueryPattern::new(sql, frequency, where_cols, select_cols);
        self.query_patterns.push(p);
        assert(self.query_patterns@.take(old(self).query_patterns@.len() as int)
            =~= old(self).query_patterns@);
    }

    /// The connection the designer measures the table through.
    pub fn conn(&self) -> (c: &C)
        ensures
            *c == self.connection(),
    {
        &self.conn
    }

    /// The table the patterns query.
    pub fn table(&self) -> (t: &str)
        ensures
            t@ == self.table_name(),
    {
        self.table.as_str()
    }

    /// The recorded patterns, oldest first.
    pub fn query_patterns(&self) -> (ps: &Vec<QueryPattern>)
        ensures
            ps@ == self.patterns(),
    {
        &self.query_patterns
    }
}

// ---------------------------------------------------------------------------
// Ordering columns by selectivity
// ---------------------------------------------------------------------------

/// Position `a` goes before position `b`: its key is larger, or the keys tie and `a`
/// came first.
pub open spec fn ranks_before(keys: Seq<u64>, a: int, b: int) -> bool {
    keys[a] > keys[b] || (keys[a] == keys[b] && a < b)
}

/// `order` lists every position of `keys` once, by descending key, ties in their
/// input order: the result of a stable sort by descending key.
pub open spec fn is_rank_order(keys: Seq<u64>, order: Seq<usize>) -> bool {
    &&& order.len() == keys.len()
    &&& forall|i: int| 0 <= i < order.len() ==> #[trigger] order[i] < keys.len()
    &&& forall|i: int, j: int|
        #![trigger order[i], order[j]]
        0 <= i < j < order.len() ==> ranks_before(keys, order[i] as int, order[j] as int)
    &&& forall|x: int| 0 <= x < keys.len() ==> #[trigger] order.contains(x as usize)
}

/// Positions of `keys` by descending key, ties kept in their input order.
pub fn rank_by_key(keys: &Vec<u64>) -> (order: Vec<usize>)
    ensures
        is_rank_order(keys@, order@),
{
    let n = keys.len();
    let mut order: Vec<usize> = Vec::new();
    let mut k: usize = 0;
    while k < n
        invariant
            n == keys@.len(),
            k <= n,
            order@.len() == k,
            forall|i: int| 0 <= i < order@.len() ==> #[trigger] order@[i] < k,
            forall|i: int, j: int|
                #![trigger order@[i], order@[j]]
                0 <= i < j < order@.len() ==> ranks_before(keys@, order@[i] as int, order@[j] as int),
            forall|x: int| 0 <= x < k ==> #[trigger] order@.contains(x as usize),
        decreases n - k,
    {
        let mut p: usize = 0;
        while p < order.len() && keys[order[p]] >= keys[k]
            invariant
                n == keys@.len(),
                k < n,
                p <= order@.len(),
                forall|i: int| 0 <= i < order@.len() ==> #[trigger] order@[i] < k,
                forall|i: int| 0 <= i < p ==> keys@[#[trigger] order@[i] as int] >= keys@[k as int],
            decreases order@.len() - p,
        {
            p += 1;
        }
        let ghost prev = order@;
        assert(forall|j: int| p <= j < prev.len() ==> keys@[#[trigger] prev[j] as int] < keys@[k as int]) by {
            assert forall|j: int| p <= j < prev.len() implies keys@[#[trigger] prev[j] as int] < keys@[k as int] by {
                if j > p {
                    assert(ranks_before(keys@, prev[p as int] as int, prev[j] as int));
                }
            }
        }
        order.insert(p, k);
        proof {
            prev.insert_ensures(p as int, k);
            assert(order@ == prev.insert(p as int, k));
            assert forall|i: int| 0 <= i < order@.len() implies #[trigger] order@[i] < k + 1 by {
                if i < p {
                } else if i > p {
                    assert(order@[i] == prev[i - 1]);
                }
            }
            assert forall|i: int, j: int|
                #![trigger order@[i], order@[j]]
                0 <= i < j < order@.len() implies ranks_before(keys@, order@[i] as int, order@[j] as int) by {
                if j < p {
                } else if j == p {
                    assert(keys@[prev[i] as int] >= keys@[k as int]);
                } else if i < p {
                    assert(order@[j] == prev[j - 1]);
                } else if i == p {
                    assert(order@[j] == prev[j - 1]);
                } else {
                    assert(order@[i] == prev[i - 1]);
                    assert(order@[j] == prev[j - 1]);
                }
            }
            assert forall|x: int| 0 <= x < k + 1 implies #[trigger] order@.contains(x as usize) by {
                if x < k {
                    assert(prev.contains(x as usize));
                    let m = choose|m: int| 0 <= m < prev.len() && prev[m] == x as usize;
                    if m < p {
                        assert(order@[m] == x as usize);
                    } else {
                        assert(order@[m + 1] == x as usize);
                    }
                } else {
                    assert(order@[p as int] == k);
                }
            }
        }
        k += 1;
    }
    order
}


proof fn lemma_rank_orders_agree_at(keys: Seq<u64>, o1: Seq<usize>, o2: Seq<usize>, i: int)
    requires
        is_rank_order(keys, o1),
        is_rank_order(keys, o2),
        0 <= i < o1.len(),
        forall|m: int| 0 <= m < i ==> o1[m] == o2[m],
    ensures
        o1[i] == o2[i],
{
    let a = o1[i];
    let b = o2[i];
    if a != b {
        assert(o1.contains(b as int as usize));
        let j = choose|j: int| 0 <= j < o1.len() && o1[j] == b;
        if j < i {
            assert(o2[j] == b);
            assert(ranks_before(keys, o2[j] as int, o2[i] as int));
        }
        assert(ranks_before(keys, a as int, b as int));
        assert(o2.contains(a as int as usize));
        let j2 = choose|j2: int| 0 <= j2 < o2.len() && o2[j2] == a;
        if j2 < i {
            assert(o1[j2] == a);
            assert(ranks_before(keys, o1[j2] as int, o1[i] as int));
        }
        assert(ranks_before(keys, b as int, a as int));
    }
}

proof fn lemma_rank_orders_agree_below(keys: Seq<u64>, o1: Seq<usize>, o2: Seq<usize>, i: int)
    requires
        is_rank_order(keys, o1),
        is_rank_order(keys, o2),
        0 <= i <= o1.len(),
    ensures
        forall|m: int| 0 <= m < i ==> o1[m] == o2[m],
    decreases i,
{
    if i > 0 {
        lemma_rank_orders_agree_below(keys, o1, o2, i - 1);
        lemma_rank_orders_agree_at(keys, o1, o2, i - 1);
    }
}

/// There is exactly one stable descending order of a key sequence: any two orders that
/// list every position once, by descending key with ties in input order, are equal.
pub proof fn law_rank_order_unique(keys: Seq<u64>, o1: Seq<usize>, o2: Seq<usize>)
    requires
        is_rank_order(keys, o1),
        is_rank_order(keys, o2),
    ensures
        o1 == o2,
{
    lemma_rank_orders_agree_below(keys, o1, o2, o1.len() as int);
    assert(o1 =~= o2);
}

/// The stable descending order of `keys`.
pub open spec fn rank_order(keys: Seq<u64>) -> Seq<usize> {
    choose|o: Seq<usize>| is_rank_order(keys, o)
}

// ---------------------------------------------------------------------------
// Arranging the columns of a suggested index
// ---------------------------------------------------------------------------

/// `cols` rearranged as `order` lists their positions.
pub open spec fn arranged(cols: Seq<Seq<char>>, order: Seq<usize>) -> Seq<Seq<char>> {
    Seq::new(order.len(), |i: int| cols[order[i] as int])
}

/// The columns of `select`, in order and with repeats, that are not in `taken`.
pub open spec fn fresh_columns(select: Seq<Seq<char>>, taken: Seq<Seq<char>>) -> Seq<Seq<char>>
    decreases select.len(),
{
    if select.len() == 0 {
        Seq::empty()
    } else {
        let before = fresh_columns(select.drop_last(), taken);
        if taken.contains(select.last()) {
            before
        } else {
            before.push(select.last())
        }
    }
}

/// `front` followed by as many of `extra` as fit below `MAX_INDEX_COLUMNS` columns.
pub open spec fn fill_to_cap(front: Seq<Seq<char>>, extra: Seq<Seq<char>>) -> Seq<Seq<char>> {
    if front.len() >= 5 {
        front
    } else if extra.len() <= 5 - front.len() {
        front + extra
    } else {
        front + extra.take(5 - front.len())
    }
}

/// The columns suggested for an index serving `p`, when `keys[i]` orders the
/// selectivity of the i-th filtering column: every filtering column, most selective
/// first and ties in query order, then the selected columns not already filtered on,
/// while the index has fewer than `MAX_INDEX_COLUMNS` columns.
pub open spec fn suggested_columns(p: QueryPattern, keys: Seq<u64>) -> Seq<Seq<char>> {
    fill_to_cap(
        arranged(texts(p.columns@), rank_order(keys)),
        fresh_columns(texts(p.select_columns@), texts(p.columns@)),
    )
}

/// Whether `list` holds a string with the text of `s`.
fn contains_text(list: &Vec<String>, s: &String) -> (found: bool)
    ensures
        found == texts(list@).contains(s@),
{
    let n = list.len();
    for i in 0..n
        invariant
            n == list@.len(),
            forall|j: int| 0 <= j < i ==> list@[j]@ != s@,
    {
        if list[i] == *s {
            assert(texts(list@)[i as int] == s@);
            return true;
        }
    }
    assert forall|j: int| 0 <= j < texts(list@).len() implies texts(list@)[j] != s@ by {
        assert(texts(list@)[j] == list@[j]@);
    }
    false
}

/// The columns of an index for `pattern`, given one selectivity key per filtering
/// column; a larger key is a more selective column.
pub fn index_columns(pattern: &QueryPattern, keys: &Vec<u64>) -> (cols: Vec<String>)
    requires
        keys@.len() == pattern.columns@.len(),
    ensures
        texts(cols@) == suggested_columns(*pattern, keys@),
        // Every filtering column is in the index, ahead of any selected column; the
        // selected columns that follow are not filtered on; selected columns are added
        // only up to `MAX_INDEX_COLUMNS` columns.
        suggestion_shape(*pattern, keys@),
        // The filtering columns come first, most selective first and ties in query
        // order; then every selected column not filtered on, in query order and with
        // repeats, while the index has fewer than five columns.
        ({
            let filters = texts(pattern.columns@);
            let nf = filters.len();
            let fresh = texts(pattern.select_columns@).filter(|c: Seq<char>| !filters.contains(c));
            &&& is_rank_order(keys@, rank_order(keys@))
            &&& cols@.len() == if nf >= 5 {
                nf
            } else if nf + fresh.len() <= 5 {
                nf + fresh.len()
            } else {
                5
            }
            &&& forall|i: int| 0 <= i < nf ==> #[trigger] cols@[i]@ == filters[rank_order(keys@)[i] as int]
            &&& forall|k: int| 0 <= k < fresh.len() && nf + k < 5 ==> #[trigger] cols@[nf + k]@ == fresh[k]
        }),
{
    let order = rank_by_key(keys);
    proof {
        law_rank_order_unique(keys@, order@, rank_order(keys@));
        assert(keys@.len() == keys.len());
        lemma_suggestion_shape(*pattern, keys@, order@);
    }
    let ghost where_texts = texts(pattern.columns@);
    let n = order.len();
    let mut cols: Vec<String> = Vec::new();
    for i in 0..n
        invariant
            n == order@.len(),
            is_rank_order(keys@, order@),
            keys@.len() == pattern.columns@.len(),
            where_texts == texts(pattern.columns@),
            cols@.len() == i,
            forall|j: int| 0 <= j < i ==> #[trigger] cols@[j]@ == where_texts[order@[j] as int],
    {
        let c = pattern.columns[order[i]].clone();
        cols.push(c);
    }
    let ghost front = texts(cols@);
    assert(front =~= arranged(where_texts, order@));

    let select = &pattern.select_columns;
    let m = select.len();
    let mut fresh: Vec<String> = Vec::new();
    for j in 0..m
        invariant
            m == select@.len(),
            select == &pattern.select_columns,
            where_texts == texts(pattern.columns@),
            texts(fresh@) == fresh_columns(texts(select@).take(j as int), where_texts),
    {
        let ghost taken_before = texts(select@).take(j as int);
        assert(texts(select@).take(j + 1).drop_last() =~= taken_before);
        assert(texts(select@).take(j + 1).last() == select@[j as int]@);
        if !contains_text(&pattern.columns, &select[j]) {
            fresh.push(select[j].clone());
            assert(texts(fresh@) =~= fresh_columns(texts(select@).take(j as int), where_texts).push(select@[j as int]@));
        }
    }
    assert(texts(select@).take(m as int) =~= texts(select@));
    let ghost extra = texts(fresh@);

    let f = fresh.len();
    let mut t: usize = 0;
    while t < f
        invariant
            f == fresh@.len(),
            extra == texts(fresh@),
            front.len() == n,
            t <= f,
            texts(cols@) == if n >= 5 {
                front
            } else if t <= 5 - n {
                front + extra.take(t as int)
            } else {
                front + extra.take(5 - n)
            },
        decreases f - t,
    {
        assert(texts(cols@).len() == cols@.len());
        let ghost before = cols@;
        if cols.len() < 5 {
            cols.push(fresh[t].clone());
            assert(texts(cols@) =~= texts(before).push(fresh@[t as int]@));
            assert(extra.take(t + 1) =~= extra.take(t as int).push(fresh@[t as int]@));
            assert(front + extra.take(t + 1) =~= (front + extra.take(t as int)).push(fresh@[t as int]@));
        }
        t += 1;
    }
    assert(extra.take(f as int) =~= extra);
    proof {
        law_suggestion_layout(*pattern, keys@);
        assert forall|i: int| 0 <= i < cols@.len() implies #[trigger] cols@[i]@ == texts(cols@)[i] by {}
    }
    cols
}


proof fn lemma_fresh_columns(select: Seq<Seq<char>>, taken: Seq<Seq<char>>)
    ensures
        fresh_columns(select, taken).len() <= select.len(),
        forall|i: int| 0 <= i < fresh_columns(select, taken).len() ==> {
            let c = #[trigger] fresh_columns(select, taken)[i];
            select.contains(c) && !taken.contains(c)
        },
    decreases select.len(),
{
    if select.len() > 0 {
        let before = fresh_columns(select.drop_last(), taken);
        lemma_fresh_columns(select.drop_last(), taken);
        assert forall|i: int| 0 <= i < fresh_columns(select, taken).len() implies {
            let c = #[trigger] fresh_columns(select, taken)[i];
            select.contains(c) && !taken.contains(c)
        } by {
            let c = fresh_columns(select, taken)[i];
            if i < before.len() {
                assert(c == before[i]);
                let k = choose|k: int| 0 <= k < select.drop_last().len() && select.drop_last()[k] == c;
                assert(select[k] == c);
            } else {
                assert(c == select.last());
                assert(select[select.len() - 1] == c);
            }
        }
    }
}

/// The shape of a suggestion, when `keys` has a stable descending order.
pub open spec fn suggestion_shape(p: QueryPattern, keys: Seq<u64>) -> bool {
    let cols = suggested_columns(p, keys);
    let filters = texts(p.columns@);
    &&& filters.len() <= cols.len()
    &&& cols.len() <= if filters.len() >= 5 { filters.len() } else { 5 }
    &&& forall|i: int| 0 <= i < filters.len() ==> #[trigger] cols.contains(filters[i])
    &&& forall|i: int|
        filters.len() <= i < cols.len() ==> texts(p.select_columns@).contains(#[trigger] cols[i])
            && !filters.contains(cols[i])
}

proof fn lemma_suggestion_shape(p: QueryPattern, keys: Seq<u64>, order: Seq<usize>)
    requires
        keys.len() == p.columns@.len(),
        keys.len() <= usize::MAX,
        is_rank_order(keys, order),
    ensures
        suggestion_shape(p, keys),
{
    law_rank_order_unique(keys, order, rank_order(keys));
    let filters = texts(p.columns@);
    let front = arranged(filters, order);
    let extra = fresh_columns(texts(p.select_columns@), filters);
    lemma_fresh_columns(texts(p.select_columns@), filters);
    let cols = suggested_columns(p, keys);
    assert forall|i: int| 0 <= i < front.len() implies cols[i] == front[i] by {
    }
    assert forall|i: int| 0 <= i < filters.len() implies #[trigger] cols.contains(filters[i]) by {
        assert(order.contains(i as usize));
        let k = choose|k: int| 0 <= k < order.len() && order[k] == i as usize;
        assert(front[k] == filters[order[k] as int]);
        assert(cols[k] == front[k]);
        assert(cols[k] == filters[i]);
    }
    assert forall|i: int| filters.len() <= i < cols.len() implies texts(p.select_columns@).contains(#[trigger] cols[i])
        && !filters.contains(cols[i]) by {
        assert(cols[i] == extra[i - filters.len()]);
    }
}

// ---------------------------------------------------------------------------
// Every key sequence has a stable descending order
// ---------------------------------------------------------------------------

/// `o` lists the positions below `k` once each, by descending key, ties in input order.
pub open spec fn ranks_prefix(keys: Seq<u64>, o: Seq<usize>, k: int) -> bool {
    &&& o.len() == k
    &&& forall|i: int| 0 <= i < o.len() ==> #[trigger] o[i] < k
    &&& forall|i: int, j: int|
        #![trigger o[i], o[j]]
        0 <= i < j < o.len() ==> ranks_before(keys, o[i] as int, o[j] as int)
    &&& forall|x: int| 0 <= x < k ==> #[trigger] o.contains(x as usize)
}

/// The first position from `p` on whose key is below `v`, or the end of `o`.
spec fn insert_pos(keys: Seq<u64>, o: Seq<usize>, v: u64, p: int) -> int
    decreases o.len() - p,
{
    if p < 0 || p >= o.len() || keys[o[p] as int] < v {
        p
    } else {
        insert_pos(keys, o, v, p + 1)
    }
}

proof fn lemma_insert_pos(keys: Seq<u64>, o: Seq<usize>, v: u64, p: int)
    requires
        0 <= p <= o.len(),
    ensures
        p <= insert_pos(keys, o, v, p) <= o.len(),
        forall|i: int| p <= i < insert_pos(keys, o, v, p) ==> keys[#[trigger] o[i] as int] >= v,
        insert_pos(keys, o, v, p) == o.len() || keys[o[insert_pos(keys, o, v, p)] as int] < v,
    decreases o.len() - p,
{
    if p < o.len() && keys[o[p] as int] >= v {
        lemma_insert_pos(keys, o, v, p + 1);
    }
}

proof fn lemma_rank_prefix_exists(keys: Seq<u64>, k: int)
    requires
        0 <= k <= keys.len(),
        keys.len() <= usize::MAX,
    ensures
        exists|o: Seq<usize>| #[trigger] ranks_prefix(keys, o, k),
    decreases k,
{
    if k == 0 {
        assert(ranks_prefix(keys, Seq::<usize>::empty(), 0));
    } else {
        lemma_rank_prefix_exists(keys, k - 1);
        let prev = choose|o: Seq<usize>| #[trigger] ranks_prefix(keys, o, k - 1);
        let v = keys[k - 1];
        let p = insert_pos(keys, prev, v, 0);
        lemma_insert_pos(keys, prev, v, 0);
        assert forall|j: int| p <= j < prev.len() implies keys[#[trigger] prev[j] as int] < v by {
            if j > p {
                assert(ranks_before(keys, prev[p] as int, prev[j] as int));
            }
        }
        let item = (k - 1) as usize;
        let o = prev.insert(p, item);
        prev.insert_ensures(p, item);
        assert forall|i: int| 0 <= i < o.len() implies #[trigger] o[i] < k by {
            if i > p {
                assert(o[i] == prev[i - 1]);
            }
        }
        assert forall|i: int, j: int|
            #![trigger o[i], o[j]]
            0 <= i < j < o.len() implies ranks_before(keys, o[i] as int, o[j] as int) by {
            if j < p {
            } else if j == p {
                assert(keys[prev[i] as int] >= v);
            } else if i < p {
                assert(o[j] == prev[j - 1]);
            } else if i == p {
                assert(o[j] == prev[j - 1]);
            } else {
                assert(o[i] == prev[i - 1]);
                assert(o[j] == prev[j - 1]);
            }
        }
        assert forall|x: int| 0 <= x < k implies #[trigger] o.contains(x as usize) by {
            if x < k - 1 {
                assert(prev.contains(x as usize));
                let m = choose|m: int| 0 <= m < prev.len() && prev[m] == x as usize;
                if m < p {
                    assert(o[m] == x as usize);
                } else {
                    assert(o[m + 1] == x as usize);
                }
            } else {
                assert(o[p] == item);
            }
        }
        assert(ranks_prefix(keys, o, k));
    }
}

/// Every sequence of keys that a vector can hold has a stable descending order.
pub proof fn law_rank_order_exists(keys: Seq<u64>)
    requires
        keys.len() <= usize::MAX,
    ensures
        is_rank_order(keys, rank_order(keys)),
{
    lemma_rank_prefix_exists(keys, keys.len() as int);
    let o = choose|o: Seq<usize>| #[trigger] ranks_prefix(keys, o, keys.len() as int);
    assert(is_rank_order(keys, o));
}

proof fn lemma_fresh_is_filter(select: Seq<Seq<char>>, taken: Seq<Seq<char>>)
    ensures
        fresh_columns(select, taken) == select.filter(|c: Seq<char>| !taken.contains(c)),
    decreases select.len(),
{
    reveal(Seq::filter);
    if select.len() > 0 {
        lemma_fresh_is_filter(select.drop_last(), taken);
    }
}

/// The columns of a suggested index: the filtering columns, most selective first and
/// ties in query order; then the selected columns not filtered on, in query order and
/// with repeats, for as long as the index has fewer than five columns.
pub proof fn law_suggestion_layout(p: QueryPattern, keys: Seq<u64>)
    requires
        keys.len() == p.columns@.len(),
    ensures
        ({
            let filters = texts(p.columns@);
            let nf = filters.len();
            let fresh = texts(p.select_columns@).filter(|c: Seq<char>| !filters.contains(c));
            let cols = suggested_columns(p, keys);
            &&& is_rank_order(keys, rank_order(keys))
            &&& cols.len() == if nf >= 5 {
                nf
            } else if nf + fresh.len() <= 5 {
                nf + fresh.len()
            } else {
                5
            }
            &&& forall|i: int| 0 <= i < nf ==> #[trigger] cols[i] == filters[rank_order(keys)[i] as int]
            &&& forall|k: int| 0 <= k < fresh.len() && nf + k < 5 ==> #[trigger] cols[nf + k] == fresh[k]
        }),
{
    assert(p.columns.len() == p.columns@.len());
    law_rank_order_exists(keys);
    let filters = texts(p.columns@);
    lemma_fresh_is_filter(texts(p.select_columns@), filters);
}

} // verus!
