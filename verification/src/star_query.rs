//! The SQL text and bind-parameter order of the star search.
//!
//! A search narrows the star table by any subset of thirteen optional filters
//! and may page the result.  Every supplied filter adds one `AND` clause whose
//! placeholder number is its position among the supplied values; the count
//! query wraps the filtered query before ordering and paging are added.

use vstd::prelude::*;
use crate::decimal::{append_decimal, decimal};

verus! {

/// The start of every star search: the star table joined with its dynasty and
/// lunar mansion, followed by an always-true condition that the filter clauses extend.
pub const STAR_BASE_SQL: &'static str = "SELECT s.*, d.name_cn AS dynasty_name, m.name_cn AS mansion_name,
                m.mansion_order AS mansion_order
         FROM ancient_stars s
         LEFT JOIN dynasties d ON s.dynasty_id = d.id
         LEFT JOIN lunar_mansions m ON s.mansion_id = m.id
         WHERE 1=1";

/// Ordering of the search results: brightest first, unknown magnitudes last.
pub const STAR_ORDER_SQL: &'static str = " ORDER BY s.magnitude_num NULLS LAST, s.id";

/// Prefix of the count query; the filtered query follows it.
pub const COUNT_PREFIX_SQL: &'static str = "SELECT COUNT(*) FROM (";

/// Suffix of the count query.
pub const COUNT_SUFFIX_SQL: &'static str = ") q";

/// A query text as an owned string.
pub fn q(sql: &str) -> (r: String)
    ensures
        r@ == sql@,
{
    String::from_str(sql)
}

/// One bind parameter of a star search, named by the search field it comes from.
#[derive(Clone, Copy, Debug, PartialEq, Eq, Structural)]
pub enum StarParam {
    DynastyId,
    DynastyName,
    MansionId,
    Constellation,
    StarName,
    MagMin,
    MagMax,
    RaMin,
    RaMax,
    DecMin,
    DecMax,
    QualityMin,
    SourceBook,
    Limit,
    Offset,
}

/// Which fields of a star search were supplied.
#[derive(Clone, Copy, Debug, PartialEq, Eq, Structural)]
pub struct StarFilterSet {
    pub dynasty_id: bool,
    pub dynasty_name: bool,
    pub mansion_id: bool,
    pub constellation: bool,
    pub star_name: bool,
    pub mag_min: bool,
    pub mag_max: bool,
    pub ra_min: bool,
    pub ra_max: bool,
    pub dec_min: bool,
    pub dec_max: bool,
    pub quality_min: bool,
    pub source_book: bool,
    pub limit: bool,
    pub offset: bool,
}

/// The two statements of a star search and the parameters each one binds, in order.
pub struct StarQuery {
    pub count_sql: String,
    pub count_params: Vec<StarParam>,
    pub select_sql: String,
    pub select_params: Vec<StarParam>,
}

impl StarFilterSet {
    /// Whether the field behind `p` was supplied.
    pub open spec fn has(self, p: StarParam) -> bool {
        match p {
            StarParam::DynastyId => self.dynasty_id,
            StarParam::DynastyName => self.dynasty_name,
            StarParam::MansionId => self.mansion_id,
            StarParam::Constellation => self.constellation,
            StarParam::StarName => self.star_name,
            StarParam::MagMin => self.mag_min,
            StarParam::MagMax => self.mag_max,
            StarParam::RaMin => self.ra_min,
            StarParam::RaMax => self.ra_max,
            StarParam::DecMin => self.dec_min,
            StarParam::DecMax => self.dec_max,
            StarParam::QualityMin => self.quality_min,
            StarParam::SourceBook => self.source_book,
            StarParam::Limit => self.limit,
            StarParam::Offset => self.offset,
        }
    }

    /// Whether the field behind `p` was supplied.
    pub fn contains(&self, p: StarParam) -> (b: bool)
        ensures
            b == self.has(p),
    {
        match p {
            StarParam::DynastyId => self.dynasty_id,
            StarParam::DynastyName => self.dynasty_name,
            StarParam::MansionId => self.mansion_id,
            StarParam::Constellation => self.constellation,
            StarParam::StarName => self.star_name,
            StarParam::MagMin => self.mag_min,
            StarParam::MagMax => self.mag_max,
            StarParam::RaMin => self.ra_min,
            StarParam::RaMax => self.ra_max,
            StarParam::DecMin => self.dec_min,
            StarParam::DecMax => self.dec_max,
            StarParam::QualityMin => self.quality_min,
            StarParam::SourceBook => self.source_book,
            StarParam::Limit => self.limit,
            StarParam::Offset => self.offset,
        }
    }
}

/// The filters, in the order in which their clauses are written.
pub open spec fn filter_order() -> Seq<StarParam> {
    seq![
        StarParam::DynastyId,
        StarParam::DynastyName,
        StarParam::MansionId,
        StarParam::Constellation,
        StarParam::StarName,
        StarParam::MagMin,
        StarParam::MagMax,
        StarParam::RaMin,
        StarParam::RaMax,
        StarParam::DecMin,
        StarParam::DecMax,
        StarParam::QualityMin,
        StarParam::SourceBook,
    ]
}

/// The members of `order` that `f` supplies, in the order of `order`.
pub open spec fn supplied(f: StarFilterSet, order: Seq<StarParam>) -> Seq<StarParam>
    decreases order.len(),
{
    if order.len() == 0 {
        seq![]
    } else {
        let rest = supplied(f, order.drop_last());
        if f.has(order.last()) { rest.push(order.last()) } else { rest }
    }
}

/// The filter parameters of a search, in clause order.
pub open spec fn filter_params(f: StarFilterSet) -> Seq<StarParam> {
    supplied(f, filter_order())
}

/// The paging parameters of a search: the limit, then the offset.
pub open spec fn paging_params(f: StarFilterSet) -> Seq<StarParam> {
    supplied(f, seq![StarParam::Limit, StarParam::Offset])
}

/// The fixed text in front of a parameter's placeholder number.
pub open spec fn clause_head(p: StarParam) -> Seq<char> {
    match p {
        StarParam::DynastyId => " AND s.dynasty_id = $"@,
        StarParam::DynastyName => " AND d.name_cn ILIKE $"@,
        StarParam::MansionId => " AND s.mansion_id = $"@,
        StarParam::Constellation => " AND s.constellation ILIKE $"@,
        StarParam::StarName => " AND (s.star_name_cn ILIKE $"@,
        StarParam::MagMin => " AND s.magnitude_num >= $"@,
        StarParam::MagMax => " AND s.magnitude_num <= $"@,
        StarParam::RaMin => " AND s.ra_j2000 >= $"@,
        StarParam::RaMax => " AND s.ra_j2000 <= $"@,
        StarParam::DecMin => " AND s.dec_j2000 >= $"@,
        StarParam::DecMax => " AND s.dec_j2000 <= $"@,
        StarParam::QualityMin => " AND s.quality_flag >= $"@,
        StarParam::SourceBook => " AND s.source_book ILIKE $"@,
        StarParam::Limit => " LIMIT $"@,
        StarParam::Offset => " OFFSET $"@,
    }
}

/// The clause of parameter `p` bound to placeholder number `k`.  The star name
/// is matched against both the name and the alternative name with one placeholder.
pub open spec fn clause_text(p: StarParam, k: nat) -> Seq<char> {
    if p == StarParam::StarName {
        clause_head(p) + decimal(k) + " OR s.star_name_alt ILIKE $"@ + decimal(k) + ")"@
    } else {
        clause_head(p) + decimal(k)
    }
}

/// The clauses of the parameters `ps`, numbered from `first` on.
pub open spec fn clauses(ps: Seq<StarParam>, first: nat) -> Seq<char>
    decreases ps.len(),
{
    if ps.len() == 0 {
        seq![]
    } else {
        clauses(ps.drop_last(), first) + clause_text(ps.last(), (first + ps.len() - 1) as nat)
    }
}

/// The filtered query, before ordering and paging.
pub open spec fn filtered_sql(f: StarFilterSet) -> Seq<char> {
    STAR_BASE_SQL@ + clauses(filter_params(f), 1)
}

fn clause_head_str(p: StarParam) -> (s: &'static str)
    ensures
        s@ == clause_head(p),
{
    match p {
        StarParam::DynastyId => " AND s.dynasty_id = $",
        StarParam::DynastyName => " AND d.name_cn ILIKE $",
        StarParam::MansionId => " AND s.mansion_id = $",
        StarParam::Constellation => " AND s.constellation ILIKE $",
        StarParam::StarName => " AND (s.star_name_cn ILIKE $",
        StarParam::MagMin => " AND s.magnitude_num >= $",
        StarParam::MagMax => " AND s.magnitude_num <= $",
        StarParam::RaMin => " AND s.ra_j2000 >= $",
        StarParam::RaMax => " AND s.ra_j2000 <= $",
        StarParam::DecMin => " AND s.dec_j2000 >= $",
        StarParam::DecMax => " AND s.dec_j2000 <= $",
        StarParam::QualityMin => " AND s.quality_flag >= $",
        StarParam::SourceBook => " AND s.source_book ILIKE $",
        StarParam::Limit => " LIMIT $",
        StarParam::Offset => " OFFSET $",
    }
}

/// Appends the clause of `p` with placeholder number `k`.
fn append_clause(sql: &mut String, p: StarParam, k: u32)
    ensures
        final(sql)@ == old(sql)@ + clause_text(p, k as nat),
{
    sql.append(clause_head_str(p));
    append_decimal(sql, k);
    if p == StarParam::StarName {
        sql.append(" OR s.star_name_alt ILIKE $");
        append_decimal(sql, k);
        sql.append(")");
    }
}


proof fn lemma_clauses_push(ps: Seq<StarParam>, p: StarParam, first: nat)
    ensures
        clauses(ps.push(p), first) == clauses(ps, first) + clause_text(p, first + ps.len()),
{
    assert(ps.push(p).drop_last() =~= ps);
}

/// Builds the count and select statements of a star search and the order in
/// which the supplied values are bound to their placeholders.
pub fn build_star_query(f: &StarFilterSet) -> (q: StarQuery)
    ensures
        q.count_sql@ == COUNT_PREFIX_SQL@ + filtered_sql(*f) + COUNT_SUFFIX_SQL@,
        q.count_params@ == filter_params(*f),
        q.select_sql@ == filtered_sql(*f) + STAR_ORDER_SQL@
            + clauses(paging_params(*f), filter_params(*f).len() + 1),
        q.select_params@ == filter_params(*f) + paging_params(*f),
{
    let order: Vec<StarParam> = vec![
        StarParam::DynastyId,
        StarParam::DynastyName,
        StarParam::MansionId,
        StarParam::Constellation,
        StarParam::StarName,
        StarParam::MagMin,
        StarParam::MagMax,
        StarParam::RaMin,
        StarParam::RaMax,
        StarParam::DecMin,
        StarParam::DecMax,
        StarParam::QualityMin,
        StarParam::SourceBook,
    ];
    assert(order@ =~= filter_order());
    let mut sql = String::from_str(STAR_BASE_SQL);
    let mut count_params: Vec<StarParam> = Vec::new();
    let mut select_params: Vec<StarParam> = Vec::new();
    let mut next: u32 = 1;
    assert(order@.take(0) =~= Seq::<StarParam>::empty());
    for i in 0..order.len()
        invariant
            order@ == filter_order(),
            count_params@ == supplied(*f, order@.take(i as int)),
            select_params@ == count_params@,
            sql@ == STAR_BASE_SQL@ + clauses(count_params@, 1),
            next == count_params.len() + 1,
            count_params.len() <= i,
    {
        let p = order[i];
        proof {
            assert(order@.take(i + 1).drop_last() =~= order@.take(i as int));
            assert(order@.take(i + 1).last() == p);
        }
        if f.contains(p) {
            proof { lemma_clauses_push(count_params@, p, 1); }
            append_clause(&mut sql, p, next);
            count_params.push(p);
            select_params.push(p);
            next = next + 1;
        }
    }
    assert(order@.take(order@.len() as int) =~= order@);

    let mut count_sql = String::from_str(COUNT_PREFIX_SQL);
    count_sql.append(sql.as_str());
    count_sql.append(COUNT_SUFFIX_SQL);

    sql.append(STAR_ORDER_SQL);
    let ghost ordered = sql@;
    let ghost n = count_params@.len();
    let ghost paging = paging_params(*f);
    assert(seq![StarParam::Limit, StarParam::Offset].drop_last() =~= seq![StarParam::Limit]);
    assert(seq![StarParam::Limit].drop_last() =~= Seq::<StarParam>::empty());
    if f.limit {
        append_clause(&mut sql, StarParam::Limit, next);
        select_params.push(StarParam::Limit);
        next = next + 1;
    }
    if f.offset {
        append_clause(&mut sql, StarParam::Offset, next);
        select_params.push(StarParam::Offset);
    }
    proof {
        let lim: Seq<StarParam> = if f.limit { seq![StarParam::Limit] } else { seq![] };
        assert(seq![StarParam::Limit].last() == StarParam::Limit);
        assert(seq![StarParam::Limit, StarParam::Offset].last() == StarParam::Offset);
        assert(supplied(*f, Seq::<StarParam>::empty()) == Seq::<StarParam>::empty());
        assert(supplied(*f, seq![StarParam::Limit]) =~= lim);
        assert(paging == if f.offset { lim.push(StarParam::Offset) } else { lim });
        lemma_clauses_push(Seq::<StarParam>::empty(), StarParam::Limit, n + 1);
        assert(Seq::<StarParam>::empty().push(StarParam::Limit) =~= seq![StarParam::Limit]);
        if f.offset {
            lemma_clauses_push(lim, StarParam::Offset, n + 1);
        }
        assert(select_params@ =~= count_params@ + paging);
        assert(sql@ =~= ordered + clauses(paging, n + 1));
    }
    StarQuery { count_sql, count_params, select_sql: sql, select_params }
}


proof fn lemma_supplied_members(f: StarFilterSet, order: Seq<StarParam>)
    requires
        order.no_duplicates(),
    ensures
        supplied(f, order).no_duplicates(),
        forall|p: StarParam| supplied(f, order).contains(p) <==> (order.contains(p) && f.has(p)),
    decreases order.len(),
{
    if order.len() > 0 {
        let init = order.drop_last();
        assert forall|i: int, j: int| 0 <= i < init.len() && 0 <= j < init.len() && i != j
            implies init[i] != init[j] by {
            assert(init[i] == order[i] && init[j] == order[j]);
        }
        lemma_supplied_members(f, init);
        let last = order.last();
        assert(!init.contains(last)) by {
            if init.contains(last) {
                let k = choose|k: int| 0 <= k < init.len() && init[k] == last;
                assert(order[k] == order[order.len() - 1]);
            }
        }
        assert forall|p: StarParam| order.contains(p) <==> (init.contains(p) || p == last) by {
            if order.contains(p) {
                let k = choose|k: int| 0 <= k < order.len() && order[k] == p;
                if k < order.len() - 1 {
                    assert(init[k] == p);
                }
            }
            if init.contains(p) {
                let k = choose|k: int| 0 <= k < init.len() && init[k] == p;
                assert(order[k] == p);
            }
            if p == last {
                assert(order[order.len() - 1] == p);
            }
        }
        let rest = supplied(f, init);
        if f.has(last) {
            assert forall|p: StarParam| #[trigger] rest.push(last).contains(p) <==> (rest.contains(p) || p == last) by {
                if rest.push(last).contains(p) {
                    let k = choose|k: int| 0 <= k < rest.push(last).len() && rest.push(last)[k] == p;
                    if k < rest.len() {
                        assert(rest[k] == p);
                    }
                }
                if rest.contains(p) {
                    let k = choose|k: int| 0 <= k < rest.len() && rest[k] == p;
                    assert(rest.push(last)[k] == p);
                }
                if p == last {
                    assert(rest.push(last)[rest.len() as int] == p);
                }
            }
            assert forall|i: int, j: int| 0 <= i < rest.push(last).len() && 0 <= j < rest.push(last).len() && i != j
                implies rest.push(last)[i] != rest.push(last)[j] by {
                if i < rest.len() && j < rest.len() {
                    assert(rest.push(last)[i] == rest[i] && rest.push(last)[j] == rest[j]);
                } else if i < rest.len() {
                    assert(rest.contains(rest[i]));
                } else if j < rest.len() {
                    assert(rest.contains(rest[j]));
                }
            }
        }
    }
}

/// Every supplied search field is bound to exactly one placeholder of the
/// select statement, and nothing else is bound.
pub proof fn lemma_each_supplied_field_bound_once(f: StarFilterSet)
    ensures
        (filter_params(f) + paging_params(f)).no_duplicates(),
        forall|p: StarParam| (filter_params(f) + paging_params(f)).contains(p) <==> f.has(p),
{
    let order = filter_order();
    let paging_order = seq![StarParam::Limit, StarParam::Offset];
    assert(order.no_duplicates()) by {
        assert forall|i: int, j: int| 0 <= i < order.len() && 0 <= j < order.len() && i != j
            implies order[i] != order[j] by {
            assert(order.len() == 13);
        }
    }
    lemma_supplied_members(f, order);
    lemma_supplied_members(f, paging_order);
    let a = filter_params(f);
    let b = paging_params(f);
    assert forall|p: StarParam| (a + b).contains(p) <==> (a.contains(p) || b.contains(p)) by {
        if (a + b).contains(p) {
            let k = choose|k: int| 0 <= k < (a + b).len() && (a + b)[k] == p;
            if k < a.len() {
                assert(a[k] == p);
            } else {
                assert(b[k - a.len()] == p);
            }
        }
        if a.contains(p) {
            let k = choose|k: int| 0 <= k < a.len() && a[k] == p;
            assert((a + b)[k] == p);
        }
        if b.contains(p) {
            let k = choose|k: int| 0 <= k < b.len() && b[k] == p;
            assert((a + b)[a.len() + k] == p);
        }
    }
    assert forall|p: StarParam| order.contains(p) || paging_order.contains(p) by {
        match p {
            StarParam::DynastyId => { assert(order[0] == p); },
            StarParam::DynastyName => { assert(order[1] == p); },
            StarParam::MansionId => { assert(order[2] == p); },
            StarParam::Constellation => { assert(order[3] == p); },
            StarParam::StarName => { assert(order[4] == p); },
            StarParam::MagMin => { assert(order[5] == p); },
            StarParam::MagMax => { assert(order[6] == p); },
            StarParam::RaMin => { assert(order[7] == p); },
            StarParam::RaMax => { assert(order[8] == p); },
            StarParam::DecMin => { assert(order[9] == p); },
            StarParam::DecMax => { assert(order[10] == p); },
            StarParam::QualityMin => { assert(order[11] == p); },
            StarParam::SourceBook => { assert(order[12] == p); },
            StarParam::Limit => { assert(paging_order[0] == p); },
            StarParam::Offset => { assert(paging_order[1] == p); },
        }
    }
    assert forall|i: int, j: int| 0 <= i < (a + b).len() && 0 <= j < (a + b).len() && i != j
        implies (a + b)[i] != (a + b)[j] by {
        if i < a.len() && j < a.len() {
        } else if i >= a.len() && j >= a.len() {
            assert((a + b)[i] == b[i - a.len()] && (a + b)[j] == b[j - a.len()]);
        } else {
            let (x, y) = if i < a.len() { (i, j) } else { (j, i) };
            assert(a.contains((a + b)[x]));
            assert(b.contains(b[y - a.len()]));
            let v = (a + b)[x];
            assert(order.contains(v));
            assert(paging_order.contains(b[y - a.len()]));
            if v == b[y - a.len()] {
                let k = choose|k: int| 0 <= k < order.len() && order[k] == v;
                assert(order.len() == 13);
            }
        }
    }
}


/// The clause each search field writes, as literal SQL: identifiers are
/// matched with `=`, names with `ILIKE`, every minimum bound with `>=` and
/// every maximum bound with `<=` on the column of that field, and paging with
/// `LIMIT` and `OFFSET`; the star name is matched against both name columns.
pub proof fn lemma_clause_literals(k: nat)
    ensures
        clause_text(StarParam::DynastyId, k) == " AND s.dynasty_id = $"@ + decimal(k),
        clause_text(StarParam::DynastyName, k) == " AND d.name_cn ILIKE $"@ + decimal(k),
        clause_text(StarParam::MansionId, k) == " AND s.mansion_id = $"@ + decimal(k),
        clause_text(StarParam::Constellation, k) == " AND s.constellation ILIKE $"@ + decimal(k),
        clause_text(StarParam::StarName, k) == " AND (s.star_name_cn ILIKE $"@ + decimal(k)
            + " OR s.star_name_alt ILIKE $"@ + decimal(k) + ")"@,
        clause_text(StarParam::MagMin, k) == " AND s.magnitude_num >= $"@ + decimal(k),
        clause_text(StarParam::MagMax, k) == " AND s.magnitude_num <= $"@ + decimal(k),
        clause_text(StarParam::RaMin, k) == " AND s.ra_j2000 >= $"@ + decimal(k),
        clause_text(StarParam::RaMax, k) == " AND s.ra_j2000 <= $"@ + decimal(k),
        clause_text(StarParam::DecMin, k) == " AND s.dec_j2000 >= $"@ + decimal(k),
        clause_text(StarParam::DecMax, k) == " AND s.dec_j2000 <= $"@ + decimal(k),
        clause_text(StarParam::QualityMin, k) == " AND s.quality_flag >= $"@ + decimal(k),
        clause_text(StarParam::SourceBook, k) == " AND s.source_book ILIKE $"@ + decimal(k),
        clause_text(StarParam::Limit, k) == " LIMIT $"@ + decimal(k),
        clause_text(StarParam::Offset, k) == " OFFSET $"@ + decimal(k),
{
}

/// A search binds a value for a field, and writes its clause, exactly when
/// the request supplies that very field.
pub proof fn lemma_bound_fields_are_the_supplied_ones(f: StarFilterSet)
    ensures
        filter_params(f).contains(StarParam::DynastyId) <==> f.dynasty_id,
        filter_params(f).contains(StarParam::DynastyName) <==> f.dynasty_name,
        filter_params(f).contains(StarParam::MansionId) <==> f.mansion_id,
        filter_params(f).contains(StarParam::Constellation) <==> f.constellation,
        filter_params(f).contains(StarParam::StarName) <==> f.star_name,
        filter_params(f).contains(StarParam::MagMin) <==> f.mag_min,
        filter_params(f).contains(StarParam::MagMax) <==> f.mag_max,
        filter_params(f).contains(StarParam::RaMin) <==> f.ra_min,
        filter_params(f).contains(StarParam::RaMax) <==> f.ra_max,
        filter_params(f).contains(StarParam::DecMin) <==> f.dec_min,
        filter_params(f).contains(StarParam::DecMax) <==> f.dec_max,
        filter_params(f).contains(StarParam::QualityMin) <==> f.quality_min,
        filter_params(f).contains(StarParam::SourceBook) <==> f.source_book,
        !filter_params(f).contains(StarParam::Limit),
        !filter_params(f).contains(StarParam::Offset),
        paging_params(f).contains(StarParam::Limit) <==> f.limit,
        paging_params(f).contains(StarParam::Offset) <==> f.offset,
        paging_params(f).len() <= 2,
        forall|p: StarParam| #[trigger] paging_params(f).contains(p) ==> (p == StarParam::Limit || p == StarParam::Offset),
{
    let order = filter_order();
    assert(order.no_duplicates()) by {
        assert forall|i: int, j: int| 0 <= i < order.len() && 0 <= j < order.len() && i != j
            implies order[i] != order[j] by {
            assert(order.len() == 13);
        }
    }
    lemma_supplied_members(f, order);
    let paging_order = seq![StarParam::Limit, StarParam::Offset];
    lemma_supplied_members(f, paging_order);
    assert(order[0] == StarParam::DynastyId);
    assert(order.contains(StarParam::DynastyId));
    assert(order[1] == StarParam::DynastyName);
    assert(order.contains(StarParam::DynastyName));
    assert(order[2] == StarParam::MansionId);
    assert(order.contains(StarParam::MansionId));
    assert(order[3] == StarParam::Constellation);
    assert(order.contains(StarParam::Constellation));
    assert(order[4] == StarParam::StarName);
    assert(order.contains(StarParam::StarName));
    assert(order[5] == StarParam::MagMin);
    assert(order.contains(StarParam::MagMin));
    assert(order[6] == StarParam::MagMax);
    assert(order.contains(StarParam::MagMax));
    assert(order[7] == StarParam::RaMin);
    assert(order.contains(StarParam::RaMin));
    assert(order[8] == StarParam::RaMax);
    assert(order.contains(StarParam::RaMax));
    assert(order[9] == StarParam::DecMin);
    assert(order.contains(StarParam::DecMin));
    assert(order[10] == StarParam::DecMax);
    assert(order.contains(StarParam::DecMax));
    assert(order[11] == StarParam::QualityMin);
    assert(order.contains(StarParam::QualityMin));
    assert(order[12] == StarParam::SourceBook);
    assert(order.contains(StarParam::SourceBook));
    assert(paging_order[0] == StarParam::Limit);
    assert(paging_order[1] == StarParam::Offset);
    assert(paging_order.contains(StarParam::Limit));
    assert(paging_order.contains(StarParam::Offset));
    assert(!order.contains(StarParam::Limit)) by {
        if order.contains(StarParam::Limit) {
            let k = choose|k: int| 0 <= k < order.len() && order[k] == StarParam::Limit;
            assert(order.len() == 13);
        }
    }
    assert(!order.contains(StarParam::Offset)) by {
        if order.contains(StarParam::Offset) {
            let k = choose|k: int| 0 <= k < order.len() && order[k] == StarParam::Offset;
            assert(order.len() == 13);
        }
    }
    assert forall|p: StarParam| #[trigger] paging_params(f).contains(p)
        implies (p == StarParam::Limit || p == StarParam::Offset) by {
        assert(paging_order.contains(p));
        let k = choose|k: int| 0 <= k < paging_order.len() && paging_order[k] == p;
    }
    reveal_with_fuel(supplied, 3);
    assert(seq![StarParam::Limit, StarParam::Offset].drop_last() =~= seq![StarParam::Limit]);
    assert(seq![StarParam::Limit].drop_last() =~= Seq::<StarParam>::empty());
}

/// A search supplying only the lower right-ascension bound selects the stars
/// at or above it: its filtered query is the base query followed by
/// " AND s.ra_j2000 >= $1", and it binds that one value.
pub proof fn lemma_ra_lower_bound_search(f: StarFilterSet)
    requires
        f.ra_min,
        !f.dynasty_id, !f.dynasty_name, !f.mansion_id, !f.constellation, !f.star_name,
        !f.mag_min, !f.mag_max, !f.ra_max, !f.dec_min, !f.dec_max, !f.quality_min,
        !f.source_book,
    ensures
        filter_params(f) == seq![StarParam::RaMin],
        filtered_sql(f) == STAR_BASE_SQL@ + " AND s.ra_j2000 >= $1"@,
{
    reveal_with_fuel(supplied, 14);
    let ps = filter_params(f);
    assert(ps =~= seq![StarParam::RaMin]);
    assert(ps.drop_last() =~= Seq::<StarParam>::empty());
    reveal_strlit("1");
    assert(decimal(1) =~= seq!['1']);
    lemma_clause_literals(1);
    assert(ps.last() == StarParam::RaMin);
    assert(clauses(ps.drop_last(), 1) == Seq::<char>::empty());
    assert(clauses(ps, 1) =~= clause_text(StarParam::RaMin, 1));
    assert(" AND s.ra_j2000 >= $"@ + decimal(1) =~= " AND s.ra_j2000 >= $1"@) by {
        reveal_strlit(" AND s.ra_j2000 >= $");
        reveal_strlit(" AND s.ra_j2000 >= $1");
    }
}


/// The clauses of a search come in a fixed order: dynasty id, dynasty name,
/// mansion, constellation, star name, magnitude bounds, right-ascension bounds,
/// declination bounds, quality and source book; the count and select
/// statements end as written here.
pub proof fn lemma_search_layout(f: StarFilterSet)
    requires
        f.dynasty_id, f.dynasty_name, f.mansion_id, f.constellation, f.star_name,
        f.mag_min, f.mag_max, f.ra_min, f.ra_max, f.dec_min, f.dec_max, f.quality_min,
        f.source_book,
    ensures
        filter_params(f) == seq![
            StarParam::DynastyId, StarParam::DynastyName, StarParam::MansionId,
            StarParam::Constellation, StarParam::StarName, StarParam::MagMin,
            StarParam::MagMax, StarParam::RaMin, StarParam::RaMax, StarParam::DecMin,
            StarParam::DecMax, StarParam::QualityMin, StarParam::SourceBook,
        ],
        STAR_ORDER_SQL@ == " ORDER BY s.magnitude_num NULLS LAST, s.id"@,
        COUNT_PREFIX_SQL@ == "SELECT COUNT(*) FROM ("@,
        COUNT_SUFFIX_SQL@ == ") q"@,
{
    reveal_with_fuel(supplied, 14);
    assert(filter_params(f) =~= filter_order());
}

} // verus!
