//! Spool listing of the server's REST API: the SQL query and its bound
//! parameters for the filters of `GET /api/spools`.

use vstd::prelude::*;
use vstd::string::StringExecFns;

verus! {

/// Filters of the spool list.
#[derive(Debug)]
pub struct ListQuery {
    /// Filter by material type.
    pub material: Option<String>,
    /// Filter by brand.
    pub brand: Option<String>,
    /// Search in color_name, brand, material.
    pub search: Option<String>,
}

pub open spec fn sql_select() -> Seq<char> {
    "SELECT * FROM spools WHERE 1=1"@
}

pub open spec fn sql_material() -> Seq<char> {
    " AND material = ?"@
}

pub open spec fn sql_brand() -> Seq<char> {
    " AND brand = ?"@
}

pub open spec fn sql_search() -> Seq<char> {
    " AND (color_name LIKE ? OR brand LIKE ? OR material LIKE ?)"@
}

pub open spec fn sql_order() -> Seq<char> {
    " ORDER BY updated_at DESC"@
}

/// `present` ? `clause` : nothing.
pub open spec fn clause_if(present: bool, clause: Seq<char>) -> Seq<char> {
    if present {
        clause
    } else {
        Seq::empty()
    }
}

/// SQL text of the spool list for the given filters.
pub open spec fn list_sql(q: ListQuery) -> Seq<char> {
    sql_select() + clause_if(q.material is Some, sql_material()) + clause_if(
        q.brand is Some,
        sql_brand(),
    ) + clause_if(q.search is Some, sql_search()) + sql_order()
}

/// LIKE pattern that matches any text containing `s`.
pub open spec fn like_pattern(s: Seq<char>) -> Seq<char> {
    "%"@ + s + "%"@
}

/// Parameters bound to the placeholders of `list_sql`, in order.
pub open spec fn list_bindings(q: ListQuery) -> Seq<Seq<char>> {
    (match q.material {
        Some(m) => seq![m@],
        None => Seq::empty(),
    }) + (match q.brand {
        Some(b) => seq![b@],
        None => Seq::empty(),
    }) + (match q.search {
        Some(s) => seq![like_pattern(s@), like_pattern(s@), like_pattern(s@)],
        None => Seq::empty(),
    })
}

/// Builds the SQL text of the spool list and the parameters bound to its
/// placeholders.
pub fn build_list_query(query: &ListQuery) -> (r: (String, Vec<String>))
    ensures
        r.0@ == list_sql(*query),
        r.1@.map_values(|b: String| b@) == list_bindings(*query),
{
    let mut sql = String::from_str("SELECT * FROM spools WHERE 1=1");
    let mut bindings: Vec<String> = Vec::new();
    let ghost mut expected_sql = sql_select();
    let ghost mut expected: Seq<Seq<char>> = Seq::empty();

    if let Some(material) = &query.material {
        sql.append(" AND material = ?");
        bindings.push(material.clone());
    }
    proof {
        expected_sql = expected_sql + clause_if(query.material is Some, sql_material());
        expected = expected + match &query.material {
            Some(m) => seq![m@],
            None => Seq::<Seq<char>>::empty(),
        };
        assert(sql@ =~= expected_sql);
        assert(bindings@.map_values(|b: String| b@) =~= expected);
    }

    if let Some(brand) = &query.brand {
        sql.append(" AND brand = ?");
        bindings.push(brand.clone());
    }
    proof {
        expected_sql = expected_sql + clause_if(query.brand is Some, sql_brand());
        expected = expected + match &query.brand {
            Some(b) => seq![b@],
            None => Seq::<Seq<char>>::empty(),
        };
        assert(sql@ =~= expected_sql);
        assert(bindings@.map_values(|b: String| b@) =~= expected);
    }

    if let Some(search) = &query.search {
        sql.append(" AND (color_name LIKE ? OR brand LIKE ? OR material LIKE ?)");
        let mut pattern = String::from_str("%");
        pattern.append(search.as_str());
        pattern.append("%");
        bindings.push(pattern.clone());
        bindings.push(pattern.clone());
        bindings.push(pattern);
    }
    proof {
        expected_sql = expected_sql + clause_if(query.search is Some, sql_search());
        expected = expected + match &query.search {
            Some(s) => seq![like_pattern(s@), like_pattern(s@), like_pattern(s@)],
            None => Seq::<Seq<char>>::empty(),
        };
        assert(sql@ =~= expected_sql);
        assert(bindings@.map_values(|b: String| b@) =~= expected);
    }

    sql.append(" ORDER BY updated_at DESC");
    assert(sql@ =~= list_sql(*query));
    (sql, bindings)
}

/// Number of `?` placeholders in an SQL text.
pub open spec fn placeholders(s: Seq<char>) -> nat
    decreases s.len(),
{
    if s.len() == 0 {
        0
    } else {
        placeholders(s.drop_last()) + if s.last() == '?' {
            1nat
        } else {
            0nat
        }
    }
}

proof fn lemma_placeholders_concat(a: Seq<char>, b: Seq<char>)
    ensures
        placeholders(a + b) == placeholders(a) + placeholders(b),
    decreases b.len(),
{
    if b.len() > 0 {
        lemma_placeholders_concat(a, b.drop_last());
        assert((a + b).drop_last() =~= a + b.drop_last());
    } else {
        assert(a + b =~= a);
    }
}

proof fn lemma_no_placeholders(s: Seq<char>)
    requires
        forall|i: int| 0 <= i < s.len() ==> s[i] != '?',
    ensures
        placeholders(s) == 0,
    decreases s.len(),
{
    if s.len() > 0 {
        lemma_no_placeholders(s.drop_last());
    }
}

proof fn lemma_one_placeholder()
    ensures
        placeholders(seq!['?']) == 1,
{
    let s = seq!['?'];
    assert(s.drop_last() =~= Seq::<char>::empty());
    assert(placeholders(s.drop_last()) == 0);
    assert(s.last() == '?');
}

/// Splits a text at `k`: the placeholders of both parts add up.
proof fn lemma_placeholders_split(s: Seq<char>, k: int)
    requires
        0 <= k <= s.len(),
    ensures
        placeholders(s) == placeholders(s.subrange(0, k)) + placeholders(s.subrange(k, s.len() as int)),
{
    assert(s =~= s.subrange(0, k) + s.subrange(k, s.len() as int));
    lemma_placeholders_concat(s.subrange(0, k), s.subrange(k, s.len() as int));
}

/// A text whose only placeholder is at `k`.
proof fn lemma_placeholder_at(s: Seq<char>, k: int)
    requires
        0 <= k < s.len(),
        s[k] == '?',
        forall|i: int| 0 <= i < s.len() && i != k ==> s[i] != '?',
    ensures
        placeholders(s) == 1,
{
    lemma_placeholders_split(s, k);
    let rest = s.subrange(k, s.len() as int);
    lemma_placeholders_split(rest, 1);
    assert(rest.subrange(0, 1) =~= seq!['?']);
    lemma_one_placeholder();
    lemma_no_placeholders(s.subrange(0, k));
    lemma_no_placeholders(rest.subrange(1, rest.len() as int));
}

proof fn lemma_clause_placeholders()
    ensures
        placeholders(sql_select()) == 0,
        placeholders(sql_material()) == 1,
        placeholders(sql_brand()) == 1,
        placeholders(sql_search()) == 3,
        placeholders(sql_order()) == 0,
{
    reveal_strlit("SELECT * FROM spools WHERE 1=1");
    reveal_strlit(" AND material = ?");
    reveal_strlit(" AND brand = ?");
    reveal_strlit(" AND (color_name LIKE ? OR brand LIKE ? OR material LIKE ?)");
    reveal_strlit(" ORDER BY updated_at DESC");
    lemma_no_placeholders(sql_select());
    lemma_no_placeholders(sql_order());
    lemma_placeholder_at(sql_material(), 16);
    lemma_placeholder_at(sql_brand(), 13);
    let q = sql_search();
    lemma_placeholders_split(q, 30);
    lemma_placeholders_split(q.subrange(30, 59), 16);
    lemma_placeholder_at(q.subrange(0, 30), 22);
    assert(q.subrange(30, 59).subrange(0, 16) =~= q.subrange(30, 46));
    assert(q.subrange(30, 59).subrange(16, 29) =~= q.subrange(46, 59));
    lemma_placeholder_at(q.subrange(30, 46), 8);
    lemma_placeholder_at(q.subrange(46, 59), 11);
}

/// The SQL text of the spool list has exactly one placeholder for each
/// bound parameter, whatever filters are given.
pub proof fn lemma_placeholders_match_bindings(q: ListQuery)
    ensures
        placeholders(list_sql(q)) == list_bindings(q).len(),
{
    lemma_clause_placeholders();
    let a = sql_select();
    let b = clause_if(q.material is Some, sql_material());
    let c = clause_if(q.brand is Some, sql_brand());
    let d = clause_if(q.search is Some, sql_search());
    let e = sql_order();
    assert(placeholders(Seq::<char>::empty()) == 0);
    lemma_placeholders_concat(a, b);
    lemma_placeholders_concat(a + b, c);
    lemma_placeholders_concat(a + b + c, d);
    lemma_placeholders_concat(a + b + c + d, e);
}

/// `s` holds `clause` at `at`.
pub open spec fn holds_at(s: Seq<char>, at: int, clause: Seq<char>) -> bool {
    &&& 0 <= at
    &&& at + clause.len() <= s.len()
    &&& s.subrange(at, at + clause.len()) == clause
}

/// The first character that tells the clauses apart.
proof fn lemma_clause_marks()
    ensures
        sql_select().len() == 30,
        sql_material().len() == 17 && sql_material()[5] == 'm',
        sql_brand().len() == 14 && sql_brand()[5] == 'b',
        sql_search().len() == 59 && sql_search()[5] == '(',
        sql_order().len() == 25 && sql_order()[5] == 'R',
{
    reveal_strlit("SELECT * FROM spools WHERE 1=1");
    reveal_strlit(" AND material = ?");
    reveal_strlit(" AND brand = ?");
    reveal_strlit(" AND (color_name LIKE ? OR brand LIKE ? OR material LIKE ?)");
    reveal_strlit(" ORDER BY updated_at DESC");
}

/// A text that starts with `head` holds `clause` at 0 exactly when the
/// sixth characters agree, given `head` is one of the filter clauses.
proof fn lemma_holds_at_start(s: Seq<char>, head: Seq<char>, clause: Seq<char>)
    requires
        head.len() >= 6,
        s.len() >= head.len(),
        s.subrange(0, head.len() as int) == head,
        head == clause || head[5] != clause[5],
        clause.len() >= 6,
    ensures
        holds_at(s, 0, clause) <==> head == clause,
{
    if holds_at(s, 0, clause) {
        assert(s[5] == s.subrange(0, head.len() as int)[5]);
        assert(s[5] == s.subrange(0, clause.len() as int)[5]);
    }
}

/// Each filter of the spool list is applied exactly when it is given,
/// whatever the other filters are: after the base select come the
/// material, brand and search clauses, each present exactly when its filter
/// is set, then the ordering; and the bound parameters are the material,
/// the brand and three times the search pattern, each exactly when set.
pub proof fn lemma_filters_applied(q: ListQuery)
    ensures
        ({
            let sql = list_sql(q);
            let m: int = if q.material is Some { 17 } else { 0 };
            let b: int = if q.brand is Some { 14 } else { 0 };
            let t: int = if q.search is Some { 59 } else { 0 };
            &&& holds_at(sql, 0, sql_select())
            &&& (q.material is Some <==> holds_at(sql, 30, sql_material()))
            &&& (q.brand is Some <==> holds_at(sql, 30 + m, sql_brand()))
            &&& (q.search is Some <==> holds_at(sql, 30 + m + b, sql_search()))
            &&& sql.len() == 30 + m + b + t + 25
            &&& holds_at(sql, 30 + m + b + t, sql_order())
        }),
        ({
            let binds = list_bindings(q);
            let mi: int = if q.material is Some { 1 } else { 0 };
            let bi: int = if q.brand is Some { 1 } else { 0 };
            &&& binds.len() == mi + bi + if q.search is Some { 3int } else { 0int }
            &&& (q.material matches Some(mv) ==> binds[0] == mv@)
            &&& (q.brand matches Some(bv) ==> binds[mi] == bv@)
            &&& (q.search matches Some(sv) ==> binds[mi + bi] == like_pattern(sv@) && binds[mi + bi
                + 1] == like_pattern(sv@) && binds[mi + bi + 2] == like_pattern(sv@))
        }),
{
    lemma_clause_marks();
    let sql = list_sql(q);
    let a = sql_select();
    let mc = clause_if(q.material is Some, sql_material());
    let bc = clause_if(q.brand is Some, sql_brand());
    let sc = clause_if(q.search is Some, sql_search());
    let o = sql_order();
    let m: int = mc.len() as int;
    let b: int = bc.len() as int;
    let t: int = sc.len() as int;
    assert(sql == a + mc + bc + sc + o);
    assert(sql.subrange(0, 30) =~= a);
    // the parts after the base select, each starting where the last ended
    let r1 = sql.subrange(30, sql.len() as int);
    let r2 = sql.subrange(30 + m, sql.len() as int);
    let r3 = sql.subrange(30 + m + b, sql.len() as int);
    let r4 = sql.subrange(30 + m + b + t, sql.len() as int);
    assert(r1 =~= mc + bc + sc + o);
    assert(r2 =~= bc + sc + o);
    assert(r3 =~= sc + o);
    assert(r4 =~= o);
    // the clause each part starts with
    let h1 = if q.material is Some { sql_material() } else if q.brand is Some { sql_brand() } else if q.search is Some { sql_search() } else { o };
    let h2 = if q.brand is Some { sql_brand() } else if q.search is Some { sql_search() } else { o };
    let h3 = if q.search is Some { sql_search() } else { o };
    assert(r1.subrange(0, h1.len() as int) =~= h1);
    assert(r2.subrange(0, h2.len() as int) =~= h2);
    assert(r3.subrange(0, h3.len() as int) =~= h3);
    lemma_holds_at_start(r1, h1, sql_material());
    lemma_holds_at_start(r2, h2, sql_brand());
    lemma_holds_at_start(r3, h3, sql_search());
    assert(holds_at(sql, 30, sql_material()) <==> holds_at(r1, 0, sql_material())) by {
        if 30 + 17 <= sql.len() {
            assert(sql.subrange(30, 47) =~= r1.subrange(0, 17));
        }
    }
    assert(holds_at(sql, 30 + m, sql_brand()) <==> holds_at(r2, 0, sql_brand())) by {
        if 30 + m + 14 <= sql.len() {
            assert(sql.subrange(30 + m, 30 + m + 14) =~= r2.subrange(0, 14));
        }
    }
    assert(holds_at(sql, 30 + m + b, sql_search()) <==> holds_at(r3, 0, sql_search())) by {
        if 30 + m + b + 59 <= sql.len() {
            assert(sql.subrange(30 + m + b, 30 + m + b + 59) =~= r3.subrange(0, 59));
        }
    }
    assert(sql.subrange(30 + m + b + t, 30 + m + b + t + 25) =~= o);
}

} // verus!
