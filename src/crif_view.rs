use vstd::prelude::*;

use crate::simm_utils::{
    self, column_at, spec_column_index, spec_unique_column_values, Crif, Table,
};
use crate::constants::{
    lemma_measure_tags_orthogonal, spec_measure_tags, spec_vega_tags, RiskClass, RiskType,
};
use crate::text::{str_eq, string_views};

verus! {

/// A filter condition: a column name and the values a row may hold there.
pub type Condition = (String, Vec<String>);

/// A row satisfies every condition: its header has the column, the row is
/// long enough to have a cell there, and the cell holds an allowed value.
pub open spec fn row_matches(
    t: Table,
    row: Seq<Seq<char>>,
    conds: Seq<(Seq<char>, Seq<Seq<char>>)>,
) -> bool {
    forall|c: int|
        0 <= c < conds.len() ==> match spec_column_index(t, #[trigger] conds[c].0) {
            Some(idx) => idx < row.len() && conds[c].1.contains(row[idx]),
            None => false,
        }
}

/// The rows of `rows` that satisfy every condition, in order.
pub open spec fn matching_rows(
    t: Table,
    rows: Seq<Seq<Seq<char>>>,
    conds: Seq<(Seq<char>, Seq<Seq<char>>)>,
) -> Table
    decreases rows.len(),
{
    if rows.len() == 0 {
        Seq::empty()
    } else {
        let p = matching_rows(t, rows.drop_last(), conds);
        if row_matches(t, rows.last(), conds) {
            p.push(rows.last())
        } else {
            p
        }
    }
}

/// The header followed by the data rows that satisfy every condition.
pub open spec fn spec_filter_rows(t: Table, conds: Seq<(Seq<char>, Seq<Seq<char>>)>) -> Table {
    if t.len() == 0 {
        Seq::empty()
    } else {
        seq![t[0]] + matching_rows(t, t.drop_first(), conds)
    }
}

/// A row holds, for every condition, exactly the given value in the named column.
pub open spec fn row_matches_all(
    t: Table,
    row: Seq<Seq<char>>,
    conds: Seq<(Seq<char>, Seq<char>)>,
) -> bool {
    forall|c: int|
        0 <= c < conds.len() ==> match spec_column_index(t, #[trigger] conds[c].0) {
            Some(idx) => idx < row.len() && row[idx] == conds[c].1,
            None => false,
        }
}

/// The rows of `rows` that do not satisfy all the conditions, in order.
pub open spec fn kept_rows(
    t: Table,
    rows: Seq<Seq<Seq<char>>>,
    conds: Seq<(Seq<char>, Seq<char>)>,
) -> Table
    decreases rows.len(),
{
    if rows.len() == 0 {
        Seq::empty()
    } else {
        let p = kept_rows(t, rows.drop_last(), conds);
        if row_matches_all(t, rows.last(), conds) {
            p
        } else {
            p.push(rows.last())
        }
    }
}

/// The header followed by the data rows that do not satisfy all the conditions.
pub open spec fn spec_drop_rows(t: Table, conds: Seq<(Seq<char>, Seq<char>)>) -> Table {
    if t.len() == 0 {
        Seq::empty()
    } else {
        seq![t[0]] + kept_rows(t, t.drop_first(), conds)
    }
}

/// The cells that the rows have, in row order.
pub open spec fn some_values(vals: Seq<Option<Seq<char>>>) -> Seq<Seq<char>>
    decreases vals.len(),
{
    if vals.len() == 0 {
        Seq::empty()
    } else {
        let p = some_values(vals.drop_last());
        match vals.last() {
            Some(v) => p.push(v),
            None => p,
        }
    }
}

/// The cells of a column, skipping rows too short to have one.
pub open spec fn spec_to_list(t: Table, name: Seq<char>) -> Seq<Seq<char>> {
    match spec_column_index(t, name) {
        Some(i) => some_values(column_at(t, i)),
        None => Seq::empty(),
    }
}

/// The index of the column named `column_name` in the header row.
pub fn get_column_index(crif: &Crif, column_name: &str) -> (r: Option<usize>)
    ensures
        match r {
            Some(i) => spec_column_index(crif.deep_view(), column_name@) == Some(i as int),
            None => spec_column_index(crif.deep_view(), column_name@) is None,
        },
{
    simm_utils::get_column_index(crif, column_name)
}

/// The cell of `row` under the column named `column_name`.
pub fn get_column_value(row: &[String], crif: &Crif, column_name: &str) -> (r: Option<String>)
    ensures
        match spec_column_index(crif.deep_view(), column_name@) {
            Some(i) => if i < row@.len() {
                r is Some && r->0@ == row@[i]@
            } else {
                r is None
            },
            None => r is None,
        },
{
    let idx = match get_column_index(crif, column_name) {
        Some(i) => i,
        None => return None,
    };
    if idx < row.len() {
        Some(row[idx].clone())
    } else {
        None
    }
}

/// A copy of a row.
pub fn copy_row(row: &Vec<String>) -> (r: Vec<String>)
    ensures
        r.deep_view() == row.deep_view(),
{
    let mut r: Vec<String> = Vec::new();
    let mut i: usize = 0;
    while i < row.len()
        invariant
            i <= row@.len(),
            r.deep_view() =~= row.deep_view().subrange(0, i as int),
        decreases row@.len() - i,
    {
        let ghost before = r.deep_view();
        let c = row[i].clone();
        r.push(c);
        assert(r.deep_view() =~= before.push(row.deep_view()[i as int]));
        i += 1;
    }
    assert(row.deep_view().subrange(0, i as int) =~= row.deep_view());
    r
}

/// Whether `row` satisfies every condition, given the condition columns' indices.
fn row_satisfies(
    row: &Vec<String>,
    conditions: &Vec<Condition>,
    indices: &Vec<Option<usize>>,
    Ghost(t): Ghost<Table>,
) -> (r: bool)
    requires
        indices@.len() == conditions@.len(),
        forall|c: int|
            0 <= c < conditions@.len() ==> match #[trigger] indices@[c] {
                Some(i) => spec_column_index(t, conditions.deep_view()[c].0) == Some(i as int),
                None => spec_column_index(t, conditions.deep_view()[c].0) is None,
            },
    ensures
        r == row_matches(t, row.deep_view(), conditions.deep_view()),
{
    let ghost conds = conditions.deep_view();
    let mut c: usize = 0;
    while c < conditions.len()
        invariant
            c <= conditions@.len(),
            conds == conditions.deep_view(),
            indices@.len() == conditions@.len(),
            forall|k: int|
                0 <= k < conditions@.len() ==> match #[trigger] indices@[k] {
                    Some(i) => spec_column_index(t, conds[k].0) == Some(i as int),
                    None => spec_column_index(t, conds[k].0) is None,
                },
            forall|k: int|
                0 <= k < c ==> match spec_column_index(t, #[trigger] conds[k].0) {
                    Some(idx) => idx < row.deep_view().len() && conds[k].1.contains(
                        row.deep_view()[idx],
                    ),
                    None => false,
                },
        decreases conditions@.len() - c,
    {
        let ghost ck = c as int;
        assert(indices@[ck] == indices@[ck]);
        assert(conds[ck].1 == string_views(conditions@[ck].1@));
        assert(conds[ck].1 =~= string_views(conditions@[ck].1@));
        match indices[c] {
            Some(idx) => {
                if idx >= row.len() {
                    return false;
                }
                let allowed = &conditions[c].1;
                assert(conds[ck].1 =~= string_views(allowed@));
                if !simm_utils::contains_string(allowed, &row[idx]) {
                    return false;
                }
            },
            None => {
                return false;
            },
        }
        c += 1;
    }
    true
}

/// The header followed by the data rows that satisfy every condition; a
/// condition on a column the header lacks matches no row.
pub fn filter_rows(crif: &Crif, conditions: &Vec<Condition>) -> (r: Crif)
    ensures
        r.deep_view() == spec_filter_rows(crif.deep_view(), conditions.deep_view()),
{
    let ghost t = crif.deep_view();
    let ghost conds = conditions.deep_view();
    if crif.len() == 0 {
        let r: Crif = Vec::new();
        assert(r.deep_view() =~= Seq::<Seq<Seq<char>>>::empty());
        return r;
    }
    let mut indices: Vec<Option<usize>> = Vec::new();
    let mut c: usize = 0;
    while c < conditions.len()
        invariant
            c <= conditions@.len(),
            indices@.len() == c,
            t == crif.deep_view(),
            conds == conditions.deep_view(),
            forall|k: int|
                0 <= k < c ==> match #[trigger] indices@[k] {
                    Some(i) => spec_column_index(t, conds[k].0) == Some(i as int),
                    None => spec_column_index(t, conds[k].0) is None,
                },
        decreases conditions@.len() - c,
    {
        assert(conds[c as int].0 == conditions@[c as int].0@);
        indices.push(get_column_index(crif, conditions[c].0.as_str()));
        c += 1;
    }
    let mut result: Crif = Vec::new();
    result.push(copy_row(&crif[0]));
    let ghost rows = t.drop_first();
    let mut i: usize = 1;
    assert(rows.subrange(0, 0) =~= Seq::<Seq<Seq<char>>>::empty());
    assert(result.deep_view() =~= seq![t[0]] + matching_rows(t, rows.subrange(0, 0), conds));
    while i < crif.len()
        invariant
            1 <= i <= crif@.len(),
            t == crif.deep_view(),
            conds == conditions.deep_view(),
            rows == t.drop_first(),
            indices@.len() == conditions@.len(),
            forall|k: int|
                0 <= k < conditions@.len() ==> match #[trigger] indices@[k] {
                    Some(i) => spec_column_index(t, conds[k].0) == Some(i as int),
                    None => spec_column_index(t, conds[k].0) is None,
                },
            result.deep_view() == seq![t[0]] + matching_rows(t, rows.subrange(0, i - 1), conds),
        decreases crif@.len() - i,
    {
        let row = &crif[i];
        let ghost pre = rows.subrange(0, i - 1);
        proof {
            assert(rows.subrange(0, i as int).drop_last() =~= pre);
            assert(rows.subrange(0, i as int).last() == t[i as int]);
            assert(t[i as int] == row.deep_view());
        }
        if row_satisfies(row, conditions, &indices, Ghost(t)) {
            let ghost before = result.deep_view();
            result.push(copy_row(row));
            assert(result.deep_view() =~= before.push(row.deep_view()));
        }
        i += 1;
    }
    assert(rows.subrange(0, i - 1) =~= rows);
    result
}

/// Whether `row` holds every condition's value, given the condition columns' indices.
fn row_holds_all(
    row: &Vec<String>,
    conditions: &Vec<(String, String)>,
    indices: &Vec<Option<usize>>,
    Ghost(t): Ghost<Table>,
) -> (r: bool)
    requires
        indices@.len() == conditions@.len(),
        forall|c: int|
            0 <= c < conditions@.len() ==> match #[trigger] indices@[c] {
                Some(i) => spec_column_index(t, conditions.deep_view()[c].0) == Some(i as int),
                None => spec_column_index(t, conditions.deep_view()[c].0) is None,
            },
    ensures
        r == row_matches_all(t, row.deep_view(), conditions.deep_view()),
{
    let ghost conds = conditions.deep_view();
    let mut c: usize = 0;
    while c < conditions.len()
        invariant
            c <= conditions@.len(),
            conds == conditions.deep_view(),
            indices@.len() == conditions@.len(),
            forall|k: int|
                0 <= k < conditions@.len() ==> match #[trigger] indices@[k] {
                    Some(i) => spec_column_index(t, conds[k].0) == Some(i as int),
                    None => spec_column_index(t, conds[k].0) is None,
                },
            forall|k: int|
                0 <= k < c ==> match spec_column_index(t, #[trigger] conds[k].0) {
                    Some(idx) => idx < row.deep_view().len() && row.deep_view()[idx] == conds[k].1,
                    None => false,
                },
        decreases conditions@.len() - c,
    {
        let ghost ck = c as int;
        assert(indices@[ck] == indices@[ck]);
        match indices[c] {
            Some(idx) => {
                if idx >= row.len() {
                    return false;
                }
                if row[idx] != conditions[c].1 {
                    return false;
                }
            },
            None => {
                return false;
            },
        }
        c += 1;
    }
    true
}

/// The header followed by the data rows that do not hold every condition's
/// value; with no conditions every data row goes.
pub fn drop_rows(crif: &Crif, conditions: &Vec<(String, String)>) -> (r: Crif)
    ensures
        r.deep_view() == spec_drop_rows(crif.deep_view(), conditions.deep_view()),
{
    let ghost t = crif.deep_view();
    let ghost conds = conditions.deep_view();
    if crif.len() == 0 {
        let r: Crif = Vec::new();
        assert(r.deep_view() =~= Seq::<Seq<Seq<char>>>::empty());
        return r;
    }
    let mut indices: Vec<Option<usize>> = Vec::new();
    let mut c: usize = 0;
    while c < conditions.len()
        invariant
            c <= conditions@.len(),
            indices@.len() == c,
            t == crif.deep_view(),
            conds == conditions.deep_view(),
            forall|k: int|
                0 <= k < c ==> match #[trigger] indices@[k] {
                    Some(i) => spec_column_index(t, conds[k].0) == Some(i as int),
                    None => spec_column_index(t, conds[k].0) is None,
                },
        decreases conditions@.len() - c,
    {
        assert(conds[c as int].0 == conditions@[c as int].0@);
        indices.push(get_column_index(crif, conditions[c].0.as_str()));
        c += 1;
    }
    let mut result: Crif = Vec::new();
    result.push(copy_row(&crif[0]));
    let ghost rows = t.drop_first();
    let mut i: usize = 1;
    assert(rows.subrange(0, 0) =~= Seq::<Seq<Seq<char>>>::empty());
    assert(result.deep_view() =~= seq![t[0]] + kept_rows(t, rows.subrange(0, 0), conds));
    while i < crif.len()
        invariant
            1 <= i <= crif@.len(),
            t == crif.deep_view(),
            conds == conditions.deep_view(),
            rows == t.drop_first(),
            indices@.len() == conditions@.len(),
            forall|k: int|
                0 <= k < conditions@.len() ==> match #[trigger] indices@[k] {
                    Some(i) => spec_column_index(t, conds[k].0) == Some(i as int),
                    None => spec_column_index(t, conds[k].0) is None,
                },
            result.deep_view() == seq![t[0]] + kept_rows(t, rows.subrange(0, i - 1), conds),
        decreases crif@.len() - i,
    {
        let row = &crif[i];
        let ghost pre = rows.subrange(0, i - 1);
        proof {
            assert(rows.subrange(0, i as int).drop_last() =~= pre);
            assert(rows.subrange(0, i as int).last() == t[i as int]);
            assert(t[i as int] == row.deep_view());
        }
        if !row_holds_all(row, conditions, &indices, Ghost(t)) {
            let ghost before = result.deep_view();
            result.push(copy_row(row));
            assert(result.deep_view() =~= before.push(row.deep_view()));
        }
        i += 1;
    }
    assert(rows.subrange(0, i - 1) =~= rows);
    result
}

/// The distinct present values of a column, in first-seen order.
pub fn unique_values(crif: &Crif, column_name: &str) -> (r: Vec<String>)
    ensures
        string_views(r@) == spec_unique_column_values(crif.deep_view(), column_name@),
{
    simm_utils::unique_column_values(crif, column_name)
}

/// The cells of a column, skipping rows too short to have one; empty when the
/// header has no such column.
pub fn to_list(crif: &Crif, column_name: &str) -> (r: Vec<String>)
    ensures
        string_views(r@) == spec_to_list(crif.deep_view(), column_name@),
{
    let ghost t = crif.deep_view();
    let values = simm_utils::get_column_values(crif, column_name);
    let ghost vals = values.deep_view();
    let mut result: Vec<String> = Vec::new();
    let mut i: usize = 0;
    assert(vals.subrange(0, 0) =~= Seq::<Option<Seq<char>>>::empty());
    assert(string_views(result@) =~= Seq::<Seq<char>>::empty());
    while i < values.len()
        invariant
            vals == values.deep_view(),
            i <= values@.len(),
            string_views(result@) == some_values(vals.subrange(0, i as int)),
        decreases values@.len() - i,
    {
        proof {
            assert(vals.subrange(0, i + 1).drop_last() =~= vals.subrange(0, i as int));
            assert(vals.subrange(0, i + 1).last() == vals[i as int]);
        }
        match &values[i] {
            Some(v) => {
                assert(vals[i as int] == Some(v@));
                let ghost before = string_views(result@);
                result.push(v.clone());
                assert(string_views(result@) =~= before.push(v@));
            },
            None => {},
        }
        i += 1;
    }
    assert(vals.subrange(0, i as int) =~= vals);
    proof {
        if spec_column_index(t, column_name@) is None {
            assert(some_values(vals) =~= Seq::<Seq<char>>::empty());
        }
    }
    result
}

} // verus!

verus! {

/// One data row keyed by column name, in header order.
pub struct Record {
    pub entries: Vec<(String, String)>,
}

/// `j` is the last entry whose key is `key`.
pub open spec fn is_last_key(entries: Seq<(Seq<char>, Seq<char>)>, key: Seq<char>, j: int) -> bool {
    &&& 0 <= j < entries.len()
    &&& entries[j].0 == key
    &&& forall|k: int| j < k < entries.len() ==> entries[k].0 != key
}

/// The entries of a data row under a header: each column name with the row's
/// cell, or the empty text where the row is too short.
pub open spec fn row_record(header: Seq<Seq<char>>, row: Seq<Seq<char>>) -> Seq<(Seq<char>, Seq<char>)> {
    Seq::new(
        header.len(),
        |i: int| (header[i], if i < row.len() { row[i] } else { Seq::empty() }),
    )
}

impl Record {
    /// The value under `key`; where a key repeats, the later column wins.
    pub fn get(&self, key: &str) -> (r: Option<&String>)
        ensures
            match r {
                Some(v) => exists|j: int|
                    is_last_key(self.entries.deep_view(), key@, j) && v@
                        == self.entries.deep_view()[j].1,
                None => forall|j: int|
                    0 <= j < self.entries@.len() ==> self.entries.deep_view()[j].0 != key@,
            },
    {
        let ghost e = self.entries.deep_view();
        let mut j: usize = self.entries.len();
        while j > 0
            invariant
                j <= self.entries@.len(),
                e == self.entries.deep_view(),
                forall|k: int| j <= k < self.entries@.len() ==> e[k].0 != key@,
            decreases j,
        {
            j -= 1;
            if str_eq(self.entries[j].0.as_str(), key) {
                assert(is_last_key(e, key@, j as int));
                return Some(&self.entries[j].1);
            }
        }
        None
    }
}

/// Each data row as a record keyed by the header's column names.
pub fn list_to_dict_list(data_list: &Crif) -> (r: Vec<Record>)
    ensures
        data_list@.len() == 0 ==> r@.len() == 0,
        data_list@.len() > 0 ==> r@.len() == data_list@.len() - 1,
        forall|k: int|
            0 <= k < r@.len() ==> (#[trigger] r@[k]).entries.deep_view() == row_record(
                data_list.deep_view()[0],
                data_list.deep_view()[k + 1],
            ),
{
    let mut r: Vec<Record> = Vec::new();
    if data_list.len() == 0 {
        return r;
    }
    let ghost t = data_list.deep_view();
    let header = &data_list[0];
    assert(t[0] == header.deep_view());
    let mut i: usize = 1;
    while i < data_list.len()
        invariant
            1 <= i <= data_list@.len(),
            t == data_list.deep_view(),
            t[0] == header.deep_view(),
            r@.len() == i - 1,
            forall|k: int|
                0 <= k < r@.len() ==> (#[trigger] r@[k]).entries.deep_view() == row_record(
                    t[0],
                    t[k + 1],
                ),
        decreases data_list@.len() - i,
    {
        let row = &data_list[i];
        assert(t[i as int] == row.deep_view());
        let ghost want = row_record(t[0], t[i as int]);
        let mut entries: Vec<(String, String)> = Vec::new();
        let mut c: usize = 0;
        while c < header.len()
            invariant
                c <= header@.len(),
                t[0] == header.deep_view(),
                t[i as int] == row.deep_view(),
                want == row_record(t[0], t[i as int]),
                entries.deep_view() =~= want.subrange(0, c as int),
            decreases header@.len() - c,
        {
            let value = if c < row.len() {
                row[c].clone()
            } else {
                String::new()
            };
            let ghost before = entries.deep_view();
            entries.push((header[c].clone(), value));
            assert(entries.deep_view() =~= before.push(want[c as int]));
            c += 1;
        }
        assert(want.subrange(0, c as int) =~= want);
        r.push(Record { entries });
        i += 1;
    }
    r
}

} // verus!

verus! {

/// Every row that `matching_rows` keeps satisfies the conditions.
pub proof fn lemma_matching_rows_match(
    t: Table,
    rows: Seq<Seq<Seq<char>>>,
    conds: Seq<(Seq<char>, Seq<Seq<char>>)>,
)
    ensures
        forall|k: int|
            0 <= k < matching_rows(t, rows, conds).len() ==> row_matches(
                t,
                #[trigger] matching_rows(t, rows, conds)[k],
                conds,
            ),
    decreases rows.len(),
{
    if rows.len() > 0 {
        let p = matching_rows(t, rows.drop_last(), conds);
        lemma_matching_rows_match(t, rows.drop_last(), conds);
        let m = matching_rows(t, rows, conds);
        assert forall|k: int| 0 <= k < m.len() implies row_matches(t, #[trigger] m[k], conds) by {
            if k < p.len() {
                assert(m[k] == p[k]);
            }
        }
    }
}

/// The rows that a filter on a measure's risk types selects: for Delta they
/// carry no volatility risk type, for Vega and Curvature only volatility ones.
pub proof fn lemma_measure_rows_orthogonal(t: Table, rc: RiskClass, m: RiskType, k: int)
    requires
        1 <= k < spec_filter_rows(t, seq![("RiskType"@, spec_measure_tags(rc, m))]).len(),
    ensures
        spec_column_index(t, "RiskType"@) is Some,
        ({
            let row = spec_filter_rows(t, seq![("RiskType"@, spec_measure_tags(rc, m))])[k];
            let idx = spec_column_index(t, "RiskType"@)->0;
            &&& idx < row.len()
            &&& m == RiskType::Delta ==> !spec_vega_tags().contains(row[idx])
            &&& (m == RiskType::Vega || m == RiskType::Curvature) ==> spec_vega_tags().contains(
                row[idx],
            )
        }),
{
    let conds = seq![("RiskType"@, spec_measure_tags(rc, m))];
    let kept = matching_rows(t, t.drop_first(), conds);
    lemma_matching_rows_match(t, t.drop_first(), conds);
    let row = spec_filter_rows(t, conds)[k];
    assert(row == kept[k - 1]);
    assert(row_matches(t, row, conds));
    assert(conds[0].0 == "RiskType"@);
    let idx = spec_column_index(t, "RiskType"@)->0;
    lemma_measure_tags_orthogonal(rc, row[idx]);
}

} // verus!

verus! {

/// Which rows satisfy the conditions depends on the table only through its header.
pub proof fn lemma_matching_rows_header_only(
    t1: Table,
    t2: Table,
    rows: Seq<Seq<Seq<char>>>,
    conds: Seq<(Seq<char>, Seq<Seq<char>>)>,
)
    requires
        t1.len() > 0,
        t2.len() > 0,
        t1[0] == t2[0],
    ensures
        matching_rows(t1, rows, conds) == matching_rows(t2, rows, conds),
    decreases rows.len(),
{
    assert(forall|n: Seq<char>| spec_column_index(t1, n) == spec_column_index(t2, n));
    if rows.len() > 0 {
        lemma_matching_rows_header_only(t1, t2, rows.drop_last(), conds);
        assert(row_matches(t1, rows.last(), conds) == row_matches(t2, rows.last(), conds));
    }
}

/// The rows that satisfy the conditions among two runs of rows, one after the other.
pub proof fn lemma_matching_rows_concat(
    t: Table,
    a: Seq<Seq<Seq<char>>>,
    b: Seq<Seq<Seq<char>>>,
    conds: Seq<(Seq<char>, Seq<Seq<char>>)>,
)
    ensures
        matching_rows(t, a + b, conds) == matching_rows(t, a, conds) + matching_rows(t, b, conds),
    decreases b.len(),
{
    if b.len() == 0 {
        assert(a + b =~= a);
        assert(matching_rows(t, a, conds) + matching_rows(t, b, conds) =~= matching_rows(
            t,
            a,
            conds,
        ));
    } else {
        assert((a + b).drop_last() =~= a + b.drop_last());
        assert((a + b).last() == b.last());
        lemma_matching_rows_concat(t, a, b.drop_last(), conds);
        let ma = matching_rows(t, a, conds);
        let mb = matching_rows(t, b.drop_last(), conds);
        if row_matches(t, b.last(), conds) {
            assert(ma + mb.push(b.last()) =~= (ma + mb).push(b.last()));
        }
    }
}

/// Splitting the data rows of a CRIF into two parts under the same header
/// splits the rows that a filter keeps in the same way: the kept rows of the
/// whole are the kept rows of the first part followed by those of the second.
pub proof fn lemma_filter_rows_split(
    header: Seq<Seq<char>>,
    a: Seq<Seq<Seq<char>>>,
    b: Seq<Seq<Seq<char>>>,
    conds: Seq<(Seq<char>, Seq<Seq<char>>)>,
)
    ensures
        spec_filter_rows(seq![header] + a + b, conds) == spec_filter_rows(seq![header] + a, conds)
            + spec_filter_rows(seq![header] + b, conds).drop_first(),
{
    let tu = seq![header] + a + b;
    let ta = seq![header] + a;
    let tb = seq![header] + b;
    assert(tu.drop_first() =~= a + b);
    assert(ta.drop_first() =~= a);
    assert(tb.drop_first() =~= b);
    lemma_matching_rows_concat(tu, a, b, conds);
    lemma_matching_rows_header_only(tu, ta, a, conds);
    lemma_matching_rows_header_only(tu, tb, b, conds);
    let ma = matching_rows(ta, a, conds);
    let mb = matching_rows(tb, b, conds);
    assert((seq![header] + mb).drop_first() =~= mb);
    assert(seq![header] + (ma + mb) =~= (seq![header] + ma) + mb);
}

} // verus!
