use vstd::prelude::*;

use crate::text::{
    ascii_lower_is, lower_eq, opt_view, parse_usize, spec_parse_usize, str_eq, string_views, views,
};

verus! {

/// A CRIF table: the first row is the header, each further row one sensitivity.
pub type Crif = Vec<Vec<String>>;

/// A CRIF table seen as rows of cells, each cell a character sequence.
pub type Table = Seq<Seq<Seq<char>>>;

/// `i` is the first position of `x` in `s`.
pub open spec fn is_first_index(s: Seq<Seq<char>>, x: Seq<char>, i: int) -> bool {
    &&& 0 <= i < s.len()
    &&& s[i] == x
    &&& forall|k: int| 0 <= k < i ==> s[k] != x
}

/// The position of the column named `name` in the header, the first one if
/// the name repeats.
pub open spec fn spec_column_index(t: Table, name: Seq<char>) -> Option<int> {
    if t.len() > 0 && t[0].contains(name) {
        Some(choose|i: int| is_first_index(t[0], name, i))
    } else {
        None
    }
}

/// The cells of column `idx` of every data row, `None` for a row too short to have one.
pub open spec fn column_at(t: Table, idx: int) -> Seq<Option<Seq<char>>> {
    Seq::new(
        (if t.len() > 0 { t.len() - 1 } else { 0 }) as nat,
        |k: int| if idx < t[k + 1].len() { Some(t[k + 1][idx]) } else { None },
    )
}

/// The cells of the column named `name`; empty when there is no such column.
pub open spec fn spec_column_values(t: Table, name: Seq<char>) -> Seq<Option<Seq<char>>> {
    match spec_column_index(t, name) {
        Some(i) => column_at(t, i),
        None => Seq::empty(),
    }
}

/// The distinct elements of `s` in the order in which they first occur.
pub open spec fn dedup<T>(s: Seq<T>) -> Seq<T>
    decreases s.len(),
{
    if s.len() == 0 {
        Seq::empty()
    } else {
        let d = dedup(s.drop_last());
        if d.contains(s.last()) {
            d
        } else {
            d.push(s.last())
        }
    }
}

pub proof fn lemma_first_index_unique(s: Seq<Seq<char>>, x: Seq<char>, i: int, j: int)
    requires
        is_first_index(s, x, i),
        is_first_index(s, x, j),
    ensures
        i == j,
{
}

/// Unfolds `dedup` on a sequence extended by one element.
pub proof fn lemma_dedup_push<T>(s: Seq<T>, x: T)
    ensures
        dedup(s.push(x)) == (if dedup(s).contains(x) {
            dedup(s)
        } else {
            dedup(s).push(x)
        }),
{
    assert(s.push(x).drop_last() =~= s);
}

/// Every element of `dedup(s)` occurs in `s`, and every element of `s` occurs once in it.
pub proof fn lemma_dedup_contains<T>(s: Seq<T>, x: T)
    ensures
        dedup(s).contains(x) == s.contains(x),
    decreases s.len(),
{
    if s.len() > 0 {
        let p = s.drop_last();
        let d = dedup(p);
        lemma_dedup_contains(p, x);
        assert(s =~= p.push(s.last()));
        if p.contains(x) {
            let k = choose|k: int| 0 <= k < p.len() && p[k] == x;
            assert(s[k] == x);
        }
        if x == s.last() {
            assert(s[s.len() - 1] == x);
        }
        if s.contains(x) && x != s.last() {
            let k = choose|k: int| 0 <= k < s.len() && s[k] == x;
            assert(p[k] == x);
        }
        if !d.contains(s.last()) {
            let e = d.push(s.last());
            if d.contains(x) {
                let k = choose|k: int| 0 <= k < d.len() && d[k] == x;
                assert(e[k] == x);
            }
            if x == s.last() {
                assert(e[d.len() as int] == x);
            }
            if e.contains(x) && x != s.last() {
                let k = choose|k: int| 0 <= k < e.len() && e[k] == x;
                assert(d[k] == x);
            }
        }
    }
}

/// The index of the column named `column_name` in the header row.
pub fn get_column_index(crif: &Crif, column_name: &str) -> (r: Option<usize>)
    ensures
        match r {
            Some(i) => spec_column_index(crif.deep_view(), column_name@) == Some(i as int),
            None => spec_column_index(crif.deep_view(), column_name@) is None,
        },
{
    if crif.len() == 0 {
        return None;
    }
    let ghost t = crif.deep_view();
    let header = &crif[0];
    assert(t[0] == header.deep_view());
    let mut i: usize = 0;
    while i < header.len()
        invariant
            i <= header@.len(),
            t == crif.deep_view(),
            t.len() > 0,
            t[0] == header.deep_view(),
            forall|k: int| 0 <= k < i ==> t[0][k] != column_name@,
        decreases header@.len() - i,
    {
        if str_eq(header[i].as_str(), column_name) {
            proof {
                assert(is_first_index(t[0], column_name@, i as int));
                let j = choose|j: int| is_first_index(t[0], column_name@, j);
                lemma_first_index_unique(t[0], column_name@, i as int, j);
            }
            return Some(i);
        }
        i += 1;
    }
    None
}

/// The cells of a column, `None` for each row too short to have one; empty
/// when the header has no such column.
pub fn get_column_values(crif: &Crif, column_name: &str) -> (r: Vec<Option<String>>)
    ensures
        r.deep_view() == spec_column_values(crif.deep_view(), column_name@),
{
    let idx = match get_column_index(crif, column_name) {
        Some(i) => i,
        None => {
            let r: Vec<Option<String>> = Vec::new();
            assert(r.deep_view() =~= Seq::<Option<Seq<char>>>::empty());
            return r;
        },
    };
    let ghost t = crif.deep_view();
    let ghost col = column_at(t, idx as int);
    let mut r: Vec<Option<String>> = Vec::new();
    let mut i: usize = 1;
    while i < crif.len()
        invariant
            1 <= i <= crif@.len(),
            t == crif.deep_view(),
            col == column_at(t, idx as int),
            r.deep_view() =~= col.subrange(0, i - 1),
        decreases crif@.len() - i,
    {
        let row = &crif[i];
        assert(t[i as int] == row.deep_view());
        let ghost before = r.deep_view();
        if idx < row.len() {
            let c = row[idx].clone();
            assert(t[i as int][idx as int] == c@);
            r.push(Some(c));
        } else {
            r.push(None);
        }
        assert(r.deep_view() =~= before.push(col[i - 1]));
        assert(r.deep_view() =~= col.subrange(0, i as int));
        i += 1;
    }
    assert(col.subrange(0, i - 1) =~= col);
    r
}

/// Whether one of the strings of `v` equals `s`.
pub fn contains_string(v: &Vec<String>, s: &String) -> (r: bool)
    ensures
        r == string_views(v@).contains(s@),
{
    let mut i: usize = 0;
    while i < v.len()
        invariant
            i <= v@.len(),
            forall|k: int| 0 <= k < i ==> v@[k]@ != s@,
        decreases v@.len() - i,
    {
        if v[i] == *s {
            assert(string_views(v@)[i as int] == s@);
            return true;
        }
        i += 1;
    }
    proof {
        if string_views(v@).contains(s@) {
            let k = choose|k: int| 0 <= k < v@.len() && string_views(v@)[k] == s@;
            assert(v@[k]@ == s@);
        }
    }
    false
}

/// The distinct values of a list, in the order in which they first occur.
pub fn unique_list(values: Vec<String>) -> (r: Vec<String>)
    ensures
        string_views(r@) == dedup(string_views(values@)),
{
    let ghost vs = string_views(values@);
    let mut r: Vec<String> = Vec::new();
    let mut i: usize = 0;
    assert(vs.subrange(0, 0) =~= Seq::<Seq<char>>::empty());
    assert(string_views(r@) =~= Seq::<Seq<char>>::empty());
    while i < values.len()
        invariant
            i <= values@.len(),
            vs == string_views(values@),
            string_views(r@) == dedup(vs.subrange(0, i as int)),
        decreases values@.len() - i,
    {
        let v = &values[i];
        proof {
            assert(vs.subrange(0, i + 1) =~= vs.subrange(0, i as int).push(v@));
            lemma_dedup_push(vs.subrange(0, i as int), v@);
        }
        if !contains_string(&r, v) {
            r.push(v.clone());
            assert(string_views(r@) =~= dedup(vs.subrange(0, i as int)).push(v@));
        }
        i += 1;
    }
    assert(vs.subrange(0, i as int) =~= vs);
    r
}

} // verus!

verus! {

/// The twelve SIMM tenors, in order.
pub open spec fn spec_tenors() -> Seq<Seq<char>> {
    seq![
        "2w"@, "1m"@, "3m"@, "6m"@, "1y"@, "2y"@, "3y"@, "5y"@, "10y"@, "15y"@, "20y"@, "30y"@,
    ]
}

/// The twelve SIMM tenors, in order.
pub fn simm_tenor_list() -> (r: Vec<&'static str>)
    ensures
        views(r@) == spec_tenors(),
{
    let r = vec!["2w", "1m", "3m", "6m", "1y", "2y", "3y", "5y", "10y", "15y", "20y", "30y"];
    assert(views(r@) =~= spec_tenors());
    r
}

/// The first tenor, from position `k` of the list on, that `v` spells up to case.
pub open spec fn tenor_match(v: Seq<char>, k: int) -> Option<Seq<char>>
    decreases 12 - k,
{
    if k < 0 || k >= 12 {
        None
    } else if ascii_lower_is(v, spec_tenors()[k]) {
        Some(spec_tenors()[k])
    } else {
        tenor_match(v, k + 1)
    }
}

/// The SIMM tenor that a label names, ignoring the case of letters.
pub open spec fn spec_canonical_tenor(v: Seq<char>) -> Option<Seq<char>> {
    tenor_match(v, 0)
}

/// The SIMM tenor that a label names, ignoring the case of letters.
pub fn canonical_tenor(v: &str) -> (r: Option<&'static str>)
    ensures
        match r {
            Some(t) => spec_canonical_tenor(v@) == Some(t@),
            None => spec_canonical_tenor(v@) is None,
        },
{
    let tenors = simm_tenor_list();
    assert(views(tenors@).len() == tenors@.len());
    let mut k: usize = 0;
    while k < 12
        invariant
            k <= 12,
            tenors@.len() == 12,
            views(tenors@) == spec_tenors(),
            tenor_match(v@, 0) == tenor_match(v@, k as int),
        decreases 12 - k,
    {
        assert(views(tenors@)[k as int] == spec_tenors()[k as int]);
        if lower_eq(v, tenors[k]) {
            return Some(tenors[k]);
        }
        k += 1;
    }
    None
}

/// A cell that holds a value: not empty and not the text `nan`.
pub open spec fn is_present(v: Seq<char>) -> bool {
    v.len() > 0 && v != "nan"@
}

/// Whether a cell holds a value.
pub fn present(v: &str) -> (r: bool)
    ensures
        r == is_present(v@),
{
    v.unicode_len() > 0 && !str_eq(v, "nan")
}

/// The values of the present cells, in row order.
pub open spec fn present_values(vals: Seq<Option<Seq<char>>>) -> Seq<Seq<char>>
    decreases vals.len(),
{
    if vals.len() == 0 {
        Seq::empty()
    } else {
        let p = present_values(vals.drop_last());
        match vals.last() {
            Some(v) => if is_present(v) {
                p.push(v)
            } else {
                p
            },
            None => p,
        }
    }
}

/// The tenors that the cells name, in row order.
pub open spec fn tenor_values(vals: Seq<Option<Seq<char>>>) -> Seq<Seq<char>>
    decreases vals.len(),
{
    if vals.len() == 0 {
        Seq::empty()
    } else {
        let p = tenor_values(vals.drop_last());
        match vals.last() {
            Some(v) => match spec_canonical_tenor(v) {
                Some(t) => p.push(t),
                None => p,
            },
            None => p,
        }
    }
}

/// `v` with its two three-character halves swapped.
pub open spec fn swap_halves(v: Seq<char>) -> Seq<char> {
    v.subrange(3, 6) + v.subrange(0, 3)
}

/// The six-character cells, in row order, each kept unless the pair with its
/// halves swapped was kept before it.
pub open spec fn pair_values(vals: Seq<Option<Seq<char>>>) -> Seq<Seq<char>>
    decreases vals.len(),
{
    if vals.len() == 0 {
        Seq::empty()
    } else {
        let p = pair_values(vals.drop_last());
        match vals.last() {
            Some(v) => if is_present(v) && v.len() == 6 && !p.contains(swap_halves(v)) {
                p.push(v)
            } else {
                p
            },
            None => p,
        }
    }
}

/// The bucket numbers of the cells, in row order (`Residual` left out).
pub open spec fn bucket_numbers(vals: Seq<Option<Seq<char>>>) -> Seq<usize>
    decreases vals.len(),
{
    if vals.len() == 0 {
        Seq::empty()
    } else {
        let p = bucket_numbers(vals.drop_last());
        match vals.last() {
            Some(v) => if v != "Residual"@ && is_present(v) && spec_parse_usize(v) is Some {
                p.push(spec_parse_usize(v)->0)
            } else {
                p
            },
            None => p,
        }
    }
}

pub open spec fn has_residual(vals: Seq<Option<Seq<char>>>) -> bool {
    vals.contains(Some("Residual"@))
}

/// The distinct present values of a column, in first-seen order.
pub open spec fn spec_unique_column_values(t: Table, name: Seq<char>) -> Seq<Seq<char>> {
    dedup(present_values(spec_column_values(t, name)))
}

/// The distinct tenors of the `Label1` column, lower-cased, in first-seen order.
pub open spec fn spec_tenor_list(t: Table) -> Seq<Seq<char>> {
    dedup(tenor_values(spec_column_values(t, "Label1"@)))
}

/// The distinct currency pairs of the `Qualifier` column, a pair and its swap
/// counted once, in first-seen order.
pub open spec fn spec_currency_pair_list(t: Table) -> Seq<Seq<char>> {
    dedup(pair_values(spec_column_values(t, "Qualifier"@)))
}

/// The distinct buckets of the `Bucket` column: the numbered ones in
/// first-seen order, then 0 when a row is `Residual`.
pub open spec fn spec_bucket_list(t: Table) -> Seq<usize> {
    let vals = spec_column_values(t, "Bucket"@);
    dedup(
        bucket_numbers(vals) + (if has_residual(vals) {
            seq![0usize]
        } else {
            Seq::empty()
        }),
    )
}

} // verus!

verus! {

pub proof fn lemma_contains_push<T>(s: Seq<T>, x: T, y: T)
    ensures
        s.push(y).contains(x) == (s.contains(x) || x == y),
{
    let e = s.push(y);
    if s.contains(x) {
        let k = choose|k: int| 0 <= k < s.len() && s[k] == x;
        assert(e[k] == x);
    }
    if x == y {
        assert(e[s.len() as int] == x);
    }
    if e.contains(x) && x != y {
        let k = choose|k: int| 0 <= k < e.len() && e[k] == x;
        assert(s[k] == x);
    }
}

/// Whether `v` holds `x`.
pub fn contains_usize(v: &Vec<usize>, x: usize) -> (r: bool)
    ensures
        r == v@.contains(x),
{
    let mut i: usize = 0;
    while i < v.len()
        invariant
            i <= v@.len(),
            forall|k: int| 0 <= k < i ==> v@[k] != x,
        decreases v@.len() - i,
    {
        if v[i] == x {
            return true;
        }
        i += 1;
    }
    false
}

/// The distinct numbers of a list, in first-seen order.
pub fn unique_usize(values: Vec<usize>) -> (r: Vec<usize>)
    ensures
        r@ == dedup(values@),
{
    let mut r: Vec<usize> = Vec::new();
    let mut i: usize = 0;
    assert(values@.subrange(0, 0) =~= Seq::<usize>::empty());
    while i < values.len()
        invariant
            i <= values@.len(),
            r@ == dedup(values@.subrange(0, i as int)),
        decreases values@.len() - i,
    {
        let v = values[i];
        proof {
            assert(values@.subrange(0, i + 1) =~= values@.subrange(0, i as int).push(v));
            lemma_dedup_push(values@.subrange(0, i as int), v);
        }
        if !contains_usize(&r, v) {
            r.push(v);
        }
        i += 1;
    }
    assert(values@.subrange(0, i as int) =~= values@);
    r
}

/// The distinct present values of a column, in first-seen order.
pub fn unique_column_values(crif: &Crif, column_name: &str) -> (r: Vec<String>)
    ensures
        string_views(r@) == spec_unique_column_values(crif.deep_view(), column_name@),
{
    let values = get_column_values(crif, column_name);
    let ghost vals = values.deep_view();
    let mut result: Vec<String> = Vec::new();
    let mut i: usize = 0;
    assert(vals.subrange(0, 0) =~= Seq::<Option<Seq<char>>>::empty());
    assert(string_views(result@) =~= Seq::<Seq<char>>::empty());
    while i < values.len()
        invariant
            vals == values.deep_view(),
            i <= values@.len(),
            string_views(result@) == dedup(present_values(vals.subrange(0, i as int))),
        decreases values@.len() - i,
    {
        let ghost pre = present_values(vals.subrange(0, i as int));
        proof {
            assert(vals.subrange(0, i + 1).drop_last() =~= vals.subrange(0, i as int));
            assert(vals.subrange(0, i + 1).last() == vals[i as int]);
        }
        match &values[i] {
            Some(v) => {
                assert(vals[i as int] == Some(v@));
                if present(v.as_str()) {
                    proof {
                        lemma_dedup_push(pre, v@);
                    }
                    if !contains_string(&result, v) {
                        let ghost before = string_views(result@);
                        result.push(v.clone());
                        assert(string_views(result@) =~= before.push(v@));
                    }
                }
            },
            None => {},
        }
        i += 1;
    }
    assert(vals.subrange(0, i as int) =~= vals);
    result
}

/// The distinct tenors of the `Label1` column, lower-cased, in first-seen order.
pub fn tenor_list(crif: &Crif) -> (r: Vec<String>)
    ensures
        string_views(r@) == spec_tenor_list(crif.deep_view()),
{
    let values = get_column_values(crif, "Label1");
    let ghost vals = values.deep_view();
    let mut result: Vec<String> = Vec::new();
    let mut i: usize = 0;
    assert(vals.subrange(0, 0) =~= Seq::<Option<Seq<char>>>::empty());
    assert(string_views(result@) =~= Seq::<Seq<char>>::empty());
    while i < values.len()
        invariant
            vals == values.deep_view(),
            i <= values@.len(),
            string_views(result@) == dedup(tenor_values(vals.subrange(0, i as int))),
        decreases values@.len() - i,
    {
        let ghost pre = tenor_values(vals.subrange(0, i as int));
        proof {
            assert(vals.subrange(0, i + 1).drop_last() =~= vals.subrange(0, i as int));
            assert(vals.subrange(0, i + 1).last() == vals[i as int]);
        }
        match &values[i] {
            Some(v) => {
                assert(vals[i as int] == Some(v@));
                match canonical_tenor(v.as_str()) {
                    Some(t) => {
                        let tenor = String::from_str(t);
                        proof {
                            lemma_dedup_push(pre, tenor@);
                        }
                        if !contains_string(&result, &tenor) {
                            let ghost before = string_views(result@);
                            result.push(tenor);
                            assert(string_views(result@) =~= before.push(t@));
                        }
                    },
                    None => {},
                }
            },
            None => {},
        }
        i += 1;
    }
    assert(vals.subrange(0, i as int) =~= vals);
    result
}

/// The distinct currency pairs of the `Qualifier` column, in first-seen order;
/// a pair whose swap was seen before is left out.
pub fn currency_pair_list(crif: &Crif) -> (r: Vec<String>)
    ensures
        string_views(r@) == spec_currency_pair_list(crif.deep_view()),
{
    let values = get_column_values(crif, "Qualifier");
    let ghost vals = values.deep_view();
    let mut pairs: Vec<String> = Vec::new();
    let mut i: usize = 0;
    assert(vals.subrange(0, 0) =~= Seq::<Option<Seq<char>>>::empty());
    assert(string_views(pairs@) =~= Seq::<Seq<char>>::empty());
    while i < values.len()
        invariant
            vals == values.deep_view(),
            i <= values@.len(),
            string_views(pairs@) == pair_values(vals.subrange(0, i as int)),
        decreases values@.len() - i,
    {
        proof {
            assert(vals.subrange(0, i + 1).drop_last() =~= vals.subrange(0, i as int));
            assert(vals.subrange(0, i + 1).last() == vals[i as int]);
        }
        match &values[i] {
            Some(v) => {
                assert(vals[i as int] == Some(v@));
                let s = v.as_str();
                if present(s) && s.unicode_len() == 6 {
                    let swapped = String::from_str(s.substring_char(3, 6)).concat(
                        s.substring_char(0, 3),
                    );
                    assert(swapped@ =~= swap_halves(v@));
                    if !contains_string(&pairs, &swapped) {
                        let ghost before = string_views(pairs@);
                        pairs.push(v.clone());
                        assert(string_views(pairs@) =~= before.push(v@));
                    }
                }
            },
            None => {},
        }
        i += 1;
    }
    assert(vals.subrange(0, i as int) =~= vals);
    unique_list(pairs)
}

/// The distinct product classes, in first-seen order.
pub fn product_list(crif: &Crif) -> (r: Vec<String>)
    ensures
        string_views(r@) == spec_unique_column_values(crif.deep_view(), "ProductClass"@),
{
    unique_column_values(crif, "ProductClass")
}

/// The distinct buckets: the numbered ones in first-seen order, then 0 for
/// `Residual` when a row has it.
pub fn bucket_list(crif: &Crif) -> (r: Vec<usize>)
    ensures
        r@ == spec_bucket_list(crif.deep_view()),
{
    let values = get_column_values(crif, "Bucket");
    let ghost vals = values.deep_view();
    let mut buckets: Vec<usize> = Vec::new();
    let mut residual = false;
    let mut i: usize = 0;
    assert(vals.subrange(0, 0) =~= Seq::<Option<Seq<char>>>::empty());
    while i < values.len()
        invariant
            vals == values.deep_view(),
            i <= values@.len(),
            buckets@ == bucket_numbers(vals.subrange(0, i as int)),
            residual == has_residual(vals.subrange(0, i as int)),
        decreases values@.len() - i,
    {
        proof {
            assert(vals.subrange(0, i + 1) =~= vals.subrange(0, i as int).push(vals[i as int]));
            assert(vals.subrange(0, i + 1).drop_last() =~= vals.subrange(0, i as int));
            lemma_contains_push(vals.subrange(0, i as int), Some("Residual"@), vals[i as int]);
        }
        match &values[i] {
            Some(v) => {
                assert(vals[i as int] == Some(v@));
                let s = v.as_str();
                if str_eq(s, "Residual") {
                    residual = true;
                } else if present(s) {
                    match parse_usize(s) {
                        Some(n) => {
                            buckets.push(n);
                        },
                        None => {},
                    }
                }
            },
            None => {},
        }
        i += 1;
    }
    assert(vals.subrange(0, i as int) =~= vals);
    let ghost nums = buckets@;
    if residual {
        buckets.push(0);
    }
    assert(buckets@ =~= nums + (if has_residual(vals) {
        seq![0usize]
    } else {
        Seq::empty()
    }));
    unique_usize(buckets)
}

} // verus!

verus! {

/// A CRIF with no data rows has no columns' values, and so no product
/// classes, buckets, tenors or currency pairs to charge.
pub proof fn lemma_no_rows_no_values(t: Table, name: Seq<char>)
    requires
        t.len() <= 1,
    ensures
        spec_column_values(t, name).len() == 0,
        spec_unique_column_values(t, name).len() == 0,
        spec_tenor_list(t).len() == 0,
        spec_currency_pair_list(t).len() == 0,
        spec_bucket_list(t).len() == 0,
{
    let vals_bucket = spec_column_values(t, "Bucket"@);
    assert(vals_bucket.len() == 0);
    assert(!has_residual(vals_bucket));
    assert(bucket_numbers(vals_bucket) + Seq::<usize>::empty() =~= Seq::<usize>::empty());
    assert(spec_column_values(t, "Label1"@).len() == 0);
    assert(spec_column_values(t, "Qualifier"@).len() == 0);
}

} // verus!

verus! {

/// The position of a tenor in the SIMM tenor list.
pub fn tenor_index(tenor: &str) -> (r: Option<usize>)
    ensures
        match r {
            Some(i) => i < 12 && spec_tenors()[i as int] == tenor@,
            None => !spec_tenors().contains(tenor@),
        },
{
    let tenors = simm_tenor_list();
    assert(views(tenors@).len() == tenors@.len());
    let mut k: usize = 0;
    while k < 12
        invariant
            k <= 12,
            tenors@.len() == 12,
            views(tenors@) == spec_tenors(),
            forall|j: int| 0 <= j < k ==> spec_tenors()[j] != tenor@,
        decreases 12 - k,
    {
        assert(views(tenors@)[k as int] == spec_tenors()[k as int]);
        if str_eq(tenors[k], tenor) {
            return Some(k);
        }
        k += 1;
    }
    None
}

} // verus!

verus! {

/// The index of a bucket label: `Residual` is bucket 0, a number is itself.
pub open spec fn spec_bucket_index(b: Seq<char>) -> Option<usize> {
    if b == "Residual"@ {
        Some(0)
    } else {
        spec_parse_usize(b)
    }
}

/// The index of a bucket label: `Residual` is bucket 0, a number is itself.
pub fn bucket_index(b: &str) -> (r: Option<usize>)
    ensures
        r == spec_bucket_index(b@),
{
    if str_eq(b, "Residual") {
        Some(0)
    } else {
        parse_usize(b)
    }
}

} // verus!

verus! {

/// The entry of a bucket-indexed table for a bucket label, if the label names
/// a bucket inside the table.
pub open spec fn spec_table_at(tbl: Seq<u64>, bucket: Option<Seq<char>>) -> Option<u64> {
    match bucket {
        Some(b) => match spec_bucket_index(b) {
            Some(i) => if i < tbl.len() {
                Some(tbl[i as int])
            } else {
                None
            },
            None => None,
        },
        None => None,
    }
}

/// The entry of a bucket-indexed table for a bucket label.
pub fn table_at(tbl: &Vec<u64>, bucket: Option<&str>) -> (r: Option<u64>)
    ensures
        r == spec_table_at(tbl@, opt_view(bucket)),
{
    match bucket {
        Some(b) => match bucket_index(b) {
            Some(i) => if i < tbl.len() {
                Some(tbl[i])
            } else {
                None
            },
            None => None,
        },
        None => None,
    }
}

} // verus!

verus! {

/// The distinct values of a column are exactly the values its present cells hold.
pub proof fn lemma_unique_column_values_members(t: Table, name: Seq<char>, x: Seq<char>)
    ensures
        spec_unique_column_values(t, name).contains(x) == present_values(
            spec_column_values(t, name),
        ).contains(x),
{
    lemma_dedup_contains(present_values(spec_column_values(t, name)), x);
}

} // verus!
