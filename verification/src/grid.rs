//! Which rows of a preview the result grid shows, and in which order: rows
//! are kept when one of their cells contains the filter text (ignoring case),
//! then sorted stably by one column.
use vstd::prelude::*;

use crate::db::row_views;
use crate::text::{
    chars_of, contains_chars, lowercase, seq_contains, to_lowercase, trim, trim_str, views,
};

verus! {

/// Lexicographic order of texts by code point, the order of `String`'s `Ord`
/// (UTF-8 keeps the order of code points, so comparing bytes and comparing
/// characters agree).
pub open spec fn text_lt(a: Seq<char>, b: Seq<char>) -> bool
    decreases a.len(),
{
    if a.len() == 0 {
        b.len() > 0
    } else if b.len() == 0 {
        false
    } else if a[0] != b[0] {
        (a[0] as u32) < (b[0] as u32)
    } else {
        text_lt(a.drop_first(), b.drop_first())
    }
}

pub proof fn lemma_text_lt_irreflexive(a: Seq<char>)
    ensures
        !text_lt(a, a),
    decreases a.len(),
{
    if a.len() > 0 {
        lemma_text_lt_irreflexive(a.drop_first());
    }
}

pub proof fn lemma_text_lt_transitive(a: Seq<char>, b: Seq<char>, c: Seq<char>)
    requires
        text_lt(a, b),
        text_lt(b, c),
    ensures
        text_lt(a, c),
    decreases a.len(),
{
    if a.len() > 0 && b.len() > 0 && c.len() > 0 && a[0] == b[0] && b[0] == c[0] {
        lemma_text_lt_transitive(a.drop_first(), b.drop_first(), c.drop_first());
    }
}

pub proof fn lemma_text_lt_total(a: Seq<char>, b: Seq<char>)
    requires
        a != b,
    ensures
        text_lt(a, b) || text_lt(b, a),
    decreases a.len(),
{
    if a.len() > 0 && b.len() > 0 {
        if a[0] == b[0] {
            if a.drop_first() == b.drop_first() {
                assert(a =~= seq![a[0]] + a.drop_first());
                assert(b =~= seq![b[0]] + b.drop_first());
            }
            lemma_text_lt_total(a.drop_first(), b.drop_first());
        } else {
            vstd::utf8::char_u32_cast(a[0], a[0] as u32);
            vstd::utf8::char_u32_cast(b[0], b[0] as u32);
        }
    } else if a.len() == 0 && b.len() == 0 {
        assert(a =~= b);
    }
}

/// The order of texts is `String`'s lexicographic order: `a` comes before
/// `b` exactly when `a` is a proper prefix of `b`, or when at the first
/// position where they differ `a` holds the smaller code point.
pub proof fn law_text_order_is_lexicographic(a: Seq<char>, b: Seq<char>)
    ensures
        text_lt(a, b) <==> ((a.len() < b.len() && a == b.take(a.len() as int)) || exists|k: int|
            0 <= k < a.len() && k < b.len() && a.take(k) == b.take(k) && (a[k] as u32) < (
            #[trigger] b[k] as u32)),
    decreases a.len(),
{
    if a.len() == 0 {
        assert(a =~= b.take(0));
    } else if b.len() == 0 {
    } else if a[0] != b[0] {
        if a.len() < b.len() && a == b.take(a.len() as int) {
            assert(a[0] == b.take(a.len() as int)[0]);
        }
        if (a[0] as u32) < (b[0] as u32) {
            assert(a.take(0) =~= b.take(0));
        }
        if exists|k: int|
            0 <= k < a.len() && k < b.len() && a.take(k) == b.take(k) && (a[k] as u32) < (
            #[trigger] b[k] as u32) {
            let k = choose|k: int|
                0 <= k < a.len() && k < b.len() && a.take(k) == b.take(k) && (a[k] as u32) < (
                #[trigger] b[k] as u32);
            if k > 0 {
                assert(a.take(k)[0] == b.take(k)[0]);
            }
        }
    } else {
        let a1 = a.drop_first();
        let b1 = b.drop_first();
        law_text_order_is_lexicographic(a1, b1);
        assert(text_lt(a, b) == text_lt(a1, b1));
        if a1.len() < b1.len() && a1 == b1.take(a1.len() as int) {
            assert(a =~= b.take(a.len() as int)) by {
                assert forall|j: int| 0 <= j < a.len() implies #[trigger] a[j] == b.take(a.len() as int)[j] by {
                    if j > 0 {
                        assert(a[j] == a1[j - 1]);
                        assert(b1.take(a1.len() as int)[j - 1] == b[j]);
                    }
                }
            }
        }
        if a.len() < b.len() && a == b.take(a.len() as int) {
            assert(a1 =~= b1.take(a1.len() as int)) by {
                assert forall|j: int| 0 <= j < a1.len() implies #[trigger] a1[j] == b1.take(a1.len() as int)[j] by {
                    assert(a[j + 1] == b.take(a.len() as int)[j + 1]);
                }
            }
        }
        if exists|k: int|
            0 <= k < a1.len() && k < b1.len() && a1.take(k) == b1.take(k) && (a1[k] as u32) < (
            #[trigger] b1[k] as u32) {
            let k = choose|k: int|
                0 <= k < a1.len() && k < b1.len() && a1.take(k) == b1.take(k) && (a1[k] as u32) < (
                #[trigger] b1[k] as u32);
            assert(a.take(k + 1) =~= b.take(k + 1)) by {
                assert forall|j: int| 0 <= j < k + 1 implies #[trigger] a.take(k + 1)[j] == b.take(k + 1)[j] by {
                    if j > 0 {
                        assert(a1.take(k)[j - 1] == b1.take(k)[j - 1]);
                    }
                }
            }
            assert(b[k + 1] == b1[k]);
        }
        if exists|k: int|
            0 <= k < a.len() && k < b.len() && a.take(k) == b.take(k) && (a[k] as u32) < (
            #[trigger] b[k] as u32) {
            let k = choose|k: int|
                0 <= k < a.len() && k < b.len() && a.take(k) == b.take(k) && (a[k] as u32) < (
                #[trigger] b[k] as u32);
            assert(k > 0);
            assert(a1.take(k - 1) =~= b1.take(k - 1)) by {
                assert forall|j: int| 0 <= j < k - 1 implies #[trigger] a1.take(k - 1)[j] == b1.take(k - 1)[j] by {
                    assert(a.take(k)[j + 1] == b.take(k)[j + 1]);
                }
            }
            assert(b1[k - 1] == b[k]);
        }
    }
}

/// `a` comes strictly before `b` when sorting ascending, or descending.
pub open spec fn key_before(a: Seq<char>, b: Seq<char>, desc: bool) -> bool {
    if desc {
        text_lt(b, a)
    } else {
        text_lt(a, b)
    }
}

pub proof fn lemma_key_before_order(a: Seq<char>, b: Seq<char>, c: Seq<char>, desc: bool)
    ensures
        !key_before(a, a, desc),
        key_before(a, b, desc) && key_before(b, c, desc) ==> key_before(a, c, desc),
        a != b ==> key_before(a, b, desc) || key_before(b, a, desc),
{
    lemma_text_lt_irreflexive(a);
    if a != b {
        lemma_text_lt_total(a, b);
    }
    if key_before(a, b, desc) && key_before(b, c, desc) {
        if desc {
            lemma_text_lt_transitive(c, b, a);
        } else {
            lemma_text_lt_transitive(a, b, c);
        }
    }
}

/// The text a row is sorted by: its cell in `column`, or empty text when the
/// row is shorter (or missing).
pub open spec fn sort_key(rows: Seq<Seq<Seq<char>>>, column: int, i: usize) -> Seq<char> {
    if i < rows.len() && 0 <= column < rows[i as int].len() {
        rows[i as int][column]
    } else {
        Seq::empty()
    }
}

/// No entry occurs twice.
pub open spec fn no_duplicates(r: Seq<usize>) -> bool {
    forall|i: int, j: int| 0 <= i < j < r.len() ==> r[i] != r[j]
}

/// Strictly increasing.
pub open spec fn increasing(r: Seq<usize>) -> bool {
    forall|i: int, j: int| 0 <= i < j < r.len() ==> r[i] < r[j]
}

/// No entry comes after an entry whose key it should precede.
pub open spec fn ordered_by(r: Seq<usize>, key: spec_fn(usize) -> Seq<char>, desc: bool) -> bool {
    forall|i: int, j: int|
        0 <= i < j < r.len() ==> !key_before(#[trigger] key(r[j]), #[trigger] key(r[i]), desc)
}

/// Entries with equal keys keep their relative (increasing) order.
pub open spec fn stable_by(r: Seq<usize>, key: spec_fn(usize) -> Seq<char>) -> bool {
    forall|i: int, j: int|
        0 <= i < j < r.len() && key(#[trigger] r[i]) == key(#[trigger] r[j]) ==> r[i] < r[j]
}

/// `r` holds exactly the entries of `m`, sorted stably by `key`.
pub open spec fn stable_sort_of(
    r: Seq<usize>,
    m: Seq<usize>,
    key: spec_fn(usize) -> Seq<char>,
    desc: bool,
) -> bool {
    &&& r.len() == m.len()
    &&& no_duplicates(r)
    &&& forall|x: usize| r.contains(x) <==> m.contains(x)
    &&& ordered_by(r, key, desc)
    &&& stable_by(r, key)
}

proof fn lemma_insert_sorted(
    out: Seq<usize>,
    p: int,
    x: usize,
    key: spec_fn(usize) -> Seq<char>,
    desc: bool,
)
    requires
        0 <= p <= out.len(),
        ordered_by(out, key, desc),
        stable_by(out, key),
        no_duplicates(out),
        forall|k: int| 0 <= k < out.len() ==> out[k] < x,
        forall|q: int| 0 <= q < p ==> !key_before(key(x), #[trigger] key(out[q]), desc),
        p < out.len() ==> key_before(key(x), key(out[p]), desc),
    ensures
        ordered_by(out.insert(p, x), key, desc),
        stable_by(out.insert(p, x), key),
        no_duplicates(out.insert(p, x)),
{
    let n = out.insert(p, x);
    assert forall|i: int, j: int| 0 <= i < j < n.len() implies !key_before(
        #[trigger] key(n[j]),
        #[trigger] key(n[i]),
        desc,
    ) && (key(n[i]) == key(n[j]) ==> n[i] < n[j]) && n[i] != n[j] by {
        if i < p && j < p {
            assert(n[i] == out[i] && n[j] == out[j]);
            assert(!key_before(key(out[j]), key(out[i]), desc));
        } else if i < p && j == p {
            assert(n[i] == out[i] && n[j] == x);
            assert(!key_before(key(x), key(out[i]), desc));
        } else if i < p && j > p {
            assert(n[i] == out[i] && n[j] == out[j - 1]);
            assert(!key_before(key(out[j - 1]), key(out[i]), desc));
        } else if i == p {
            assert(n[i] == x && n[j] == out[j - 1]);
            assert(key_before(key(x), key(out[p]), desc));
            if j - 1 > p {
                assert(!key_before(key(out[j - 1]), key(out[p]), desc));
                assert(out[p] < out[j - 1] || key(out[p]) != key(out[j - 1]));
            }
            lemma_key_before_order(key(out[j - 1]), key(x), key(out[p]), desc);
            lemma_key_before_order(key(x), key(out[p]), key(out[j - 1]), desc);
            lemma_key_before_order(key(out[p]), key(out[j - 1]), key(x), desc);
            assert(key_before(key(x), key(out[j - 1]), desc));
        } else {
            assert(n[i] == out[i - 1] && n[j] == out[j - 1]);
            assert(!key_before(key(out[j - 1]), key(out[i - 1]), desc));
        }
    }
}

/// Whether `a` comes before `b` in code-point lexicographic order.
pub fn chars_lt(a: &Vec<char>, b: &Vec<char>) -> (r: bool)
    ensures
        r == text_lt(a@, b@),
{
    let mut k: usize = 0;
    assert(a@.skip(0) =~= a@);
    assert(b@.skip(0) =~= b@);
    loop
        invariant
            k <= a@.len(),
            k <= b@.len(),
            text_lt(a@, b@) == text_lt(a@.skip(k as int), b@.skip(k as int)),
        decreases a@.len() - k,
    {
        if k == a.len() {
            return k < b.len();
        }
        if k == b.len() {
            return false;
        }
        if a[k] != b[k] {
            return (a[k] as u32) < (b[k] as u32);
        }
        assert(a@.skip(k as int).drop_first() =~= a@.skip(k + 1));
        assert(b@.skip(k as int).drop_first() =~= b@.skip(k + 1));
        k = k + 1;
    }
}

/// Sorts the row indices `indices` (increasing, all below `rows.len()`)
/// stably by their cell in `column`, ascending or descending; rows too short
/// to have that column sort as empty text.
pub fn sort_rows(indices: &Vec<usize>, rows: &Vec<Vec<String>>, column: usize, desc: bool) -> (r:
    Vec<usize>)
    requires
        increasing(indices@),
        forall|k: int| 0 <= k < indices@.len() ==> indices@[k] < rows@.len(),
    ensures
        stable_sort_of(
            r@,
            indices@,
            |i: usize| sort_key(row_views(rows@), column as int, i),
            desc,
        ),
{
    let ghost rv = row_views(rows@);
    let ghost key = |i: usize| sort_key(rv, column as int, i);
    let mut keys: Vec<Vec<char>> = Vec::new();
    let mut i: usize = 0;
    while i < rows.len()
        invariant
            i <= rows@.len(),
            rv == row_views(rows@),
            keys@.len() == i,
            forall|k: int| 0 <= k < i ==> #[trigger] keys@[k]@ == sort_key(rv, column as int, k as usize),
        decreases rows@.len() - i,
    {
        let row = &rows[i];
        let k = if column < row.len() {
            chars_of(row[column].as_str())
        } else {
            Vec::new()
        };
        proof {
            assert(rv[i as int] == views(rows@[i as int]@));
        }
        keys.push(k);
        i = i + 1;
    }
    let mut out: Vec<usize> = Vec::new();
    let mut t: usize = 0;
    while t < indices.len()
        invariant
            increasing(indices@),
            forall|k: int| 0 <= k < indices@.len() ==> indices@[k] < rows@.len(),
            keys@.len() == rows@.len(),
            forall|k: int| 0 <= k < rows@.len() ==> #[trigger] keys@[k]@ == key(k as usize),
            key == (|i: usize| sort_key(rv, column as int, i)),
            t <= indices@.len(),
            out@.len() == t,
            no_duplicates(out@),
            forall|x: usize| out@.contains(x) <==> indices@.take(t as int).contains(x),
            ordered_by(out@, key, desc),
            stable_by(out@, key),
        decreases indices@.len() - t,
    {
        let x = indices[t];
        assert forall|k: int| 0 <= k < out@.len() implies out@[k] < x by {
            assert(out@.contains(out@[k]));
            let m = choose|m: int| 0 <= m < t && indices@.take(t as int)[m] == out@[k];
            assert(indices@[m] == out@[k]);
        }
        let mut p: usize = 0;
        loop
            invariant
                p <= out@.len(),
                x < rows@.len(),
                keys@.len() == rows@.len(),
                forall|k: int| 0 <= k < rows@.len() ==> #[trigger] keys@[k]@ == key(k as usize),
                forall|k: int| 0 <= k < out@.len() ==> out@[k] < x,
                forall|k: int| 0 <= k < out@.len() ==> out@[k] < rows@.len(),
                forall|q: int| 0 <= q < p ==> !key_before(key(x), #[trigger] key(out@[q]), desc),
            ensures
                p <= out@.len(),
                forall|q: int| 0 <= q < p ==> !key_before(key(x), #[trigger] key(out@[q]), desc),
                p < out@.len() ==> key_before(key(x), key(out@[p as int]), desc),
            decreases out@.len() - p,
        {
            if p == out.len() {
                break;
            }
            let y = out[p];
            let kx = &keys[x];
            let ky = &keys[y];
            let before = if desc {
                chars_lt(ky, kx)
            } else {
                chars_lt(kx, ky)
            };
            if before {
                break;
            }
            p = p + 1;
        }
        proof {
            lemma_insert_sorted(out@, p as int, x, key, desc);
        }
        let ghost prev = out@;
        out.insert(p, x);
        proof {
            assert(indices@.take(t + 1) =~= indices@.take(t as int).push(x));
            assert forall|z: usize| out@.contains(z) <==> indices@.take(t + 1).contains(z) by {
                if out@.contains(z) {
                    let k = choose|k: int| 0 <= k < out@.len() && out@[k] == z;
                    if k < p {
                        assert(prev[k] == z);
                        assert(prev.contains(z));
                    } else if k > p {
                        assert(prev[k - 1] == z);
                        assert(prev.contains(z));
                    }
                    if z != x {
                        assert(indices@.take(t as int).contains(z));
                        let m = choose|m: int|
                            0 <= m < t && #[trigger] indices@.take(t as int)[m] == z;
                        assert(indices@.take(t + 1)[m] == z);
                    } else {
                        assert(indices@.take(t + 1)[t as int] == z);
                    }
                }
                if indices@.take(t + 1).contains(z) {
                    if z == x {
                        assert(out@[p as int] == z);
                    } else {
                        let m = choose|m: int|
                            0 <= m < t + 1 && #[trigger] indices@.take(t + 1)[m] == z;
                        assert(m < t);
                        assert(indices@.take(t as int)[m] == z);
                        assert(prev.contains(z));
                        let k = choose|k: int| 0 <= k < prev.len() && prev[k] == z;
                        if k < p {
                            assert(out@[k] == z);
                        } else {
                            assert(out@[k + 1] == z);
                        }
                    }
                }
            }
        }
        t = t + 1;
    }
    assert(indices@.take(indices@.len() as int) =~= indices@);
    out
}


/// A row is kept when the (lowercased) filter is empty or one of its
/// (lowercased) cells contains it.
pub open spec fn row_matches(lowered_row: Seq<Seq<char>>, needle: Seq<char>) -> bool {
    needle.len() == 0 || exists|c: int|
        0 <= c < lowered_row.len() && seq_contains(#[trigger] lowered_row[c], needle)
}

/// The indices below `n` of the rows that are kept, in increasing order.
pub open spec fn matching_upto(lowered: Seq<Seq<Seq<char>>>, needle: Seq<char>, n: int) -> Seq<
    usize,
>
    decreases n,
{
    if n <= 0 {
        Seq::empty()
    } else if row_matches(lowered[n - 1], needle) {
        matching_upto(lowered, needle, n - 1).push((n - 1) as usize)
    } else {
        matching_upto(lowered, needle, n - 1)
    }
}

/// The indices of all rows that are kept, in increasing order.
pub open spec fn matching(lowered: Seq<Seq<Seq<char>>>, needle: Seq<char>) -> Seq<usize> {
    matching_upto(lowered, needle, lowered.len() as int)
}

pub proof fn lemma_matching_upto_increasing(
    lowered: Seq<Seq<Seq<char>>>,
    needle: Seq<char>,
    n: int,
)
    requires
        n <= usize::MAX,
    ensures
        increasing(matching_upto(lowered, needle, n)),
        forall|k: int|
            0 <= k < matching_upto(lowered, needle, n).len() ==> #[trigger] matching_upto(
                lowered,
                needle,
                n,
            )[k] < n,
    decreases n,
{
    if n > 0 {
        lemma_matching_upto_increasing(lowered, needle, n - 1);
        let prev = matching_upto(lowered, needle, n - 1);
        let cur = matching_upto(lowered, needle, n);
        if row_matches(lowered[n - 1], needle) {
            assert(cur == prev.push((n - 1) as usize));
            assert forall|i: int, j: int| 0 <= i < j < cur.len() implies cur[i] < cur[j] by {
                if j < prev.len() {
                    assert(cur[i] == prev[i] && cur[j] == prev[j]);
                } else {
                    assert(cur[i] == prev[i]);
                    assert(prev[i] < n - 1);
                    assert(cur[j] == n - 1);
                }
            }
        } else {
            assert(cur == prev);
        }
    }
}

/// Whether a row with the given lowercased cells is kept for `needle`.
pub fn row_is_kept(lowered_row: &Vec<Vec<char>>, needle: &Vec<char>) -> (r: bool)
    ensures
        r == row_matches(lowered_row@.map_values(|c: Vec<char>| c@), needle@),
{
    let ghost cells = lowered_row@.map_values(|c: Vec<char>| c@);
    if needle.len() == 0 {
        return true;
    }
    let mut c: usize = 0;
    while c < lowered_row.len()
        invariant
            c <= lowered_row@.len(),
            cells == lowered_row@.map_values(|c: Vec<char>| c@),
            needle@.len() > 0,
            forall|k: int| 0 <= k < c ==> !seq_contains(#[trigger] cells[k], needle@),
        decreases lowered_row@.len() - c,
    {
        if contains_chars(&lowered_row[c], needle) {
            assert(seq_contains(cells[c as int], needle@));
            return true;
        }
        c = c + 1;
    }
    false
}

/// The indices of the rows that are kept for `needle`, given every row's
/// cells already lowercased.
pub fn matching_rows(lowered: &Vec<Vec<Vec<char>>>, needle: &Vec<char>) -> (r: Vec<usize>)
    ensures
        r@ == matching(
            lowered@.map_values(|row: Vec<Vec<char>>| row@.map_values(|c: Vec<char>| c@)),
            needle@,
        ),
{
    let ghost lv = lowered@.map_values(|row: Vec<Vec<char>>| row@.map_values(|c: Vec<char>| c@));
    let mut r: Vec<usize> = Vec::new();
    let mut i: usize = 0;
    while i < lowered.len()
        invariant
            i <= lowered@.len(),
            lv == lowered@.map_values(|row: Vec<Vec<char>>| row@.map_values(|c: Vec<char>| c@)),
            r@ == matching_upto(lv, needle@, i as int),
        decreases lowered@.len() - i,
    {
        if row_is_kept(&lowered[i], needle) {
            r.push(i);
        }
        i = i + 1;
    }
    r
}

/// Every cell lowercased.
pub open spec fn lowered_view(rows: Seq<Seq<Seq<char>>>) -> Seq<Seq<Seq<char>>> {
    rows.map_values(|row: Seq<Seq<char>>| row.map_values(|c: Seq<char>| lowercase(c)))
}

/// The characters of every cell of every row, lowercased.
pub fn lowercase_rows(rows: &Vec<Vec<String>>) -> (r: Vec<Vec<Vec<char>>>)
    ensures
        r@.map_values(|row: Vec<Vec<char>>| row@.map_values(|c: Vec<char>| c@)) == lowered_view(
            row_views(rows@),
        ),
{
    let mut out: Vec<Vec<Vec<char>>> = Vec::new();
    let mut i: usize = 0;
    while i < rows.len()
        invariant
            i <= rows@.len(),
            out@.len() == i,
            forall|k: int|
                0 <= k < i ==> (#[trigger] out@[k])@.map_values(|c: Vec<char>| c@)
                    == views(rows@[k]@).map_values(|c: Seq<char>| lowercase(c)),
        decreases rows@.len() - i,
    {
        let row = &rows[i];
        let mut cells: Vec<Vec<char>> = Vec::new();
        let mut c: usize = 0;
        while c < row.len()
            invariant
                c <= row@.len(),
                cells@.len() == c,
                forall|k: int|
                    0 <= k < c ==> (#[trigger] cells@[k])@ == lowercase(row@[k]@),
            decreases row@.len() - c,
        {
            let lowered = to_lowercase(row[c].as_str());
            cells.push(chars_of(lowered.as_str()));
            c = c + 1;
        }
        assert(cells@.map_values(|c: Vec<char>| c@) =~= views(row@).map_values(
            |c: Seq<char>| lowercase(c),
        ));
        out.push(cells);
        i = i + 1;
    }
    assert(out@.map_values(|row: Vec<Vec<char>>| row@.map_values(|c: Vec<char>| c@))
        =~= lowered_view(row_views(rows@)));
    out
}

/// The filter as rows are matched against it: trimmed, then lowercased.
pub open spec fn filter_needle(filter_text: Seq<char>) -> Seq<char> {
    lowercase(trim(filter_text))
}

/// The rows the grid shows: those kept by the filter, in row order, or
/// sorted stably by `sort_column` (descending when `sort_desc`).
pub open spec fn visible_rows_spec(
    rows: Seq<Seq<Seq<char>>>,
    filter_text: Seq<char>,
    sort_column: Option<usize>,
    sort_desc: bool,
    r: Seq<usize>,
) -> bool {
    let m = matching(lowered_view(rows), filter_needle(filter_text));
    match sort_column {
        None => r == m,
        Some(column) => stable_sort_of(
            r,
            m,
            |i: usize| sort_key(rows, column as int, i),
            sort_desc,
        ),
    }
}

/// The indices of the rows to show, in the order to show them.
pub fn visible_rows(
    rows: &Vec<Vec<String>>,
    filter_text: &str,
    sort_column: Option<usize>,
    sort_desc: bool,
) -> (r: Vec<usize>)
    ensures
        visible_rows_spec(row_views(rows@), filter_text@, sort_column, sort_desc, r@),
{
    let trimmed = trim_str(filter_text);
    let lowered_filter = to_lowercase(trimmed.as_str());
    let needle = chars_of(lowered_filter.as_str());
    let lowered = lowercase_rows(rows);
    let kept = matching_rows(&lowered, &needle);
    let ghost row_count = rows.len();
    proof {
        lemma_matching_upto_increasing(
            lowered_view(row_views(rows@)),
            needle@,
            row_count as int,
        );
        assert(row_views(rows@).len() == rows@.len());
    }
    match sort_column {
        None => kept,
        Some(column) => sort_rows(&kept, rows, column, sort_desc),
    }
}


/// An empty filter keeps every row, in row order.
pub proof fn law_empty_filter_keeps_every_row(lowered: Seq<Seq<Seq<char>>>, needle: Seq<char>)
    requires
        needle.len() == 0,
        lowered.len() <= usize::MAX,
    ensures
        matching(lowered, needle) == Seq::new(lowered.len(), |i: int| i as usize),
{
    lemma_empty_needle_upto(lowered, needle, lowered.len() as int);
}

proof fn lemma_empty_needle_upto(lowered: Seq<Seq<Seq<char>>>, needle: Seq<char>, n: int)
    requires
        needle.len() == 0,
        0 <= n <= usize::MAX,
    ensures
        matching_upto(lowered, needle, n) == Seq::new(n as nat, |i: int| i as usize),
    decreases n,
{
    if n > 0 {
        lemma_empty_needle_upto(lowered, needle, n - 1);
        assert(matching_upto(lowered, needle, n) =~= Seq::new(n as nat, |i: int| i as usize));
    } else {
        assert(matching_upto(lowered, needle, n) =~= Seq::new(n as nat, |i: int| i as usize));
    }
}

/// `a` is shown before `b`: its key comes first, or the keys are equal and
/// `a` is the earlier row.
pub open spec fn shown_before(a: usize, b: usize, key: spec_fn(usize) -> Seq<char>, desc: bool) -> bool {
    key_before(key(a), key(b), desc) || (key(a) == key(b) && a < b)
}

proof fn lemma_sorted_positions(
    r: Seq<usize>,
    m: Seq<usize>,
    key: spec_fn(usize) -> Seq<char>,
    desc: bool,
    i: int,
    j: int,
)
    requires
        stable_sort_of(r, m, key, desc),
        0 <= i < j < r.len(),
    ensures
        shown_before(r[i], r[j], key, desc),
        !shown_before(r[j], r[i], key, desc),
{
    lemma_key_before_order(key(r[i]), key(r[j]), key(r[i]), desc);
    lemma_key_before_order(key(r[j]), key(r[i]), key(r[j]), desc);
    assert(!key_before(key(r[j]), key(r[i]), desc));
    assert(key(r[i]) == key(r[j]) ==> r[i] < r[j]);
}

proof fn lemma_sorted_prefix_equal(
    r1: Seq<usize>,
    r2: Seq<usize>,
    m: Seq<usize>,
    key: spec_fn(usize) -> Seq<char>,
    desc: bool,
    k: int,
)
    requires
        stable_sort_of(r1, m, key, desc),
        stable_sort_of(r2, m, key, desc),
        0 <= k < r1.len(),
    ensures
        forall|j: int| 0 <= j <= k ==> r1[j] == r2[j],
    decreases k,
{
    if k > 0 {
        lemma_sorted_prefix_equal(r1, r2, m, key, desc, k - 1);
    }
    if r1[k] != r2[k] {
        let x = r1[k];
        let y = r2[k];
        assert(r1.contains(x));
        assert(r2.contains(x));
        let p2 = choose|p: int| 0 <= p < r2.len() && r2[p] == x;
        assert(r2.contains(y));
        assert(r1.contains(y));
        let p1 = choose|p: int| 0 <= p < r1.len() && r1[p] == y;
        if p2 < k {
            assert(r1[p2] == x);
        }
        if p1 < k {
            assert(r2[p1] == y);
        }
        assert(p2 > k && p1 > k);
        lemma_sorted_positions(r1, m, key, desc, k, p1);
        lemma_sorted_positions(r2, m, key, desc, k, p2);
    }
}

/// The order shown is fully determined: two orderings that both hold
/// exactly the kept rows, sorted stably by the same key, are the same.
pub proof fn law_stable_order_is_unique(
    r1: Seq<usize>,
    r2: Seq<usize>,
    m: Seq<usize>,
    key: spec_fn(usize) -> Seq<char>,
    desc: bool,
)
    requires
        stable_sort_of(r1, m, key, desc),
        stable_sort_of(r2, m, key, desc),
    ensures
        r1 == r2,
{
    if r1.len() > 0 {
        lemma_sorted_prefix_equal(r1, r2, m, key, desc, r1.len() - 1);
    }
    assert(r1 =~= r2);
}


proof fn lemma_matching_upto_contains(
    lowered: Seq<Seq<Seq<char>>>,
    needle: Seq<char>,
    n: int,
    i: usize,
)
    requires
        n <= usize::MAX,
    ensures
        matching_upto(lowered, needle, n).contains(i) <==> (i < n && row_matches(
            lowered[i as int],
            needle,
        )),
    decreases n,
{
    if n > 0 {
        lemma_matching_upto_contains(lowered, needle, n - 1, i);
        let prev = matching_upto(lowered, needle, n - 1);
        let cur = matching_upto(lowered, needle, n);
        lemma_matching_upto_increasing(lowered, needle, n - 1);
        if row_matches(lowered[n - 1], needle) {
            assert(cur == prev.push((n - 1) as usize));
            if cur.contains(i) {
                let k = choose|k: int| 0 <= k < cur.len() && cur[k] == i;
                if k < prev.len() {
                    assert(prev[k] == i);
                }
            }
            if i < n && row_matches(lowered[i as int], needle) {
                if i == n - 1 {
                    assert(cur[prev.len() as int] == i);
                } else {
                    let k = choose|k: int| 0 <= k < prev.len() && prev[k] == i;
                    assert(cur[k] == i);
                }
            }
        } else {
            assert(cur == prev);
            if cur.contains(i) {
                let k = choose|k: int| 0 <= k < prev.len() && prev[k] == i;
                assert(prev[k] < n - 1);
            }
        }
    }
}

/// The filter keeps a row exactly when the trimmed, lowercased filter text
/// is empty or occurs in one of the row's cells, whichever column it is in,
/// once that cell is lowercased; sorting changes which rows are shown not at
/// all.
pub proof fn law_filter_keeps_rows_with_a_matching_cell(
    rows: Seq<Seq<Seq<char>>>,
    filter_text: Seq<char>,
    sort_column: Option<usize>,
    sort_desc: bool,
    r: Seq<usize>,
    i: usize,
)
    requires
        rows.len() <= usize::MAX,
        visible_rows_spec(rows, filter_text, sort_column, sort_desc, r),
    ensures
        r.contains(i) <==> (i < rows.len() && (lowercase(trim(filter_text)).len() == 0
            || exists|c: int|
            0 <= c < rows[i as int].len() && seq_contains(
                lowercase(#[trigger] rows[i as int][c]),
                lowercase(trim(filter_text)),
            ))),
{
    let needle = lowercase(trim(filter_text));
    let lowered = lowered_view(rows);
    let m = matching(lowered, needle);
    lemma_matching_upto_contains(lowered, needle, rows.len() as int, i);
    assert(m.contains(i) == r.contains(i));
    if i < rows.len() {
        let lrow = lowered[i as int];
        assert(lrow == rows[i as int].map_values(|c: Seq<char>| lowercase(c)));
        assert(lrow.len() == rows[i as int].len());
        if row_matches(lrow, needle) && needle.len() > 0 {
            let c = choose|c: int| 0 <= c < lrow.len() && seq_contains(#[trigger] lrow[c], needle);
            assert(lrow[c] == lowercase(rows[i as int][c]));
        }
        if exists|c: int|
            0 <= c < rows[i as int].len() && seq_contains(
                lowercase(#[trigger] rows[i as int][c]),
                needle,
            ) {
            let c = choose|c: int|
                0 <= c < rows[i as int].len() && seq_contains(
                    lowercase(#[trigger] rows[i as int][c]),
                    needle,
                );
            assert(lrow[c] == lowercase(rows[i as int][c]));
        }
    }
}

/// Sorting by a column compares the whole text of the rows' cells in that
/// column, in `String`'s order: of two rows shown one after the other, the
/// later one's cell never sorts before the earlier one's (after it, when
/// descending); a row without that column sorts as empty text; rows whose
/// cells are equal keep their order.
pub proof fn law_sorted_by_whole_cell(
    rows: Seq<Seq<Seq<char>>>,
    filter_text: Seq<char>,
    column: usize,
    desc: bool,
    r: Seq<usize>,
    p: int,
    q: int,
)
    requires
        rows.len() <= usize::MAX,
        visible_rows_spec(rows, filter_text, Some(column), desc, r),
        0 <= p < q < r.len(),
    ensures
        r[p] < rows.len(),
        r[q] < rows.len(),
        column < rows[r[p] as int].len() && column < rows[r[q] as int].len() ==> {
            let a = rows[r[p] as int][column as int];
            let b = rows[r[q] as int][column as int];
            &&& !desc ==> !text_lt(b, a)
            &&& desc ==> !text_lt(a, b)
            &&& a == b ==> r[p] < r[q]
        },
        !desc && column >= rows[r[q] as int].len() ==> column >= rows[r[p] as int].len()
            || rows[r[p] as int][column as int].len() == 0,
        desc && column >= rows[r[p] as int].len() ==> column >= rows[r[q] as int].len()
            || rows[r[q] as int][column as int].len() == 0,
        column >= rows[r[p] as int].len() && column >= rows[r[q] as int].len() ==> r[p] < r[q],
{
    let needle = lowercase(trim(filter_text));
    let lowered = lowered_view(rows);
    let m = matching(lowered, needle);
    let key = |i: usize| sort_key(rows, column as int, i);
    lemma_matching_upto_increasing(lowered, needle, rows.len() as int);
    assert(r.contains(r[p]) && r.contains(r[q]));
    let kp = choose|k: int| 0 <= k < m.len() && m[k] == r[p];
    let kq = choose|k: int| 0 <= k < m.len() && m[k] == r[q];
    assert(m[kp] < rows.len() && m[kq] < rows.len());
    assert(!key_before(key(r[q]), key(r[p]), desc));
    assert(key(r[p]) == key(r[q]) ==> r[p] < r[q]);
    if !desc && column >= rows[r[q] as int].len() && column < rows[r[p] as int].len() {
        assert(key(r[q]) =~= Seq::<char>::empty());
        if rows[r[p] as int][column as int].len() > 0 {
            assert(text_lt(key(r[q]), key(r[p])));
        }
    }
    if desc && column >= rows[r[p] as int].len() && column < rows[r[q] as int].len() {
        assert(key(r[p]) =~= Seq::<char>::empty());
        if rows[r[q] as int][column as int].len() > 0 {
            assert(text_lt(key(r[p]), key(r[q])));
        }
    }
}

} // verus!
