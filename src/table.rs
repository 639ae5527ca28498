use vstd::prelude::*;
use crate::error::{RowDecodeFailed, RowErrorView};
use crate::schema::Schema;

verus! {

/// The number of data rows of a table read as `rs`, whose first row is the header.
pub open spec fn data_len(rs: Seq<Seq<Seq<char>>>) -> int {
    if rs.len() == 0 {
        0
    } else {
        rs.len() - 1
    }
}

/// Whether every data row of `rs` decodes under `s`.
pub open spec fn table_decodes<S: Schema>(s: S, rs: Seq<Seq<Seq<char>>>) -> bool {
    forall|i: int| 1 <= i < rs.len() ==> (#[trigger] s.row_error(rs[0], rs[i])) is None
}

/// Whether data row `i` of `rs` is the first one that does not decode under `s`.
pub open spec fn first_bad_row<S: Schema>(s: S, rs: Seq<Seq<Seq<char>>>, i: int) -> bool {
    &&& 1 <= i < rs.len()
    &&& s.row_error(rs[0], rs[i]) is Some
    &&& forall|j: int| 1 <= j < i ==> (#[trigger] s.row_error(rs[0], rs[j])) is None
}

/// The error reported for data row `i` of `rs` in the file `file_name`.
pub open spec fn row_error_at<S: Schema>(
    s: S,
    file_name: Seq<char>,
    rs: Seq<Seq<Seq<char>>>,
    i: int,
) -> RowErrorView {
    RowErrorView { file_name, row_number: i, cause: s.row_error(rs[0], rs[i])->0 }
}

/// The number of data rows before row `n` of `rs` that decode under `s`.
#[verifier::opaque]
pub open spec fn good_before<S: Schema>(s: S, rs: Seq<Seq<Seq<char>>>, n: int) -> nat
    decreases n,
{
    if n <= 1 {
        0
    } else {
        good_before(s, rs, n - 1) + if s.row_error(rs[0], rs[n - 1]) is None {
            1nat
        } else {
            0nat
        }
    }
}

proof fn lemma_good_before_bound<S: Schema>(s: S, rs: Seq<Seq<Seq<char>>>, n: int)
    requires
        n >= 1,
    ensures
        good_before(s, rs, n) <= n - 1,
    decreases n,
{
    reveal(good_before);
    if n > 1 {
        lemma_good_before_bound(s, rs, n - 1);
    }
}

proof fn lemma_good_before_step<S: Schema>(s: S, rs: Seq<Seq<Seq<char>>>, n: int)
    requires
        n >= 1,
    ensures
        good_before(s, rs, n + 1) == good_before(s, rs, n) + if s.row_error(rs[0], rs[n]) is None {
            1nat
        } else {
            0nat
        },
{
    reveal(good_before);
}

proof fn lemma_good_before_grows<S: Schema>(s: S, rs: Seq<Seq<Seq<char>>>, j: int, n: int)
    requires
        1 <= j < n,
    ensures
        s.row_error(rs[0], rs[j]) is None ==> good_before(s, rs, j) < good_before(s, rs, n),
        s.row_error(rs[0], rs[j]) is Some ==> j - good_before(s, rs, j) < n - good_before(s, rs, n),
    decreases n,
{
    lemma_good_before_step(s, rs, n - 1);
    if j < n - 1 {
        lemma_good_before_grows(s, rs, j, n - 1);
    }
}

/// Decodes the data rows of a table, in order, stopping at the first row that
/// does not decode. `rows` holds the header first.
pub fn load_table<S: Schema>(schema: &S, file_name: &str, rows: &Vec<Vec<String>>) -> (r: Result<
    Vec<S::Output>,
    RowDecodeFailed,
>)
    ensures
        ({
            let rs = rows.deep_view();
            match r {
                Ok(out) => {
                    &&& table_decodes(*schema, rs)
                    &&& out@.len() == data_len(rs)
                    &&& forall|i: int|
                        0 <= i < out@.len() ==> schema.decoded(#[trigger] out@[i], rs[0], rs[i + 1])
                },
                Err(e) => exists|i: int|
                    first_bad_row(*schema, rs, i) && e@ == row_error_at(*schema, file_name@, rs, i),
            }
        }),
{
    let ghost rs = rows.deep_view();
    let mut out: Vec<S::Output> = Vec::new();
    if rows.len() == 0 {
        return Ok(out);
    }
    let header = &rows[0];
    let mut i: usize = 1;
    while i < rows.len()
        invariant
            rs == rows.deep_view(),
            rows.len() >= 1,
            header.deep_view() == rs[0],
            1 <= i <= rows.len(),
            out@.len() == i - 1,
            forall|j: int| 1 <= j < i ==> (#[trigger] schema.row_error(rs[0], rs[j])) is None,
            forall|j: int| 0 <= j < out@.len() ==> schema.decoded(#[trigger] out@[j], rs[0], rs[j + 1]),
        decreases rows.len() - i,
    {
        match schema.decode_row(header, &rows[i]) {
            Ok(record) => {
                out.push(record);
            },
            Err(cause) => {
                let e = RowDecodeFailed { file_name: file_name.to_owned(), row_number: i, cause };
                assert(first_bad_row(*schema, rs, i as int));
                return Err(e);
            },
        }
        i = i + 1;
    }
    Ok(out)
}

/// Whether `out` and `errs` are what a lenient load of the table read as `rs`
/// from `file_name` gives: the records of the rows that decode and the errors
/// of those that do not, each in file order.
pub open spec fn lenient_loaded<S: Schema>(
    s: S,
    file_name: Seq<char>,
    rs: Seq<Seq<Seq<char>>>,
    out: Seq<S::Output>,
    errs: Seq<RowDecodeFailed>,
) -> bool {
    &&& out.len() == good_before(s, rs, rs.len() as int)
    &&& errs.len() == data_len(rs) - good_before(s, rs, rs.len() as int)
    &&& forall|i: int|
        1 <= i < rs.len() && (#[trigger] s.row_error(rs[0], rs[i])) is None
            ==> s.decoded(out[good_before(s, rs, i) as int], rs[0], rs[i])
    &&& forall|i: int|
        1 <= i < rs.len() && (#[trigger] s.row_error(rs[0], rs[i])) is Some
            ==> errs[i - 1 - good_before(s, rs, i)]@ == row_error_at(
            s,
            file_name,
            rs,
            i,
        )
}

/// Decodes the data rows of a table, in order, setting aside each row that does
/// not decode: returns the decoded records and the errors of the rows left out.
pub fn load_table_lenient<S: Schema>(schema: &S, file_name: &str, rows: &Vec<Vec<String>>) -> (r: (
    Vec<S::Output>,
    Vec<RowDecodeFailed>,
))
    ensures
        ({
            let (out, errs) = r;
            lenient_loaded(*schema, file_name@, rows.deep_view(), out@, errs@)
        }),
{
    let ghost rs = rows.deep_view();
    let mut out: Vec<S::Output> = Vec::new();
    let mut errs: Vec<RowDecodeFailed> = Vec::new();
    proof {
        reveal(good_before);
    }
    if rows.len() == 0 {
        return (out, errs);
    }
    let header = &rows[0];
    let mut i: usize = 1;
    while i < rows.len()
        invariant
            rs == rows.deep_view(),
            rows.len() >= 1,
            header.deep_view() == rs[0],
            1 <= i <= rows.len(),
            out@.len() == good_before(*schema, rs, i as int),
            errs@.len() == i - 1 - good_before(*schema, rs, i as int),
            forall|j: int|
                1 <= j < i && (#[trigger] schema.row_error(rs[0], rs[j])) is None ==> schema.decoded(
                    out@[good_before(*schema, rs, j) as int],
                    rs[0],
                    rs[j],
                ),
            forall|j: int|
                1 <= j < i && (#[trigger] schema.row_error(rs[0], rs[j])) is Some
                    ==> errs@[j - 1 - good_before(*schema, rs, j)]@ == row_error_at(
                    *schema,
                    file_name@,
                    rs,
                    j,
                ),
        decreases rows.len() - i,
    {
        proof {
            lemma_good_before_bound(*schema, rs, i as int);
        }
        proof {
            lemma_good_before_step(*schema, rs, i as int);
        }
        let ghost old_errs = errs@;
        let ghost old_out = out@;
        match schema.decode_row(header, &rows[i]) {
            Ok(record) => {
                out.push(record);
            },
            Err(cause) => {
                let e = RowDecodeFailed { file_name: file_name.to_owned(), row_number: i, cause };
                assert(rows@[i as int].deep_view() == rs[i as int]);
                assert(e@ == row_error_at(*schema, file_name@, rs, i as int));
                errs.push(e);
                assert(errs@[old_errs.len() as int]@ == row_error_at(*schema, file_name@, rs, i as int));
            },
        }
        assert(forall|k: int| 0 <= k < old_errs.len() ==> errs@[k] == old_errs[k]);
        assert(forall|k: int| 0 <= k < old_out.len() ==> out@[k] == old_out[k]);
        assert forall|j: int|
            1 <= j < i + 1 && (#[trigger] schema.row_error(rs[0], rs[j])) is None implies schema.decoded(
                out@[good_before(*schema, rs, j) as int],
                rs[0],
                rs[j],
            ) by {
            lemma_good_before_bound(*schema, rs, j);
            if j < i {
                lemma_good_before_grows(*schema, rs, j, i as int);
            }
        }
        assert forall|j: int|
            1 <= j < i + 1 && (#[trigger] schema.row_error(rs[0], rs[j])) is Some
                implies errs@[j - 1 - good_before(*schema, rs, j)]@ == row_error_at(
                *schema,
                file_name@,
                rs,
                j,
            ) by {
            lemma_good_before_bound(*schema, rs, j);
            if j < i {
                lemma_good_before_grows(*schema, rs, j, i as int);
                assert(errs@[j - 1 - good_before(*schema, rs, j)] == old_errs[j - 1 - good_before(*schema, rs, j)]);
            } else {
                assert(j - 1 - good_before(*schema, rs, j) == old_errs.len());
            }
        }
        i = i + 1;
    }
    (out, errs)
}

} // verus!
