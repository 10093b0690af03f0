use vstd::prelude::*;
use crate::lsq::{mrows, srect};
use crate::scalar::{stext_of, Real};
use crate::text::{dec_u64, sdec};

verus! {

/// The header cells `e0`, ..., `e{j-1}`, comma separated.
pub open spec fn s_csv_header_upto(j: int) -> Seq<u8>
    decreases j,
{
    if j <= 0 {
        Seq::empty()
    } else if j == 1 {
        s_csv_header_upto(j - 1) + seq![101u8] + sdec((j - 1) as nat)
    } else {
        s_csv_header_upto(j - 1) + seq![44u8, 101u8] + sdec((j - 1) as nat)
    }
}

/// The first `j` cells of one data row, comma separated.
pub open spec fn s_csv_row_upto<T: Real>(row: Seq<T>, j: int) -> Seq<u8>
    decreases j,
{
    if j <= 0 {
        Seq::empty()
    } else if j == 1 {
        s_csv_row_upto(row, j - 1) + stext_of(row[j - 1])
    } else {
        s_csv_row_upto(row, j - 1) + seq![44u8] + stext_of(row[j - 1])
    }
}

/// The first `i` data rows, each of `n` cells and ending in a newline.
pub open spec fn s_csv_rows_upto<T: Real>(data: Seq<Seq<T>>, n: int, i: int) -> Seq<u8>
    decreases i,
{
    if i <= 0 {
        Seq::empty()
    } else {
        s_csv_rows_upto(data, n, i - 1) + s_csv_row_upto(data[i - 1], n) + seq![10u8]
    }
}

/// The whole table: the header row `e0,e1,...`, then one row per
/// waypoint, comma separated, every row (the header too) ending in a
/// newline; nothing at all for an empty table.
pub open spec fn s_csv<T: Real>(data: Seq<Seq<T>>) -> Seq<u8> {
    if data.len() == 0 {
        Seq::empty()
    } else {
        s_csv_header_upto(data[0].len() as int) + seq![10u8] + s_csv_rows_upto(
            data,
            data[0].len() as int,
            data.len() as int,
        )
    }
}

/// Renders a voltage table as CSV text.
pub fn csv_bytes<T: Real>(data: &Vec<Vec<T>>) -> (r: Vec<u8>)
    requires
        data@.len() > 0 ==> srect(mrows(data@), data@[0]@.len() as int),
    ensures
        r@ == s_csv(mrows(data@)),
{
    let mut out: Vec<u8> = Vec::new();
    if data.len() == 0 {
        proof {
            assert(out@ =~= s_csv(mrows(data@)));
        }
        return out;
    }
    let n = data[0].len();
    let mut j: usize = 0;
    while j < n
        invariant
            j <= n,
            out@ == s_csv_header_upto(j as int),
        decreases n - j,
    {
        if j > 0 {
            out.push(44);
        }
        out.push(101);
        let mut digits = dec_u64(j as u64);
        out.append(&mut digits);
        proof {
            assert(out@ =~= s_csv_header_upto(j + 1));
        }
        j = j + 1;
    }
    out.push(10);
    let ghost header = out@;
    let mut i: usize = 0;
    while i < data.len()
        invariant
            i <= data@.len(),
            data@.len() > 0,
            n == data@[0]@.len(),
            srect(mrows(data@), n as int),
            header == s_csv_header_upto(n as int) + seq![10u8],
            out@ == header + s_csv_rows_upto(mrows(data@), n as int, i as int),
        decreases data@.len() - i,
    {
        let ghost sofar = out@;
        let row = &data[i];
        proof {
            assert(mrows(data@)[i as int].len() == n as int);
        }
        let mut jj: usize = 0;
        while jj < n
            invariant
                jj <= n,
                i < data@.len(),
                row@ == mrows(data@)[i as int],
                row@.len() == n,
                out@ == sofar + s_csv_row_upto(row@, jj as int),
            decreases n - jj,
        {
            if jj > 0 {
                out.push(44);
            }
            let mut cell = row[jj].to_text();
            out.append(&mut cell);
            proof {
                assert(out@ =~= sofar + s_csv_row_upto(row@, jj + 1));
            }
            jj = jj + 1;
        }
        out.push(10);
        proof {
            assert(out@ =~= header + s_csv_rows_upto(mrows(data@), n as int, i + 1));
        }
        i = i + 1;
    }
    proof {
        assert(out@ =~= s_csv(mrows(data@)));
    }
    out
}

} // verus!
