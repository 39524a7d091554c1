//! Selecting the seed EANs out of the connection-list workbook.
//!
//! The downloaded list is a spreadsheet whose first row labels the
//! columns; the rows below carry one connection each. The EAN of every
//! row whose status columns all read `Actief` is kept, in row order,
//! skipping rows whose EAN cell is blank. Reading the workbook itself
//! is the spreadsheet library's work; this module owns what is kept.

use vstd::prelude::*;

use crate::ean::Ean;
use crate::text::{trim_chars, trimmed};

verus! {

/// What seed selection can fail with.
#[derive(Clone, Copy, Debug, PartialEq, Eq)]
pub enum Error {
    /// The worksheet had no rows at all.
    ValueMissing,
}

/// Does this header cell label the EAN column?
pub open spec fn is_ean_label(cell: Seq<char>) -> bool {
    trimmed(cell) == "EAN code"@
}

/// Does this header cell label a status column?
pub open spec fn is_status_label(cell: Seq<char>) -> bool {
    trimmed(cell) == "Status"@
}

/// The rightmost EAN-labelled column, which is the one whose value a
/// row ends up with when several columns carry the label.
pub open spec fn last_ean_col(header: Seq<Seq<char>>) -> Option<int>
    decreases header.len(),
{
    if header.len() == 0 {
        None
    } else if is_ean_label(header.last()) {
        Some(header.len() - 1)
    } else {
        last_ean_col(header.drop_last())
    }
}

/// Do all status columns of this row read `Actief`?
pub open spec fn statuses_active(header: Seq<Seq<char>>, row: Seq<Seq<char>>) -> bool {
    forall|j: int|
        0 <= j < header.len() && is_status_label(#[trigger] header[j]) ==> trimmed(row[j])
            == "Actief"@
}

/// The raw EAN cell of a row, per the header's EAN column.
pub open spec fn row_ean(header: Seq<Seq<char>>, row: Seq<Seq<char>>) -> Seq<char> {
    match last_ean_col(header) {
        Some(j) => row[j],
        None => Seq::empty(),
    }
}

/// Is this row kept? It must have an EAN column, an EAN that is more
/// than whitespace, and only active statuses.
pub open spec fn row_kept(header: Seq<Seq<char>>, row: Seq<Seq<char>>) -> bool {
    &&& last_ean_col(header) is Some
    &&& statuses_active(header, row)
    &&& trimmed(row_ean(header, row)) != Seq::<char>::empty()
}

/// The raw EAN cells of all kept rows, in row order.
pub open spec fn selected_eans(header: Seq<Seq<char>>, body: Seq<Seq<Seq<char>>>) -> Seq<Seq<char>>
    decreases body.len(),
{
    if body.len() == 0 {
        Seq::empty()
    } else {
        selected_eans(header, body.drop_last()) + (if row_kept(header, body.last()) {
            seq![row_ean(header, body.last())]
        } else {
            Seq::empty()
        })
    }
}

/// Trimmed equality of a cell against a fixed label.
fn cell_is(cell: &String, label: &String) -> (r: bool)
    ensures
        r == (trimmed(cell@) == label@),
{
    let t = trim_chars(cell.as_str());
    t == *label
}

/// Do all status columns of this row read `Actief`?
fn row_statuses_active(header: &Vec<String>, row: &Vec<String>) -> (r: bool)
    requires
        row.deep_view().len() == header.deep_view().len(),
    ensures
        r == statuses_active(header.deep_view(), row.deep_view()),
{
    let status_label = String::from_str("Status");
    let active_label = String::from_str("Actief");
    let w = header.len();
    let mut j: usize = 0;
    while j < w
        invariant
            0 <= j <= w,
            w == header.deep_view().len(),
            row.deep_view().len() == w,
            status_label@ == "Status"@,
            active_label@ == "Actief"@,
            forall|k: int|
                0 <= k < j && is_status_label(#[trigger] header.deep_view()[k]) ==> trimmed(
                    row.deep_view()[k],
                ) == "Actief"@,
        decreases w - j,
    {
        proof {
            assert(header.deep_view()[j as int] == header@[j as int]@);
            assert(row.deep_view()[j as int] == row@[j as int]@);
        }
        if cell_is(&header[j], &status_label) {
            if !cell_is(&row[j], &active_label) {
                proof {
                    assert(is_status_label(header.deep_view()[j as int]));
                    assert(trimmed(row.deep_view()[j as int]) != "Actief"@);
                }
                return false;
            }
        }
        j = j + 1;
    }
    true
}

/// Select the seed EANs from the workbook's rows: the first row labels
/// the columns; every following row whose status columns all read
/// `Actief` and whose EAN cell is more than whitespace contributes its
/// raw EAN cell, in row order. An empty worksheet is an error.
pub fn eans_from_rows(rows: &Vec<Vec<String>>) -> (r: Result<Vec<Ean>, Error>)
    requires
        forall|i: int|
            0 <= i < rows.deep_view().len() ==> (#[trigger] rows.deep_view()[i]).len()
                == rows.deep_view()[0].len(),
    ensures
        match r {
            Ok(v) => rows.deep_view().len() > 0 && v.deep_view() == selected_eans(
                rows.deep_view()[0],
                rows.deep_view().skip(1),
            ),
            Err(e) => e == Error::ValueMissing && rows.deep_view().len() == 0,
        },
{
    let ghost model = rows.deep_view();
    let ghost header_model = model[0];
    let ghost body = model.skip(1);
    let m = rows.len();
    if m == 0 {
        return Err(Error::ValueMissing);
    }
    let header = &rows[0];
    let w = header.len();

    // the rightmost EAN-labelled column
    let ean_label = String::from_str("EAN code");
    let mut ean_col: Option<usize> = None;
    let mut j: usize = 0;
    while j < w
        invariant
            0 <= j <= w,
            w == header_model.len(),
            header_model == header.deep_view(),
            ean_label@ == "EAN code"@,
            match ean_col {
                Some(c) => 0 <= c < j && last_ean_col(header_model.take(j as int)) == Some(c as int),
                None => last_ean_col(header_model.take(j as int)) is None,
            },
        decreases w - j,
    {
        if cell_is(&header[j], &ean_label) {
            ean_col = Some(j);
        }
        proof {
            assert(header_model.take(j + 1).drop_last() =~= header_model.take(j as int));
            assert(header_model.take(j + 1).last() == header_model[j as int]);
        }
        j = j + 1;
    }
    proof {
        assert(header_model.take(w as int) =~= header_model);
    }

    let mut out: Vec<Ean> = Vec::new();
    let mut i: usize = 1;
    while i < m
        invariant
            1 <= i <= m,
            m == rows.len(),
            model == rows.deep_view(),
            header_model == model[0],
            body == model.skip(1),
            w == header_model.len(),
            forall|k: int| 0 <= k < model.len() ==> (#[trigger] model[k]).len() == w,
            match ean_col {
                Some(c) => 0 <= c < w && last_ean_col(header_model) == Some(c as int),
                None => last_ean_col(header_model) is None,
            },
            out.deep_view() == selected_eans(header_model, body.take(i - 1)),
        decreases m - i,
    {
        let ghost prev = out.deep_view();
        let ghost rowm = body[i - 1];
        let row = &rows[i];
        proof {
            assert(rowm == model[i as int]);
            assert(row.deep_view() == rowm);
            assert(rowm.len() == w);
        }
        match ean_col {
            None => {
                proof {
                    assert(!row_kept(header_model, rowm));
                }
            },
            Some(c) => {
                if row_statuses_active(&rows[0], row) {
                    let raw = &row[c];
                    proof {
                        assert(raw@ == rowm[c as int]);
                        assert(row_ean(header_model, rowm) == raw@);
                    }
                    let t = trim_chars(raw.as_str());
                    if t.as_str().is_empty() {
                        proof {
                            assert(t@ =~= Seq::<char>::empty());
                            assert(!row_kept(header_model, rowm));
                        }
                    } else {
                        out.push(Ean::new(raw.clone()));
                        proof {
                            assert(trimmed(row_ean(header_model, rowm)) != Seq::<char>::empty());
                            assert(row_kept(header_model, rowm));
                            assert(out.deep_view() =~= prev.push(raw@));
                        }
                    }
                } else {
                    proof {
                        assert(!statuses_active(header_model, rowm));
                        assert(!row_kept(header_model, rowm));
                    }
                }
            },
        }
        proof {
            assert(body.take(i as int).drop_last() =~= body.take(i - 1));
            assert(body.take(i as int).last() == body[i - 1]);
            if row_kept(header_model, rowm) {
                assert(selected_eans(header_model, body.take(i as int)) =~= selected_eans(
                    header_model,
                    body.take(i - 1),
                ) + seq![row_ean(header_model, rowm)]);
            } else {
                assert(selected_eans(header_model, body.take(i as int)) =~= selected_eans(
                    header_model,
                    body.take(i - 1),
                ));
            }
            assert(out.deep_view() =~= selected_eans(header_model, body.take(i as int)));
        }
        i = i + 1;
    }
    proof {
        assert(body.take(m - 1) =~= body);
    }
    Ok(out)
}

} // verus!
