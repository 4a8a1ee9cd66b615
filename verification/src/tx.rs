//! The transaction snapshot the validator judges.
//!
//! The host enumerates the enclosing transaction once and hands the
//! validator plain values: for every input and output cell its lock-script
//! hash and its data block, for every header dependency its block number
//! and epoch, plus the running script's own hash and arguments.

use vstd::prelude::*;

verus! {

/// One cell of the transaction, as the validator sees it: the hash of its
/// lock script and its data block.
#[derive(Debug, Clone)]
pub struct Cell {
    pub lock_hash: Vec<u8>,
    pub data: Vec<u8>,
}

/// The mathematical shape of a cell.
pub ghost struct CellView {
    pub lock_hash: Seq<u8>,
    pub data: Seq<u8>,
}

impl View for Cell {
    type V = CellView;

    open spec fn view(&self) -> CellView {
        CellView { lock_hash: self.lock_hash@, data: self.data@ }
    }
}

/// One header dependency: its block number and its epoch.
#[derive(Debug, Clone, Copy, PartialEq, Eq, Structural)]
pub struct HeaderInfo {
    pub number: u64,
    pub epoch: u64,
}

/// The whole snapshot of one validation call.
#[derive(Debug, Clone)]
pub struct Transaction {
    /// Hash of the vesting lock script itself; input and output cells
    /// whose lock hash equals it belong to this record's configuration.
    pub script_hash: Vec<u8>,
    /// The vesting lock script's arguments (the configuration block).
    pub args: Vec<u8>,
    pub inputs: Vec<Cell>,
    pub outputs: Vec<Cell>,
    pub headers: Vec<HeaderInfo>,
}

/// The mathematical shape of a transaction snapshot.
pub ghost struct TransactionView {
    pub script_hash: Seq<u8>,
    pub args: Seq<u8>,
    pub inputs: Seq<CellView>,
    pub outputs: Seq<CellView>,
    pub headers: Seq<HeaderInfo>,
}

/// The views of a sequence of cells.
pub open spec fn cells_view(cells: Seq<Cell>) -> Seq<CellView> {
    cells.map_values(|c: Cell| c@)
}

impl View for Transaction {
    type V = TransactionView;

    open spec fn view(&self) -> TransactionView {
        TransactionView {
            script_hash: self.script_hash@,
            args: self.args@,
            inputs: cells_view(self.inputs@),
            outputs: cells_view(self.outputs@),
            headers: self.headers@,
        }
    }
}

/// How many cells carry the given lock hash.
pub open spec fn spec_count_matching(cells: Seq<CellView>, hash: Seq<u8>) -> nat
    decreases cells.len(),
{
    if cells.len() == 0 {
        0
    } else {
        spec_count_matching(cells.drop_last(), hash) + if cells.last().lock_hash == hash {
            1nat
        } else {
            0nat
        }
    }
}

/// The data of the first cell carrying the given lock hash, if any.
pub open spec fn spec_find_matching_data(cells: Seq<CellView>, hash: Seq<u8>) -> Option<Seq<u8>>
    decreases cells.len(),
{
    if cells.len() == 0 {
        None
    } else {
        match spec_find_matching_data(cells.drop_last(), hash) {
            Some(d) => Some(d),
            None => if cells.last().lock_hash == hash {
                Some(cells.last().data)
            } else {
                None
            },
        }
    }
}

/// Counts the cells whose lock hash equals `hash`.
pub fn count_matching_cells(cells: &Vec<Cell>, hash: &[u8]) -> (n: usize)
    ensures
        n == spec_count_matching(cells_view(cells@), hash@),
{
    let ghost cv = cells_view(cells@);
    let mut n: usize = 0;
    let mut i: usize = 0;
    while i < cells.len()
        invariant
            cv == cells_view(cells@),
            0 <= i <= cells@.len(),
            cv.len() == cells@.len(),
            n <= i,
            n == spec_count_matching(cv.subrange(0, i as int), hash@),
        decreases cells@.len() - i,
    {
        if crate::bytes::bytes_eq(cells[i].lock_hash.as_slice(), hash) {
            n = n + 1;
        }
        proof {
            assert(cv.subrange(0, i + 1).drop_last() =~= cv.subrange(0, i as int));
            assert(cv.subrange(0, i + 1).last() == cv[i as int]);
        }
        i = i + 1;
    }
    proof {
        assert(cv.subrange(0, cells@.len() as int) =~= cv);
    }
    n
}

/// Hands out a copy of the data of the first cell whose lock hash equals
/// `hash`, or `None` when no cell matches.
pub fn find_matching_data(cells: &Vec<Cell>, hash: &[u8]) -> (r: Option<Vec<u8>>)
    ensures
        match r {
            Some(d) => spec_find_matching_data(cells_view(cells@), hash@) == Some(d@),
            None => spec_find_matching_data(cells_view(cells@), hash@) is None,
        },
{
    let ghost cv = cells_view(cells@);
    let mut found: Option<Vec<u8>> = None;
    let mut i: usize = 0;
    while i < cells.len()
        invariant
            cv == cells_view(cells@),
            0 <= i <= cells@.len(),
            cv.len() == cells@.len(),
            match found {
                Some(d) => spec_find_matching_data(cv.subrange(0, i as int), hash@) == Some(d@),
                None => spec_find_matching_data(cv.subrange(0, i as int), hash@) is None,
            },
        decreases cells@.len() - i,
    {
        if found.is_none() && crate::bytes::bytes_eq(cells[i].lock_hash.as_slice(), hash) {
            found = Some(vstd::slice::slice_to_vec(cells[i].data.as_slice()));
        }
        proof {
            assert(cv.subrange(0, i + 1).drop_last() =~= cv.subrange(0, i as int));
            assert(cv.subrange(0, i + 1).last() == cv[i as int]);
        }
        i = i + 1;
    }
    proof {
        assert(cv.subrange(0, cells@.len() as int) =~= cv);
    }
    found
}

} // verus!
