//! The unit of data that flows between nodes: a batch of files.
use vstd::prelude::*;

verus! {

/// One file of a batch: its path relative to the batch directory and its bytes.
pub struct MediaDataCell {
    pub size: i32,
    pub path: String,
    pub data: Vec<u8>,
}

/// Plain-value picture of a cell.
pub struct MediaDataCellView {
    pub size: i32,
    pub path: Seq<char>,
    pub data: Seq<u8>,
}

impl View for MediaDataCell {
    type V = MediaDataCellView;

    open spec fn view(&self) -> MediaDataCellView {
        MediaDataCellView { size: self.size, path: self.path@, data: self.data@ }
    }
}

/// A batch of files with its identifier, its number of files, its flag bits
/// and its priority.
pub struct MediaDataBatchResponse {
    pub id: String,
    pub size: u32,
    pub cells: Vec<MediaDataCell>,
    pub data_flag: u32,
    pub priority: u32,
}

/// Plain-value picture of a batch.
pub struct MediaDataBatchView {
    pub id: Seq<char>,
    pub size: u32,
    pub cells: Seq<MediaDataCellView>,
    pub data_flag: u32,
    pub priority: u32,
}

impl View for MediaDataBatchResponse {
    type V = MediaDataBatchView;

    open spec fn view(&self) -> MediaDataBatchView {
        MediaDataBatchView {
            id: self.id@,
            size: self.size,
            cells: self.cells@.map_values(|c: MediaDataCell| c@),
            data_flag: self.data_flag,
            priority: self.priority,
        }
    }
}

impl MediaDataCell {
    /// A cell for the file at `path` with contents `data`; its size is the
    /// byte count, taken as an `i32` the way a cast does.
    pub fn new(path: String, data: Vec<u8>) -> (r: Self)
        ensures
            r.path@ == path@,
            r.data@ == data@,
            r.size == data@.len() as i32,
    {
        let size = data.len() as i32;
        MediaDataCell { size, path, data }
    }

    /// A copy of the cell.
    pub fn duplicate(&self) -> (r: Self)
        ensures
            r@ == self@,
    {
        MediaDataCell {
            size: self.size,
            path: self.path.clone(),
            data: vstd::slice::slice_to_vec(self.data.as_slice()),
        }
    }
}

impl MediaDataBatchResponse {
    /// A batch with no files, no identifier, no flags and priority 0.
    pub fn empty() -> (r: Self)
        ensures
            r@.id.len() == 0,
            r@.size == 0,
            r@.cells.len() == 0,
            r@.data_flag == 0,
            r@.priority == 0,
    {
        let r = MediaDataBatchResponse {
            id: String::new(),
            size: 0,
            cells: Vec::new(),
            data_flag: 0,
            priority: 0,
        };
        assert(r@.cells =~= Seq::<MediaDataCellView>::empty());
        r
    }

    /// The batch `id` made of `cells` in the given order; its size is the
    /// number of cells taken as a `u32` the way a cast does.
    pub fn assemble(id: &str, cells: Vec<MediaDataCell>) -> (r: Self)
        ensures
            r@.id == id@,
            r@.cells == cells@.map_values(|c: MediaDataCell| c@),
            r@.size == cells@.len() as u32,
            r@.data_flag == 0,
            r@.priority == 0,
    {
        let size = cells.len() as u32;
        MediaDataBatchResponse { id: id.to_owned(), size, cells, data_flag: 0, priority: 0 }
    }

    /// A copy of the batch.
    pub fn duplicate(&self) -> (r: Self)
        ensures
            r@ == self@,
    {
        let mut cells: Vec<MediaDataCell> = Vec::new();
        let n = self.cells.len();
        let mut i: usize = 0;
        while i < n
            invariant
                n == self.cells@.len(),
                i <= n,
                cells@.len() == i,
                forall|j: int| 0 <= j < i ==> #[trigger] cells@[j]@ == self.cells@[j]@,
            decreases n - i,
        {
            cells.push(self.cells[i].duplicate());
            i = i + 1;
        }
        let r = MediaDataBatchResponse {
            id: self.id.clone(),
            size: self.size,
            cells,
            data_flag: self.data_flag,
            priority: self.priority,
        };
        assert(r@.cells =~= self@.cells);
        r
    }
}

} // verus!
