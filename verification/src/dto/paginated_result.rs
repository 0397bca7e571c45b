use vstd::prelude::*;

verus! {

/// One page of query results together with the table's full row count.
#[derive(Debug)]
pub struct PaginatedResult<T> {
    pub rows: Vec<T>,
    pub count: i64,
}

impl<T> PaginatedResult<T> {
    /// An empty page.
    pub fn new() -> (r: Self)
        ensures
            r.rows@ == Seq::<T>::empty(),
            r.count == 0,
    {
        PaginatedResult { rows: Vec::new(), count: 0 }
    }
}

} // verus!
