//! The result list model: the ordered rows that the list view shows.
use vstd::prelude::*;
use crate::lookup::SearchResult;

verus! {

/// An ordered, clearable list of search results backing a list view.
#[derive(Debug)]
pub struct ResultListModel {
    rows: Vec<SearchResult>,
}

impl View for ResultListModel {
    type V = Seq<SearchResult>;

    closed spec fn view(&self) -> Seq<SearchResult> {
        self.rows@
    }
}

impl ResultListModel {
    /// An empty model.
    pub fn new() -> (r: ResultListModel)
        ensures
            r@ == Seq::<SearchResult>::empty(),
    {
        ResultListModel { rows: Vec::new() }
    }

    /// Removes every row.
    pub fn clear(&mut self)
        ensures
            final(self)@ == Seq::<SearchResult>::empty(),
    {
        self.rows = Vec::new();
    }

    /// Adds `result` after the last row.
    pub fn append(&mut self, result: SearchResult)
        ensures
            final(self)@ == old(self)@.push(result),
    {
        self.rows.push(result);
    }

    /// Clears the model, then appends `results` in order.
    pub fn replace_all(&mut self, results: Vec<SearchResult>)
        ensures
            final(self)@ == results@,
    {
        self.clear();
        let mut k: usize = 0;
        while k < results.len()
            invariant
                k <= results@.len(),
                self@ == results@.subrange(0, k as int),
            decreases results@.len() - k,
        {
            self.append(results[k].clone());
            k = k + 1;
            assert(self@ =~= results@.subrange(0, k as int));
        }
        assert(results@.subrange(0, k as int) =~= results@);
    }

    pub fn len(&self) -> (r: usize)
        ensures
            r == self@.len(),
    {
        self.rows.len()
    }

    pub fn is_empty(&self) -> (r: bool)
        ensures
            r == (self@.len() == 0),
    {
        self.rows.len() == 0
    }

    /// The row at position `index`.
    pub fn row(&self, index: usize) -> (r: &SearchResult)
        requires
            index < self@.len(),
        ensures
            *r == self@[index as int],
    {
        &self.rows[index]
    }
}

/// The model shown before the first lookup: three placeholder rows.
pub fn create_model() -> (r: ResultListModel)
    ensures
        r@.len() == 3,
        r@[0].id == 1 && r@[0].text@ == "test1"@,
        r@[1].id == 2 && r@[1].text@ == "test2"@,
        r@[2].id == 3 && r@[2].text@ == "test3"@,
{
    let mut model = ResultListModel::new();
    model.append(SearchResult { id: 1, text: "test1".to_owned() });
    model.append(SearchResult { id: 2, text: "test2".to_owned() });
    model.append(SearchResult { id: 3, text: "test3".to_owned() });
    model
}

} // verus!
