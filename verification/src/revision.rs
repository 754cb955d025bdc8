//! Tracked changes: runs that were inserted or deleted, with the author and
//! the date of the change.

use vstd::prelude::*;
use crate::native::{
    delete_add_run, delete_author, delete_date, delete_new, delete_view, insert_add_run,
    insert_author, insert_date, insert_new, insert_view,
};
use crate::run::{attr_written, Run, RunView};

verus! {

/// A tracked change: its runs, its author and its date.
pub struct ChangeView {
    pub runs: Seq<RunView>,
    pub author: Seq<char>,
    pub date: Seq<char>,
}

impl ChangeView {
    /// A change without runs, by the author and of the date that stand in
    /// for missing ones.
    pub open spec fn unnamed() -> ChangeView {
        ChangeView { runs: Seq::empty(), author: "unnamed"@, date: "1970-01-01T00:00:00Z"@ }
    }

    pub open spec fn with_run(self, run: RunView) -> ChangeView {
        ChangeView { runs: self.runs.push(run), ..self }
    }

    pub open spec fn with_author(self, author: Seq<char>) -> ChangeView {
        ChangeView { author, ..self }
    }

    pub open spec fn with_date(self, date: Seq<char>) -> ChangeView {
        ChangeView { date, ..self }
    }

    /// The change as `docx-rs` keeps it: the author without carriage
    /// returns, the date as it is.
    pub open spec fn written(self) -> ChangeView {
        ChangeView {
            runs: self.runs.map_values(|r: RunView| r.written()),
            author: attr_written(self.author),
            date: self.date,
        }
    }
}

/// The views of some runs, in order.
pub open spec fn run_views(runs: Seq<Run>) -> Seq<RunView> {
    runs.map_values(|r: Run| r@)
}

/// Runs that were inserted.
#[derive(Clone, Debug, PartialEq, Eq)]
pub struct Insert {
    pub runs: Vec<Run>,
    pub author: String,
    pub date: String,
}

impl View for Insert {
    type V = ChangeView;

    open spec fn view(&self) -> ChangeView {
        ChangeView { runs: run_views(self.runs@), author: self.author@, date: self.date@ }
    }
}

impl Insert {
    /// An insertion of one run, by author `unnamed`, dated
    /// `1970-01-01T00:00:00Z`.
    pub fn new(run: Run) -> (out: Insert)
        ensures
            out@ == ChangeView::unnamed().with_run(run@),
    {
        let mut runs: Vec<Run> = Vec::new();
        runs.push(run);
        let out = Insert {
            runs,
            author: "unnamed".to_owned(),
            date: "1970-01-01T00:00:00Z".to_owned(),
        };
        assert(out@.runs =~= ChangeView::unnamed().with_run(run@).runs);
        out
    }

    /// Appends a run after those that the insertion holds.
    pub fn add_run(self, run: Run) -> (out: Insert)
        ensures
            out@ == self@.with_run(run@),
    {
        let mut runs = self.runs;
        runs.push(run);
        let out = Insert { runs, author: self.author, date: self.date };
        assert(out@.runs =~= self@.runs.push(run@));
        out
    }

    pub fn author(self, author: &str) -> (out: Insert)
        ensures
            out@ == self@.with_author(author@),
    {
        Insert { runs: self.runs, author: author.to_owned(), date: self.date }
    }

    pub fn date(self, date: &str) -> (out: Insert)
        ensures
            out@ == self@.with_date(date@),
    {
        Insert { runs: self.runs, author: self.author, date: date.to_owned() }
    }

    /// The same insertion as a value of `docx-rs`.
    pub fn to_docx(&self) -> (out: crate::native::DocxInsert)
        ensures
            insert_view(out) == Some(self@.written()),
    {
        let mut n = insert_new();
        let mut i: usize = 0;
        let ghost runs = self@.written().runs;
        assert(runs.take(0) =~= Seq::empty());
        while i < self.runs.len()
            invariant
                i <= self.runs.len(),
                runs == self@.written().runs,
                insert_view(n) == Some(ChangeView { runs: runs.take(i as int), ..ChangeView::unnamed() }),
            decreases self.runs.len() - i,
        {
            n = insert_add_run(n, self.runs[i].to_docx());
            assert(runs.take(i + 1) =~= runs.take(i as int).push(self.runs[i as int]@.written()));
            i += 1;
        }
        assert(runs.take(i as int) =~= runs);
        n = insert_author(n, self.author.as_str());
        insert_date(n, self.date.as_str())
    }
}

/// Runs that were deleted.
#[derive(Clone, Debug, PartialEq, Eq)]
pub struct Delete {
    pub runs: Vec<Run>,
    pub author: String,
    pub date: String,
}

impl View for Delete {
    type V = ChangeView;

    open spec fn view(&self) -> ChangeView {
        ChangeView { runs: run_views(self.runs@), author: self.author@, date: self.date@ }
    }
}

impl Delete {
    /// A deletion of one run, by author `unnamed`, dated
    /// `1970-01-01T00:00:00Z`.
    pub fn new(run: Run) -> (out: Delete)
        ensures
            out@ == ChangeView::unnamed().with_run(run@),
    {
        let mut runs: Vec<Run> = Vec::new();
        runs.push(run);
        let out = Delete {
            runs,
            author: "unnamed".to_owned(),
            date: "1970-01-01T00:00:00Z".to_owned(),
        };
        assert(out@.runs =~= ChangeView::unnamed().with_run(run@).runs);
        out
    }

    /// Appends a run after those that the deletion holds.
    pub fn add_run(self, run: Run) -> (out: Delete)
        ensures
            out@ == self@.with_run(run@),
    {
        let mut runs = self.runs;
        runs.push(run);
        let out = Delete { runs, author: self.author, date: self.date };
        assert(out@.runs =~= self@.runs.push(run@));
        out
    }

    pub fn author(self, author: &str) -> (out: Delete)
        ensures
            out@ == self@.with_author(author@),
    {
        Delete { runs: self.runs, author: author.to_owned(), date: self.date }
    }

    pub fn date(self, date: &str) -> (out: Delete)
        ensures
            out@ == self@.with_date(date@),
    {
        Delete { runs: self.runs, author: self.author, date: date.to_owned() }
    }

    /// The same deletion as a value of `docx-rs`.
    pub fn to_docx(&self) -> (out: crate::native::DocxDelete)
        ensures
            delete_view(out) == Some(self@.written()),
    {
        let mut n = delete_new();
        let mut i: usize = 0;
        let ghost runs = self@.written().runs;
        assert(runs.take(0) =~= Seq::empty());
        while i < self.runs.len()
            invariant
                i <= self.runs.len(),
                runs == self@.written().runs,
                delete_view(n) == Some(ChangeView { runs: runs.take(i as int), ..ChangeView::unnamed() }),
            decreases self.runs.len() - i,
        {
            n = delete_add_run(n, self.runs[i].to_docx());
            assert(runs.take(i + 1) =~= runs.take(i as int).push(self.runs[i as int]@.written()));
            i += 1;
        }
        assert(runs.take(i as int) =~= runs);
        n = delete_author(n, self.author.as_str());
        delete_date(n, self.date.as_str())
    }
}

} // verus!
