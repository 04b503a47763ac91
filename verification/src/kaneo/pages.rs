//! Fetching a whole task board page by page: which page to ask for next,
//! how each answer is merged, and when to stop.
use vstd::hash_set::StringHashSet;
use vstd::prelude::*;

use crate::kaneo::board::{
    board_ids, board_task_count, board_task_total, collect_seen_task_ids, merge_board_page,
    merge_page,
};
use crate::kaneo::errors::KaneoError;
use crate::kaneo::types::KaneoBoardResponse;
use crate::text::{decimal, decimal_chars, owned, push_str, string_of};

verus! {

/// How many tasks one page of a board asks for.
pub const FETCH_TASKS_LIMIT: u32 = 200;

/// The path of the board page of a project at `offset`, optionally
/// restricted to tasks with one status.
pub open spec fn page_path_spec(project_id: Seq<char>, offset: u32, status: Option<Seq<char>>) -> Seq<char> {
    let base = "/task/tasks/"@ + project_id + "?limit="@ + decimal(FETCH_TASKS_LIMIT as nat)
        + "&offset="@ + decimal(offset as nat);
    match status {
        Some(s) => base + "&status="@ + s,
        None => base,
    }
}

/// The state of fetching a paginated board.
pub struct BoardPager {
    /// The offset of the next page to ask for.
    pub offset: u32,
    /// The pages merged so far, once the first page has arrived.
    pub merged: Option<KaneoBoardResponse>,
    /// The ids of the tasks merged so far.
    pub seen: StringHashSet,
}

/// A page can be accepted without the offset or a task count overflowing.
pub open spec fn can_accept_spec(p: BoardPager, page: KaneoBoardResponse) -> bool {
    &&& p.offset <= u32::MAX - FETCH_TASKS_LIMIT
    &&& board_task_total(page.data@) <= usize::MAX
    &&& p.merged matches Some(m) ==> board_task_total(m.data@) + board_task_total(page.data@) <= usize::MAX
}

/// How many tasks a page adds: all of the first page, the unseen ones of a
/// later page.
pub open spec fn tasks_added(p: BoardPager, page: KaneoBoardResponse) -> nat {
    match p.merged {
        Some(m) => merge_page(m.data@, page.data@, p.seen@).2,
        None => board_task_total(page.data@),
    }
}

impl BoardPager {
    /// Starts before the first page.
    pub fn new() -> (r: Self)
        ensures
            r.offset == 0,
            r.merged is None,
            r.seen@ == Set::<Seq<char>>::empty(),
    {
        BoardPager { offset: 0, merged: None, seen: StringHashSet::new() }
    }

    /// The path of the next page to ask for.
    pub fn page_path(&self, project_id: &str, status: Option<&str>) -> (r: String)
        ensures
            r@ == page_path_spec(
                project_id@,
                self.offset,
                match status {
                    Some(s) => Some(s@),
                    None => None,
                },
            ),
    {
        let mut out: Vec<char> = Vec::new();
        push_str(&mut out, "/task/tasks/");
        push_str(&mut out, project_id);
        push_str(&mut out, "?limit=");
        let mut limit = decimal_chars(FETCH_TASKS_LIMIT as u64);
        out.append(&mut limit);
        push_str(&mut out, "&offset=");
        let mut off = decimal_chars(self.offset as u64);
        out.append(&mut off);
        match status {
            Some(s) => {
                push_str(&mut out, "&status=");
                push_str(&mut out, s);
            },
            None => {},
        }
        string_of(&out)
    }

    /// Whether `page` can be accepted without the offset or a task count
    /// overflowing.
    pub fn can_accept(&self, page: &KaneoBoardResponse) -> (r: bool)
        ensures
            r == can_accept_spec(*self, *page),
    {
        if self.offset > u32::MAX - FETCH_TASKS_LIMIT {
            return false;
        }
        let page_total = match crate::kaneo::board::board_task_count_checked(page) {
            Some(n) => n,
            None => return false,
        };
        match &self.merged {
            Some(m) => match crate::kaneo::board::board_task_count_checked(m) {
                Some(n) => n <= usize::MAX - page_total,
                None => false,
            },
            None => true,
        }
    }

    /// Takes the answer for the current page. The first page becomes the
    /// board; a later page is merged into it, adding only unseen tasks.
    /// Answers whether another page must be fetched: when this page was full
    /// and added at least one task, the offset moves on by one page.
    pub fn accept_page(&mut self, page: KaneoBoardResponse) -> (go_on: bool)
        requires
            can_accept_spec(*old(self), page),
        ensures
            match old(self).merged {
                Some(m) => {
                    &&& final(self).merged matches Some(fm)
                    &&& fm.data@ == merge_page(m.data@, page.data@, old(self).seen@).0
                    &&& final(self).seen@ == merge_page(m.data@, page.data@, old(self).seen@).1
                },
                None => {
                    &&& final(self).merged == Some(page)
                    &&& final(self).seen@ == old(self).seen@.union(board_ids(page.data@).to_set())
                },
            },
            go_on == (board_task_total(page.data@) >= FETCH_TASKS_LIMIT && tasks_added(*old(self), page) > 0),
            final(self).offset == if go_on {
                old(self).offset + FETCH_TASKS_LIMIT
            } else {
                old(self).offset as int
            },
    {
        let mut page = page;
        let page_task_count = board_task_count(&page);
        let new_task_count = match self.merged.take() {
            Some(mut merged) => {
                let n = merge_board_page(&mut merged, &mut page, &mut self.seen);
                self.merged = Some(merged);
                n
            },
            None => {
                collect_seen_task_ids(&page, &mut self.seen);
                self.merged = Some(page);
                page_task_count
            },
        };
        if page_task_count < FETCH_TASKS_LIMIT as usize || new_task_count == 0 {
            false
        } else {
            self.offset = self.offset + FETCH_TASKS_LIMIT;
            true
        }
    }

    /// The merged board, or an error when no page was ever accepted.
    pub fn finish(self) -> (r: Result<KaneoBoardResponse, KaneoError>)
        ensures
            match self.merged {
                Some(m) => r == Ok::<KaneoBoardResponse, KaneoError>(m),
                None => r matches Err(KaneoError::Api(msg)) && msg@ == "empty paginated task response"@,
            },
    {
        match self.merged {
            Some(m) => Ok(m),
            None => Err(KaneoError::Api(owned("empty paginated task response"))),
        }
    }
}

} // verus!
