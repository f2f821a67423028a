//! The reference list page: the home page of the browser. It shows the
//! repository's reference names and owns a paged selection.

use vstd::prelude::*;

use crate::app::pagination::{
    clamp_add, clamp_sub, end_index, pagination, sel_wf, spec_page_start, wrap_next, wrap_prev,
};
use crate::objects::{ListRow, SelectTarget};
use crate::style::{UiColor, UiStyle};
use crate::text::{pad_right, repo_label, spec_pad_right, spec_repo_label};

verus! {

/// The reference list. The host enumerates the repository's reference names
/// once at startup and hands them over; reference mutation is out of scope.
pub struct RefsPage {
    pub repo_path: String,
    pub names: Vec<String>,
    pub selected_index: usize,
}

impl RefsPage {
    pub open spec fn wf(self) -> bool {
        sel_wf(self.selected_index as nat, self.names@.len())
    }

    /// The rows shown for a window of `height` items: the page the selection
    /// falls on, cut off at the end of the list.
    pub open spec fn spec_rows(self, height: nat, rows: Seq<ListRow>) -> bool {
        let len = self.names@.len() as int;
        let start = spec_page_start(self.selected_index as nat, height) as int;
        let end = if start + height <= len {
            start + height as int
        } else {
            len
        };
        &&& rows.len() == end - start
        &&& forall|k: int| 0 <= k < rows.len() ==> self.spec_row(start + k, #[trigger] rows[k])
    }

    /// What the row for item `i` of this page holds.
    pub open spec fn spec_row(self, i: int, row: ListRow) -> bool {
        &&& row.kind_label@ == spec_pad_right("ref"@, 10)
        &&& row.kind_style == UiStyle::spec_plain().spec_dim()
        &&& row.name == self.names@[i]
        &&& row.name_style == (if i == self.selected_index as int {
            UiStyle::spec_plain().spec_fg(UiColor::Black).spec_bg(UiColor::Cyan)
        } else {
            UiStyle::spec_plain().spec_fg(UiColor::Gray)
        })
    }

    pub fn new(repo_path: String, names: Vec<String>) -> (r: RefsPage)
        ensures
            r.repo_path == repo_path,
            r.names == names,
            r.selected_index == 0,
            r.wf(),
    {
        RefsPage { repo_path, names, selected_index: 0 }
    }

    pub fn len(&self) -> (r: usize)
        ensures
            r == self.names@.len(),
    {
        self.names.len()
    }

    /// The reference names, as the rows of this page.
    pub fn items(&self) -> (r: Vec<String>)
        ensures
            r@ == self.names@,
    {
        let r = self.names.clone();
        proof {
            assert(r@ =~= self.names@);
        }
        r
    }

    /// The short label identifying the repository: the name of the directory
    /// that holds it.
    pub fn title(&self) -> (r: String)
        ensures
            r@ == spec_repo_label(self.repo_path@),
    {
        repo_label(self.repo_path.as_str())
    }

    pub fn home(&mut self, _page_size: u16)
        ensures
            final(self).selected_index == 0,
            final(self).names == old(self).names,
            final(self).repo_path == old(self).repo_path,
            final(self).wf(),
    {
        self.selected_index = 0;
    }

    pub fn end(&mut self, _page_size: u16)
        ensures
            final(self).selected_index as nat == end_index(old(self).names@.len()),
            final(self).names == old(self).names,
            final(self).repo_path == old(self).repo_path,
            final(self).wf(),
    {
        let len = self.names.len();
        self.selected_index = if len > 0 {
            len - 1
        } else {
            0
        };
    }

    pub fn pagedown(&mut self, page_size: u16)
        ensures
            final(self).selected_index as nat == clamp_add(
                old(self).selected_index as nat,
                page_size as nat,
                old(self).names@.len(),
            ),
            final(self).names == old(self).names,
            final(self).repo_path == old(self).repo_path,
            final(self).wf(),
    {
        let len = self.names.len();
        let h = page_size as usize;
        if len == 0 {
            self.selected_index = 0;
        } else {
            let cap = len - 1;
            self.selected_index = if self.selected_index >= cap || h > cap - self.selected_index {
                cap
            } else {
                self.selected_index + h
            };
        }
    }

    pub fn pageup(&mut self, page_size: u16)
        requires
            old(self).wf(),
        ensures
            final(self).selected_index as nat == clamp_sub(
                old(self).selected_index as nat,
                page_size as nat,
            ),
            final(self).names == old(self).names,
            final(self).repo_path == old(self).repo_path,
            final(self).wf(),
    {
        let h = page_size as usize;
        if self.selected_index < h {
            self.selected_index = 0;
        } else {
            self.selected_index = self.selected_index - h;
        }
    }

    pub fn next_selection(&mut self)
        ensures
            final(self).selected_index as nat == wrap_next(
                old(self).selected_index as nat,
                old(self).names@.len(),
            ),
            final(self).names == old(self).names,
            final(self).repo_path == old(self).repo_path,
            final(self).wf(),
    {
        let len = self.names.len();
        if len > 0 && self.selected_index < len - 1 {
            self.selected_index = self.selected_index + 1;
        } else {
            self.selected_index = 0;
        }
    }

    pub fn previous_selection(&mut self)
        requires
            old(self).wf(),
        ensures
            final(self).selected_index as nat == wrap_prev(
                old(self).selected_index as nat,
                old(self).names@.len(),
            ),
            final(self).names == old(self).names,
            final(self).repo_path == old(self).repo_path,
            final(self).wf(),
    {
        let len = self.names.len();
        if self.selected_index > 0 {
            self.selected_index = self.selected_index - 1;
        } else if len > 0 {
            self.selected_index = len - 1;
        } else {
            self.selected_index = 0;
        }
    }

    /// What activating the current row selects: the reference under the
    /// selection, to be resolved by the host. Nothing on an empty list.
    pub fn select(&self) -> (r: Option<SelectTarget>)
        requires
            self.wf(),
        ensures
            match r {
                Some(t) => self.names@.len() > 0 && (t matches SelectTarget::Reference { name }
                    && name == self.names@[self.selected_index as int]),
                None => self.names@.len() == 0,
            },
    {
        if self.names.len() == 0 {
            None
        } else {
            let name = self.names[self.selected_index].clone();
            Some(SelectTarget::Reference { name })
        }
    }

    /// The name under the selection; empty for an empty list.
    pub fn selected_item(&self) -> (r: String)
        requires
            self.wf(),
        ensures
            self.names@.len() == 0 ==> r@ == Seq::<char>::empty(),
            self.names@.len() > 0 ==> r == self.names@[self.selected_index as int],
    {
        if self.names.len() == 0 {
            String::new()
        } else {
            self.names[self.selected_index].clone()
        }
    }

    /// The rows of the page the selection falls on, at most `height` of them,
    /// each a dimmed kind column and a styled name.
    pub fn visible_rows(&self, height: u16) -> (r: Vec<ListRow>)
        requires
            height > 0,
            self.wf(),
        ensures
            self.spec_rows(height as nat, r@),
    {
        let len = self.names.len();
        let visible = height as usize;
        let (_page, _pages, start) = pagination(len, visible, self.selected_index);
        let end = if len - start <= visible {
            len
        } else {
            start + visible
        };
        let mut rows: Vec<ListRow> = Vec::new();
        let mut pos = start;
        while pos < end
            invariant
                start <= pos <= end <= self.names@.len(),
                rows@.len() == pos - start,
                forall|k: int|
                    0 <= k < rows@.len() ==> self.spec_row(start + k, #[trigger] rows@[k]),
            decreases end - pos,
        {
            let selected = pos == self.selected_index;
            let name = self.names[pos].clone();
            let name_style = if selected {
                UiStyle::plain().fg(UiColor::Black).bg(UiColor::Cyan)
            } else {
                UiStyle::plain().fg(UiColor::Gray)
            };
            let kind_label = pad_right("ref", 10);
            rows.push(ListRow { kind_label, kind_style: UiStyle::plain().dim(), name, name_style });
            pos += 1;
        }
        rows
    }
}

} // verus!
