//! A tree listing page: one level of the breadcrumb path from the root of a
//! commit (or of a selected tree) down to the tree currently displayed.

use vstd::prelude::*;

use crate::app::pagination::{
    clamp_add, clamp_sub, end_index, pagination, sel_wf, spec_page_start, wrap_next, wrap_prev,
};
use crate::objects::{ListRow, SelectTarget, TreeEntry};

verus! {

/// One browsed tree: the id the host resolves entries against, the peeled
/// entries, the path segment that led here (empty for a root) and the
/// selection.
pub struct TreePage {
    pub tree_id: String,
    pub entries: Vec<TreeEntry>,
    pub selected_index: usize,
    pub name: String,
}

impl TreePage {
    pub open spec fn wf(self) -> bool {
        sel_wf(self.selected_index as nat, self.entries@.len())
    }

    /// The rows shown for a window of `height` entries: the page the selection
    /// falls on, cut off at the end of the tree.
    pub open spec fn spec_rows(self, height: nat, rows: Seq<ListRow>) -> bool {
        let len = self.entries@.len() as int;
        let start = spec_page_start(self.selected_index as nat, height) as int;
        let end = if start + height <= len {
            start + height as int
        } else {
            len
        };
        &&& rows.len() == end - start
        &&& forall|k: int| 0 <= k < rows.len() ==> self.spec_row(start + k, #[trigger] rows[k])
    }

    /// What the row for entry `i` of this page holds.
    pub open spec fn spec_row(self, i: int, row: ListRow) -> bool {
        let e = self.entries@[i];
        &&& row.kind_label@ == crate::text::spec_pad_right(e.spec_kind_label(), 10)
        &&& row.kind_style == e.spec_kind_style()
        &&& row.name@ == e.spec_name_text()
        &&& row.name_style == e.spec_name_style(i == self.selected_index as int)
    }

    pub fn new(tree_id: String, entries: Vec<TreeEntry>, name: String) -> (r: TreePage)
        ensures
            r.tree_id == tree_id,
            r.entries == entries,
            r.name == name,
            r.selected_index == 0,
            r.wf(),
    {
        TreePage { tree_id, entries, selected_index: 0, name }
    }

    pub fn len(&self) -> (r: usize)
        ensures
            r == self.entries@.len(),
    {
        self.entries.len()
    }

    /// The path segment this page was reached through.
    pub fn title(&self) -> (r: String)
        ensures
            r == self.name,
    {
        self.name.clone()
    }

    pub fn home(&mut self, _page_size: u16)
        ensures
            final(self).selected_index == 0,
            final(self).entries == old(self).entries,
            final(self).tree_id == old(self).tree_id,
            final(self).name == old(self).name,
            final(self).wf(),
    {
        self.selected_index = 0;
    }

    pub fn end(&mut self, _page_size: u16)
        ensures
            final(self).selected_index as nat == end_index(old(self).entries@.len()),
            final(self).entries == old(self).entries,
            final(self).tree_id == old(self).tree_id,
            final(self).name == old(self).name,
            final(self).wf(),
    {
        let len = self.entries.len();
        self.selected_index = if len > 0 {
            len - 1
        } else {
            0
        };
    }

    pub fn pagedown(&mut self, page_size: u16)
        ensures
            final(self).selected_index as nat == clamp_add(
                old(self).selected_index as nat,
                page_size as nat,
                old(self).entries@.len(),
            ),
            final(self).entries == old(self).entries,
            final(self).tree_id == old(self).tree_id,
            final(self).name == old(self).name,
            final(self).wf(),
    {
        let len = self.entries.len();
        let h = page_size as usize;
        if len == 0 {
            self.selected_index = 0;
        } else {
            let cap = len - 1;
            self.selected_index = if self.selected_index >= cap || h > cap - self.selected_index {
                cap
            } else {
                self.selected_index + h
            };
        }
    }

    pub fn pageup(&mut self, page_size: u16)
        requires
            old(self).wf(),
        ensures
            final(self).selected_index as nat == clamp_sub(
                old(self).selected_index as nat,
                page_size as nat,
            ),
            final(self).entries == old(self).entries,
            final(self).tree_id == old(self).tree_id,
            final(self).name == old(self).name,
            final(self).wf(),
    {
        let h = page_size as usize;
        if self.selected_index < h {
            self.selected_index = 0;
        } else {
            self.selected_index = self.selected_index - h;
        }
    }

    pub fn next_selection(&mut self)
        ensures
            final(self).selected_index as nat == wrap_next(
                old(self).selected_index as nat,
                old(self).entries@.len(),
            ),
            final(self).entries == old(self).entries,
            final(self).tree_id == old(self).tree_id,
            final(self).name == old(self).name,
            final(self).wf(),
    {
        let len = self.entries.len();
        if len > 0 && self.selected_index < len - 1 {
            self.selected_index = self.selected_index + 1;
        } else {
            self.selected_index = 0;
        }
    }

    pub fn previous_selection(&mut self)
        requires
            old(self).wf(),
        ensures
            final(self).selected_index as nat == wrap_prev(
                old(self).selected_index as nat,
                old(self).entries@.len(),
            ),
            final(self).entries == old(self).entries,
            final(self).tree_id == old(self).tree_id,
            final(self).name == old(self).name,
            final(self).wf(),
    {
        let len = self.entries.len();
        if self.selected_index > 0 {
            self.selected_index = self.selected_index - 1;
        } else if len > 0 {
            self.selected_index = len - 1;
        } else {
            self.selected_index = 0;
        }
    }

    /// What activating the current row selects: the entry under the
    /// selection, to be resolved by the host against this tree's id. Nothing
    /// on an empty tree.
    pub fn select(&self) -> (r: Option<SelectTarget>)
        requires
            self.wf(),
        ensures
            match r {
                Some(t) => self.entries@.len() > 0 && (t matches SelectTarget::Entry {
                    tree_id,
                    index,
                    name,
                } && tree_id == self.tree_id && index == self.selected_index && name
                    == self.entries@[self.selected_index as int].name),
                None => self.entries@.len() == 0,
            },
    {
        if self.entries.len() == 0 {
            None
        } else {
            let name = self.entries[self.selected_index].name.clone();
            Some(
                SelectTarget::Entry {
                    tree_id: self.tree_id.clone(),
                    index: self.selected_index,
                    name,
                },
            )
        }
    }

    /// The name of the entry under the selection; empty for an empty tree.
    pub fn selected_item(&self) -> (r: String)
        requires
            self.wf(),
        ensures
            self.entries@.len() == 0 ==> r@ == Seq::<char>::empty(),
            self.entries@.len() > 0 ==> r == self.entries@[self.selected_index as int].name,
    {
        if self.entries.len() == 0 {
            String::new()
        } else {
            self.entries[self.selected_index].name.clone()
        }
    }

    /// The rows of the page the selection falls on, at most `height` of them:
    /// a dimmed kind column and the styled entry name, the selected row
    /// highlighted.
    pub fn visible_rows(&self, height: u16) -> (r: Vec<ListRow>)
        requires
            height > 0,
            self.wf(),
        ensures
            self.spec_rows(height as nat, r@),
    {
        let len = self.entries.len();
        let visible = height as usize;
        let (_page, _pages, start) = pagination(len, visible, self.selected_index);
        let end = if len - start <= visible {
            len
        } else {
            start + visible
        };
        let mut rows: Vec<ListRow> = Vec::new();
        let mut pos = start;
        while pos < end
            invariant
                start <= pos <= end <= self.entries@.len(),
                rows@.len() == pos - start,
                forall|k: int|
                    0 <= k < rows@.len() ==> self.spec_row(start + k, #[trigger] rows@[k]),
            decreases end - pos,
        {
            let selected = pos == self.selected_index;
            let entry = &self.entries[pos];
            let (kind, kind_style) = entry.display_kind();
            let (name, name_style) = entry.display_name(selected);
            let kind_label = crate::text::pad_right(kind.as_str(), 10);
            rows.push(ListRow { kind_label, kind_style, name, name_style });
            pos += 1;
        }
        rows
    }
}

} // verus!
