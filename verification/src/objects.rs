//! The core's model of the content-object graph. A node is a Blob (raw
//! bytes), a Tree (named entries) or a Commit (an id plus its root tree).
//! The host resolves names and reads objects from the repository; the core
//! receives them as these plain values and never mutates them.

use vstd::prelude::*;
use vstd::string::StringExecFns;

use crate::style::{UiColor, UiStyle};

verus! {

/// The discriminated kind of a content object.
#[derive(Clone, Copy, Debug, Eq, PartialEq, Structural)]
pub enum ObjectKind {
    Blob,
    Tree,
    Commit,
    Other,
}

/// One named entry of a tree, together with the collaborator's binary/text
/// classification for blob entries (`binary` is false for everything else).
#[derive(Clone, Debug)]
pub struct TreeEntry {
    pub name: String,
    pub kind: ObjectKind,
    pub binary: bool,
}

impl TreeEntry {
    /// The dimmed kind label of a listing row.
    pub open spec fn spec_kind_label(self) -> Seq<char> {
        match self.kind {
            ObjectKind::Tree => "tree"@,
            ObjectKind::Blob => if self.binary {
                "binary"@
            } else {
                "blob"@
            },
            _ => "unknown"@,
        }
    }

    pub open spec fn spec_kind_style(self) -> UiStyle {
        if self.kind == ObjectKind::Blob && self.binary {
            UiStyle::spec_plain().spec_fg(UiColor::Red).spec_dim()
        } else {
            UiStyle::spec_plain().spec_fg(UiColor::Gray).spec_dim()
        }
    }

    /// The kind column of this entry's listing row.
    pub fn display_kind(&self) -> (r: (String, UiStyle))
        ensures
            r.0@ == self.spec_kind_label(),
            r.1 == self.spec_kind_style(),
    {
        match self.kind {
            ObjectKind::Tree => (String::from_str("tree"), UiStyle::plain().fg(UiColor::Gray).dim()),
            ObjectKind::Blob => {
                if self.binary {
                    (String::from_str("binary"), UiStyle::plain().fg(UiColor::Red).dim())
                } else {
                    (String::from_str("blob"), UiStyle::plain().fg(UiColor::Gray).dim())
                }
            },
            _ => (String::from_str("unknown"), UiStyle::plain().fg(UiColor::Gray).dim()),
        }
    }

    /// Trees carry a trailing path separator.
    pub open spec fn spec_name_text(self) -> Seq<char> {
        match self.kind {
            ObjectKind::Tree => self.name@ + "/"@,
            ObjectKind::Blob => self.name@,
            _ => "unknown"@,
        }
    }

    pub open spec fn spec_name_style(self, selected: bool) -> UiStyle {
        match self.kind {
            ObjectKind::Tree => UiStyle::spec_plain().spec_fg(UiColor::Blue).spec_bg(
                if selected {
                    UiColor::Cyan
                } else {
                    UiColor::Reset
                },
            ).spec_bold(),
            ObjectKind::Blob => UiStyle::spec_plain().spec_fg(UiColor::Gray).spec_bg(
                if selected {
                    UiColor::Cyan
                } else {
                    UiColor::Reset
                },
            ),
            _ => UiStyle::spec_plain().spec_fg(UiColor::Red).spec_bold(),
        }
    }

    /// The name column of this entry's listing row; the selected row is
    /// highlighted.
    pub fn display_name(&self, selected: bool) -> (r: (String, UiStyle))
        ensures
            r.0@ == self.spec_name_text(),
            r.1 == self.spec_name_style(selected),
    {
        let bg = if selected {
            UiColor::Cyan
        } else {
            UiColor::Reset
        };
        match self.kind {
            ObjectKind::Tree => {
                let text = self.name.clone().concat("/");
                (text, UiStyle::plain().fg(UiColor::Blue).bg(bg).bold())
            },
            ObjectKind::Blob => (self.name.clone(), UiStyle::plain().fg(UiColor::Gray).bg(bg)),
            _ => (String::from_str("unknown"), UiStyle::plain().fg(UiColor::Red).bold()),
        }
    }
}

/// A resolved content object, as the host hands it to the core. Commits come
/// already peeled: they carry their root tree's id and entries.
pub enum GitObject {
    Blob { id: String, bytes: Vec<u8>, binary: bool },
    Tree { id: String, entries: Vec<TreeEntry> },
    Commit { id: String, tree_id: String, entries: Vec<TreeEntry> },
    Other,
}

/// What the current page would select: a named reference, or one entry of the
/// topmost tree. The host resolves the target to a [`GitObject`].
pub enum SelectTarget {
    Reference { name: String },
    Entry { tree_id: String, index: usize, name: String },
}

/// One two-column row of a list page, ready for the host to render.
#[derive(Clone, Debug)]
pub struct ListRow {
    pub kind_label: String,
    pub kind_style: UiStyle,
    pub name: String,
    pub name_style: UiStyle,
}

} // verus!
