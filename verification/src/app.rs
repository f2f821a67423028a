//! The navigation core: a stack of modes doubling as the navigation history,
//! a stack of tree pages forming the breadcrumb path, the single reference
//! list, the optional blob viewer, and the optional error overlay. Every
//! input action is translated here into one state transition; the two
//! transitions that need outside work (resolving a selection, running the
//! external editor) are split into a request to the host and a second step
//! that takes the host's answer.

pub mod blob_pager;
pub mod external_editor;
pub mod navigation;
pub mod pagination;
pub mod refs_page;
pub mod tree_page;

use vstd::prelude::*;
use vstd::string::StringExecFns;
use vstd::utf8::decode_utf8;

use crate::app::blob_pager::{
    blob_clamp_down, blob_end_top, blob_next, lines_decodable, BlobPager, BlobRow,
};
use crate::app::external_editor::ExternalEditor;
use crate::app::navigation::{ActionInfo, NavigationAction};
use crate::app::pagination::{clamp_add, clamp_sub, end_index, wrap_next, wrap_prev};
use crate::app::refs_page::RefsPage;
use crate::app::tree_page::TreePage;
use crate::errors::{ErrorKind, GitBrowserError};
use crate::objects::{GitObject, ListRow, SelectTarget, TreeEntry};
use crate::style::{UiColor, UiStyle};
use crate::text::{byte_lines, spec_repo_label};

verus! {

/// Which page or overlay currently owns input focus.
#[derive(Clone, Copy, Debug, Eq, PartialEq, Structural)]
pub enum AppMode {
    BrowseRefs,
    BrowseTrees,
    ViewBlob,
    ExternalEditor,
    Error,
}

/// Whether the host must clear and redraw the whole terminal.
#[derive(Clone, Copy, Debug, Eq, PartialEq, Structural)]
pub struct Redraw(pub bool);

/// What one navigation step asks of the host: nothing beyond a possible
/// redraw, or one of the two transitions that need outside work.
#[derive(Clone, Copy, Debug, Eq, PartialEq, Structural)]
pub enum NavOutcome {
    Done(Redraw),
    NeedsSelect,
    NeedsEditor,
}

/// The render model of whichever page owns the screen: the rows of a list
/// page, the blob viewer's window (rows, filler count, background), or
/// nothing while an overlay or the editor owns it.
pub enum PageView {
    List(Vec<ListRow>),
    Blob(Vec<BlobRow>, usize, UiStyle),
    Empty,
}

/// Where a movement takes a list page's selection: wrapping single steps,
/// clamped page steps, and jumps to the ends.
pub open spec fn list_move(a: NavigationAction, sel: nat, len: nat, h: nat) -> nat {
    match a {
        NavigationAction::Home => 0,
        NavigationAction::End => end_index(len),
        NavigationAction::PageUp => clamp_sub(sel, h),
        NavigationAction::PageDown => clamp_add(sel, h, len),
        NavigationAction::NextSelection => wrap_next(sel, len),
        NavigationAction::PreviousSelection => wrap_prev(sel, len),
        _ => sel,
    }
}

/// Where a movement takes the blob viewer's free scroll offset: everything is
/// clamped, nothing wraps.
pub open spec fn blob_move(a: NavigationAction, top: nat, len: nat, h: nat) -> nat {
    match a {
        NavigationAction::Home => 0,
        NavigationAction::End => blob_end_top(len, h),
        NavigationAction::PageUp => clamp_sub(top, h),
        NavigationAction::PageDown => blob_clamp_down(top, h, len),
        NavigationAction::NextSelection => blob_next(top, len),
        NavigationAction::PreviousSelection => clamp_sub(top, 1),
        _ => top,
    }
}

/// How often `m` occurs on a mode stack.
pub open spec fn count_mode(s: Seq<AppMode>, m: AppMode) -> nat
    decreases s.len(),
{
    if s.len() == 0 {
        0
    } else {
        count_mode(s.drop_last(), m) + (if s.last() == m {
            1nat
        } else {
            0nat
        })
    }
}

/// What Back does to the mode stack: pop, except that the last mode stays.
pub open spec fn pop_modes(s: Seq<AppMode>) -> Seq<AppMode> {
    if s.len() <= 1 {
        s
    } else {
        s.drop_last()
    }
}

/// `pop_modes` applied `n` times.
pub open spec fn pop_modes_n(s: Seq<AppMode>, n: nat) -> Seq<AppMode>
    decreases n,
{
    if n == 0 {
        s
    } else {
        pop_modes(pop_modes_n(s, (n - 1) as nat))
    }
}

pub proof fn lemma_count_contains(s: Seq<AppMode>, m: AppMode)
    ensures
        count_mode(s, m) >= 1 <==> s.contains(m),
        count_mode(s, m) <= s.len(),
    decreases s.len(),
{
    if s.len() > 0 {
        let dl = s.drop_last();
        lemma_count_contains(dl, m);
        if s.last() == m {
            assert(s[s.len() - 1] == m);
            assert(s.contains(m));
        } else {
            if dl.contains(m) {
                let i = choose|i: int| 0 <= i < dl.len() && dl[i] == m;
                assert(s[i] == m);
                assert(s.contains(m));
            }
            if s.contains(m) {
                let i = choose|i: int| 0 <= i < s.len() && s[i] == m;
                assert(i < s.len() - 1);
                assert(dl[i] == m);
                assert(dl.contains(m));
            }
        }
    }
}

proof fn lemma_count_push(s: Seq<AppMode>, x: AppMode, m: AppMode)
    ensures
        count_mode(s.push(x), m) == count_mode(s, m) + (if x == m {
            1nat
        } else {
            0nat
        }),
{
    assert(s.push(x).drop_last() =~= s);
    assert(s.push(x).last() == x);
}

/// The navigation core. The mode stack is never empty; its bottom entry is
/// the home mode the browser was launched in.
pub struct App<'syntax> {
    pub search_input: String,
    pub commit: Option<String>,
    pub refs_page: RefsPage,
    pub tree_pages: Vec<TreePage>,
    pub blob_pager: Option<BlobPager<'syntax>>,
    pub external_editor: Option<ExternalEditor>,
    pub mode_history: Vec<AppMode>,
    pub height: u16,
    pub active_error: Option<GitBrowserError>,
    pub editor: String,
    pub syntax_set: &'syntax syntect::parsing::SyntaxSet,
    pub theme: &'syntax syntect::highlighting::Theme,
}

impl<'syntax> App<'syntax> {
    /// The mode stack, oldest first.
    pub open spec fn modes(self) -> Seq<AppMode> {
        self.mode_history@
    }

    /// The mode that owns input focus: the top of the stack.
    pub open spec fn spec_mode(self) -> AppMode {
        self.modes().last()
    }

    /// The structural invariant of the core. The stack is never empty and
    /// starts at a home mode; the tree-page stack is as long as the number of
    /// tree modes on the stack (so popping the last tree page coincides with
    /// leaving tree browsing); the blob viewer and editor session exist
    /// exactly while their modes are on the stack; the error overlay exists
    /// exactly while the error mode is on top; and above a viewer or editor
    /// mode there are only overlays.
    pub open spec fn wf(self) -> bool {
        let s = self.modes();
        &&& s.len() >= 1
        &&& (s[0] == AppMode::BrowseRefs || s[0] == AppMode::BrowseTrees)
        &&& self.tree_pages@.len() == count_mode(s, AppMode::BrowseTrees)
        &&& count_mode(s, AppMode::ViewBlob) <= 1
        &&& (self.blob_pager is Some <==> s.contains(AppMode::ViewBlob))
        &&& count_mode(s, AppMode::ExternalEditor) <= 1
        &&& (self.external_editor is Some <==> s.contains(AppMode::ExternalEditor))
        &&& (self.active_error is Some <==> s.last() == AppMode::Error)
        &&& (forall|i: int| 0 <= i < s.len() - 1 ==> s[i] != AppMode::Error)
        &&& (forall|i: int| 0 <= i < s.len() ==> (s[i] == AppMode::BrowseRefs ==> i == 0))
        &&& (forall|i: int, j: int|
            #![trigger s[i], s[j]]
            0 <= i < j < s.len() && s[i] == AppMode::ViewBlob ==> (s[j] == AppMode::Error || s[j]
                == AppMode::ExternalEditor))
        &&& (forall|i: int, j: int|
            #![trigger s[i], s[j]]
            0 <= i < j < s.len() && s[i] == AppMode::ExternalEditor ==> s[j] == AppMode::Error)
        &&& (self.tree_pages@.len() == 0 ==> self.commit is None)
        &&& self.refs_page.wf()
        &&& (forall|i: int|
            0 <= i < self.tree_pages@.len() ==> (#[trigger] self.tree_pages@[i]).wf())
        &&& (self.blob_pager matches Some(p) ==> p.wf())
    }

    /// Builds the core. Launched plain, it starts at the reference list;
    /// launched pinned to a commit, it starts inside that commit's root tree
    /// with the commit recorded.
    pub fn new(
        repo_path: String,
        ref_names: Vec<String>,
        commit_object: Option<GitObject>,
        editor: String,
        syntax_set: &'syntax syntect::parsing::SyntaxSet,
        theme: &'syntax syntect::highlighting::Theme,
    ) -> (r: App<'syntax>)
        requires
            commit_object matches Some(o) ==> o is Commit,
        ensures
            r.wf(),
            r.refs_page.repo_path == repo_path,
            r.refs_page.names == ref_names,
            r.refs_page.selected_index == 0,
            r.editor == editor,
            r.height == 0,
            r.active_error is None,
            r.blob_pager is None,
            r.external_editor is None,
            r.search_input@ == Seq::<char>::empty(),
            r.syntax_set == syntax_set,
            r.theme == theme,
            commit_object is None ==> {
                &&& r.modes() == seq![AppMode::BrowseRefs]
                &&& r.tree_pages@.len() == 0
                &&& r.commit is None
            },
            commit_object matches Some(o) ==> (o matches GitObject::Commit {
                id,
                tree_id,
                entries,
            } ==> {
                &&& r.modes() == seq![AppMode::BrowseTrees]
                &&& r.commit == Some(id)
                &&& r.tree_pages@.len() == 1
                &&& r.tree_pages@[0].tree_id == tree_id
                &&& r.tree_pages@[0].entries == entries
                &&& r.tree_pages@[0].name@ == Seq::<char>::empty()
                &&& r.tree_pages@[0].selected_index == 0
            }),
    {
        let refs_page = RefsPage::new(repo_path, ref_names);
        let mut mode_history: Vec<AppMode> = Vec::new();
        let mut tree_pages: Vec<TreePage> = Vec::new();
        let mut commit: Option<String> = None;
        match commit_object {
            Some(GitObject::Commit { id, tree_id, entries }) => {
                tree_pages.push(TreePage::new(tree_id, entries, String::new()));
                mode_history.push(AppMode::BrowseTrees);
                commit = Some(id);
            },
            _ => {
                mode_history.push(AppMode::BrowseRefs);
            },
        }
        let r = App {
            search_input: String::new(),
            commit,
            refs_page,
            tree_pages,
            blob_pager: None,
            external_editor: None,
            mode_history,
            height: 0,
            active_error: None,
            editor,
            syntax_set,
            theme,
        };
        proof {
            let s = r.modes();
            assert(s.drop_last() =~= Seq::<AppMode>::empty());
            assert(count_mode(Seq::<AppMode>::empty(), AppMode::BrowseTrees) == 0);
            assert(count_mode(Seq::<AppMode>::empty(), AppMode::ViewBlob) == 0);
            assert(count_mode(Seq::<AppMode>::empty(), AppMode::ExternalEditor) == 0);
            assert(s.last() == s[0]);
            lemma_count_contains(s, AppMode::ViewBlob);
            lemma_count_contains(s, AppMode::ExternalEditor);
        }
        r
    }

    /// The mode that owns input focus.
    pub fn mode(&self) -> (r: AppMode)
        requires
            self.wf(),
        ensures
            r == self.spec_mode(),
    {
        self.mode_history[self.mode_history.len() - 1]
    }

    /// Records the real rendered viewport height, so page movements use the
    /// true size.
    pub fn set_height(&mut self, h: u16)
        ensures
            *final(self) == (App { height: h, ..*old(self) }),
    {
        self.height = h;
    }

    /// Reads back the recorded viewport height.
    pub fn viewport_height(&self) -> (r: u16)
        ensures
            r == self.height,
    {
        self.height
    }

    /// The error shown by the overlay, if one is active.
    pub fn current_error(&self) -> (r: Option<GitBrowserError>)
        ensures
            r == self.active_error,
    {
        self.active_error
    }

    /// Records a recoverable error and gives the overlay focus. Back
    /// dismisses it and resumes the prior mode.
    pub fn error(&mut self, error: GitBrowserError)
        requires
            old(self).wf(),
            old(self).active_error is None,
        ensures
            final(self).wf(),
            final(self).modes() == old(self).modes().push(AppMode::Error),
            final(self).active_error == Some(error),
            *final(self) == (App {
                mode_history: final(self).mode_history,
                active_error: Some(error),
                ..*old(self)
            }),
    {
        let ghost s = self.modes();
        self.active_error = Some(error);
        self.mode_history.push(AppMode::Error);
        proof {
            let s2 = self.modes();
            assert(s2 == s.push(AppMode::Error));
            lemma_count_push(s, AppMode::Error, AppMode::BrowseTrees);
            lemma_count_push(s, AppMode::Error, AppMode::ViewBlob);
            lemma_count_push(s, AppMode::Error, AppMode::ExternalEditor);
            lemma_count_contains(s, AppMode::ViewBlob);
            lemma_count_contains(s2, AppMode::ViewBlob);
            lemma_count_contains(s, AppMode::ExternalEditor);
            lemma_count_contains(s2, AppMode::ExternalEditor);
            assert(forall|i: int| 0 <= i < s.len() ==> s2[i] == s[i]);
            assert(s.last() != AppMode::Error);
        }
    }

    /// What one Back step does to the whole core: the mode stack is popped
    /// (its last entry stays), the popped mode's page or overlay is
    /// discarded, the commit pin is cleared once no tree page remains, and
    /// everything else keeps its value.
    pub open spec fn back_step(pre: App<'syntax>, post: App<'syntax>) -> bool {
        let s = pre.modes();
        let popped = s.last();
        &&& post.modes() == pop_modes(s)
        &&& post.tree_pages@ == (if s.len() > 1 && popped == AppMode::BrowseTrees {
            pre.tree_pages@.drop_last()
        } else {
            pre.tree_pages@
        })
        &&& (s.len() > 1 && popped == AppMode::ViewBlob ==> post.blob_pager is None)
        &&& (!(s.len() > 1 && popped == AppMode::ViewBlob) ==> post.blob_pager == pre.blob_pager)
        &&& (s.len() > 1 && popped == AppMode::ExternalEditor ==> post.external_editor is None)
        &&& (!(s.len() > 1 && popped == AppMode::ExternalEditor) ==> post.external_editor
            == pre.external_editor)
        &&& (s.len() > 1 && popped == AppMode::Error ==> post.active_error is None)
        &&& (!(s.len() > 1 && popped == AppMode::Error) ==> post.active_error == pre.active_error)
        &&& (post.tree_pages@.len() == 0 ==> post.commit is None)
        &&& (post.tree_pages@.len() > 0 ==> post.commit == pre.commit)
        &&& post.refs_page == pre.refs_page
        &&& post.height == pre.height
        &&& post.editor == pre.editor
        &&& post.search_input == pre.search_input
        &&& post.syntax_set == pre.syntax_set
        &&& post.theme == pre.theme
    }

    /// Pops one step of navigation history. The popped mode's page or overlay
    /// is discarded: leaving tree browsing pops one tree page, leaving the
    /// viewer discards it, finishing the editor ends the session, and leaving
    /// the error overlay clears the error. The home mode at the bottom of the
    /// stack is never popped, and once the tree-page stack empties the
    /// tracked commit is cleared.
    pub fn back(&mut self)
        requires
            old(self).wf(),
        ensures
            final(self).wf(),
            App::back_step(*old(self), *final(self)),
    {
        let ghost s = self.modes();
        let len = self.mode_history.len();
        if len > 1 {
            let mode = self.mode_history[len - 1];
            self.mode_history.pop();
            proof {
                assert(self.modes() =~= s.drop_last());
                lemma_count_contains(s, AppMode::BrowseTrees);
                lemma_count_contains(s.drop_last(), AppMode::BrowseTrees);
                lemma_count_contains(s, AppMode::ViewBlob);
                lemma_count_contains(s.drop_last(), AppMode::ViewBlob);
                lemma_count_contains(s, AppMode::ExternalEditor);
                lemma_count_contains(s.drop_last(), AppMode::ExternalEditor);
                assert(s.drop_last().last() == s[s.len() - 2]);
                assert(s[s.len() - 2] != AppMode::Error);
            }
            match mode {
                AppMode::BrowseTrees => {
                    proof {
                        assert(s.contains(AppMode::BrowseTrees)) by {
                            assert(s[s.len() - 1] == AppMode::BrowseTrees);
                        }
                        assert(self.tree_pages@.len() >= 1);
                    }
                    self.tree_pages.pop();
                },
                AppMode::ViewBlob => {
                    self.blob_pager = None;
                    proof {
                        if s.drop_last().contains(AppMode::ViewBlob) {
                            assert(count_mode(s, AppMode::ViewBlob) >= 2);
                        }
                    }
                },
                AppMode::ExternalEditor => {
                    self.external_editor = None;
                    proof {
                        if s.drop_last().contains(AppMode::ExternalEditor) {
                            assert(count_mode(s, AppMode::ExternalEditor) >= 2);
                        }
                    }
                },
                AppMode::Error => {
                    self.active_error = None;
                },
                AppMode::BrowseRefs => {
                    // the home mode only ever sits at the bottom of the stack
                    proof {
                        assert(s[s.len() - 1] == AppMode::BrowseRefs);
                        assert(false);
                    }
                },
            }
            proof {
                let s2 = self.modes();
                if s.last() != AppMode::ViewBlob && s.contains(AppMode::ViewBlob) {
                    let i = choose|i: int| 0 <= i < s.len() && s[i] == AppMode::ViewBlob;
                    assert(i < s.len() - 1);
                    assert(s2[i] == AppMode::ViewBlob);
                    assert(s2.contains(AppMode::ViewBlob));
                }
                if s.last() != AppMode::ExternalEditor && s.contains(AppMode::ExternalEditor) {
                    let i = choose|i: int| 0 <= i < s.len() && s[i] == AppMode::ExternalEditor;
                    assert(i < s.len() - 1);
                    assert(s2[i] == AppMode::ExternalEditor);
                    assert(s2.contains(AppMode::ExternalEditor));
                }
            }
        }
        if self.tree_pages.len() == 0 {
            self.commit = None;
        }
    }

    /// The name under the current page's selection (the reference name or the
    /// entry name); empty for an empty page.
    pub open spec fn spec_selected_item(self) -> Seq<char> {
        if self.spec_mode() == AppMode::BrowseRefs {
            if self.refs_page.names@.len() == 0 {
                Seq::empty()
            } else {
                self.refs_page.names@[self.refs_page.selected_index as int]@
            }
        } else {
            let p = self.tree_pages@.last();
            if p.entries@.len() == 0 {
                Seq::empty()
            } else {
                p.entries@[p.selected_index as int].name@
            }
        }
    }

    /// The path segment recorded for a page opened from here: empty when
    /// descending from the reference list, else the selected entry's name.
    pub open spec fn spec_select_name(self) -> Seq<char> {
        if self.spec_mode() == AppMode::BrowseRefs {
            Seq::empty()
        } else {
            self.spec_selected_item()
        }
    }

    /// The state after a tree (or a peeled commit) was activated: one tree
    /// page pushed, tree browsing entered, the tracked commit as given, and
    /// nothing else moved.
    pub open spec fn spec_pushed_tree(
        pre: App<'syntax>,
        post: App<'syntax>,
        tree_id: String,
        entries: Vec<TreeEntry>,
        commit: Option<String>,
    ) -> bool {
        &&& post.modes() == pre.modes().push(AppMode::BrowseTrees)
        &&& post.tree_pages@.len() == pre.tree_pages@.len() + 1
        &&& post.tree_pages@.last().tree_id == tree_id
        &&& post.tree_pages@.last().entries == entries
        &&& post.tree_pages@.last().selected_index == 0
        &&& post.tree_pages@.last().name@ == pre.spec_select_name()
        &&& (forall|i: int|
            0 <= i < pre.tree_pages@.len() ==> post.tree_pages@[i] == pre.tree_pages@[i])
        &&& post.commit == commit
        &&& post == (App {
            tree_pages: post.tree_pages,
            mode_history: post.mode_history,
            commit: post.commit,
            ..pre
        })
    }

    /// The state after a text blob was activated: a fresh viewer pushed and
    /// nothing else moved.
    pub open spec fn spec_pushed_blob(pre: App<'syntax>, post: App<'syntax>, bytes: Vec<u8>) -> bool {
        &&& post.modes() == pre.modes().push(AppMode::ViewBlob)
        &&& post.blob_pager matches Some(p) && {
            &&& p.top == 0
            &&& p.lines@.len() == 0
            &&& p.name@ == pre.spec_selected_item()
            &&& p.bytes == bytes
            &&& p.raw_lines@.len() == byte_lines(bytes@).len()
            &&& (forall|i: int|
                0 <= i < p.raw_lines@.len() ==> (#[trigger] p.raw_lines@[i])@ == decode_utf8(
                    byte_lines(bytes@)[i],
                ))
        }
        &&& post == (App {
            blob_pager: post.blob_pager,
            mode_history: post.mode_history,
            ..pre
        })
    }

    /// The state after an editor session was opened: its mode pushed, the
    /// session recorded, and nothing else moved.
    pub open spec fn spec_pushed_editor(pre: App<'syntax>, post: App<'syntax>) -> bool {
        &&& post.modes() == pre.modes().push(AppMode::ExternalEditor)
        &&& post.external_editor is Some
        &&& post == (App {
            external_editor: post.external_editor,
            mode_history: post.mode_history,
            ..pre
        })
    }

    fn current_item_name(&self) -> (r: String)
        requires
            self.wf(),
            self.spec_mode() == AppMode::BrowseRefs || self.spec_mode() == AppMode::BrowseTrees,
        ensures
            r@ == self.spec_selected_item(),
    {
        match self.mode() {
            AppMode::BrowseRefs => self.refs_page.selected_item(),
            _ => {
                proof {
                    lemma_tree_mode_has_page(*self);
                }
                let p = &self.tree_pages[self.tree_pages.len() - 1];
                let r = p.selected_item();
                proof {
                    if p.entries@.len() == 0 {
                        assert(r@ =~= self.spec_selected_item());
                    }
                }
                r
            },
        }
    }

    fn select_name(&self) -> (r: String)
        requires
            self.wf(),
            self.spec_mode() == AppMode::BrowseRefs || self.spec_mode() == AppMode::BrowseTrees,
        ensures
            r@ == self.spec_select_name(),
    {
        match self.mode() {
            AppMode::BrowseRefs => {
                let r = String::new();
                proof {
                    assert(r@ =~= Seq::<char>::empty());
                }
                r
            },
            _ => self.current_item_name(),
        }
    }

    /// What activating the current selection asks of the host: resolve a
    /// reference by name, resolve one entry of a tree, or nothing (the blob
    /// viewer is a terminal node, and overlays take no selection).
    pub fn select_target(&self) -> (r: Option<SelectTarget>)
        requires
            self.wf(),
        ensures
            self.spec_mode() == AppMode::BrowseRefs ==> (match r {
                Some(t) => self.refs_page.names@.len() > 0 && (t
                    matches SelectTarget::Reference { name } && name
                    == self.refs_page.names@[self.refs_page.selected_index as int]),
                None => self.refs_page.names@.len() == 0,
            }),
            self.spec_mode() == AppMode::BrowseTrees ==> (match r {
                Some(t) => {
                    let p = self.tree_pages@.last();
                    &&& p.entries@.len() > 0
                    &&& (t matches SelectTarget::Entry { tree_id, index, name } && tree_id
                        == p.tree_id && index == p.selected_index && name
                        == p.entries@[p.selected_index as int].name)
                },
                None => self.tree_pages@.last().entries@.len() == 0,
            }),
            !(self.spec_mode() == AppMode::BrowseRefs || self.spec_mode() == AppMode::BrowseTrees)
                ==> r is None,
    {
        match self.mode() {
            AppMode::BrowseRefs => self.refs_page.select(),
            AppMode::BrowseTrees => {
                proof {
                    lemma_tree_mode_has_page(*self);
                }
                let p = &self.tree_pages[self.tree_pages.len() - 1];
                p.select()
            },
            AppMode::ViewBlob => {
                proof {
                    assert(self.modes().contains(AppMode::ViewBlob)) by {
                        assert(self.modes()[self.modes().len() - 1] == AppMode::ViewBlob);
                    }
                }
                match &self.blob_pager {
                    Some(p) => p.select(),
                    None => None,
                }
            },
            _ => None,
        }
    }

    /// Activates the host's resolution of the current selection. A text blob
    /// opens the viewer; a tree descends into it; a commit is entered at its
    /// root tree and recorded as the current commit; anything else, or no
    /// resolution, is a no-op. A failure to open the viewer is handed back
    /// for the error overlay instead of changing any state.
    pub fn select(&mut self, resolved: Option<GitObject>) -> (r: Result<(), GitBrowserError>)
        requires
            old(self).wf(),
        ensures
            final(self).wf(),
            ({
                let m = old(self).spec_mode();
                let acting = m == AppMode::BrowseRefs || m == AppMode::BrowseTrees;
                if !acting {
                    r matches Ok(_) && *final(self) == *old(self)
                } else {
                    match resolved {
                        None => r matches Ok(_) && *final(self) == *old(self),
                        Some(obj) => match obj {
                            GitObject::Blob { id: _, bytes, binary } => {
                                if binary || !lines_decodable(bytes@) {
                                    &&& r matches Err(e) && e == GitBrowserError::Error(
                                        ErrorKind::BinaryFileError,
                                    )
                                    &&& *final(self) == *old(self)
                                } else {
                                    &&& r matches Ok(_)
                                    &&& App::spec_pushed_blob(*old(self), *final(self), bytes)
                                }
                            },
                            GitObject::Tree { id, entries } => r matches Ok(_)
                                && App::spec_pushed_tree(
                                *old(self),
                                *final(self),
                                id,
                                entries,
                                old(self).commit,
                            ),
                            GitObject::Commit { id, tree_id, entries } => r matches Ok(_)
                                && App::spec_pushed_tree(
                                *old(self),
                                *final(self),
                                tree_id,
                                entries,
                                Some(id),
                            ),
                            GitObject::Other => r matches Ok(_) && *final(self) == *old(self),
                        },
                    }
                }
            }),
    {
        let m = self.mode();
        let acting = match m {
            AppMode::BrowseRefs => true,
            AppMode::BrowseTrees => true,
            _ => false,
        };
        if !acting {
            return Ok(());
        }
        let obj = match resolved {
            Some(o) => o,
            None => {
                return Ok(());
            },
        };
        proof {
            lemma_browse_top_clean(*self);
        }
        let ghost pre = *self;
        match obj {
            GitObject::Blob { .. } => {
                let name = self.current_item_name();
                match BlobPager::from_object(obj, name, self.syntax_set, self.theme) {
                    Ok(pager) => {
                        self.blob_pager = Some(pager);
                        self.mode_history.push(AppMode::ViewBlob);
                        proof {
                            lemma_after_push(pre, *self, AppMode::ViewBlob);
                        }
                        Ok(())
                    },
                    Err(e) => Err(e),
                }
            },
            GitObject::Tree { id, entries } => {
                let name = self.select_name();
                self.tree_pages.push(TreePage::new(id, entries, name));
                self.mode_history.push(AppMode::BrowseTrees);
                proof {
                    lemma_after_push(pre, *self, AppMode::BrowseTrees);
                }
                Ok(())
            },
            GitObject::Commit { id, tree_id, entries } => {
                let name = self.select_name();
                self.commit = Some(id);
                self.tree_pages.push(TreePage::new(tree_id, entries, name));
                self.mode_history.push(AppMode::BrowseTrees);
                proof {
                    lemma_after_push(pre, *self, AppMode::BrowseTrees);
                }
                Ok(())
            },
            GitObject::Other => Ok(()),
        }
    }

    /// Opens an external editor session over the current blob: the one open
    /// in the viewer, or (from a tree listing) the one the host resolved the
    /// selection to. The session's mode is pushed; the host runs the blocking
    /// editor and then reports through [`App::editor_finished`]. Anything
    /// that is not a blob gives no session and changes nothing.
    pub fn view_blob(&mut self, resolved: Option<GitObject>) -> (r: Option<ExternalEditor>)
        requires
            old(self).wf(),
        ensures
            final(self).wf(),
            ({
                let m = old(self).spec_mode();
                if m == AppMode::ViewBlob {
                    &&& (r matches Some(job) && (old(self).blob_pager matches Some(p) && {
                        &&& job.content@ == p.bytes@
                        &&& job.name@ == p.name@
                        &&& job.editor@ == old(self).editor@
                    }))
                    &&& App::spec_pushed_editor(*old(self), *final(self))
                } else if m == AppMode::BrowseTrees {
                    match resolved {
                        Some(obj) => match obj {
                            GitObject::Blob { id: _, bytes, binary: _ } => {
                                &&& (r matches Some(job) && {
                                    &&& job.content@ == bytes@
                                    &&& job.name@ == old(self).spec_selected_item()
                                    &&& job.editor@ == old(self).editor@
                                })
                                &&& App::spec_pushed_editor(*old(self), *final(self))
                            },
                            _ => r is None && *final(self) == *old(self),
                        },
                        None => r is None && *final(self) == *old(self),
                    }
                } else {
                    r is None && *final(self) == *old(self)
                }
            }),
    {
        let m = self.mode();
        let ghost pre = *self;
        let job: ExternalEditor = match m {
            AppMode::ViewBlob => {
                proof {
                    assert(self.modes().contains(AppMode::ViewBlob)) by {
                        assert(self.modes()[self.modes().len() - 1] == AppMode::ViewBlob);
                    }
                }
                match &self.blob_pager {
                    Some(p) => ExternalEditor::new(&p.bytes, p.name.as_str(), self.editor.as_str()),
                    None => {
                        return None;
                    },
                }
            },
            AppMode::BrowseTrees => {
                match resolved {
                    Some(GitObject::Blob { id: _, bytes, binary: _ }) => {
                        let name = self.current_item_name();
                        ExternalEditor::new(&bytes, name.as_str(), self.editor.as_str())
                    },
                    _ => {
                        return None;
                    },
                }
            },
            _ => {
                return None;
            },
        };
        let stored = ExternalEditor::new(&job.content, job.name.as_str(), job.editor.as_str());
        self.external_editor = Some(stored);
        self.mode_history.push(AppMode::ExternalEditor);
        proof {
            lemma_no_session_below(pre);
            lemma_after_push(pre, *self, AppMode::ExternalEditor);
        }
        Some(job)
    }

    /// Takes the host's report of the finished editor session:
    /// unconditionally pops back to the prior mode, then either asks for a
    /// full redraw (the child process may have disturbed the terminal) or
    /// hands the session's failure back for the error overlay.
    pub fn editor_finished(&mut self, result: Option<GitBrowserError>) -> (r: Result<
        Redraw,
        GitBrowserError,
    >)
        requires
            old(self).wf(),
            old(self).spec_mode() == AppMode::ExternalEditor,
        ensures
            final(self).wf(),
            final(self).modes() == pop_modes(old(self).modes()),
            final(self).external_editor is None,
            match result {
                None => r matches Ok(d) && d == Redraw(true),
                Some(e) => r matches Err(e2) && e2 == e,
            },
            final(self).tree_pages@ == old(self).tree_pages@,
            final(self).blob_pager == old(self).blob_pager,
            final(self).active_error == old(self).active_error,
            final(self).commit == old(self).commit,
            final(self).refs_page == old(self).refs_page,
            final(self).height == old(self).height,
    {
        proof {
            let s = old(self).modes();
            if s.len() == 1 {
                assert(s[0] == AppMode::ExternalEditor);
                assert(false);
            }
        }
        self.back();
        match result {
            Some(e) => Err(e),
            None => Ok(Redraw(true)),
        }
    }

    /// Only the reference list's selection moved, to `sel`.
    pub open spec fn refs_moved(pre: App<'syntax>, post: App<'syntax>, sel: nat) -> bool {
        &&& post.refs_page.selected_index as nat == sel
        &&& post.refs_page == (RefsPage {
            selected_index: post.refs_page.selected_index,
            ..pre.refs_page
        })
        &&& post == (App { refs_page: post.refs_page, ..pre })
    }

    /// Only the topmost tree page's selection moved, to `sel`.
    pub open spec fn tree_moved(pre: App<'syntax>, post: App<'syntax>, sel: nat) -> bool {
        &&& pre.tree_pages@.len() > 0
        &&& post.tree_pages@.last().selected_index as nat == sel
        &&& post.tree_pages@.last() == (TreePage {
            selected_index: post.tree_pages@.last().selected_index,
            ..pre.tree_pages@.last()
        })
        &&& post.tree_pages@ == pre.tree_pages@.update(
            pre.tree_pages@.len() - 1,
            post.tree_pages@.last(),
        )
        &&& post == (App { tree_pages: post.tree_pages, ..pre })
    }

    /// Only the viewer's scroll offset moved, to `top`.
    pub open spec fn blob_moved(pre: App<'syntax>, post: App<'syntax>, top: nat) -> bool {
        match (pre.blob_pager, post.blob_pager) {
            (Some(a), Some(b)) => {
                &&& b.top as nat == top
                &&& b == (BlobPager { top: b.top, ..a })
                &&& post == (App { blob_pager: post.blob_pager, ..pre })
            },
            _ => false,
        }
    }

    /// The viewer converted one tick's worth of pending lines, in original
    /// order, and its scroll offset ended at `top`; nothing else moved.
    pub open spec fn blob_ticked(pre: App<'syntax>, post: App<'syntax>, block: bool, top: nat) -> bool {
        match (pre.blob_pager, post.blob_pager) {
            (Some(a), Some(b)) => {
                &&& b.lines@.len() == a.lines@.len() + a.tick_take(block)
                &&& (forall|i: int| 0 <= i < a.lines@.len() ==> b.lines@[i] == a.lines@[i])
                &&& b.wf()
                &&& b.top as nat == top
                &&& b.raw_lines == a.raw_lines
                &&& b.name == a.name
                &&& b.bytes == a.bytes
                &&& b.background_style == a.background_style
                &&& b.syntax_set == a.syntax_set
                &&& post == (App { blob_pager: post.blob_pager, ..pre })
            },
            _ => false,
        }
    }

    /// Translates one input action into one state transition. View-local
    /// movements and ticks are forwarded to whichever page owns focus; Back
    /// pops the history; Select and the external editor are handed back to
    /// the host, which resolves the outside work and calls [`App::select`] or
    /// [`App::view_blob`].
    pub fn navigate(&mut self, action: &NavigationAction) -> (r: NavOutcome)
        requires
            old(self).wf(),
        ensures
            final(self).wf(),
            ({
                let pre = *old(self);
                let post = *final(self);
                let m = pre.spec_mode();
                let h = pre.height as nat;
                match *action {
                    NavigationAction::Select => r == NavOutcome::NeedsSelect && post == pre,
                    NavigationAction::ExternalEditor => r == NavOutcome::NeedsEditor && post == pre,
                    NavigationAction::Back => r == NavOutcome::Done(Redraw(false))
                        && App::back_step(pre, post),
                    NavigationAction::Exit => r == NavOutcome::Done(Redraw(false)) && post == pre,
                    NavigationAction::Invalid => r == NavOutcome::Done(Redraw(false)) && post
                        == pre,
                    NavigationAction::Tick => r == NavOutcome::Done(Redraw(false)) && (if m
                        == AppMode::ViewBlob {
                        pre.blob_pager matches Some(a) && App::blob_ticked(
                            pre,
                            post,
                            false,
                            a.top as nat,
                        )
                    } else {
                        post == pre
                    }),
                    _ => r == NavOutcome::Done(Redraw(false)) && (if m == AppMode::BrowseRefs {
                        App::refs_moved(
                            pre,
                            post,
                            list_move(
                                *action,
                                pre.refs_page.selected_index as nat,
                                pre.refs_page.names@.len(),
                                h,
                            ),
                        )
                    } else if m == AppMode::BrowseTrees {
                        App::tree_moved(
                            pre,
                            post,
                            list_move(
                                *action,
                                pre.tree_pages@.last().selected_index as nat,
                                pre.tree_pages@.last().entries@.len(),
                                h,
                            ),
                        )
                    } else if m == AppMode::ViewBlob {
                        pre.blob_pager matches Some(a) && (if *action == NavigationAction::End {
                            App::blob_ticked(
                                pre,
                                post,
                                true,
                                blob_move(*action, a.top as nat, a.line_count(), h),
                            )
                        } else {
                            App::blob_moved(
                                pre,
                                post,
                                blob_move(*action, a.top as nat, a.line_count(), h),
                            )
                        })
                    } else {
                        post == pre
                    }),
                }
            }),
    {
        let ghost pre = *self;
        let height = self.height;
        match action {
            NavigationAction::Select => NavOutcome::NeedsSelect,
            NavigationAction::ExternalEditor => NavOutcome::NeedsEditor,
            NavigationAction::Back => {
                self.back();
                NavOutcome::Done(Redraw(false))
            },
            NavigationAction::Exit => NavOutcome::Done(Redraw(false)),
            NavigationAction::Invalid => NavOutcome::Done(Redraw(false)),
            NavigationAction::Tick => {
                if self.mode() == AppMode::ViewBlob {
                    proof {
                        lemma_blob_mode_has_pager(*self);
                    }
                    let mut p = self.blob_pager.take().unwrap();
                    p.next_tick(false);
                    self.blob_pager = Some(p);
                    proof {
                        lemma_wf_after_pager_swap(pre, *self);
                    }
                }
                NavOutcome::Done(Redraw(false))
            },
            _ => {
                match self.mode() {
                    AppMode::BrowseRefs => {
                        match action {
                            NavigationAction::Home => self.refs_page.home(height),
                            NavigationAction::End => self.refs_page.end(height),
                            NavigationAction::PageUp => self.refs_page.pageup(height),
                            NavigationAction::PageDown => self.refs_page.pagedown(height),
                            NavigationAction::NextSelection => self.refs_page.next_selection(),
                            _ => self.refs_page.previous_selection(),
                        }
                        proof {
                            lemma_wf_after_refs_move(pre, *self);
                        }
                    },
                    AppMode::BrowseTrees => {
                        proof {
                            lemma_tree_mode_has_page(*self);
                        }
                        let last = self.tree_pages.len() - 1;
                        let mut p = self.tree_pages.pop().unwrap();
                        match action {
                            NavigationAction::Home => p.home(height),
                            NavigationAction::End => p.end(height),
                            NavigationAction::PageUp => p.pageup(height),
                            NavigationAction::PageDown => p.pagedown(height),
                            NavigationAction::NextSelection => p.next_selection(),
                            _ => p.previous_selection(),
                        }
                        self.tree_pages.push(p);
                        proof {
                            assert(self.tree_pages@ =~= pre.tree_pages@.update(
                                last as int,
                                self.tree_pages@.last(),
                            ));
                            lemma_wf_after_tree_move(pre, *self);
                        }
                    },
                    AppMode::ViewBlob => {
                        proof {
                            lemma_blob_mode_has_pager(*self);
                        }
                        let mut p = self.blob_pager.take().unwrap();
                        match action {
                            NavigationAction::Home => p.home(height),
                            NavigationAction::End => {
                                p.next_tick(true);
                                p.end(height);
                            },
                            NavigationAction::PageUp => p.pageup(height),
                            NavigationAction::PageDown => p.pagedown(height),
                            NavigationAction::NextSelection => p.next_selection(),
                            _ => p.previous_selection(),
                        }
                        self.blob_pager = Some(p);
                        proof {
                            lemma_wf_after_pager_swap(pre, *self);
                        }
                    },
                    _ => {},
                }
                NavOutcome::Done(Redraw(false))
            },
        }
    }

    /// The first title parts: a space, the repository label, the pinned
    /// commit if any, and a separator once more than the root level is open.
    pub open spec fn spec_title_head(self) -> Seq<(UiStyle, Seq<char>)> {
        seq![(UiStyle::spec_plain(), " "@)] + seq![
            (
                UiStyle::spec_plain().spec_fg(UiColor::Green).spec_bold(),
                spec_repo_label(self.refs_page.repo_path@),
            ),
        ] + (match self.commit {
            Some(id) => seq![
                (UiStyle::spec_plain().spec_fg(UiColor::White).spec_bold(), "@"@),
                (UiStyle::spec_plain().spec_fg(UiColor::Yellow).spec_bold(), id@),
            ],
            None => Seq::empty(),
        }) + (if self.tree_pages@.len() > 1 || self.blob_pager is Some {
            seq![(UiStyle::spec_plain().spec_fg(UiColor::White).spec_bold(), ": "@)]
        } else {
            Seq::empty()
        })
    }

    /// The breadcrumb part for tree page `i`: its name, with a path separator
    /// appended on every level after the first.
    pub open spec fn spec_title_crumb(self, i: int) -> (UiStyle, Seq<char>) {
        (
            UiStyle::spec_plain().spec_fg(UiColor::Blue).spec_bold(),
            self.tree_pages@[i].name@ + (if i > 0 {
                "/"@
            } else {
                Seq::<char>::empty()
            }),
        )
    }

    /// The last title parts: the open blob's name, and a closing space.
    pub open spec fn spec_title_tail(self) -> Seq<(UiStyle, Seq<char>)> {
        (match self.blob_pager {
            Some(p) => seq![(UiStyle::spec_plain().spec_fg(UiColor::Gray), p.name@)],
            None => Seq::empty(),
        }) + seq![(UiStyle::spec_plain(), " "@)]
    }

    /// The whole window title, computed fresh on every render.
    pub open spec fn spec_title(self) -> Seq<(UiStyle, Seq<char>)> {
        self.spec_title_head() + Seq::new(
            self.tree_pages@.len(),
            |i: int| self.spec_title_crumb(i),
        ) + self.spec_title_tail()
    }

    /// Builds the window title: the repository label, the pinned commit, the
    /// breadcrumb of open tree pages joined by path separators, and the open
    /// blob's name.
    pub fn title(&self) -> (r: Vec<(UiStyle, String)>)
        requires
            self.wf(),
        ensures
            spans_view(r@) == self.spec_title(),
    {
        let mut parts: Vec<(UiStyle, String)> = Vec::new();
        parts.push((UiStyle::plain(), String::from_str(" ")));
        parts.push((UiStyle::plain().fg(UiColor::Green).bold(), self.refs_page.title()));
        match &self.commit {
            Some(id) => {
                parts.push((UiStyle::plain().fg(UiColor::White).bold(), String::from_str("@")));
                parts.push((UiStyle::plain().fg(UiColor::Yellow).bold(), id.clone()));
            },
            None => {},
        }
        if self.tree_pages.len() > 1 || self.blob_pager.is_some() {
            parts.push((UiStyle::plain().fg(UiColor::White).bold(), String::from_str(": ")));
        }
        proof {
            assert(spans_view(parts@) =~= self.spec_title_head());
        }
        let mut ix: usize = 0;
        while ix < self.tree_pages.len()
            invariant
                self.wf(),
                ix <= self.tree_pages@.len(),
                spans_view(parts@) == self.spec_title_head() + Seq::new(
                    ix as nat,
                    |i: int| self.spec_title_crumb(i),
                ),
            decreases self.tree_pages@.len() - ix,
        {
            let page = &self.tree_pages[ix];
            let t = page.title();
            let txt = if ix > 0 {
                t.concat("/")
            } else {
                t
            };
            proof {
                assert(txt@ =~= self.spec_title_crumb(ix as int).1);
            }
            let ghost before = parts@;
            parts.push((UiStyle::plain().fg(UiColor::Blue).bold(), txt));
            proof {
                lemma_spans_push(before, parts@.last());
                assert(Seq::new((ix + 1) as nat, |i: int| self.spec_title_crumb(i)) =~= Seq::new(
                    ix as nat,
                    |i: int| self.spec_title_crumb(i),
                ).push(self.spec_title_crumb(ix as int)));
                assert(spans_view(parts@) =~= self.spec_title_head() + Seq::new(
                    (ix + 1) as nat,
                    |i: int| self.spec_title_crumb(i),
                ));
            }
            ix += 1;
        }
        let ghost crumbs = Seq::new(self.tree_pages@.len(), |i: int| self.spec_title_crumb(i));
        match &self.blob_pager {
            Some(p) => {
                let ghost before = parts@;
                parts.push((UiStyle::plain().fg(UiColor::Gray), p.title()));
                proof {
                    lemma_spans_push(before, parts@.last());
                }
            },
            None => {},
        }
        let ghost before = parts@;
        parts.push((UiStyle::plain(), String::from_str(" ")));
        proof {
            lemma_spans_push(before, parts@.last());
            assert(spans_view(parts@) =~= self.spec_title());
        }
        parts
    }

    /// The context hint for the current mode: which actions are available,
    /// joined by separators.
    pub fn context_hint(&self) -> (r: String)
        requires
            self.wf(),
        ensures
            r@ == spec_hint(self.spec_mode()),
    {
        let exit_text = ActionInfo::from(&NavigationAction::Exit).text();
        let back_text = ActionInfo::from(&NavigationAction::Back).text();
        let select_text = ActionInfo::from(&NavigationAction::Select).text();
        let editor_text = ActionInfo::from(&NavigationAction::ExternalEditor).text();
        let mut out = exit_text;
        out.append(" | ");
        out.append(back_text.as_str());
        match self.mode() {
            AppMode::BrowseRefs => {
                out.append(" | ");
                out.append(select_text.as_str());
            },
            AppMode::ViewBlob => {
                out.append(" | ");
                out.append(editor_text.as_str());
            },
            _ => {
                out.append(" | ");
                out.append(select_text.as_str());
                out.append(" | ");
                out.append(editor_text.as_str());
            },
        }
        proof {
            assert(out@ =~= spec_hint(self.spec_mode()));
        }
        out
    }

    /// Resolves the current page, as the render path sees it: the blob viewer
    /// while its mode has focus, else the topmost tree page while browsing
    /// trees, else the reference list; nothing while the editor or the error
    /// overlay owns the screen.
    pub fn render_view(&self, height: u16) -> (r: PageView)
        requires
            self.wf(),
            height > 0,
        ensures
            self.spec_mode() == AppMode::BrowseRefs ==> (r matches PageView::List(rows)
                && self.refs_page.spec_rows(height as nat, rows@)),
            self.spec_mode() == AppMode::BrowseTrees ==> (r matches PageView::List(rows)
                && self.tree_pages@.last().spec_rows(height as nat, rows@)),
            self.spec_mode() == AppMode::ViewBlob ==> (r matches PageView::Blob(rows, filler, bg)
                && (self.blob_pager matches Some(p) && p.spec_view(
                height as nat,
                rows@,
                filler as nat,
            ) && bg == p.background_style)),
            self.spec_mode() == AppMode::ExternalEditor || self.spec_mode() == AppMode::Error
                ==> r is Empty,
    {
        match self.mode() {
            AppMode::BrowseRefs => PageView::List(self.refs_page.visible_rows(height)),
            AppMode::BrowseTrees => {
                proof {
                    lemma_tree_mode_has_page(*self);
                }
                let p = &self.tree_pages[self.tree_pages.len() - 1];
                PageView::List(p.visible_rows(height))
            },
            AppMode::ViewBlob => {
                proof {
                    lemma_blob_mode_has_pager(*self);
                }
                match &self.blob_pager {
                    Some(p) => {
                        let rf = p.visible_lines(height);
                        PageView::Blob(rf.0, rf.1, p.background_style)
                    },
                    None => PageView::Empty,
                }
            },
            _ => PageView::Empty,
        }
    }
}

/// The styled text of a sequence of title parts.
pub open spec fn spans_view(v: Seq<(UiStyle, String)>) -> Seq<(UiStyle, Seq<char>)> {
    v.map_values(|p: (UiStyle, String)| (p.0, p.1@))
}

proof fn lemma_spans_push(v: Seq<(UiStyle, String)>, x: (UiStyle, String))
    ensures
        spans_view(v.push(x)) == spans_view(v).push((x.0, x.1@)),
{
    assert(spans_view(v.push(x)) =~= spans_view(v).push((x.0, x.1@)));
}

/// The hint text for one action: its key, a separator, its description.
pub open spec fn spec_action_text(a: NavigationAction) -> Seq<char> {
    ActionInfo::spec_key(a) + ": "@ + ActionInfo::spec_name(a)
}

/// The context hint shown under a mode: the actions available there, joined
/// by separators.
pub open spec fn spec_hint(m: AppMode) -> Seq<char> {
    match m {
        AppMode::BrowseRefs => spec_action_text(NavigationAction::Exit) + " | "@
            + spec_action_text(NavigationAction::Back) + " | "@ + spec_action_text(
            NavigationAction::Select,
        ),
        AppMode::ViewBlob => spec_action_text(NavigationAction::Exit) + " | "@ + spec_action_text(
            NavigationAction::Back,
        ) + " | "@ + spec_action_text(NavigationAction::ExternalEditor),
        _ => spec_action_text(NavigationAction::Exit) + " | "@ + spec_action_text(
            NavigationAction::Back,
        ) + " | "@ + spec_action_text(NavigationAction::Select) + " | "@ + spec_action_text(
            NavigationAction::ExternalEditor,
        ),
    }
}

/// In tree-browsing mode at least one tree page exists.
proof fn lemma_tree_mode_has_page<'syntax>(app: App<'syntax>)
    requires
        app.wf(),
        app.spec_mode() == AppMode::BrowseTrees,
    ensures
        app.tree_pages@.len() >= 1,
{
    let s = app.modes();
    assert(s.contains(AppMode::BrowseTrees)) by {
        assert(s[s.len() - 1] == AppMode::BrowseTrees);
    }
    lemma_count_contains(s, AppMode::BrowseTrees);
}

/// While a list page has focus, no viewer and no editor session exists: their
/// modes would have to sit below the top with only overlays above them.
proof fn lemma_browse_top_clean<'syntax>(app: App<'syntax>)
    requires
        app.wf(),
        app.spec_mode() == AppMode::BrowseRefs || app.spec_mode() == AppMode::BrowseTrees,
    ensures
        !app.modes().contains(AppMode::ViewBlob),
        !app.modes().contains(AppMode::ExternalEditor),
        app.blob_pager is None,
        app.external_editor is None,
{
    let s = app.modes();
    if s.contains(AppMode::ViewBlob) {
        let i = choose|i: int| 0 <= i < s.len() && s[i] == AppMode::ViewBlob;
        if i == s.len() - 1 {
            assert(false);
        } else {
            assert(s[s.len() - 1] == AppMode::Error || s[s.len() - 1] == AppMode::ExternalEditor);
            assert(false);
        }
    }
    if s.contains(AppMode::ExternalEditor) {
        let i = choose|i: int| 0 <= i < s.len() && s[i] == AppMode::ExternalEditor;
        if i == s.len() - 1 {
            assert(false);
        } else {
            assert(s[s.len() - 1] == AppMode::Error);
            assert(false);
        }
    }
}

/// While the viewer or a list page has focus, no editor session exists.
proof fn lemma_no_session_below<'syntax>(app: App<'syntax>)
    requires
        app.wf(),
        app.spec_mode() != AppMode::ExternalEditor,
        app.spec_mode() != AppMode::Error,
    ensures
        !app.modes().contains(AppMode::ExternalEditor),
        app.external_editor is None,
{
    let s = app.modes();
    if s.contains(AppMode::ExternalEditor) {
        let i = choose|i: int| 0 <= i < s.len() && s[i] == AppMode::ExternalEditor;
        if i == s.len() - 1 {
            assert(false);
        } else {
            assert(s[s.len() - 1] == AppMode::Error);
            assert(false);
        }
    }
}

/// Re-establishes the invariant after one forward navigation push, given the
/// page bookkeeping that went with it.
proof fn lemma_after_push<'syntax>(pre: App<'syntax>, post: App<'syntax>, pushed: AppMode)
    requires
        pre.wf(),
        pushed == AppMode::BrowseTrees || pushed == AppMode::ViewBlob || pushed
            == AppMode::ExternalEditor,
        pre.spec_mode() != AppMode::Error,
        post.modes() == pre.modes().push(pushed),
        pushed == AppMode::BrowseTrees ==> {
            &&& post.tree_pages@.len() == pre.tree_pages@.len() + 1
            &&& post.tree_pages@.last().wf()
            &&& (forall|i: int|
                0 <= i < pre.tree_pages@.len() ==> post.tree_pages@[i] == pre.tree_pages@[i])
            &&& post.blob_pager == pre.blob_pager
            &&& post.external_editor == pre.external_editor
            &&& !pre.modes().contains(AppMode::ViewBlob)
            &&& !pre.modes().contains(AppMode::ExternalEditor)
        },
        pushed == AppMode::ViewBlob ==> {
            &&& post.tree_pages@ == pre.tree_pages@
            &&& (post.blob_pager matches Some(p) && p.wf())
            &&& post.external_editor == pre.external_editor
            &&& !pre.modes().contains(AppMode::ViewBlob)
            &&& !pre.modes().contains(AppMode::ExternalEditor)
        },
        pushed == AppMode::ExternalEditor ==> {
            &&& post.tree_pages@ == pre.tree_pages@
            &&& post.blob_pager == pre.blob_pager
            &&& post.external_editor is Some
            &&& !pre.modes().contains(AppMode::ExternalEditor)
        },
        post.commit is Some ==> post.tree_pages@.len() > 0,
        post.commit is None || post.commit == pre.commit || pushed == AppMode::BrowseTrees,
        post.active_error == pre.active_error,
        post.refs_page == pre.refs_page,
    ensures
        post.wf(),
{
    let s = pre.modes();
    let s2 = post.modes();
    assert(s2.drop_last() =~= s);
    assert(forall|i: int| 0 <= i < s.len() ==> s2[i] == s[i]);
    lemma_count_push(s, pushed, AppMode::BrowseTrees);
    lemma_count_push(s, pushed, AppMode::ViewBlob);
    lemma_count_push(s, pushed, AppMode::ExternalEditor);
    lemma_count_contains(s, AppMode::ViewBlob);
    lemma_count_contains(s2, AppMode::ViewBlob);
    lemma_count_contains(s, AppMode::ExternalEditor);
    lemma_count_contains(s2, AppMode::ExternalEditor);
    lemma_count_contains(s, AppMode::BrowseTrees);
    assert(s.last() != AppMode::Error);
    if pushed == AppMode::ViewBlob {
        assert(s2.contains(AppMode::ViewBlob)) by {
            assert(s2[s2.len() - 1] == AppMode::ViewBlob);
        }
    }
    if pushed == AppMode::ExternalEditor {
        assert(s2.contains(AppMode::ExternalEditor)) by {
            assert(s2[s2.len() - 1] == AppMode::ExternalEditor);
        }
    }
    if pushed == AppMode::BrowseTrees || pushed == AppMode::ViewBlob {
        if s2.contains(AppMode::ExternalEditor) {
            let i = choose|i: int| 0 <= i < s2.len() && s2[i] == AppMode::ExternalEditor;
            assert(i < s.len());
            assert(s.contains(AppMode::ExternalEditor));
            assert(false);
        }
    }
    if pushed == AppMode::BrowseTrees {
        if s2.contains(AppMode::ViewBlob) {
            let i = choose|i: int| 0 <= i < s2.len() && s2[i] == AppMode::ViewBlob;
            assert(i < s.len());
            assert(s.contains(AppMode::ViewBlob));
            assert(false);
        }
    }
}


/// Law: the mode stack is never emptied by Back.
pub proof fn lemma_back_never_empties(s: Seq<AppMode>)
    requires
        s.len() >= 1,
    ensures
        pop_modes(s).len() >= 1,
{
}

/// Law: from any navigation state, enough Back steps always land on the
/// home mode alone, with nothing above it left on the stack.
pub proof fn lemma_backs_reach_home(s: Seq<AppMode>, n: nat)
    requires
        s.len() >= 1,
        n >= s.len() - 1,
    ensures
        pop_modes_n(s, n) == seq![s[0]],
    decreases n,
{
    if n == 0 {
        assert(s.len() == 1);
        assert(s =~= seq![s[0]]);
    } else {
        let prev = pop_modes_n(s, (n - 1) as nat);
        if n - 1 >= s.len() - 1 {
            lemma_backs_reach_home(s, (n - 1) as nat);
            assert(pop_modes(prev) == prev);
        } else {
            // n is exactly the number of modes above the home mode
            lemma_pop_modes_n_len(s, (n - 1) as nat);
            lemma_pop_modes_n_prefix(s, (n - 1) as nat);
            assert(prev.len() == 2);
            assert(pop_modes(prev) =~= seq![s[0]]);
        }
    }
}

/// Law: once the last tree page has been popped — by whatever sequence of
/// Select and Back steps — no commit stays pinned.
pub proof fn lemma_commit_pin_reset<'syntax>(app: App<'syntax>)
    requires
        app.wf(),
        app.tree_pages@.len() == 0,
    ensures
        app.commit is None,
{
}

/// A core whose history has been exhausted down to the reference-list
/// home mode has no tree page left and no tracked commit.
pub proof fn lemma_home_state<'syntax>(app: App<'syntax>)
    requires
        app.wf(),
        app.modes() == seq![AppMode::BrowseRefs],
    ensures
        app.tree_pages@.len() == 0,
        app.commit is None,
        app.spec_mode() == AppMode::BrowseRefs,
{
    let s = app.modes();
    assert(s.drop_last() =~= Seq::<AppMode>::empty());
    assert(count_mode(Seq::<AppMode>::empty(), AppMode::BrowseTrees) == 0);
    assert(s.last() != AppMode::BrowseTrees);
    assert(count_mode(s, AppMode::BrowseTrees) == 0);
}

/// How many modes remain after `n` Back steps.
proof fn lemma_pop_modes_n_len(s: Seq<AppMode>, n: nat)
    requires
        s.len() >= 1,
        n <= s.len() - 1,
    ensures
        pop_modes_n(s, n).len() == s.len() - n,
    decreases n,
{
    if n > 0 {
        lemma_pop_modes_n_len(s, (n - 1) as nat);
    }
}

/// Back steps only ever shorten the stack from the top.
proof fn lemma_pop_modes_n_prefix(s: Seq<AppMode>, n: nat)
    requires
        s.len() >= 1,
        n <= s.len() - 1,
    ensures
        pop_modes_n(s, n) == s.take(s.len() - n),
    decreases n,
{
    if n == 0 {
        assert(s.take(s.len() as int) =~= s);
    } else {
        lemma_pop_modes_n_prefix(s, (n - 1) as nat);
        lemma_pop_modes_n_len(s, (n - 1) as nat);
        assert(s.take(s.len() - (n - 1)).drop_last() =~= s.take(s.len() - n));
    }
}

/// In viewer mode the blob pager exists.
proof fn lemma_blob_mode_has_pager<'syntax>(app: App<'syntax>)
    requires
        app.wf(),
        app.spec_mode() == AppMode::ViewBlob,
    ensures
        app.blob_pager is Some,
{
    let s = app.modes();
    assert(s.contains(AppMode::ViewBlob)) by {
        assert(s[s.len() - 1] == AppMode::ViewBlob);
    }
}

/// Replacing the blob pager by another well-formed one preserves the
/// invariant.
proof fn lemma_wf_after_pager_swap<'syntax>(pre: App<'syntax>, post: App<'syntax>)
    requires
        pre.wf(),
        pre.blob_pager is Some,
        post.blob_pager matches Some(p) && p.wf(),
        post == (App { blob_pager: post.blob_pager, ..pre }),
    ensures
        post.wf(),
{
}

/// Moving the reference list's selection preserves the invariant.
proof fn lemma_wf_after_refs_move<'syntax>(pre: App<'syntax>, post: App<'syntax>)
    requires
        pre.wf(),
        post.refs_page.wf(),
        post == (App { refs_page: post.refs_page, ..pre }),
    ensures
        post.wf(),
{
}

/// Moving the topmost tree page's selection preserves the invariant.
proof fn lemma_wf_after_tree_move<'syntax>(pre: App<'syntax>, post: App<'syntax>)
    requires
        pre.wf(),
        pre.tree_pages@.len() > 0,
        post.tree_pages@ == pre.tree_pages@.update(
            pre.tree_pages@.len() - 1,
            post.tree_pages@.last(),
        ),
        post.tree_pages@.last().wf(),
        post == (App { tree_pages: post.tree_pages, ..pre }),
    ensures
        post.wf(),
{
    assert(post.tree_pages@.len() == pre.tree_pages@.len());
    assert forall|i: int|
        0 <= i < post.tree_pages@.len() implies (#[trigger] post.tree_pages@[i]).wf() by {
        if i < pre.tree_pages@.len() - 1 {
            assert(post.tree_pages@[i] == pre.tree_pages@[i]);
        }
    }
}

} // verus!
