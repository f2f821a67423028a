//! The blob viewer page: buffered raw lines, an incrementally filled store of
//! highlighted lines, and a free scroll offset over the file.

use vstd::prelude::*;
use vstd::string::StrSliceExecFns;
use vstd::utf8::{decode_utf8, valid_utf8};

use crate::errors::{ErrorKind, GitBrowserError};
use crate::highlight::{
    find_syntax_by_extension, find_syntax_by_first_line, highlight_line, new_highlighter,
    segments_text, theme_background,
};
use crate::objects::{GitObject, SelectTarget};
use crate::style::UiStyle;
use crate::text::{
    byte_lines, extension_of, pad_left, spec_decimal, spec_pad_left, split_blob_lines,
    usize_to_string, utf8_to_string,
};

verus! {

/// How many pending lines one non-blocking tick converts.
pub const TICK_CHUNK: usize = 100;

/// One line of the file as styled segments, produced at most once per line.
pub struct HighlightedLine {
    pub components: Vec<(UiStyle, String)>,
}

impl HighlightedLine {
    /// The text of the line: its segments concatenated.
    pub open spec fn text(self) -> Seq<char> {
        segments_text(self.components@)
    }
}

/// One rendered line of the viewer: the line-number gutter text and the
/// line's styled segments.
pub struct BlobRow {
    pub lineno: String,
    pub components: Vec<(UiStyle, String)>,
}

/// Whether every line of the split blob is valid text.
pub open spec fn lines_decodable(bytes: Seq<u8>) -> bool {
    forall|i: int| 0 <= i < byte_lines(bytes).len() ==> valid_utf8(#[trigger] byte_lines(bytes)[i])
}

/// Where the End key scrolls to: the last full page, or the top of a short
/// file.
pub open spec fn blob_end_top(len: nat, h: nat) -> nat {
    if len > h {
        (len - h) as nat
    } else {
        0
    }
}

/// Scrolling down by a page stops at the last full page.
pub open spec fn blob_clamp_down(top: nat, h: nat, len: nat) -> nat {
    if top + h > blob_end_top(len, h) {
        blob_end_top(len, h)
    } else {
        top + h
    }
}

/// Scrolling down by one line keeps the last line on the screen.
pub open spec fn blob_next(top: nat, len: nat) -> nat {
    if len > 0 && top + 1 < len {
        top + 1
    } else {
        top
    }
}

/// Decodes each split line of a blob, or reports that one of them is not
/// valid text.
fn decode_lines(bytes: &Vec<u8>) -> (r: Option<Vec<String>>)
    ensures
        r is Some <==> lines_decodable(bytes@),
        r matches Some(ls) ==> {
            &&& ls@.len() == byte_lines(bytes@).len()
            &&& forall|i: int|
                0 <= i < ls@.len() ==> (#[trigger] ls@[i])@ == decode_utf8(byte_lines(bytes@)[i])
        },
{
    let segments = split_blob_lines(bytes);
    let ghost bl = byte_lines(bytes@);
    proof {
        assert(segments.deep_view() == bl);
        assert(forall|i: int|
            0 <= i < segments@.len() ==> (#[trigger] segments@[i])@ == bl[i]);
    }
    let mut lines: Vec<String> = Vec::new();
    let mut i: usize = 0;
    while i < segments.len()
        invariant
            bl == byte_lines(bytes@),
            i <= segments@.len(),
            segments@.len() == bl.len(),
            forall|j: int| 0 <= j < segments@.len() ==> (#[trigger] segments@[j])@ == bl[j],
            lines@.len() == i,
            forall|j: int| 0 <= j < i ==> valid_utf8(#[trigger] bl[j]),
            forall|j: int| 0 <= j < i ==> (#[trigger] lines@[j])@ == decode_utf8(bl[j]),
        decreases segments@.len() - i,
    {
        let segment = &segments[i];
        proof {
            assert(segment@ == bl[i as int]);
        }
        match utf8_to_string(segment) {
            Some(line) => {
                lines.push(line);
            },
            None => {
                proof {
                    assert(!valid_utf8(segment@));
                    assert(!valid_utf8(byte_lines(bytes@)[i as int]));
                    assert(!lines_decodable(bytes@));
                }
                return None;
            },
        }
        i += 1;
    }
    Some(lines)
}

fn clone_components(v: &Vec<(UiStyle, String)>) -> (r: Vec<(UiStyle, String)>)
    ensures
        r@ == v@,
{
    let mut r: Vec<(UiStyle, String)> = Vec::new();
    let mut i: usize = 0;
    while i < v.len()
        invariant
            i <= v@.len(),
            r@.len() == i,
            forall|j: int| 0 <= j < i ==> r@[j] == v@[j],
        decreases v@.len() - i,
    {
        let seg = &v[i];
        r.push((seg.0, seg.1.clone()));
        i += 1;
    }
    proof {
        assert(r@ =~= v@);
    }
    r
}

/// The blob viewer. `raw_lines` holds every line of the file; the first
/// `lines.len()` of them have been converted into `lines`, in original order.
/// `top` is a free scroll offset: a raw line index.
pub struct BlobPager<'syntax> {
    pub top: usize,
    pub bytes: Vec<u8>,
    pub name: String,
    pub background_style: UiStyle,
    pub syntax_set: &'syntax syntect::parsing::SyntaxSet,
    pub highlighter: Option<syntect::easy::HighlightLines<'syntax>>,
    pub raw_lines: Vec<String>,
    pub lines: Vec<HighlightedLine>,
}

impl<'syntax> BlobPager<'syntax> {
    /// The total number of lines of the file.
    pub open spec fn line_count(self) -> nat {
        self.raw_lines@.len()
    }

    /// How many lines still await conversion.
    pub open spec fn pending(self) -> nat {
        (self.raw_lines@.len() - self.lines@.len()) as nat
    }

    /// How many lines one tick converts.
    pub open spec fn tick_take(self, block: bool) -> nat {
        if block || self.pending() < TICK_CHUNK as nat {
            self.pending()
        } else {
            TICK_CHUNK as nat
        }
    }

    /// What the rendered row for line `start + k` holds: the padded line
    /// number, a separator, and the stored segments.
    pub open spec fn spec_blob_row(self, start: int, width: nat, k: int, row: BlobRow) -> bool {
        &&& row.lineno@ == spec_pad_left(spec_decimal((start + k) as nat), width) + " | "@
        &&& row.components@ == self.lines@[start + k].components@
    }

    /// The rendered window for a viewport of `height` rows: the stored lines
    /// from the scroll offset on, cut off at the end of the store, and filler
    /// rows for the rest of the viewport.
    pub open spec fn spec_view(self, height: nat, rows: Seq<BlobRow>, filler: nat) -> bool {
        let l = self.lines@.len() as int;
        let start = if self.top as int <= l {
            self.top as int
        } else {
            l
        };
        let bottom = if start + height <= l {
            start + height as int
        } else {
            l
        };
        let width = spec_decimal(bottom as nat).len();
        &&& rows.len() == bottom - start
        &&& filler == height - (bottom - start)
        &&& forall|k: int| 0 <= k < rows.len() ==> self.spec_blob_row(start, width, k, #[trigger] rows[k])
    }

    pub open spec fn wf(self) -> bool {
        &&& self.lines@.len() <= self.raw_lines@.len()
        &&& forall|i: int|
            0 <= i < self.lines@.len() ==> (#[trigger] self.lines@[i]).text()
                == self.raw_lines@[i]@
        &&& self.top as nat <= self.line_count()
    }

    fn assemble(
        bytes: Vec<u8>,
        name: String,
        raw_lines: Vec<String>,
        syntax_set: &'syntax syntect::parsing::SyntaxSet,
        theme: &'syntax syntect::highlighting::Theme,
    ) -> (r: BlobPager<'syntax>)
        ensures
            r.top == 0,
            r.bytes == bytes,
            r.name == name,
            r.raw_lines == raw_lines,
            r.lines@.len() == 0,
            r.syntax_set == syntax_set,
            r.wf(),
    {
        let extension = extension_of(name.as_str());
        let syntax = match &extension {
            Some(ext) => find_syntax_by_extension(syntax_set, ext.as_str()),
            None => {
                if raw_lines.len() > 0 {
                    find_syntax_by_first_line(syntax_set, raw_lines[0].as_str())
                } else {
                    None
                }
            },
        };
        let background_style = match &syntax {
            Some(_) => match theme_background(theme) {
                Some(color) => UiStyle::plain().bg(color),
                None => UiStyle::plain(),
            },
            None => UiStyle::plain(),
        };
        let highlighter = match &syntax {
            Some(s) => Some(new_highlighter(s, theme)),
            None => None,
        };
        BlobPager {
            top: 0,
            bytes,
            name,
            background_style,
            syntax_set,
            highlighter,
            raw_lines,
            lines: Vec::new(),
        }
    }

    /// Builds a viewer over a text blob's raw bytes. Immediately after
    /// construction no line has been converted yet.
    pub fn new(
        bytes: Vec<u8>,
        name: String,
        syntax_set: &'syntax syntect::parsing::SyntaxSet,
        theme: &'syntax syntect::highlighting::Theme,
    ) -> (r: BlobPager<'syntax>)
        requires
            lines_decodable(bytes@),
        ensures
            r.top == 0,
            r.name == name,
            r.lines@.len() == 0,
            r.syntax_set == syntax_set,
            r.raw_lines@.len() == byte_lines(bytes@).len(),
            forall|i: int|
                0 <= i < r.raw_lines@.len() ==> (#[trigger] r.raw_lines@[i])@ == decode_utf8(
                    byte_lines(bytes@)[i],
                ),
            r.bytes == bytes,
            r.wf(),
    {
        let raw_lines = decode_lines(&bytes).unwrap();
        BlobPager::assemble(bytes, name, raw_lines, syntax_set, theme)
    }

    /// Builds a viewer from a resolved content object: only a text blob is
    /// accepted. A blob the collaborator classified as binary, or whose
    /// content is not valid text, is refused with `BinaryFileError`; any
    /// other object with `BlobReferenceError`. Both are recoverable.
    pub fn from_object(
        object: GitObject,
        name: String,
        syntax_set: &'syntax syntect::parsing::SyntaxSet,
        theme: &'syntax syntect::highlighting::Theme,
    ) -> (r: Result<BlobPager<'syntax>, GitBrowserError>)
        ensures
            match object {
                GitObject::Blob { id: _, bytes, binary } => {
                    if binary || !lines_decodable(bytes@) {
                        r matches Err(e) && e == GitBrowserError::Error(ErrorKind::BinaryFileError)
                    } else {
                        r matches Ok(p) && {
                            &&& p.top == 0
                            &&& p.name == name
                            &&& p.lines@.len() == 0
                            &&& p.syntax_set == syntax_set
                            &&& p.raw_lines@.len() == byte_lines(bytes@).len()
                            &&& forall|i: int|
                                0 <= i < p.raw_lines@.len() ==> (#[trigger] p.raw_lines@[i])@
                                    == decode_utf8(byte_lines(bytes@)[i])
                            &&& p.bytes == bytes
                            &&& p.wf()
                        }
                    }
                },
                _ => r matches Err(e) && e == GitBrowserError::Error(
                    ErrorKind::BlobReferenceError,
                ),
            },
    {
        match object {
            GitObject::Blob { id: _, bytes, binary } => {
                if binary {
                    Err(GitBrowserError::Error(ErrorKind::BinaryFileError))
                } else {
                    match decode_lines(&bytes) {
                        Some(raw_lines) => Ok(
                            BlobPager::assemble(bytes, name, raw_lines, syntax_set, theme),
                        ),
                        None => Err(GitBrowserError::Error(ErrorKind::BinaryFileError)),
                    }
                }
            },
            _ => Err(GitBrowserError::Error(ErrorKind::BlobReferenceError)),
        }
    }

    /// The display name of the file.
    pub fn title(&self) -> (r: String)
        ensures
            r == self.name,
    {
        self.name.clone()
    }

    pub fn home(&mut self, _page_size: u16)
        ensures
            *final(self) == (BlobPager { top: 0usize, ..*old(self) }),
    {
        self.top = 0;
    }

    /// Scrolls so the last page of the file is shown; the top of a file
    /// shorter than the viewport.
    pub fn end(&mut self, page_size: u16)
        ensures
            final(self).top as nat == blob_end_top(old(self).line_count(), page_size as nat),
            *final(self) == (BlobPager { top: final(self).top, ..*old(self) }),
    {
        let l = self.raw_lines.len();
        let h = page_size as usize;
        self.top = if l > h {
            l - h
        } else {
            0
        };
    }

    pub fn pagedown(&mut self, page_size: u16)
        requires
            old(self).wf(),
        ensures
            final(self).top as nat == blob_clamp_down(
                old(self).top as nat,
                page_size as nat,
                old(self).line_count(),
            ),
            *final(self) == (BlobPager { top: final(self).top, ..*old(self) }),
    {
        let l = self.raw_lines.len();
        let h = page_size as usize;
        let limit = if l > h {
            l - h
        } else {
            0
        };
        self.top = if self.top >= limit {
            limit
        } else if h > limit - self.top {
            limit
        } else {
            self.top + h
        };
    }

    pub fn pageup(&mut self, page_size: u16)
        requires
            old(self).wf(),
        ensures
            final(self).top as nat == crate::app::pagination::clamp_sub(
                old(self).top as nat,
                page_size as nat,
            ),
            *final(self) == (BlobPager { top: final(self).top, ..*old(self) }),
    {
        let h = page_size as usize;
        if self.top < h {
            self.top = 0;
        } else {
            self.top = self.top - h;
        }
    }

    /// Scrolls down one line; the last line never leaves the screen.
    pub fn next_selection(&mut self)
        requires
            old(self).wf(),
        ensures
            final(self).top as nat == blob_next(old(self).top as nat, old(self).line_count()),
            *final(self) == (BlobPager { top: final(self).top, ..*old(self) }),
    {
        let l = self.raw_lines.len();
        if l > 0 && self.top < l - 1 {
            self.top = self.top + 1;
        }
    }

    /// Scrolls up one line.
    pub fn previous_selection(&mut self)
        ensures
            final(self).top as nat == crate::app::pagination::clamp_sub(old(self).top as nat, 1),
            *final(self) == (BlobPager { top: final(self).top, ..*old(self) }),
    {
        if self.top > 0 {
            self.top = self.top - 1;
        }
    }

    /// Activation means nothing on a single line of content.
    pub fn select(&self) -> (r: Option<SelectTarget>)
        ensures
            r is None,
    {
        None
    }

    pub fn selected_item(&self) -> (r: String)
        ensures
            r@ == Seq::<char>::empty(),
    {
        String::new()
    }

    /// Converts pending raw lines into highlighted lines, in original order:
    /// all of them when `block` is set, at most [`TICK_CHUNK`] otherwise.
    /// Everything already converted, and the rest of the viewer, stays as it
    /// was.
    pub fn next_tick(&mut self, block: bool)
        requires
            old(self).wf(),
        ensures
            final(self).wf(),
            final(self).lines@.len() == old(self).lines@.len() + old(self).tick_take(block),
            forall|i: int|
                0 <= i < old(self).lines@.len() ==> final(self).lines@[i] == old(self).lines@[i],
            forall|i: int|
                old(self).lines@.len() <= i < final(self).lines@.len() ==> (
                #[trigger] final(self).lines@[i]).text() == final(self).raw_lines@[i]@,
            final(self).top == old(self).top,
            final(self).bytes == old(self).bytes,
            final(self).name == old(self).name,
            final(self).background_style == old(self).background_style,
            final(self).syntax_set == old(self).syntax_set,
            final(self).raw_lines == old(self).raw_lines,
    {
        let pending = self.raw_lines.len() - self.lines.len();
        if pending == 0 {
            return ;
        }
        let max_items = if block {
            pending
        } else if pending < TICK_CHUNK {
            pending
        } else {
            TICK_CHUNK
        };
        let mut hl = self.highlighter.take();
        let mut count: usize = 0;
        while count < max_items
            invariant
                count <= max_items,
                max_items as nat == old(self).tick_take(block),
                old(self).lines@.len() + max_items as nat <= self.raw_lines@.len(),
                self.lines@.len() == old(self).lines@.len() + count,
                forall|i: int|
                    0 <= i < old(self).lines@.len() ==> self.lines@[i] == old(self).lines@[i],
                forall|i: int|
                    0 <= i < self.lines@.len() ==> (#[trigger] self.lines@[i]).text()
                        == self.raw_lines@[i]@,
                self.top == old(self).top,
                self.bytes == old(self).bytes,
                self.name == old(self).name,
                self.background_style == old(self).background_style,
                self.syntax_set == old(self).syntax_set,
                self.raw_lines == old(self).raw_lines,
                self.top as nat <= self.raw_lines@.len(),
            decreases max_items - count,
        {
            let idx = self.lines.len();
            let text = self.raw_lines[idx].clone();
            let (components, hl_back): (Vec<(UiStyle, String)>, Option<
                syntect::easy::HighlightLines<'syntax>,
            >) = match hl {
                Some(mut h) => {
                    let c = highlight_line(&mut h, text.as_str(), self.syntax_set);
                    (c, Some(h))
                },
                None => {
                    let mut c: Vec<(UiStyle, String)> = Vec::new();
                    c.push((UiStyle::plain(), text.clone()));
                    proof {
                        assert(c@.len() == 1);
                        assert(c@[0].1 == text);
                        assert(c@.drop_first() =~= Seq::<(UiStyle, String)>::empty());
                        assert(segments_text(c@.drop_first()) =~= Seq::<char>::empty());
                        assert(segments_text(c@) == c@[0].1@ + segments_text(c@.drop_first()));
                        assert(segments_text(c@) =~= text@);
                    }
                    (c, None)
                },
            };
            hl = hl_back;
            let line = HighlightedLine { components };
            proof {
                assert(line.text() == self.raw_lines@[idx as int]@);
            }
            self.lines.push(line);
            count += 1;
        }
        self.highlighter = hl;
    }

    /// The lines shown for a viewport of `height` rows, each with its
    /// line-number gutter, and how many filler rows follow them. The gutter
    /// is as wide as the number of the line just past the window.
    pub fn visible_lines(&self, height: u16) -> (r: (Vec<BlobRow>, usize))
        ensures
            self.spec_view(height as nat, r.0@, r.1 as nat),
    {
        let l = self.lines.len();
        let start = if self.top <= l {
            self.top
        } else {
            l
        };
        let h = height as usize;
        let bottom = if l - start <= h {
            l
        } else {
            start + h
        };
        let bottom_str = usize_to_string(bottom);
        let width = bottom_str.as_str().unicode_len();
        let mut rows: Vec<BlobRow> = Vec::new();
        let mut pos = start;
        while pos < bottom
            invariant
                start <= pos <= bottom <= self.lines@.len(),
                rows@.len() == pos - start,
                width == spec_decimal(bottom as nat).len(),
                forall|k: int|
                    0 <= k < rows@.len() ==> self.spec_blob_row(
                        start as int,
                        width as nat,
                        k,
                        #[trigger] rows@[k],
                    ),
            decreases bottom - pos,
        {
            let num = usize_to_string(pos);
            let mut lineno = pad_left(num.as_str(), width);
            lineno.append(" | ");
            let components = clone_components(&self.lines[pos].components);
            proof {
                assert(rows@.len() + 1 == pos + 1 - start);
            }
            rows.push(BlobRow { lineno, components });
            pos += 1;
        }
        let filler = h - (bottom - start);
        (rows, filler)
    }
}

/// The texts of a store of converted lines.
pub open spec fn line_texts(lines: Seq<HighlightedLine>) -> Seq<Seq<char>> {
    lines.map_values(|l: HighlightedLine| l.text())
}

/// How many lines of a file of `len` lines are converted after `k`
/// non-blocking ticks from a fresh viewer.
pub open spec fn ticks_converted(len: nat, k: nat) -> nat
    decreases k,
{
    if k == 0 {
        0
    } else {
        let prev = ticks_converted(len, (k - 1) as nat);
        if len - prev < TICK_CHUNK as nat {
            len
        } else {
            prev + TICK_CHUNK as nat
        }
    }
}

/// Non-blocking ticks convert a fixed chunk per call until the file is
/// exhausted.
pub proof fn lemma_ticks_converted(len: nat, k: nat)
    ensures
        ticks_converted(len, k) == if len <= k * (TICK_CHUNK as nat) {
            len
        } else {
            k * (TICK_CHUNK as nat)
        },
    decreases k,
{
    if k > 0 {
        lemma_ticks_converted(len, (k - 1) as nat);
        assert(k * (TICK_CHUNK as nat) == (k - 1) * (TICK_CHUNK as nat) + TICK_CHUNK as nat)
            by (nonlinear_arith);
    }
}

/// Law: enough non-blocking ticks convert the whole file. After any `k` ticks
/// with `k * 100 >= len` — that is, at least ⌈len/100⌉ of them — every line
/// has been converted, exactly as a single blocking tick leaves the store.
pub proof fn lemma_enough_ticks(len: nat, k: nat)
    requires
        k * (TICK_CHUNK as nat) >= len,
    ensures
        ticks_converted(len, k) == len,
{
    lemma_ticks_converted(len, k);
}

/// One more non-blocking tick advances a fresh-start conversion from
/// `ticks_converted(len, k)` converted lines to `ticks_converted(len, k + 1)`.
pub proof fn lemma_tick_step<'a>(p: BlobPager<'a>, k: nat)
    requires
        p.wf(),
        p.lines@.len() == ticks_converted(p.line_count(), k),
    ensures
        p.lines@.len() + p.tick_take(false) == ticks_converted(p.line_count(), k + 1),
{
}

/// Law: conversion is deterministic in the model. Two fully converted viewers
/// over the same raw lines hold the same line texts, in the file's original
/// order — however their ticks were scheduled.
pub proof fn lemma_full_conversion<'a, 'b>(a: BlobPager<'a>, b: BlobPager<'b>)
    requires
        a.wf(),
        b.wf(),
        a.raw_lines@ == b.raw_lines@,
        a.pending() == 0,
        b.pending() == 0,
    ensures
        a.lines@.len() == a.line_count(),
        line_texts(a.lines@) == a.raw_lines@.map_values(|l: String| l@),
        line_texts(a.lines@) == line_texts(b.lines@),
{
    assert(line_texts(a.lines@) =~= a.raw_lines@.map_values(|l: String| l@));
    assert(line_texts(b.lines@) =~= b.raw_lines@.map_values(|l: String| l@));
}

} // verus!
