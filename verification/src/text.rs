//! Verified text helpers: decimal rendering, padding, path-label and
//! extension extraction, and splitting a blob's bytes into display lines.

use vstd::prelude::*;
use vstd::string::StrSliceExecFns;
use vstd::string::StringExecFns;

verus! {

// ---------------------------------------------------------------------------
// Decimal rendering
// ---------------------------------------------------------------------------
pub open spec fn spec_digit(d: nat) -> char {
    if d == 0 {
        '0'
    } else if d == 1 {
        '1'
    } else if d == 2 {
        '2'
    } else if d == 3 {
        '3'
    } else if d == 4 {
        '4'
    } else if d == 5 {
        '5'
    } else if d == 6 {
        '6'
    } else if d == 7 {
        '7'
    } else if d == 8 {
        '8'
    } else {
        '9'
    }
}

/// The usual decimal rendering of a number, most significant digit first.
pub open spec fn spec_decimal(n: nat) -> Seq<char>
    decreases n,
{
    if n < 10 {
        seq![spec_digit(n)]
    } else {
        spec_decimal(n / 10) + seq![spec_digit(n % 10)]
    }
}

fn digit_str(d: usize) -> (r: &'static str)
    requires
        d < 10,
    ensures
        r@ == seq![spec_digit(d as nat)],
{
    proof {
        reveal_strlit("0");
        reveal_strlit("1");
        reveal_strlit("2");
        reveal_strlit("3");
        reveal_strlit("4");
        reveal_strlit("5");
        reveal_strlit("6");
        reveal_strlit("7");
        reveal_strlit("8");
        reveal_strlit("9");
    }
    let r = match d {
        0 => "0",
        1 => "1",
        2 => "2",
        3 => "3",
        4 => "4",
        5 => "5",
        6 => "6",
        7 => "7",
        8 => "8",
        _ => "9",
    };
    proof {
        assert(r@ =~= seq![spec_digit(d as nat)]);
    }
    r
}

/// Renders `n` in decimal.
pub fn usize_to_string(n: usize) -> (r: String)
    ensures
        r@ == spec_decimal(n as nat),
    decreases n,
{
    let d = digit_str(n % 10);
    if n < 10 {
        String::from_str(d)
    } else {
        let mut s = usize_to_string(n / 10);
        s.append(d);
        s
    }
}

// ---------------------------------------------------------------------------
// Padding
// ---------------------------------------------------------------------------
pub open spec fn spec_spaces(n: nat) -> Seq<char> {
    Seq::new(n, |i: int| ' ')
}

pub open spec fn spec_pad(len: nat, width: nat) -> nat {
    if len >= width {
        0
    } else {
        (width - len) as nat
    }
}

/// `s` padded on the left with spaces up to `width` characters.
pub open spec fn spec_pad_left(s: Seq<char>, width: nat) -> Seq<char> {
    spec_spaces(spec_pad(s.len(), width)) + s
}

/// `s` padded on the right with spaces up to `width` characters.
pub open spec fn spec_pad_right(s: Seq<char>, width: nat) -> Seq<char> {
    s + spec_spaces(spec_pad(s.len(), width))
}

fn spaces(n: usize) -> (r: String)
    ensures
        r@ == spec_spaces(n as nat),
{
    proof {
        reveal_strlit(" ");
    }
    let mut s = String::new();
    let mut i: usize = 0;
    while i < n
        invariant
            i <= n,
            s@ =~= spec_spaces(i as nat),
            " "@ =~= seq![' '],
        decreases n - i,
    {
        s.append(" ");
        proof {
            assert(s@ =~= spec_spaces((i + 1) as nat));
        }
        i += 1;
    }
    s
}

/// Pads `s` on the left with spaces up to `width` characters.
pub fn pad_left(s: &str, width: usize) -> (r: String)
    ensures
        r@ == spec_pad_left(s@, width as nat),
{
    let len = s.unicode_len();
    let pad = if len >= width {
        0
    } else {
        width - len
    };
    let mut r = spaces(pad);
    r.append(s);
    r
}

/// Pads `s` on the right with spaces up to `width` characters.
pub fn pad_right(s: &str, width: usize) -> (r: String)
    ensures
        r@ == spec_pad_right(s@, width as nat),
{
    let len = s.unicode_len();
    let pad = if len >= width {
        0
    } else {
        width - len
    };
    let mut r = String::from_str(s);
    let sp = spaces(pad);
    r.append(sp.as_str());
    r
}

// ---------------------------------------------------------------------------
// Last occurrence of a character
// ---------------------------------------------------------------------------
/// The last index of `c` in `s`, or -1 when `c` does not occur.
pub open spec fn last_index_of(s: Seq<char>, c: char) -> int
    decreases s.len(),
{
    if s.len() == 0 {
        -1
    } else if s.last() == c {
        s.len() - 1
    } else {
        last_index_of(s.drop_last(), c)
    }
}

pub proof fn lemma_last_index_of(s: Seq<char>, c: char)
    ensures
        -1 <= last_index_of(s, c) < s.len(),
        last_index_of(s, c) >= 0 ==> s[last_index_of(s, c)] == c,
        forall|j: int| last_index_of(s, c) < j < s.len() ==> s[j] != c,
    decreases s.len(),
{
    if s.len() > 0 && s.last() != c {
        let dl = s.drop_last();
        lemma_last_index_of(dl, c);
        let li = last_index_of(dl, c);
        if li >= 0 {
            assert(s[li] == dl[li]);
        }
        assert forall|j: int| li < j < s.len() implies s[j] != c by {
            if j < s.len() - 1 {
                assert(s[j] == dl[j]);
            }
        }
    }
}

/// Finds the last occurrence of `c` among the first `upto` characters.
fn find_last(s: &str, c: char, upto: usize) -> (r: Option<usize>)
    requires
        upto <= s@.len(),
    ensures
        match r {
            Some(i) => i == last_index_of(s@.take(upto as int), c),
            None => last_index_of(s@.take(upto as int), c) == -1,
        },
{
    let mut best: Option<usize> = None;
    let mut i: usize = 0;
    proof {
        assert(s@.take(0) =~= Seq::<char>::empty());
    }
    while i < upto
        invariant
            i <= upto <= s@.len(),
            match best {
                Some(b) => b == last_index_of(s@.take(i as int), c),
                None => last_index_of(s@.take(i as int), c) == -1,
            },
        decreases upto - i,
    {
        let ch = s.get_char(i);
        proof {
            assert(s@.take(i + 1).drop_last() =~= s@.take(i as int));
            assert(s@.take(i + 1).last() == s@[i as int]);
        }
        if ch == c {
            best = Some(i);
        }
        i += 1;
    }
    best
}

// ---------------------------------------------------------------------------
// File extension
// ---------------------------------------------------------------------------
/// The extension of a file name: what follows the last dot of its last path
/// component, provided that dot is not the component's first character.
pub open spec fn spec_extension(s: Seq<char>) -> Option<Seq<char>> {
    let ls = last_index_of(s, '/');
    let ld = last_index_of(s, '.');
    if ld >= ls + 2 {
        Some(s.subrange(ld + 1, s.len() as int))
    } else {
        None
    }
}

pub fn extension_of(name: &str) -> (r: Option<String>)
    ensures
        match r {
            Some(e) => spec_extension(name@) matches Some(x) && e@ == x,
            None => spec_extension(name@) is None,
        },
{
    let len = name.unicode_len();
    proof {
        assert(name@.take(len as int) =~= name@);
    }
    let ls = find_last(name, '/', len);
    let ld = find_last(name, '.', len);
    proof {
        lemma_last_index_of(name@, '.');
        lemma_last_index_of(name@, '/');
    }
    let slash_end: usize = match ls {
        Some(i) => i + 1,
        None => 0,
    };
    match ld {
        Some(d) => {
            if d > slash_end {
                let ext = name.substring_char(d + 1, len);
                Some(String::from_str(ext))
            } else {
                None
            }
        },
        None => None,
    }
}

// ---------------------------------------------------------------------------
// Repository label
// ---------------------------------------------------------------------------
/// The short label shown for a repository location: the name of the directory
/// containing its metadata directory. A single trailing separator is ignored;
/// when the path has no parent the path itself is the label.
pub open spec fn spec_repo_label(p: Seq<char>) -> Seq<char> {
    let q = if p.len() > 0 && p.last() == '/' {
        p.drop_last()
    } else {
        p
    };
    let ls = last_index_of(q, '/');
    if ls < 0 {
        p
    } else {
        let parent = q.take(ls);
        let ns = last_index_of(parent, '/');
        let name = parent.subrange(ns + 1, parent.len() as int);
        if name.len() > 0 {
            name
        } else if parent.len() > 0 {
            parent
        } else {
            p
        }
    }
}

pub fn repo_label(path: &str) -> (r: String)
    ensures
        r@ == spec_repo_label(path@),
{
    let len = path.unicode_len();
    let qlen: usize = if len > 0 && path.get_char(len - 1) == '/' {
        len - 1
    } else {
        len
    };
    proof {
        if qlen < len {
            assert(path@.take(qlen as int) =~= path@.drop_last());
        } else {
            assert(path@.take(qlen as int) =~= path@);
        }
    }
    let ls = find_last(path, '/', qlen);
    match ls {
        None => String::from_str(path),
        Some(li) => {
            proof {
                lemma_last_index_of(path@.take(qlen as int), '/');
                assert(path@.take(li as int) =~= path@.take(qlen as int).take(li as int));
            }
            let ns = find_last(path, '/', li);
            proof {
                lemma_last_index_of(path@.take(li as int), '/');
            }
            let nstart: usize = match ns {
                Some(i) => i + 1,
                None => 0,
            };
            proof {
                let q = path@.take(qlen as int);
                let parent = q.take(li as int);
                assert(parent =~= path@.take(li as int));
                assert(parent.subrange(nstart as int, li as int) =~= path@.subrange(
                    nstart as int,
                    li as int,
                ));
            }
            if nstart < li {
                let name = path.substring_char(nstart, li);
                String::from_str(name)
            } else if nstart == li && li > 0 {
                // the last component is empty; fall back to the parent
                let parent = path.substring_char(0, li);
                proof {
                    assert(path@.subrange(0, li as int) =~= path@.take(li as int));
                }
                String::from_str(parent)
            } else {
                String::from_str(path)
            }
        },
    }
}

// ---------------------------------------------------------------------------
// Splitting a blob's bytes into lines
// ---------------------------------------------------------------------------
/// A carriage return directly before a line feed is not part of the line.
pub open spec fn strip_cr(l: Seq<u8>) -> Seq<u8> {
    if l.len() > 0 && l.last() == 13 {
        l.drop_last()
    } else {
        l
    }
}

/// The index of the first line feed, or the length when there is none.
pub open spec fn first_nl(b: Seq<u8>) -> int
    decreases b.len(),
{
    if b.len() == 0 {
        0
    } else if b[0] == 10 {
        0
    } else {
        1 + first_nl(b.drop_first())
    }
}

pub proof fn lemma_first_nl(b: Seq<u8>)
    ensures
        0 <= first_nl(b) <= b.len(),
        forall|j: int| 0 <= j < first_nl(b) ==> b[j] != 10,
        first_nl(b) < b.len() ==> b[first_nl(b)] == 10,
    decreases b.len(),
{
    if b.len() > 0 && b[0] != 10 {
        lemma_first_nl(b.drop_first());
        let i = first_nl(b);
        assert forall|j: int| 0 <= j < i implies b[j] != 10 by {
            if j > 0 {
                assert(b[j] == b.drop_first()[j - 1]);
            }
        }
        if i < b.len() {
            assert(b[i] == b.drop_first()[i - 1]);
        }
    }
}

/// The lines of a byte sequence: split at line feeds, a carriage return
/// before each line feed stripped, with no empty line after a final line
/// feed.
pub open spec fn byte_lines(b: Seq<u8>) -> Seq<Seq<u8>>
    decreases b.len(),
    via byte_lines_decreases
{
    if b.len() == 0 {
        seq![]
    } else {
        let i = first_nl(b);
        if i == b.len() {
            seq![b]
        } else {
            seq![strip_cr(b.take(i))] + byte_lines(b.skip(i + 1))
        }
    }
}

#[via_fn]
proof fn byte_lines_decreases(b: Seq<u8>) {
    lemma_first_nl(b);
}

proof fn lemma_first_nl_concat(a: Seq<u8>, b: Seq<u8>)
    ensures
        first_nl(a) < a.len() ==> first_nl(a + b) == first_nl(a),
        first_nl(a) == a.len() ==> first_nl(a + b) == a.len() + first_nl(b),
    decreases a.len(),
{
    lemma_first_nl(a);
    if a.len() == 0 {
        assert(a + b =~= b);
    } else if a[0] == 10 {
        assert((a + b)[0] == 10);
    } else {
        lemma_first_nl_concat(a.drop_first(), b);
        assert((a + b).drop_first() =~= a.drop_first() + b);
        assert((a + b)[0] == a[0]);
    }
}

proof fn lemma_byte_lines_snoc(prefix: Seq<u8>, line: Seq<u8>)
    requires
        forall|j: int| 0 <= j < line.len() ==> line[j] != 10,
        prefix.len() == 0 || prefix.last() == 10,
    ensures
        byte_lines(prefix + line + seq![10u8]) == byte_lines(prefix) + seq![strip_cr(line)],
    decreases prefix.len(),
{
    let whole = prefix + line + seq![10u8];
    lemma_first_nl(line);
    assert(first_nl(line) == line.len());
    if prefix.len() == 0 {
        assert(whole =~= line + seq![10u8]);
        lemma_first_nl_concat(line, seq![10u8]);
        assert(seq![10u8][0] == 10u8);
        assert(first_nl(seq![10u8]) == 0);
        let i = first_nl(whole);
        assert(i == line.len());
        assert(i < whole.len());
        assert(byte_lines(whole) == seq![strip_cr(whole.take(i))] + byte_lines(whole.skip(i + 1)));
        assert(byte_lines(whole.skip(i + 1)) =~= Seq::<Seq<u8>>::empty());
        assert(whole.take(i) =~= line);
        assert(whole.skip(i + 1) =~= Seq::<u8>::empty());
        assert(byte_lines(prefix) =~= Seq::<Seq<u8>>::empty());
        assert(byte_lines(whole) =~= byte_lines(prefix) + seq![strip_cr(line)]);
    } else {
        lemma_first_nl(prefix);
        let k = first_nl(prefix);
        assert(k < prefix.len()) by {
            if k == prefix.len() {
                assert(prefix[prefix.len() - 1] != 10);
            }
        }
        lemma_first_nl_concat(prefix, line + seq![10u8]);
        assert(whole =~= prefix + (line + seq![10u8]));
        assert(first_nl(whole) == k);
        assert(whole.take(k) =~= prefix.take(k));
        assert(whole.skip(k + 1) =~= prefix.skip(k + 1) + line + seq![10u8]);
        if k + 1 < prefix.len() {
            assert(prefix.skip(k + 1).last() == prefix.last());
        } else {
            assert(prefix.skip(k + 1).len() == 0);
        }
        lemma_byte_lines_snoc(prefix.skip(k + 1), line);
        assert(byte_lines(whole) == seq![strip_cr(whole.take(k))] + byte_lines(whole.skip(k + 1)));
        assert(byte_lines(prefix) == seq![strip_cr(prefix.take(k))] + byte_lines(
            prefix.skip(k + 1),
        ));
        assert(byte_lines(whole) =~= byte_lines(prefix) + seq![strip_cr(line)]);
    }
}

proof fn lemma_byte_lines_tail(prefix: Seq<u8>, line: Seq<u8>)
    requires
        forall|j: int| 0 <= j < line.len() ==> line[j] != 10,
        line.len() > 0,
        prefix.len() == 0 || prefix.last() == 10,
    ensures
        byte_lines(prefix + line) == byte_lines(prefix) + seq![line],
    decreases prefix.len(),
{
    let whole = prefix + line;
    lemma_first_nl(line);
    assert(first_nl(line) == line.len());
    if prefix.len() == 0 {
        assert(whole =~= line);
        assert(byte_lines(prefix) =~= Seq::<Seq<u8>>::empty());
        assert(byte_lines(whole) =~= byte_lines(prefix) + seq![line]);
    } else {
        lemma_first_nl(prefix);
        let k = first_nl(prefix);
        assert(k < prefix.len()) by {
            if k == prefix.len() {
                assert(prefix[prefix.len() - 1] != 10);
            }
        }
        lemma_first_nl_concat(prefix, line);
        assert(first_nl(whole) == k);
        assert(k < whole.len());
        assert(whole.take(k) =~= prefix.take(k));
        assert(whole.skip(k + 1) =~= prefix.skip(k + 1) + line);
        if k + 1 < prefix.len() {
            assert(prefix.skip(k + 1).last() == prefix.last());
        } else {
            assert(prefix.skip(k + 1).len() == 0);
        }
        lemma_byte_lines_tail(prefix.skip(k + 1), line);
        assert(byte_lines(whole) == seq![strip_cr(whole.take(k))] + byte_lines(whole.skip(k + 1)));
        assert(byte_lines(prefix) == seq![strip_cr(prefix.take(k))] + byte_lines(
            prefix.skip(k + 1),
        ));
        assert(byte_lines(whole) =~= byte_lines(prefix) + seq![line]);
    }
}

/// Splits a blob's raw bytes into its display lines.
pub fn split_blob_lines(content: &Vec<u8>) -> (r: Vec<Vec<u8>>)
    ensures
        r.deep_view() == byte_lines(content@),
{
    let ghost cv = content@;
    let mut out: Vec<Vec<u8>> = Vec::new();
    let mut cur: Vec<u8> = Vec::new();
    let ghost mut start: int = 0;
    let mut i: usize = 0;
    proof {
        assert(cv.take(0) =~= Seq::<u8>::empty());
        assert(out.deep_view() =~~= byte_lines(cv.take(0)));
    }
    while i < content.len()
        invariant
            content@ == cv,
            0 <= start <= i <= cv.len(),
            cur@ == cv.subrange(start, i as int),
            forall|j: int| start <= j < i ==> cv[j] != 10,
            start == 0 || cv[start - 1] == 10,
            out.deep_view() == byte_lines(cv.take(start)),
        decreases cv.len() - i,
    {
        let b = content[i];
        if b == 10 {
            let ghost rawline = cv.subrange(start, i as int);
            if cur.len() > 0 && cur[cur.len() - 1] == 13 {
                cur.pop();
            }
            proof {
                assert(cur@ =~= strip_cr(rawline));
            }
            let ghost out_before = out.deep_view();
            out.push(cur);
            cur = Vec::new();
            proof {
                assert(out.deep_view() =~~= out_before.push(strip_cr(rawline)));
                lemma_byte_lines_snoc(cv.take(start), rawline);
                assert(cv.take(i + 1) =~= cv.take(start) + rawline + seq![10u8]);
                assert(out.deep_view() =~~= byte_lines(cv.take(i + 1)));
                start = i + 1;
            }
        } else {
            cur.push(b);
            proof {
                assert(cur@ =~= cv.subrange(start, i + 1));
            }
        }
        i += 1;
    }
    if cur.len() > 0 {
        let ghost out_before = out.deep_view();
        let ghost tail = cv.subrange(start, cv.len() as int);
        out.push(cur);
        proof {
            assert(out.deep_view() =~~= out_before.push(tail));
            lemma_byte_lines_tail(cv.take(start), tail);
            assert(cv =~= cv.take(start) + tail);
            assert(out.deep_view() =~~= byte_lines(cv));
        }
    } else {
        proof {
            assert(cv.take(start) =~= cv);
        }
    }
    out
}

/// Relies on std's str::from_utf8: it accepts exactly the valid UTF-8 byte
/// sequences and decodes them.
#[verifier::external_body]
pub(crate) fn utf8_to_string(bytes: &Vec<u8>) -> (r: Option<String>)
    ensures
        r is Some <==> vstd::utf8::valid_utf8(bytes@),
        r matches Some(s) ==> s@ == vstd::utf8::decode_utf8(bytes@),
{
    match std::str::from_utf8(bytes.as_slice()) {
        Ok(s) => Some(s.to_string()),
        Err(_) => None,
    }
}

} // verus!
