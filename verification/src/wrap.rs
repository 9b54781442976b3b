//! Breaking a long text into lines, between its words.

use crate::grammar::SPACE;
use vstd::prelude::*;
use vstd::slice::slice_to_vec;
use vstd::string::StringSliceAdditionalSpecFns;
use vstd::utf8::encode_utf8;

verus! {

/// The words of a text: the runs of characters that whitespace separates,
/// in order. Whitespace is what Unicode calls so.
pub uninterp spec fn whitespace_words(s: Seq<char>) -> Seq<Seq<char>>;

/// The characters of a list of strings.
pub open spec fn words_view(v: Seq<String>) -> Seq<Seq<char>> {
    Seq::new(v.len(), |i: int| v[i]@)
}

/// The bytes of each word of a list.
pub open spec fn word_bytes(ws: Seq<Seq<char>>) -> Seq<Seq<u8>> {
    Seq::new(ws.len(), |i: int| encode_utf8(ws[i]))
}

/// `str::split_whitespace`: the words of the text, in order.
#[verifier::external_body]
fn split_words(s: &str) -> (v: Vec<String>)
    ensures
        words_view(v@) == whitespace_words(s@),
{
    s.split_whitespace().map(|w| w.to_owned()).collect()
}

/// The lines that come of a line that is begun and the words that are
/// still to be placed: a word joins the line, behind one space, if the line
/// then has at most `limit` bytes; otherwise the line is closed and the word
/// begins the next one.
pub open spec fn fill(line: Seq<u8>, rest: Seq<Seq<u8>>, limit: int) -> Seq<Seq<u8>>
    decreases rest.len(),
{
    if rest.len() == 0 {
        seq![line]
    } else if line.len() + 1 + rest[0].len() <= limit {
        fill(line + seq![SPACE] + rest[0], rest.skip(1), limit)
    } else {
        seq![line] + fill(rest[0], rest.skip(1), limit)
    }
}

/// The lines that the words `ws` are broken into: every line takes as many
/// words as fit into `limit` bytes, and at least one.
pub open spec fn wrap(ws: Seq<Seq<u8>>, limit: int) -> Seq<Seq<u8>> {
    if ws.len() == 0 {
        Seq::empty()
    } else {
        fill(ws[0], ws.skip(1), limit)
    }
}

/// The texts of `ls` with one space between each two.
pub open spec fn spaced(ls: Seq<Seq<u8>>) -> Seq<u8>
    decreases ls.len(),
{
    if ls.len() == 0 {
        Seq::empty()
    } else if ls.len() == 1 {
        ls[0]
    } else {
        ls[0] + seq![SPACE] + spaced(ls.skip(1))
    }
}

/// The views of a list of lines.
pub open spec fn lines_view(ls: Seq<Vec<u8>>) -> Seq<Seq<u8>> {
    Seq::new(ls.len(), |i: int| ls[i]@)
}

/// A word that follows a text, behind one space, is spaced like the two.
proof fn lemma_spaced_front(line: Seq<u8>, rest: Seq<Seq<u8>>)
    requires
        rest.len() > 0,
    ensures
        spaced(seq![line + seq![SPACE] + rest[0]] + rest.skip(1)) == spaced(seq![line] + rest),
{
    let joined = line + seq![SPACE] + rest[0];
    let a = seq![joined] + rest.skip(1);
    let b = seq![line] + rest;
    assert(b.skip(1) =~= rest);
    assert(a.skip(1) =~= rest.skip(1));
    if rest.len() == 1 {
        assert(spaced(rest) == rest[0]);
        assert(spaced(a) == joined);
    } else {
        assert(spaced(rest) == rest[0] + seq![SPACE] + spaced(rest.skip(1)));
        assert(spaced(a) == joined + seq![SPACE] + spaced(rest.skip(1)));
        assert(spaced(a) =~= spaced(b));
    }
}

/// Breaking into lines loses nothing and changes no order: the lines with
/// one space between each two are the words with one space between each two.
pub proof fn lemma_fill_keeps_words(line: Seq<u8>, rest: Seq<Seq<u8>>, limit: int)
    ensures
        spaced(fill(line, rest, limit)) == spaced(seq![line] + rest),
        fill(line, rest, limit).len() >= 1,
    decreases rest.len(),
{
    if rest.len() == 0 {
        assert(seq![line] + rest =~= seq![line]);
    } else if line.len() + 1 + rest[0].len() <= limit {
        lemma_fill_keeps_words(line + seq![SPACE] + rest[0], rest.skip(1), limit);
        lemma_spaced_front(line, rest);
    } else {
        let tail = fill(rest[0], rest.skip(1), limit);
        lemma_fill_keeps_words(rest[0], rest.skip(1), limit);
        assert(seq![rest[0]] + rest.skip(1) =~= rest);
        let all = seq![line] + tail;
        assert(all.skip(1) =~= tail);
        assert((seq![line] + rest).skip(1) =~= rest);
    }
}

/// Breaking words into lines loses nothing and changes no order.
pub proof fn lemma_wrap_keeps_words(ws: Seq<Seq<u8>>, limit: int)
    ensures
        spaced(wrap(ws, limit)) == spaced(ws),
        wrap(ws, limit).len() == 0 <==> ws.len() == 0,
{
    if ws.len() > 0 {
        lemma_fill_keeps_words(ws[0], ws.skip(1), limit);
        assert(seq![ws[0]] + ws.skip(1) =~= ws);
    }
}

/// Whether `line` is short enough, or one word that is too long to fit in
/// any line.
pub open spec fn fits_or_is_word(line: Seq<u8>, ws: Seq<Seq<u8>>, limit: int) -> bool {
    line.len() <= limit || ws.contains(line)
}

/// No line is longer than the limit, but for a line that is one word which
/// is itself longer than the limit.
pub proof fn lemma_fill_fits(line: Seq<u8>, rest: Seq<Seq<u8>>, ws: Seq<Seq<u8>>, limit: int)
    requires
        fits_or_is_word(line, ws, limit),
        forall|i: int| 0 <= i < rest.len() ==> ws.contains(#[trigger] rest[i]),
    ensures
        forall|i: int|
            0 <= i < fill(line, rest, limit).len() ==> fits_or_is_word(
                #[trigger] fill(line, rest, limit)[i],
                ws,
                limit,
            ),
    decreases rest.len(),
{
    let all = fill(line, rest, limit);
    if rest.len() > 0 {
        let tail = rest.skip(1);
        assert forall|i: int| 0 <= i < tail.len() implies ws.contains(#[trigger] tail[i]) by {
            assert(tail[i] == rest[i + 1]);
        }
        assert(ws.contains(rest[0]));
        if line.len() + 1 + rest[0].len() <= limit {
            lemma_fill_fits(line + seq![SPACE] + rest[0], tail, ws, limit);
            assert(all == fill(line + seq![SPACE] + rest[0], tail, limit));
        } else {
            let later = fill(rest[0], tail, limit);
            lemma_fill_fits(rest[0], tail, ws, limit);
            assert(all == seq![line] + later);
            assert forall|i: int| 0 <= i < all.len() implies fits_or_is_word(
                #[trigger] all[i],
                ws,
                limit,
            ) by {
                if i > 0 {
                    assert(all[i] == later[i - 1]);
                }
            }
        }
    } else {
        assert(all == seq![line]);
        assert(all[0] == line);
    }
}

/// No line is longer than the limit, but for a line that is one word which
/// is itself longer than the limit.
pub proof fn lemma_wrap_fits(ws: Seq<Seq<u8>>, limit: int)
    ensures
        forall|i: int|
            0 <= i < wrap(ws, limit).len() ==> fits_or_is_word(
                #[trigger] wrap(ws, limit)[i],
                ws,
                limit,
            ),
{
    if ws.len() > 0 {
        let tail = ws.skip(1);
        assert forall|i: int| 0 <= i < tail.len() implies ws.contains(#[trigger] tail[i]) by {
            assert(tail[i] == ws[i + 1]);
        }
        assert(ws.contains(ws[0]));
        lemma_fill_fits(ws[0], tail, ws, limit);
    }
}

/// Breaks a list of words into lines of at most `limit` bytes.
///
/// Every line takes as many words as fit, with one space between each two,
/// and at least one word: a word that is longer than `limit` has a line to
/// itself. No words give no line.
pub fn wrap_words(words: &Vec<Vec<u8>>, limit: usize) -> (lines: Vec<Vec<u8>>)
    ensures
        lines_view(lines@) == wrap(lines_view(words@), limit as int),
{
    let ghost ws = lines_view(words@);
    let ghost target = wrap(ws, limit as int);
    let n = words.len();
    let mut lines: Vec<Vec<u8>> = Vec::new();
    let mut line: Vec<u8> = Vec::new();
    let mut started = false;
    let mut i: usize = 0;
    assert(ws.skip(0) =~= ws);
    while i < n
        invariant
            i <= n == words@.len(),
            ws == lines_view(words@),
            target == wrap(ws, limit as int),
            !started ==> i == 0 && lines@.len() == 0 && line@.len() == 0,
            started ==> target == lines_view(lines@) + fill(line@, ws.skip(i as int), limit as int),
        decreases n - i,
    {
        let word = words[i].as_slice();
        let ghost rest = ws.skip(i as int);
        let ghost later = ws.skip(i + 1);
        let ghost closed = lines_view(lines@);
        proof {
            assert(rest[0] == word@);
            assert(rest.skip(1) =~= later);
        }
        if !started {
            assert(ws.skip(0) =~= ws);
            assert(target == fill(word@, later, limit as int));
            assert(closed =~= Seq::<Seq<u8>>::empty());
            assert(closed + fill(word@, later, limit as int) =~= fill(word@, later, limit as int));
            line.extend_from_slice(word);
            assert(line@ =~= word@);
            started = true;
        } else if word.len() < limit && line.len() < limit - word.len() {
            let ghost before = line@;
            line.push(SPACE);
            line.extend_from_slice(word);
            assert(line@ =~= before + seq![SPACE] + word@);
        } else {
            let ghost before = line@;
            lines.push(line);
            line = Vec::new();
            line.extend_from_slice(word);
            proof {
                assert(line@ =~= word@);
                assert(lines_view(lines@) =~= closed + seq![before]);
                assert(closed + (seq![before] + fill(word@, later, limit as int)) =~= (closed
                    + seq![before]) + fill(word@, later, limit as int));
            }
        }
        i += 1;
    }
    if started {
        let ghost closed = lines_view(lines@);
        assert(ws.skip(n as int) =~= Seq::<Seq<u8>>::empty());
        lines.push(line);
        assert(lines_view(lines@) =~= closed + seq![lines@.last()@]);
    } else {
        assert(lines_view(lines@) =~= Seq::<Seq<u8>>::empty());
    }
    lines
}

/// Breaks a text into lines of at most `limit` bytes, between its words.
///
/// Words are what whitespace separates: spaces, tabs, line ends and what
/// else Unicode counts as whitespace. The lines come of the words as
/// [`wrap_words`] says; a text without words gives no line.
pub fn word_wrap(message: &str, limit: u16) -> (lines: Vec<Vec<u8>>)
    ensures
        lines_view(lines@) == wrap(word_bytes(whitespace_words(message@)), limit as int),
{
    let found = split_words(message);
    let mut words: Vec<Vec<u8>> = Vec::new();
    let mut i: usize = 0;
    while i < found.len()
        invariant
            i <= found@.len(),
            words@.len() == i,
            forall|x: int| 0 <= x < i ==> (#[trigger] words@[x])@ == encode_utf8(found@[x]@),
        decreases found@.len() - i,
    {
        words.push(slice_to_vec(found[i].as_str().as_bytes()));
        i += 1;
    }
    assert(lines_view(words@) =~= word_bytes(whitespace_words(message@)));
    wrap_words(&words, limit as usize)
}

} // verus!
