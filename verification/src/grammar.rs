//! The grammar of a protocol line.
//!
//! A line is an optional prefix behind a colon, a command word, parameters,
//! and an optional trailing parameter behind a colon; single spaces separate
//! them, and a carriage return and a line feed end the line. This module
//! says where the parts of a line lie, what line the parts are written
//! into, and that the one undoes the other.

use vstd::prelude::*;

verus! {

/// The byte that separates the tokens of a line.
pub const SPACE: u8 = 0x20;

/// The byte that introduces the prefix and the trailing parameter.
pub const COLON: u8 = 0x3a;

/// First byte of the line terminator.
pub const CR: u8 = 0x0d;

/// Second byte of the line terminator.
pub const LF: u8 = 0x0a;

/// The byte that frames a CTCP request inside a trailing parameter.
pub const CTCP_DELIMITER: u8 = 0x01;

/// The largest byte offset a message can record.
pub const MAX_OFFSET: usize = 0xffff;

/// A half-open range of byte offsets, `start` included and `end` excluded.
pub struct Span {
    pub start: int,
    pub end: int,
}

impl Span {
    /// Whether the span is a range of offsets into `len` bytes.
    pub open spec fn within(self, len: int) -> bool {
        0 <= self.start <= self.end <= len
    }

    /// The bytes of `s` that the span covers.
    pub open spec fn of(self, s: Seq<u8>) -> Seq<u8> {
        s.subrange(self.start, self.end)
    }
}

/// The parts of a message as byte sequences.
pub struct Parts {
    pub prefix: Option<Seq<u8>>,
    pub command: Seq<u8>,
    pub params: Seq<Seq<u8>>,
    pub trailing: Option<Seq<u8>>,
}

impl Parts {
    /// The parameters in order, the trailing one last.
    pub open spec fn elements(self) -> Seq<Seq<u8>> {
        match self.trailing {
            Some(t) => self.params.push(t),
            None => self.params,
        }
    }

    /// The trailing parameter or, without one, the last parameter.
    pub open spec fn last(self) -> Option<Seq<u8>> {
        if self.elements().len() > 0 {
            Some(self.elements().last())
        } else {
            None
        }
    }

    /// Whether the trailing parameter is framed by CTCP delimiters.
    pub open spec fn is_ctcp(self) -> bool {
        self.trailing matches Some(t) && t.len() >= 2 && t[0] == CTCP_DELIMITER && t[t.len() - 1]
            == CTCP_DELIMITER
    }
}

/// Where the parts of a message lie in its line.
pub struct Layout {
    pub prefix: Option<Span>,
    pub command: Span,
    pub params: Seq<Span>,
    pub trailing: Option<Span>,
}

impl Layout {
    /// Every span lies inside a line of `len` bytes, and the spans follow one
    /// another without overlap: prefix, command, parameters in order, trailing.
    pub open spec fn well_formed(self, len: int) -> bool {
        &&& self.command.within(len)
        &&& self.prefix matches Some(p) ==> p.within(len) && p.end <= self.command.start
        &&& forall|i: int|
            0 <= i < self.params.len() ==> (#[trigger] self.params[i]).within(len)
                && self.command.end <= self.params[i].start
        &&& forall|i: int, j: int|
            0 <= i < j < self.params.len() ==> (#[trigger] self.params[i]).end <= (
            #[trigger] self.params[j]).start
        &&& self.trailing matches Some(t) ==> {
            &&& t.within(len)
            &&& self.command.end <= t.start
            &&& forall|i: int|
                0 <= i < self.params.len() ==> (#[trigger] self.params[i]).end <= t.start
        }
    }

    /// The parts that the layout cuts out of `line`.
    pub open spec fn parts(self, line: Seq<u8>) -> Parts {
        Parts {
            prefix: match self.prefix {
                Some(p) => Some(p.of(line)),
                None => None,
            },
            command: self.command.of(line),
            params: Seq::new(self.params.len(), |i: int| self.params[i].of(line)),
            trailing: match self.trailing {
                Some(t) => Some(t.of(line)),
                None => None,
            },
        }
    }
}

/// The length of `line` without its terminator, if it ends in one.
pub open spec fn content_end(line: Seq<u8>) -> int {
    if line.len() >= 2 && line[line.len() - 2] == CR && line[line.len() - 1] == LF {
        line.len() - 2
    } else {
        line.len() as int
    }
}

/// The first offset at or after `i` and before `end` that holds a space, or
/// `end` if there is none: where the token that starts at `i` ends.
pub open spec fn next_space(s: Seq<u8>, i: int, end: int) -> int
    decreases end - i,
{
    if i >= end || s[i] == SPACE {
        i
    } else {
        next_space(s, i + 1, end)
    }
}

/// The first offset at or after `i` and before `end` that holds no space, or
/// `end` if there is none: where the next token starts.
pub open spec fn skip_spaces(s: Seq<u8>, i: int, end: int) -> int
    decreases end - i,
{
    if i >= end || s[i] != SPACE {
        i
    } else {
        skip_spaces(s, i + 1, end)
    }
}

/// `next_space` stays between its start and `end`, moves past a byte that
/// is no space, passes over no space and stops at one.
pub proof fn lemma_next_space(s: Seq<u8>, i: int, end: int)
    requires
        0 <= i <= end <= s.len(),
    ensures
        i <= next_space(s, i, end) <= end,
        i < end && s[i] != SPACE ==> i < next_space(s, i, end),
        forall|x: int| i <= x < next_space(s, i, end) ==> s[x] != SPACE,
        next_space(s, i, end) < end ==> s[next_space(s, i, end)] == SPACE,
    decreases end - i,
{
    if i < end && s[i] != SPACE {
        lemma_next_space(s, i + 1, end);
    }
}

/// `skip_spaces` stays between its start and `end`, passes over spaces only
/// and stops at a byte that is none.
pub proof fn lemma_skip_spaces(s: Seq<u8>, i: int, end: int)
    requires
        0 <= i <= end <= s.len(),
    ensures
        i <= skip_spaces(s, i, end) <= end,
        forall|x: int| i <= x < skip_spaces(s, i, end) ==> s[x] == SPACE,
        skip_spaces(s, i, end) < end ==> s[skip_spaces(s, i, end)] != SPACE,
    decreases end - i,
{
    if i < end && s[i] == SPACE {
        lemma_skip_spaces(s, i + 1, end);
    }
}

/// The parameters that start at or after `i`: each maximal run of bytes
/// without a space is one parameter, until a run starts with a colon;
/// everything behind that colon, up to `end`, is the trailing parameter.
pub open spec fn scan_params(s: Seq<u8>, i: int, end: int) -> (Seq<Span>, Option<Span>)
    decreases end - i,
    when 0 <= i <= end <= s.len()
    via scan_params_decreases
{
    let j = skip_spaces(s, i, end);
    if j >= end {
        (Seq::empty(), None)
    } else if s[j] == COLON {
        (Seq::empty(), Some(Span { start: j + 1, end }))
    } else {
        let k = next_space(s, j, end);
        let rest = scan_params(s, k, end);
        (seq![Span { start: j, end: k }] + rest.0, rest.1)
    }
}

#[via_fn]
proof fn scan_params_decreases(s: Seq<u8>, i: int, end: int) {
    lemma_skip_spaces(s, i, end);
    let j = skip_spaces(s, i, end);
    if j < end {
        lemma_next_space(s, j, end);
    }
}

/// The layout of a line, or `None` where the line holds no command word.
///
/// A line that starts with a colon has a prefix, which runs from behind the
/// colon to the next space. The next token is the command word, and the
/// tokens behind it are the parameters. Runs of spaces between tokens are
/// skipped. The terminator, if the line ends in one, belongs to no part.
pub open spec fn layout_of(line: Seq<u8>) -> Option<Layout> {
    let end = content_end(line);
    let has_prefix = end > 0 && line[0] == COLON;
    let prefix_end = if has_prefix {
        next_space(line, 1, end)
    } else {
        0
    };
    let start = skip_spaces(line, prefix_end, end);
    if start >= end {
        None
    } else {
        let stop = next_space(line, start, end);
        let rest = scan_params(line, stop, end);
        Some(
            Layout {
                prefix: if has_prefix {
                    Some(Span { start: 1, end: prefix_end })
                } else {
                    None
                },
                command: Span { start, end: stop },
                params: rest.0,
                trailing: rest.1,
            },
        )
    }
}

/// The bytes of a formatted line up to the end of the command word: the
/// prefix behind its colon and in front of a space, where there is one, and
/// the command word.
pub open spec fn head_wire(p: Parts) -> Seq<u8> {
    (match p.prefix {
        Some(x) => seq![COLON] + x + seq![SPACE],
        None => Seq::empty(),
    }) + p.command
}

/// The bytes of the first `n` parameters, each behind a space.
pub open spec fn params_wire(params: Seq<Seq<u8>>, n: int) -> Seq<u8>
    decreases n,
{
    if n <= 0 {
        Seq::empty()
    } else {
        params_wire(params, n - 1) + seq![SPACE] + params[n - 1]
    }
}

/// The bytes of a formatted line behind its parameters: the trailing
/// parameter behind a space and a colon, where there is one, and the
/// terminator.
pub open spec fn tail_wire(p: Parts) -> Seq<u8> {
    (match p.trailing {
        Some(t) => seq![SPACE, COLON] + t,
        None => Seq::empty(),
    }) + seq![CR, LF]
}

/// The line that the formatter writes for `p`: `:prefix COMMAND p1 p2 :trailing`
/// and the terminator. One space stands in front of each parameter and in
/// front of the colon of the trailing parameter, and none in front of the
/// terminator; the trailing parameter always gets its colon.
pub open spec fn wire_format(p: Parts) -> Seq<u8> {
    head_wire(p) + params_wire(p.params, p.params.len() as int) + tail_wire(p)
}

/// Where the command word starts in the formatted line.
pub open spec fn command_start(p: Parts) -> int {
    match p.prefix {
        Some(x) => x.len() as int + 2,
        None => 0,
    }
}

/// Where parameter `k` starts in the formatted line; for `k` the number of
/// parameters, where the colon of the trailing parameter stands.
pub open spec fn param_start(p: Parts, k: int) -> int {
    (head_wire(p).len() + params_wire(p.params, k).len()) as int + 1
}

/// Where the parts of `p` lie in the formatted line.
pub open spec fn format_layout(p: Parts) -> Layout {
    Layout {
        prefix: match p.prefix {
            Some(x) => Some(Span { start: 1, end: 1 + x.len() as int }),
            None => None,
        },
        command: Span { start: command_start(p), end: command_start(p) + p.command.len() },
        params: Seq::new(
            p.params.len(),
            |k: int| Span { start: param_start(p, k), end: param_start(p, k) + p.params[k].len() },
        ),
        trailing: match p.trailing {
            Some(t) => Some(
                Span {
                    start: param_start(p, p.params.len() as int) + 1,
                    end: param_start(p, p.params.len() as int) + 1 + t.len(),
                },
            ),
            None => None,
        },
    }
}

/// Whether `s` holds no space.
pub open spec fn spaceless(s: Seq<u8>) -> bool {
    forall|i: int| 0 <= i < s.len() ==> s[i] != SPACE
}

/// Whether `s` can stand as a middle parameter: it is not empty, holds no
/// space and does not start with a colon.
pub open spec fn is_middle(s: Seq<u8>) -> bool {
    s.len() > 0 && spaceless(s) && s[0] != COLON
}

impl Parts {
    /// Whether parsing the formatted line gives these parts back: prefix,
    /// command word and parameters hold no space, the command word and the
    /// parameters are not empty, no parameter starts with a colon, and
    /// neither does the command word of a line without prefix. The trailing
    /// parameter may hold any bytes.
    pub open spec fn well_formed(self) -> bool {
        &&& self.prefix matches Some(x) ==> spaceless(x)
        &&& self.command.len() > 0
        &&& spaceless(self.command)
        &&& self.prefix is None ==> self.command[0] != COLON
        &&& forall|k: int| 0 <= k < self.params.len() ==> is_middle(#[trigger] self.params[k])
    }
}

/// Parameter `k` and the space in front of it, as they lie in the bytes of
/// the first `n` parameters.
pub proof fn lemma_params_wire(params: Seq<Seq<u8>>, k: int, n: int)
    requires
        0 <= k < n <= params.len(),
    ensures
        params_wire(params, k + 1).len() == params_wire(params, k).len() + 1 + params[k].len(),
        params_wire(params, k + 1).len() <= params_wire(params, n).len(),
        params_wire(params, n)[params_wire(params, k).len() as int] == SPACE,
        forall|i: int|
            0 <= i < params[k].len() ==> #[trigger] params_wire(params, n)[params_wire(
                params,
                k,
            ).len() + 1 + i] == params[k][i],
    decreases n,
{
    if n > k + 1 {
        lemma_params_wire(params, k, n - 1);
    }
}

/// Parameter `k` and the space in front of it, as they lie in a formatted
/// line.
pub proof fn lemma_wire_param(p: Parts, k: int)
    requires
        0 <= k < p.params.len(),
    ensures
        head_wire(p).len() < param_start(p, k),
        param_start(p, k + 1) == param_start(p, k) + p.params[k].len() + 1,
        param_start(p, k + 1) <= param_start(p, p.params.len() as int),
        param_start(p, k) + p.params[k].len() <= wire_format(p).len() - 2,
        wire_format(p)[param_start(p, k) - 1] == SPACE,
        forall|i: int|
            0 <= i < p.params[k].len() ==> wire_format(p)[param_start(p, k) + i]
                == #[trigger] p.params[k][i],
{
    let w = wire_format(p);
    let h = head_wire(p);
    let n = p.params.len() as int;
    let m = params_wire(p.params, n);
    lemma_params_wire(p.params, k, n);
    assert(w == h + m + tail_wire(p));
    assert(tail_wire(p).len() >= 2);
    assert(w[param_start(p, k) - 1] == m[params_wire(p.params, k).len() as int]);
    assert forall|i: int| 0 <= i < p.params[k].len() implies w[param_start(p, k) + i]
        == #[trigger] p.params[k][i] by {
        assert(w[param_start(p, k) + i] == m[params_wire(p.params, k).len() + 1 + i]);
    }
}

/// The byte at each offset of a formatted line, but for the parameters.
pub proof fn lemma_wire_bytes(p: Parts)
    ensures
        wire_format(p).len() == head_wire(p).len() + params_wire(
            p.params,
            p.params.len() as int,
        ).len() + tail_wire(p).len(),
        head_wire(p).len() == command_start(p) + p.command.len(),
        p.prefix matches Some(x) ==> wire_format(p)[0] == COLON && wire_format(p)[1 + x.len() as int]
            == SPACE && forall|i: int| 0 <= i < x.len() ==> #[trigger] wire_format(p)[1 + i] == x[i],
        forall|i: int|
            0 <= i < p.command.len() ==> #[trigger] wire_format(p)[command_start(p) + i]
                == p.command[i],
        p.trailing matches Some(t) ==> {
            &&& wire_format(p)[param_start(p, p.params.len() as int) - 1] == SPACE
            &&& wire_format(p)[param_start(p, p.params.len() as int)] == COLON
            &&& forall|i: int|
                0 <= i < t.len() ==> #[trigger] wire_format(p)[param_start(
                    p,
                    p.params.len() as int,
                ) + 1 + i] == t[i]
        },
        tail_wire(p).len() == 2 + (match p.trailing {
            Some(t) => 2 + t.len(),
            None => 0,
        }),
        wire_format(p)[wire_format(p).len() - 2] == CR,
        wire_format(p)[wire_format(p).len() - 1] == LF,
{
    let w = wire_format(p);
    let h = head_wire(p);
    let n = p.params.len() as int;
    let m = params_wire(p.params, n);
    let t = tail_wire(p);
    let hm = (h.len() + m.len()) as int;
    assert(w == h + m + t);
    match p.trailing {
        Some(x) => {
            assert(t == seq![SPACE, COLON] + x + seq![CR, LF]);
            assert(w[hm] == t[0]);
            assert(w[hm + 1] == t[1]);
            assert forall|i: int| 0 <= i < x.len() implies #[trigger] w[param_start(p, n) + 1 + i]
                == x[i] by {
                assert(w[hm + 2 + i] == t[2 + i]);
            }
            assert(w[w.len() as int - 2] == t[t.len() as int - 2]);
            assert(w[w.len() as int - 1] == t[t.len() as int - 1]);
        },
        None => {
            assert(t =~= seq![CR, LF]);
            assert(w[w.len() as int - 2] == t[0]);
            assert(w[w.len() as int - 1] == t[1]);
        },
    }
    match p.prefix {
        Some(x) => {
            assert(h == seq![COLON] + x + seq![SPACE] + p.command);
            assert(w[0] == h[0]);
            assert(w[1 + x.len() as int] == h[1 + x.len() as int]);
            assert forall|i: int| 0 <= i < x.len() implies #[trigger] w[1 + i] == x[i] by {
                assert(w[1 + i] == h[1 + i]);
            }
            assert forall|i: int| 0 <= i < p.command.len() implies #[trigger] w[command_start(p)
                + i] == p.command[i] by {
                assert(w[command_start(p) + i] == h[x.len() as int + 2 + i]);
            }
        },
        None => {
            assert(h =~= p.command);
            assert forall|i: int| 0 <= i < p.command.len() implies #[trigger] w[command_start(p)
                + i] == p.command[i] by {
                assert(w[i] == h[i]);
            }
        },
    }
}

/// The layout of a formatted line fits the line, and cuts out of it the
/// parts that were formatted.
pub proof fn lemma_format_layout(p: Parts)
    ensures
        format_layout(p).well_formed(wire_format(p).len() as int),
        format_layout(p).parts(wire_format(p)) == p,
{
    lemma_wire_bytes(p);
    let w = wire_format(p);
    let l = format_layout(p);
    let n = p.params.len() as int;
    lemma_param_starts(p, 0, n);
    assert forall|i: int, j: int| 0 <= i < j < n implies (#[trigger] l.params[i]).end <= (
    #[trigger] l.params[j]).start by {
        lemma_wire_param(p, i);
        lemma_param_starts(p, i + 1, j);
    }
    assert forall|i: int| 0 <= i < n implies (#[trigger] l.params[i]).within(w.len() as int)
        && l.command.end <= l.params[i].start && l.params[i].end <= param_start(p, n) by {
        lemma_wire_param(p, i);
    }
    assert(l.well_formed(w.len() as int));
    let q = l.parts(w);
    assert(q.command =~= p.command);
    assert forall|k: int| 0 <= k < n implies #[trigger] q.params[k] == p.params[k] by {
        lemma_wire_param(p, k);
        assert(l.params[k].of(w) =~= p.params[k]);
    }
    assert(q.params =~= p.params);
    match p.prefix {
        Some(x) => {
            assert(q.prefix->0 =~= x);
        },
        None => {},
    }
    match p.trailing {
        Some(t) => {
            assert(q.trailing->0 =~= t);
        },
        None => {},
    }
}

/// Parameters start in order: a later one does not start before an earlier,
/// and none starts before the command word has ended.
pub proof fn lemma_param_starts(p: Parts, a: int, b: int)
    requires
        0 <= a <= b <= p.params.len(),
    ensures
        param_start(p, a) <= param_start(p, b),
        head_wire(p).len() < param_start(p, a),
    decreases b - a,
{
    if a < b {
        lemma_params_wire(p.params, a, b);
        lemma_param_starts(p, a + 1, b);
    }
}

/// Where `next_space` stops, given the bytes it passes.
pub proof fn lemma_next_space_is(s: Seq<u8>, i: int, end: int, k: int)
    requires
        0 <= i <= k <= end <= s.len(),
        forall|x: int| i <= x < k ==> s[x] != SPACE,
        k == end || s[k] == SPACE,
    ensures
        next_space(s, i, end) == k,
    decreases k - i,
{
    if i < k {
        lemma_next_space_is(s, i + 1, end, k);
    }
}

/// Where `skip_spaces` stops, given the bytes it passes.
pub proof fn lemma_skip_spaces_is(s: Seq<u8>, i: int, end: int, k: int)
    requires
        0 <= i <= k <= end <= s.len(),
        forall|x: int| i <= x < k ==> s[x] == SPACE,
        k == end || s[k] != SPACE,
    ensures
        skip_spaces(s, i, end) == k,
    decreases k - i,
{
    if i < k {
        lemma_skip_spaces_is(s, i + 1, end, k);
    }
}

/// In a formatted line, what stands behind the space in front of parameter
/// `k` is a space or the end of the line; for `k` the number of parameters,
/// behind the space in front of the colon.
proof fn lemma_token_ends(p: Parts, k: int)
    requires
        0 <= k <= p.params.len(),
    ensures
        head_wire(p).len() <= param_start(p, k) - 1 <= wire_format(p).len() - 2,
        param_start(p, k) - 1 == wire_format(p).len() - 2 || wire_format(p)[param_start(p, k) - 1]
            == SPACE,
        param_start(p, k) - 1 == wire_format(p).len() - 2 <==> (k == p.params.len()
            && p.trailing is None),
{
    lemma_wire_bytes(p);
    let n = p.params.len() as int;
    lemma_param_starts(p, k, n);
    if k < n {
        lemma_wire_param(p, k);
    }
}

/// In a formatted line, parameter `k` is one token: it stands behind one
/// space, ends at the next space or at the end, and does not start with a
/// colon.
proof fn lemma_formatted_param(p: Parts, k: int)
    requires
        p.well_formed(),
        0 <= k < p.params.len(),
    ensures
        head_wire(p).len() < param_start(p, k) < param_start(p, k + 1),
        param_start(p, k + 1) - 1 <= wire_format(p).len() - 2,
        param_start(p, k + 1) == param_start(p, k) + p.params[k].len() + 1,
        skip_spaces(wire_format(p), param_start(p, k) - 1, wire_format(p).len() - 2)
            == param_start(p, k),
        wire_format(p)[param_start(p, k)] != COLON,
        next_space(wire_format(p), param_start(p, k), wire_format(p).len() - 2) == param_start(
            p,
            k + 1,
        ) - 1,
{
    let w = wire_format(p);
    let end = w.len() - 2;
    let q = param_start(p, k) - 1;
    let x = p.params[k];
    lemma_wire_param(p, k);
    lemma_token_ends(p, k + 1);
    assert(is_middle(x));
    assert(w[q + 1] == x[0]);
    lemma_skip_spaces_is(w, q, end, q + 1);
    assert forall|y: int| q + 1 <= y < q + 1 + x.len() implies w[y] != SPACE by {
        assert(w[param_start(p, k) + (y - q - 1)] == x[y - q - 1]);
    }
    lemma_next_space_is(w, q + 1, end, q + 1 + x.len() as int);
}

/// In a formatted line, what stands behind the last parameter is the
/// trailing parameter behind a space and its colon, or nothing.
proof fn lemma_formatted_tail(p: Parts)
    requires
        p.well_formed(),
    ensures
        scan_params(
            wire_format(p),
            param_start(p, p.params.len() as int) - 1,
            wire_format(p).len() - 2,
        ) == (Seq::<Span>::empty(), format_layout(p).trailing),
{
    lemma_wire_bytes(p);
    let w = wire_format(p);
    let n = p.params.len() as int;
    let end = w.len() - 2;
    let q = param_start(p, n) - 1;
    lemma_token_ends(p, n);
    match p.trailing {
        Some(t) => {
            lemma_skip_spaces_is(w, q, end, q + 1);
        },
        None => {
            lemma_skip_spaces_is(w, q, end, q);
        },
    }
}

/// Scanning a formatted line from the space in front of parameter `k` finds
/// the parameters from `k` on and the trailing parameter, where they were
/// written.
proof fn lemma_scan_formatted(p: Parts, k: int)
    requires
        p.well_formed(),
        0 <= k <= p.params.len(),
    ensures
        scan_params(wire_format(p), param_start(p, k) - 1, wire_format(p).len() - 2) == (
            format_layout(p).params.subrange(k, p.params.len() as int),
            format_layout(p).trailing,
        ),
    decreases p.params.len() - k,
{
    let w = wire_format(p);
    let l = format_layout(p);
    let n = p.params.len() as int;
    lemma_token_ends(p, k);
    if k == n {
        lemma_formatted_tail(p);
        assert(l.params.subrange(k, n) =~= Seq::<Span>::empty());
    } else {
        lemma_formatted_param(p, k);
        lemma_scan_formatted(p, k + 1);
        assert(seq![l.params[k]] + l.params.subrange(k + 1, n) =~= l.params.subrange(k, n));
    }
}

/// In a formatted line, the prefix and the command word are found where
/// they were written, and the terminator is recognised.
proof fn lemma_formatted_head(p: Parts)
    requires
        p.well_formed(),
    ensures
        content_end(wire_format(p)) == wire_format(p).len() - 2,
        0 <= command_start(p) < command_start(p) + p.command.len() == param_start(p, 0) - 1,
        param_start(p, 0) - 1 <= wire_format(p).len() - 2,
        (wire_format(p).len() - 2 > 0 && wire_format(p)[0] == COLON) <==> p.prefix is Some,
        p.prefix matches Some(x) ==> next_space(wire_format(p), 1, wire_format(p).len() - 2) == 1
            + x.len(),
        skip_spaces(
            wire_format(p),
            match p.prefix {
                Some(x) => 1 + x.len() as int,
                None => 0,
            },
            wire_format(p).len() - 2,
        ) == command_start(p),
        next_space(wire_format(p), command_start(p), wire_format(p).len() - 2) == command_start(p)
            + p.command.len(),
{
    lemma_wire_bytes(p);
    let w = wire_format(p);
    let end = w.len() - 2;
    let cs = command_start(p);
    lemma_token_ends(p, 0);
    assert(params_wire(p.params, 0).len() == 0);
    assert(w[cs + 0] == p.command[0]);
    match p.prefix {
        Some(x) => {
            assert forall|y: int| 1 <= y < 1 + x.len() implies w[y] != SPACE by {
                assert(w[1 + (y - 1)] == x[y - 1]);
            }
            lemma_next_space_is(w, 1, end, 1 + x.len() as int);
            lemma_skip_spaces_is(w, 1 + x.len() as int, end, cs);
        },
        None => {
            lemma_skip_spaces_is(w, 0, end, 0);
        },
    }
    assert forall|y: int| cs <= y < cs + p.command.len() implies w[y] != SPACE by {
        assert(w[cs + (y - cs)] == p.command[y - cs]);
    }
    lemma_next_space_is(w, cs, end, cs + p.command.len() as int);
}

/// The layout of a formatted line is the layout the formatter records.
proof fn lemma_layout_of_formatted(p: Parts)
    requires
        p.well_formed(),
    ensures
        layout_of(wire_format(p)) == Some(format_layout(p)),
{
    lemma_formatted_head(p);
    lemma_scan_formatted(p, 0);
    let n = p.params.len() as int;
    assert(format_layout(p).params.subrange(0, n) =~= format_layout(p).params);
}

/// Parsing a formatted line finds every part where the formatter wrote it.
///
/// For well-formed parts `p`, the layout of the line `wire_format(p)` is the
/// layout the formatter records, the parts it cuts out of the line are `p`,
/// and formatting those parts again gives the same line.
pub proof fn lemma_parse_format(p: Parts)
    requires
        p.well_formed(),
    ensures
        layout_of(wire_format(p)) == Some(format_layout(p)),
        format_layout(p).parts(wire_format(p)) == p,
        wire_format(layout_of(wire_format(p))->0.parts(wire_format(p))) == wire_format(p),
{
    lemma_layout_of_formatted(p);
    lemma_format_layout(p);
}

/// A token that lies between two spaces is not empty and holds no space.
proof fn lemma_token_is_spaceless(s: Seq<u8>, j: int, end: int)
    requires
        0 <= j < end <= s.len(),
        s[j] != SPACE,
    ensures
        j < next_space(s, j, end) <= end,
        spaceless(s.subrange(j, next_space(s, j, end))),
        s.subrange(j, next_space(s, j, end))[0] == s[j],
{
    lemma_next_space(s, j, end);
    let k = next_space(s, j, end);
    let t = s.subrange(j, k);
    assert forall|i: int| 0 <= i < t.len() implies t[i] != SPACE by {
        assert(t[i] == s[j + i]);
    }
}

/// Every parameter that the scan finds is not empty, holds no space and
/// does not start with a colon, and lies at or behind the start of the scan.
pub proof fn lemma_scanned_params(s: Seq<u8>, i: int, end: int)
    requires
        0 <= i <= end <= s.len(),
    ensures
        forall|k: int|
            0 <= k < scan_params(s, i, end).0.len() ==> {
                &&& i <= (#[trigger] scan_params(s, i, end).0[k]).start
                &&& scan_params(s, i, end).0[k].end <= end
                &&& is_middle(scan_params(s, i, end).0[k].of(s))
            },
    decreases end - i,
{
    lemma_skip_spaces(s, i, end);
    let j = skip_spaces(s, i, end);
    if j < end && s[j] != COLON {
        lemma_token_is_spaceless(s, j, end);
        let k = next_space(s, j, end);
        let rest = scan_params(s, k, end);
        let all = scan_params(s, i, end).0;
        lemma_scanned_params(s, k, end);
        assert(all == seq![Span { start: j, end: k }] + rest.0);
        assert forall|x: int| 0 <= x < all.len() implies {
            &&& i <= (#[trigger] all[x]).start
            &&& all[x].end <= end
            &&& is_middle(all[x].of(s))
        } by {
            if x > 0 {
                assert(all[x] == rest.0[x - 1]);
            }
        }
    }
}

/// What the parser finds can be formatted and found again: the prefix and
/// the command word hold no space, the command word is not empty, and the
/// parameters can stand as middle parameters. The parts are well formed,
/// but for a line that starts with spaces and then a colon, whose command
/// word starts with that colon.
pub proof fn lemma_parsed_parts(line: Seq<u8>)
    ensures
        layout_of(line) matches Some(l) ==> {
            &&& l.parts(line).prefix matches Some(x) ==> spaceless(x)
            &&& l.parts(line).command.len() > 0
            &&& spaceless(l.parts(line).command)
            &&& forall|k: int|
                0 <= k < l.parts(line).params.len() ==> is_middle(#[trigger] l.parts(line).params[k])
            &&& l.parts(line).well_formed() <==> (l.prefix is Some || l.parts(line).command[0]
                != COLON)
        },
{
    let end = content_end(line);
    if layout_of(line) is Some {
        let l = layout_of(line)->0;
        let q = l.parts(line);
        let has_prefix = end > 0 && line[0] == COLON;
        let prefix_end = if has_prefix {
            next_space(line, 1, end)
        } else {
            0
        };
        if has_prefix {
            lemma_next_space(line, 1, end);
            let x = line.subrange(1, prefix_end);
            assert forall|i: int| 0 <= i < x.len() implies x[i] != SPACE by {
                assert(x[i] == line[1 + i]);
            }
        }
        lemma_skip_spaces(line, prefix_end, end);
        let start = skip_spaces(line, prefix_end, end);
        lemma_token_is_spaceless(line, start, end);
        let stop = next_space(line, start, end);
        lemma_scanned_params(line, stop, end);
        assert forall|k: int| 0 <= k < q.params.len() implies is_middle(#[trigger] q.params[k]) by {
            assert(q.params[k] == l.params[k].of(line));
        }
    }
}

} // verus!
