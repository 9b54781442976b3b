//! One line of protocol traffic, held as the received bytes together with
//! the byte ranges of its prefix, command word, parameters and trailing
//! parameter.

use crate::grammar::{
    COLON, CR, CTCP_DELIMITER, Layout, LF, MAX_OFFSET, Parts, SPACE, Span, command_start,
    content_end, format_layout, head_wire, layout_of, lemma_format_layout, lemma_next_space,
    lemma_wire_bytes, next_space, param_start, params_wire, scan_params, skip_spaces,
    wire_format,
};
use crate::ident::{captured, ident_of, opt_ident_view, pattern, Ident};
use crate::IrscError;
use crate::text::{
    decoded_as, def_lossy_decode, default_label, list_forms, list_view, opt_form, opt_view, utf8_str,
    DecoderTrap, Form, Text, TextSlice,
};
use linear_map::LinearMap;
use std::ops::Range;
use vstd::prelude::*;
use vstd::slice::{slice_subrange, slice_to_vec};
use vstd::string::StringSliceAdditionalSpecFns;
use vstd::utf8::{decode_utf8, encode_utf8_decode_utf8, valid_utf8};

verus! {

/// The span that a range of 16-bit offsets stands for.
pub open spec fn span_of(r: Range<u16>) -> Span {
    Span { start: r.start as int, end: r.end as int }
}

/// The spans that a list of ranges stands for.
pub open spec fn spans_of(v: Seq<Range<u16>>) -> Seq<Span> {
    Seq::new(v.len(), |i: int| span_of(v[i]))
}

/// The span that an optional range stands for.
pub open spec fn opt_span_of(r: Option<Range<u16>>) -> Option<Span> {
    match r {
        Some(r) => Some(span_of(r)),
        None => None,
    }
}

/// The layout that the ranges of a message stand for.
pub open spec fn layout_from(
    prefix: Option<Range<u16>>,
    command: Range<u16>,
    content: Seq<Range<u16>>,
    suffix: Option<Range<u16>>,
) -> Layout {
    Layout {
        prefix: opt_span_of(prefix),
        command: span_of(command),
        params: spans_of(content),
        trailing: opt_span_of(suffix),
    }
}

/// The parts that the arguments of the formatter stand for.
pub open spec fn given_parts(
    prefix: Option<&[u8]>,
    command: &[u8],
    content: Seq<&[u8]>,
    suffix: Option<&[u8]>,
) -> Parts {
    Parts {
        prefix: match prefix {
            Some(x) => Some(x@),
            None => None,
        },
        command: command@,
        params: Seq::new(content.len(), |i: int| content[i]@),
        trailing: match suffix {
            Some(t) => Some(t@),
            None => None,
        },
    }
}

/// `linear_map::LinearMap`, a map that keeps its entries in a vector.
#[verifier::external_type_specification]
#[verifier::external_body]
#[verifier::reject_recursive_types(K)]
#[verifier::reject_recursive_types(V)]
pub struct ExLinearMap<K, V>(LinearMap<K, V>);

/// The map that holds the tags of a message, each key with its value.
pub type TagMap = LinearMap<Vec<u8>, Vec<u8>>;

/// The tags that a tag map holds, each key with its value.
pub uninterp spec fn tag_entries(m: TagMap) -> Map<Seq<u8>, Seq<u8>>;

/// No tags at all.
pub open spec fn no_entries() -> Map<Seq<u8>, Seq<u8>> {
    Map::empty()
}

/// `LinearMap::new`: a map that holds nothing.
#[verifier::external_body]
fn no_tags() -> (m: TagMap)
    ensures
        tag_entries(m) == no_entries(),
{
    LinearMap::new()
}

/// `LinearMap::clone`: a map that holds the same tags.
#[verifier::external_body]
fn same_tags(m: &TagMap) -> (copy: TagMap)
    ensures
        tag_entries(copy) == tag_entries(*m),
{
    m.clone()
}

/// `LinearMap::len`: the number of tags in the map.
#[verifier::external_body]
fn count_tags(m: &TagMap) -> (n: usize)
    ensures
        n == tag_entries(*m).len(),
{
    m.len()
}

/// One line of protocol traffic.
///
/// The message owns the bytes of the line; its parts are ranges of offsets
/// into them. The ranges always lie inside the line and follow one another
/// without overlap.
#[derive(Debug)]
pub struct Message {
    source: Text,
    prefix: Option<Range<u16>>,
    command: Range<u16>,
    content: Vec<Range<u16>>,
    suffix: Option<Range<u16>>,
    tags: TagMap,
}

impl View for Message {
    type V = Parts;

    /// The parts of the message as byte sequences.
    open spec fn view(&self) -> Parts {
        self.layout().parts(self.wire())
    }
}

impl Clone for Message {
    /// A message over a copy of the line, with the same parts and tags.
    fn clone(&self) -> (m: Message)
        ensures
            m.wire() == self.wire(),
            m.layout() == self.layout(),
            m.is_utf8() == self.is_utf8(),
            m.tags() == self.tags(),
    {
        proof {
            use_type_invariant(self);
        }
        let prefix = match &self.prefix {
            Some(r) => Some(Range { start: r.start, end: r.end }),
            None => None,
        };
        let suffix = match &self.suffix {
            Some(r) => Some(Range { start: r.start, end: r.end }),
            None => None,
        };
        let command = Range { start: self.command.start, end: self.command.end };
        let mut content: Vec<Range<u16>> = Vec::new();
        let mut i: usize = 0;
        while i < self.content.len()
            invariant
                i <= self.content@.len(),
                content@ == self.content@.subrange(0, i as int),
            decreases self.content@.len() - i,
        {
            content.push(Range { start: self.content[i].start, end: self.content[i].end });
            i += 1;
            assert(content@ =~= self.content@.subrange(0, i as int));
        }
        assert(content@ =~= self.content@);
        Message {
            source: self.source.clone(),
            prefix,
            command,
            content,
            suffix,
            tags: same_tags(&self.tags),
        }
    }
}

/// A mode of a user.
#[derive(Clone, Debug, PartialEq, Eq, Hash)]
pub enum Mode {
    Away,
    Invisible,
    Wallops,
    Restricted,
    Operator,
    LocalOperator,
    ServerNotices,
    Custom(String),
}

/// Whether a mode is given or taken away.
#[derive(Copy, Clone, Debug, PartialEq, Eq, Hash)]
pub enum SetMode {
    Plus,
    Minus,
}

/// Whether `b` separates tokens.
fn is_space(b: u8) -> (r: bool)
    ensures
        r == (b == SPACE),
{
    b == SPACE
}

/// Where the token that starts at `from` ends.
fn token_end(s: &[u8], from: usize, end: usize) -> (k: usize)
    requires
        from <= end <= s@.len(),
    ensures
        k == next_space(s@, from as int, end as int),
        from <= k <= end,
{
    let mut k = from;
    while k < end && !is_space(s[k])
        invariant
            from <= k <= end <= s@.len(),
            next_space(s@, from as int, end as int) == next_space(s@, k as int, end as int),
        decreases end - k,
    {
        k += 1;
    }
    k
}

/// Where the next token at or after `from` starts.
fn token_start(s: &[u8], from: usize, end: usize) -> (k: usize)
    requires
        from <= end <= s@.len(),
    ensures
        k == skip_spaces(s@, from as int, end as int),
        from <= k <= end,
{
    let mut k = from;
    while k < end && is_space(s[k])
        invariant
            from <= k <= end <= s@.len(),
            skip_spaces(s@, from as int, end as int) == skip_spaces(s@, k as int, end as int),
        decreases end - k,
    {
        k += 1;
    }
    k
}

/// The length of the line without its terminator.
fn line_end(s: &[u8]) -> (end: usize)
    ensures
        end == content_end(s@),
        end <= s@.len(),
{
    let n = s.len();
    if n >= 2 && s[n - 2] == CR && s[n - 1] == LF {
        n - 2
    } else {
        n
    }
}

impl Message {
    #[verifier::type_invariant]
    spec fn ranges_fit(self) -> bool {
        self.layout().well_formed(self.wire().len() as int)
    }

    /// The bytes of the line, terminator included where there is one.
    pub closed spec fn wire(&self) -> Seq<u8> {
        self.source@
    }

    /// Where the parts lie in the line.
    pub closed spec fn layout(&self) -> Layout {
        layout_from(self.prefix, self.command, self.content@, self.suffix)
    }

    /// The tags of the message.
    pub closed spec fn tags(&self) -> Map<Seq<u8>, Seq<u8>> {
        tag_entries(self.tags)
    }

    /// Whether the line is held as a decoded string.
    pub closed spec fn is_utf8(&self) -> bool {
        self.source is Utf8
    }

    /// Whether what a span cuts out of the line is raw bytes: it is, unless
    /// the line is held as a string and the span falls on character
    /// boundaries.
    pub closed spec fn cut_is_raw(&self, s: Span) -> bool {
        !(self.source is Utf8 && self.source.sliceable(s.start, s.end))
    }

    /// Where the parameters lie in the line, the trailing one last.
    pub open spec fn element_spans(&self) -> Seq<Span> {
        match self.layout().trailing {
            Some(t) => self.layout().params.push(t),
            None => self.layout().params,
        }
    }

    /// Whether each parameter, the trailing one last, is cut out of the
    /// line as raw bytes.
    pub open spec fn element_forms(&self) -> Seq<bool> {
        Seq::new(self.element_spans().len(), |i: int| self.cut_is_raw(self.element_spans()[i]))
    }

    /// What is cut out of a line of raw bytes is raw bytes.
    pub proof fn lemma_raw_line(&self, s: Span)
        ensures
            !self.is_utf8() ==> self.cut_is_raw(s),
    {
    }

    /// A message over `source` whose parts are the given ranges. It has no
    /// tags.
    pub fn new(
        source: Text,
        prefix: Option<Range<u16>>,
        command: Range<u16>,
        content: Vec<Range<u16>>,
        suffix: Option<Range<u16>>,
    ) -> (m: Message)
        requires
            layout_from(prefix, command, content@, suffix).well_formed(source@.len() as int),
        ensures
            m.wire() == source@,
            m.layout() == layout_from(prefix, command, content@, suffix),
            m.is_utf8() == (source is Utf8),
            m.tags() == no_entries(),
    {
        Message { source, prefix, command, content, suffix, tags: no_tags() }
    }

    /// Whether the given ranges can be the parts of a message over a line
    /// of `len` bytes.
    pub fn ranges_are_parts(
        len: usize,
        prefix: &Option<Range<u16>>,
        command: &Range<u16>,
        content: &Vec<Range<u16>>,
        suffix: &Option<Range<u16>>,
    ) -> (ok: bool)
        ensures
            ok == layout_from(*prefix, *command, content@, *suffix).well_formed(len as int),
    {
        let ghost l = layout_from(*prefix, *command, content@, *suffix);
        if !(command.start <= command.end && command.end as usize <= len) {
            return false;
        }
        match prefix {
            Some(p) => {
                if !(p.start <= p.end && p.end <= command.start) {
                    return false;
                }
            },
            None => {},
        }
        let mut end: u16 = command.end;
        let mut i: usize = 0;
        while i < content.len()
            invariant
                i <= content@.len(),
                l == layout_from(*prefix, *command, content@, *suffix),
                command.end <= end <= len,
                i > 0 ==> end == content@[i - 1].end,
                i == 0 ==> end == command.end,
                forall|x: int|
                    0 <= x < i ==> (#[trigger] l.params[x]).within(len as int) && command.end
                        <= l.params[x].start && l.params[x].end <= end,
                forall|x: int, y: int|
                    0 <= x < y < i ==> (#[trigger] l.params[x]).end <= (#[trigger] l.params[y]).start,
            decreases content@.len() - i,
        {
            let r = &content[i];
            assert(l.params[i as int] == span_of(*r));
            if !(end <= r.start && r.start <= r.end && r.end as usize <= len) {
                proof {
                    if i > 0 {
                        assert(l.params[i - 1].end == end);
                    }
                }
                return false;
            }
            end = r.end;
            i += 1;
        }
        match suffix {
            Some(t) => {
                if !(end <= t.start && t.start <= t.end && t.end as usize <= len) {
                    proof {
                        if content@.len() > 0 {
                            assert(l.params[content@.len() - 1].end == end);
                        }
                    }
                    return false;
                }
            },
            None => {},
        }
        true
    }

    /// A message over `source` whose parts are the given ranges, or `None`
    /// where the ranges do not lie inside the source one behind the other.
    pub fn try_new(
        source: Text,
        prefix: Option<Range<u16>>,
        command: Range<u16>,
        content: Vec<Range<u16>>,
        suffix: Option<Range<u16>>,
    ) -> (r: Option<Message>)
        ensures
            r is Some <==> layout_from(prefix, command, content@, suffix).well_formed(
                source@.len() as int,
            ),
            r matches Some(m) ==> {
                &&& m.wire() == source@
                &&& m.layout() == layout_from(prefix, command, content@, suffix)
                &&& m.is_utf8() == (source is Utf8)
                &&& m.tags() == no_entries()
            },
    {
        if Message::ranges_are_parts(source.length(), &prefix, &command, &content, &suffix) {
            Some(Message::new(source, prefix, command, content, suffix))
        } else {
            None
        }
    }

    /// Whether a range lies inside the line.
    pub fn covers(&self, r: &Range<u16>) -> (ok: bool)
        ensures
            ok == span_of(*r).within(self.wire().len() as int),
    {
        r.start <= r.end && r.end as usize <= self.source.length()
    }

    /// Parses one line.
    ///
    /// Succeeds exactly when the line holds a command word and is short
    /// enough for 16-bit offsets; the message then owns a copy of the line
    /// and its ranges are those of [`layout_of`]. A longer line fails with
    /// `TooLong`, a line without command word with `NotFound`.
    pub fn parse(i: &[u8]) -> (r: Result<Message, IrscError>)
        ensures
            match r {
                Ok(m) => {
                    &&& i@.len() <= MAX_OFFSET
                    &&& m.wire() == i@
                    &&& layout_of(i@) == Some(m.layout())
                    &&& !m.is_utf8()
                    &&& m.tags() == no_entries()
                },
                Err(e) => if i@.len() > MAX_OFFSET {
                    e == IrscError::TooLong
                } else {
                    e == IrscError::NotFound && layout_of(i@) is None
                },
            },
    {
        if i.len() > MAX_OFFSET {
            return Err(IrscError::TooLong);
        }
        let end = line_end(i);
        let mut prefix: Option<Range<u16>> = None;
        let mut pos: usize = 0;
        if end > 0 && i[0] == COLON {
            pos = token_end(i, 1, end);
            prefix = Some(Range { start: 1u16, end: pos as u16 });
        }
        let start = token_start(i, pos, end);
        if start >= end {
            return Err(IrscError::NotFound);
        }
        let stop = token_end(i, start, end);
        proof {
            lemma_next_space(i@, start as int, end as int);
        }
        let command = Range { start: start as u16, end: stop as u16 };
        let mut content: Vec<Range<u16>> = Vec::new();
        let mut suffix: Option<Range<u16>> = None;
        let mut at: usize = stop;
        let mut done = false;
        let ghost all = scan_params(i@, stop as int, end as int);
        while !done
            invariant
                stop <= at <= end <= i@.len() <= MAX_OFFSET,
                all == scan_params(i@, stop as int, end as int),
                !done ==> suffix is None && all.0 == spans_of(content@) + scan_params(
                    i@,
                    at as int,
                    end as int,
                ).0 && all.1 == scan_params(i@, at as int, end as int).1,
                done ==> all.0 == spans_of(content@) && all.1 == opt_span_of(suffix),
                forall|x: int|
                    0 <= x < content@.len() ==> (#[trigger] span_of(content@[x])).within(
                        i@.len() as int,
                    ) && stop <= span_of(content@[x]).start && span_of(content@[x]).end <= at,
                forall|x: int, y: int|
                    0 <= x < y < content@.len() ==> (#[trigger] span_of(content@[x])).end <= (
                    #[trigger] span_of(content@[y])).start,
                suffix matches Some(t) ==> span_of(t).within(i@.len() as int) && at < span_of(
                    t,
                ).start,
            decreases (end - at) + (if done { 0int } else { 1int }),
        {
            let j = token_start(i, at, end);
            if j >= end {
                done = true;
            } else if i[j] == COLON {
                suffix = Some(Range { start: (j + 1) as u16, end: end as u16 });
                at = j;
                done = true;
            } else {
                let k = token_end(i, j, end);
                proof {
                    lemma_next_space(i@, j as int, end as int);
                    let rest = scan_params(i@, k as int, end as int);
                    let here = Span { start: j as int, end: k as int };
                    assert(scan_params(i@, at as int, end as int).0 == seq![here] + rest.0);
                    assert(spans_of(content@.push(Range { start: j as u16, end: k as u16 }))
                        =~= spans_of(content@).push(here));
                    assert(spans_of(content@).push(here) + rest.0 =~= spans_of(content@) + (
                    seq![here] + rest.0));
                }
                content.push(Range { start: j as u16, end: k as u16 });
                at = k;
            }
        }
        let source = Text::Raw(slice_to_vec(i));
        proof {
            let l = layout_from(prefix, command, content@, suffix);
            assert(l.params =~= all.0);
            assert(forall|x: int|
                0 <= x < l.params.len() ==> #[trigger] l.params[x] == span_of(content@[x]));
        }
        Ok(Message::new(source, prefix, command, content, suffix))
    }

    /// Writes the line of the given parts, and notes where the command word
    /// starts, where each parameter starts, and where the parameters end.
    fn write_line(
        prefix: Option<&[u8]>,
        command: &[u8],
        content: &Vec<&[u8]>,
        suffix: Option<&[u8]>,
    ) -> (r: (Vec<u8>, usize, Vec<usize>, usize))
        ensures
            r.0@ == wire_format(given_parts(prefix, command, content@, suffix)),
            r.1 == command_start(given_parts(prefix, command, content@, suffix)),
            r.2@.len() == content@.len(),
            forall|x: int|
                0 <= x < content@.len() ==> #[trigger] r.2@[x] == param_start(
                    given_parts(prefix, command, content@, suffix),
                    x,
                ),
            r.3 + 1 == param_start(
                given_parts(prefix, command, content@, suffix),
                content@.len() as int,
            ),
    {
        let ghost p = given_parts(prefix, command, content@, suffix);
        let mut s: Vec<u8> = Vec::new();
        match prefix {
            Some(x) => {
                s.push(COLON);
                s.extend_from_slice(x);
                s.push(SPACE);
            },
            None => {},
        }
        let command_at = s.len();
        s.extend_from_slice(command);
        assert(s@ =~= head_wire(p));
        assert(command_at == command_start(p));
        let mut starts: Vec<usize> = Vec::new();
        let mut k: usize = 0;
        while k < content.len()
            invariant
                k <= content@.len(),
                p == given_parts(prefix, command, content@, suffix),
                s@ == head_wire(p) + params_wire(p.params, k as int),
                starts@.len() == k,
                forall|x: int| 0 <= x < k ==> #[trigger] starts@[x] == param_start(p, x),
            decreases content@.len() - k,
        {
            s.push(SPACE);
            starts.push(s.len());
            s.extend_from_slice(content[k]);
            k += 1;
            assert(s@ =~= head_wire(p) + params_wire(p.params, k as int));
        }
        let params_end = s.len();
        match suffix {
            Some(t) => {
                s.push(SPACE);
                s.push(COLON);
                s.extend_from_slice(t);
            },
            None => {},
        }
        s.push(CR);
        s.push(LF);
        assert(s@ =~= wire_format(p));
        (s, command_at, starts, params_end)
    }

    /// The line that the formatter writes for the given parts, of whatever
    /// length: `:prefix COMMAND p1 p2 :trailing` and the terminator.
    pub fn wire_bytes(
        prefix: Option<&[u8]>,
        command: &[u8],
        content: &Vec<&[u8]>,
        suffix: Option<&[u8]>,
    ) -> (line: Vec<u8>)
        ensures
            line@ == wire_format(given_parts(prefix, command, content@, suffix)),
    {
        Message::write_line(prefix, command, content, suffix).0
    }

    /// Formats a line from its parts, or returns `None` where the line
    /// would be too long for 16-bit offsets.
    ///
    /// The line is `:prefix COMMAND p1 p2 :trailing` and the terminator; the
    /// message records where each part was written.
    pub fn try_format(
        prefix: Option<&[u8]>,
        command: &[u8],
        content: &Vec<&[u8]>,
        suffix: Option<&[u8]>,
    ) -> (r: Option<Message>)
        ensures
            match r {
                Some(m) => {
                    &&& wire_format(given_parts(prefix, command, content@, suffix)).len()
                        <= MAX_OFFSET
                    &&& m.wire() == wire_format(given_parts(prefix, command, content@, suffix))
                    &&& m.layout() == format_layout(
                        given_parts(prefix, command, content@, suffix),
                    )
                    &&& m@ == given_parts(prefix, command, content@, suffix)
                    &&& !m.is_utf8()
                    &&& m.tags() == no_entries()
                },
                None => wire_format(given_parts(prefix, command, content@, suffix)).len()
                    > MAX_OFFSET,
            },
    {
        let ghost p = given_parts(prefix, command, content@, suffix);
        let (s, command_at, starts, params_end) = Message::write_line(
            prefix,
            command,
            content,
            suffix,
        );
        if s.len() > MAX_OFFSET {
            return None;
        }
        proof {
            lemma_format_layout(p);
            lemma_wire_bytes(p);
        }
        let ghost l = format_layout(p);
        let prefix_range = match prefix {
            Some(x) => Some(Range { start: 1u16, end: (1 + x.len()) as u16 }),
            None => None,
        };
        let command_range = Range {
            start: command_at as u16,
            end: (command_at + command.len()) as u16,
        };
        let mut ranges: Vec<Range<u16>> = Vec::new();
        let mut k: usize = 0;
        while k < content.len()
            invariant
                k <= content@.len(),
                p == given_parts(prefix, command, content@, suffix),
                l == format_layout(p),
                l.well_formed(s@.len() as int),
                s@.len() <= MAX_OFFSET,
                starts@.len() == content@.len(),
                forall|x: int|
                    0 <= x < content@.len() ==> #[trigger] starts@[x] == param_start(p, x),
                ranges@.len() == k,
                forall|x: int| 0 <= x < k ==> span_of(#[trigger] ranges@[x]) == l.params[x],
            decreases content@.len() - k,
        {
            assert(l.params[k as int].within(s@.len() as int));
            ranges.push(
                Range { start: starts[k] as u16, end: (starts[k] + content[k].len()) as u16 },
            );
            k += 1;
        }
        let suffix_range = match suffix {
            Some(t) => Some(
                Range { start: (params_end + 2) as u16, end: (params_end + 2 + t.len()) as u16 },
            ),
            None => None,
        };
        assert(layout_from(prefix_range, command_range, ranges@, suffix_range).params =~= l.params);
        assert(layout_from(prefix_range, command_range, ranges@, suffix_range) == l);
        Some(Message::new(Text::Raw(s), prefix_range, command_range, ranges, suffix_range))
    }

    /// Formats a line from its parts.
    ///
    /// The line is `:prefix COMMAND p1 p2 :trailing` and the terminator; the
    /// message records where each part was written. The line must be short
    /// enough for 16-bit offsets.
    pub fn format(
        prefix: Option<&[u8]>,
        command: &[u8],
        content: Vec<&[u8]>,
        suffix: Option<&[u8]>,
    ) -> (m: Message)
        requires
            wire_format(given_parts(prefix, command, content@, suffix)).len() <= MAX_OFFSET,
        ensures
            m.wire() == wire_format(given_parts(prefix, command, content@, suffix)),
            m.layout() == format_layout(given_parts(prefix, command, content@, suffix)),
            m@ == given_parts(prefix, command, content@, suffix),
            !m.is_utf8(),
            m.tags() == no_entries(),
    {
        Message::try_format(prefix, command, &content, suffix).unwrap()
    }

    /// The line as it was received or formatted.
    pub fn source(&self) -> (t: &Text)
        ensures
            t@ == self.wire(),
            (t is Utf8) == self.is_utf8(),
    {
        &self.source
    }

    /// The bytes of the line.
    pub fn bytes(&self) -> (b: &[u8])
        ensures
            b@ == self.wire(),
    {
        self.source.as_bytes()
    }

    /// The bytes of the line that a range covers.
    pub fn byte_range(&self, r: &Range<u16>) -> (b: &[u8])
        requires
            span_of(*r).within(self.wire().len() as int),
        ensures
            b@ == span_of(*r).of(self.wire()),
    {
        slice_subrange(self.source.as_bytes(), r.start as usize, r.end as usize)
    }

    /// The part of the line that a range covers: a string where the line is
    /// one and the range falls on character boundaries, raw bytes otherwise.
    pub fn text_range<'a>(&'a self, r: &Range<u16>) -> (t: TextSlice<'a>)
        requires
            span_of(*r).within(self.wire().len() as int),
        ensures
            t@ == span_of(*r).of(self.wire()),
            t is Raw <==> self.cut_is_raw(span_of(*r)),
            !self.is_utf8() ==> t is Raw,
    {
        self.source.slice_bytes(r.start as usize, r.end as usize)
    }

    /// The bytes that a range covers as a string, where they are valid
    /// UTF-8.
    pub fn str_range(&self, r: &Range<u16>) -> (s: Option<&str>)
        requires
            span_of(*r).within(self.wire().len() as int),
        ensures
            s is Some <==> valid_utf8(span_of(*r).of(self.wire())),
            s matches Some(x) ==> x.spec_bytes() == span_of(*r).of(self.wire()),
    {
        utf8_str(self.byte_range(r))
    }

    /// The bytes that a range covers, decoded as UTF-8 with U+FFFD in place
    /// of what cannot be decoded.
    pub fn string_range(&self, r: &Range<u16>) -> (s: String)
        requires
            span_of(*r).within(self.wire().len() as int),
        ensures
            decoded_as(default_label(), span_of(*r).of(self.wire()), DecoderTrap::Replace) == Some(
                s@,
            ),
    {
        def_lossy_decode(self.byte_range(r))
    }

    /// The line, decoded as UTF-8 with U+FFFD in place of what cannot be
    /// decoded.
    pub fn to_string(&self) -> (s: String)
        ensures
            decoded_as(default_label(), self.wire(), DecoderTrap::Replace) == Some(s@),
    {
        def_lossy_decode(self.bytes())
    }

    /// Who sent the message: nickname, user and host, where the prefix is
    /// valid UTF-8 and of the form `nick!user@host`.
    pub fn ident(&self) -> (r: Option<Ident>)
        ensures
            opt_ident_view(r) == match self@.prefix {
                Some(p) => if valid_utf8(p) {
                    ident_of(captured(pattern(), decode_utf8(p)))
                } else {
                    None
                },
                None => None,
            },
    {
        proof {
            use_type_invariant(self);
        }
        match &self.prefix {
            Some(r) => match self.str_range(r) {
                Some(s) => {
                    proof {
                        encode_utf8_decode_utf8(s@);
                    }
                    Ident::parse(s)
                },
                None => None,
            },
            None => None,
        }
    }

    /// The sender of the message, where the line names one.
    pub fn prefix<'a>(&'a self) -> (t: Option<TextSlice<'a>>)
        ensures
            opt_view(t) == self@.prefix,
            t matches Some(x) ==> (x is Raw <==> self.cut_is_raw(self.layout().prefix->0)),
    {
        proof {
            use_type_invariant(self);
        }
        match &self.prefix {
            Some(r) => Some(self.text_range(r)),
            None => None,
        }
    }

    /// The command word or numeric of the message.
    pub fn command<'a>(&'a self) -> (t: TextSlice<'a>)
        ensures
            t@ == self@.command,
            t is Raw <==> self.cut_is_raw(self.layout().command),
    {
        proof {
            use_type_invariant(self);
        }
        self.text_range(&self.command)
    }

    /// The parameters in front of the trailing one, in order.
    pub fn content<'a>(&'a self) -> (v: Vec<TextSlice<'a>>)
        ensures
            list_view(v@) == self@.params,
            forall|x: int|
                0 <= x < v@.len() ==> ((#[trigger] v@[x]) is Raw <==> self.cut_is_raw(
                    self.layout().params[x],
                )),
    {
        proof {
            use_type_invariant(self);
        }
        let mut v: Vec<TextSlice<'a>> = Vec::new();
        let mut i: usize = 0;
        while i < self.content.len()
            invariant
                i <= self.content@.len(),
                self.layout().well_formed(self.wire().len() as int),
                v@.len() == i,
                forall|x: int| 0 <= x < i ==> (#[trigger] v@[x])@ == self@.params[x],
                forall|x: int|
                    0 <= x < i ==> ((#[trigger] v@[x]) is Raw <==> self.cut_is_raw(
                        self.layout().params[x],
                    )),
            decreases self.content@.len() - i,
        {
            assert(self.layout().params[i as int].within(self.wire().len() as int));
            let t = self.text_range(&self.content[i]);
            v.push(t);
            i += 1;
        }
        assert(list_view(v@) =~= self@.params);
        v
    }

    /// The trailing parameter, where the line has one.
    pub fn suffix<'a>(&'a self) -> (t: Option<TextSlice<'a>>)
        ensures
            opt_view(t) == self@.trailing,
            t matches Some(x) ==> (x is Raw <==> self.cut_is_raw(self.layout().trailing->0)),
    {
        proof {
            use_type_invariant(self);
        }
        match &self.suffix {
            Some(r) => Some(self.text_range(r)),
            None => None,
        }
    }

    /// The trailing parameter or, without one, the last parameter.
    pub fn last<'a>(&'a self) -> (t: Option<TextSlice<'a>>)
        ensures
            opt_view(t) == self@.last(),
            t matches Some(x) ==> x.is_raw() == self.element_forms().last(),
    {
        proof {
            use_type_invariant(self);
        }
        match &self.suffix {
            Some(r) => Some(self.text_range(r)),
            None => {
                let n = self.content.len();
                if n > 0 {
                    assert(self.layout().params[n - 1].within(self.wire().len() as int));
                    Some(self.text_range(&self.content[n - 1]))
                } else {
                    None
                }
            },
        }
    }

    /// The parameters in order, the trailing one last.
    pub fn elements<'a>(&'a self) -> (v: Vec<TextSlice<'a>>)
        ensures
            list_view(v@) == self@.elements(),
            list_forms(v@) == self.element_forms(),
    {
        let mut v = self.content();
        let ghost spans = self.element_spans();
        assert(list_view(v@).len() == self.layout().params.len());
        match self.suffix() {
            Some(t) => {
                let ghost before = v@;
                v.push(t);
                assert(list_view(v@) =~= list_view(before).push(t@));
                assert forall|i: int| 0 <= i < v@.len() implies (#[trigger] v@[i]).is_raw()
                    == self.cut_is_raw(spans[i]) by {
                    if i < before.len() {
                        assert(v@[i] == before[i]);
                    }
                }
            },
            None => {
                assert forall|i: int| 0 <= i < v@.len() implies (#[trigger] v@[i]).is_raw()
                    == self.cut_is_raw(spans[i]) by {}
            },
        }
        assert(list_forms(v@) =~= self.element_forms());
        v
    }

    /// Whether the trailing parameter is framed by CTCP delimiters: it has
    /// at least two bytes, and its first and last byte are the delimiter.
    pub fn is_ctcp(&self) -> (r: bool)
        ensures
            r == self@.is_ctcp(),
    {
        match self.suffix() {
            Some(t) => {
                let b = t.as_bytes();
                b.len() >= 2 && b[0] == CTCP_DELIMITER && b[b.len() - 1] == CTCP_DELIMITER
            },
            None => false,
        }
    }

    /// What the CTCP delimiters frame, where the trailing parameter is
    /// framed by them.
    pub fn ctcp_content<'a>(&'a self) -> (r: Option<TextSlice<'a>>)
        ensures
            match r {
                Some(t) => self@.is_ctcp() && t@ == self@.trailing->0.subrange(
                    1,
                    self@.trailing->0.len() - 1,
                ),
                None => !self@.is_ctcp(),
            },
    {
        proof {
            use_type_invariant(self);
        }
        match self.ctcp_range() {
            Some(r) => {
                let t = self.text_range(&r);
                assert(t@ =~= self@.trailing->0.subrange(1, self@.trailing->0.len() - 1));
                Some(t)
            },
            None => None,
        }
    }

    /// Where the prefix lies in the line.
    pub fn prefix_range(&self) -> (r: Option<Range<u16>>)
        ensures
            opt_span_of(r) == self.layout().prefix,
    {
        match &self.prefix {
            Some(r) => Some(Range { start: r.start, end: r.end }),
            None => None,
        }
    }

    /// Where the command word lies in the line.
    pub fn command_range(&self) -> (r: Range<u16>)
        ensures
            span_of(r) == self.layout().command,
    {
        Range { start: self.command.start, end: self.command.end }
    }

    /// Where the parameters lie in the line.
    pub fn content_ranges(&self) -> (v: Vec<Range<u16>>)
        ensures
            spans_of(v@) == self.layout().params,
    {
        let mut v: Vec<Range<u16>> = Vec::new();
        let mut i: usize = 0;
        while i < self.content.len()
            invariant
                i <= self.content@.len(),
                v@.len() == i,
                forall|x: int| 0 <= x < i ==> span_of(#[trigger] v@[x]) == span_of(self.content@[x]),
            decreases self.content@.len() - i,
        {
            v.push(Range { start: self.content[i].start, end: self.content[i].end });
            i += 1;
        }
        assert(spans_of(v@) =~= self.layout().params);
        v
    }

    /// Where the trailing parameter lies in the line.
    pub fn suffix_range(&self) -> (r: Option<Range<u16>>)
        ensures
            opt_span_of(r) == self.layout().trailing,
    {
        match &self.suffix {
            Some(r) => Some(Range { start: r.start, end: r.end }),
            None => None,
        }
    }

    /// Where the content that the CTCP delimiters frame lies in the line,
    /// where the trailing parameter is framed by them.
    pub fn ctcp_range(&self) -> (r: Option<Range<u16>>)
        ensures
            match r {
                Some(r) => {
                    &&& self@.is_ctcp()
                    &&& span_of(r).within(self.wire().len() as int)
                    &&& self.layout().trailing matches Some(t)
                    &&& span_of(r) == (Span { start: t.start + 1, end: t.end - 1 })
                },
                None => !self@.is_ctcp(),
            },
    {
        proof {
            use_type_invariant(self);
        }
        if self.is_ctcp() {
            match &self.suffix {
                Some(r) => Some(Range { start: r.start + 1, end: r.end - 1 }),
                None => None,
            }
        } else {
            None
        }
    }

    /// The number of tags of the message.
    pub fn tag_count(&self) -> (n: usize)
        ensures
            n == self.tags().len(),
    {
        count_tags(&self.tags)
    }
}

} // verus!
