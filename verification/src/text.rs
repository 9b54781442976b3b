//! Text that is either known to be valid UTF-8 or a run of raw bytes.

use std::ops::Range;
use vstd::prelude::*;
use vstd::slice::{slice_subrange, slice_to_vec};
use vstd::string::StringSliceAdditionalSpecFns;
use vstd::utf8::{
    decode_utf8, encode_utf8, encode_utf8_valid_utf8, is_char_boundary,
    is_char_boundary_iff_not_is_continuation_byte, is_char_boundary_start_end_of_seq, valid_utf8,
    valid_utf8_split,
};

verus! {

/// Owned text: raw bytes of unknown encoding, or a decoded string.
#[derive(Debug, PartialEq, Eq, Hash)]
pub enum Text {
    Raw(Vec<u8>),
    Utf8(String),
}

/// Borrowed text, with the same two forms as [`Text`].
#[derive(Clone, Copy, Debug, PartialEq, Eq, Hash)]
pub enum TextSlice<'a> {
    Raw(&'a [u8]),
    Utf8(&'a str),
}

impl View for Text {
    type V = Seq<u8>;

    /// The bytes the text occupies on the wire.
    open spec fn view(&self) -> Seq<u8> {
        match self {
            Text::Raw(b) => b@,
            Text::Utf8(s) => encode_utf8(s@),
        }
    }
}

impl<'a> View for TextSlice<'a> {
    type V = Seq<u8>;

    /// The bytes the text occupies on the wire.
    open spec fn view(&self) -> Seq<u8> {
        match self {
            TextSlice::Raw(b) => b@,
            TextSlice::Utf8(s) => encode_utf8(s@),
        }
    }
}

impl Clone for Text {
    /// A copy with the same bytes, in the same form.
    fn clone(&self) -> (t: Text)
        ensures
            t@ == self@,
            t is Raw <==> self is Raw,
    {
        match self {
            Text::Raw(b) => Text::Raw(b.clone()),
            Text::Utf8(s) => Text::Utf8(s.clone()),
        }
    }
}

/// Whether a text is raw bytes or a string.
pub trait Form {
    /// Whether the text is raw bytes, not known to be a string.
    spec fn is_raw(&self) -> bool;
}

impl Form for Text {
    open spec fn is_raw(&self) -> bool {
        self is Raw
    }
}

impl<'a> Form for TextSlice<'a> {
    open spec fn is_raw(&self) -> bool {
        self is Raw
    }
}

/// The forms of a list of texts.
pub open spec fn list_forms<T: Form>(l: Seq<T>) -> Seq<bool> {
    Seq::new(l.len(), |i: int| l[i].is_raw())
}

/// The form of an optional text.
pub open spec fn opt_form<T: Form>(o: Option<T>) -> Option<bool> {
    match o {
        Some(t) => Some(t.is_raw()),
        None => None,
    }
}

/// The views of a list of texts.
pub open spec fn list_view<T: View<V = Seq<u8>>>(l: Seq<T>) -> Seq<Seq<u8>> {
    Seq::new(l.len(), |i: int| l[i]@)
}

/// The view of an optional text.
pub open spec fn opt_view<T: View<V = Seq<u8>>>(o: Option<T>) -> Option<Seq<u8>> {
    match o {
        Some(t) => Some(t@),
        None => None,
    }
}

/// The empty run of raw bytes.
pub fn empty_raw() -> (t: TextSlice<'static>)
    ensures
        t matches TextSlice::Raw(b) && b@.len() == 0,
{
    let b: &'static [u8] = &[];
    TextSlice::Raw(b)
}

/// The empty string.
pub fn empty_utf8() -> (t: TextSlice<'static>)
    ensures
        t matches TextSlice::Utf8(s) && s@.len() == 0,
{
    let s: &'static str = "";
    proof {
        reveal_strlit("");
    }
    TextSlice::Utf8(s)
}

/// The part of `s` between two byte offsets, or `None` where the offsets
/// are out of order, past the end, or not on the boundary of a character.
fn str_get<'a>(s: &'a str, start: usize, end: usize) -> (r: Option<&'a str>)
    ensures
        r is Some <==> (start <= end <= s.spec_bytes().len() && is_char_boundary(
            s.spec_bytes(),
            start as int,
        ) && is_char_boundary(s.spec_bytes(), end as int)),
        r matches Some(part) ==> part.spec_bytes() == s.spec_bytes().subrange(
            start as int,
            end as int,
        ),
{
    let ghost bytes = s.spec_bytes();
    let n = s.as_bytes().len();
    if start > end || end > n {
        return None;
    }
    if !s.is_char_boundary(end) || !s.is_char_boundary(start) {
        return None;
    }
    proof {
        encode_utf8_valid_utf8(s@);
        valid_utf8_split(bytes, end as int);
    }
    let (head, _) = s.split_at(end);
    proof {
        let front = bytes.subrange(0, end as int);
        assert(head.spec_bytes() == front);
        if start < end {
            is_char_boundary_iff_not_is_continuation_byte(bytes, start as int);
            is_char_boundary_iff_not_is_continuation_byte(front, start as int);
            assert(front[start as int] == bytes[start as int]);
        } else {
            is_char_boundary_start_end_of_seq(front);
        }
    }
    let (_, part) = head.split_at(start);
    assert(part.spec_bytes() =~= bytes.subrange(start as int, end as int));
    Some(part)
}

impl Text {
    /// Whether `[start, end)` can be cut out of this text: the offsets are in
    /// order and inside the text and, for a string, on character boundaries.
    pub open spec fn sliceable(&self, start: int, end: int) -> bool {
        &&& 0 <= start <= end <= self@.len()
        &&& self matches Text::Utf8(s) ==> is_char_boundary(encode_utf8(s@), start)
            && is_char_boundary(encode_utf8(s@), end)
    }

    /// The raw bytes, where the text is not known to be a string.
    pub fn raw(&self) -> (r: Option<&[u8]>)
        ensures
            match *self {
                Text::Raw(b) => r matches Some(x) && x@ == b@,
                Text::Utf8(_) => r is None,
            },
    {
        match self {
            Text::Raw(b) => Some(b.as_slice()),
            _ => None,
        }
    }

    /// The string, where the text is known to be one.
    pub fn utf8(&self) -> (r: Option<&str>)
        ensures
            match *self {
                Text::Raw(_) => r is None,
                Text::Utf8(s) => r matches Some(x) && x@ == s@,
            },
    {
        match self {
            Text::Utf8(s) => Some(s.as_str()),
            _ => None,
        }
    }

    /// The bytes of the text, whichever form it has.
    pub fn as_bytes(&self) -> (b: &[u8])
        ensures
            b@ == self@,
    {
        match self {
            Text::Raw(b) => b.as_slice(),
            Text::Utf8(s) => s.as_str().as_bytes(),
        }
    }

    /// The whole text, borrowed.
    pub fn as_slice(&self) -> (t: TextSlice<'_>)
        ensures
            t@ == self@,
            t is Raw <==> self is Raw,
    {
        match self {
            Text::Raw(b) => TextSlice::Raw(b.as_slice()),
            Text::Utf8(s) => TextSlice::Utf8(s.as_str()),
        }
    }

    /// The part of the text between two byte offsets, in the form the text has.
    pub fn slice<'a>(&'a self, r: &Range<usize>) -> (t: TextSlice<'a>)
        requires
            self.sliceable(r.start as int, r.end as int),
        ensures
            t@ == self@.subrange(r.start as int, r.end as int),
            t is Raw <==> self is Raw,
    {
        match self {
            Text::Raw(b) => TextSlice::Raw(slice_subrange(b.as_slice(), r.start, r.end)),
            Text::Utf8(s) => TextSlice::Utf8(str_get(s.as_str(), r.start, r.end).unwrap()),
        }
    }

    /// The part of the text between two byte offsets: a string where the text
    /// is one and the offsets fall on character boundaries, raw bytes otherwise.
    pub fn slice_bytes<'a>(&'a self, start: usize, end: usize) -> (t: TextSlice<'a>)
        requires
            start <= end <= self@.len(),
        ensures
            t@ == self@.subrange(start as int, end as int),
            t is Utf8 <==> self is Utf8 && self.sliceable(start as int, end as int),
    {
        match self {
            Text::Raw(b) => TextSlice::Raw(slice_subrange(b.as_slice(), start, end)),
            Text::Utf8(s) => {
                match str_get(s.as_str(), start, end) {
                    Some(part) => TextSlice::Utf8(part),
                    None => TextSlice::Raw(slice_subrange(s.as_str().as_bytes(), start, end)),
                }
            },
        }
    }

    /// The number of bytes in the text.
    pub fn length(&self) -> (n: usize)
        ensures
            n == self@.len(),
    {
        match self {
            Text::Raw(b) => b.len(),
            Text::Utf8(s) => s.as_str().as_bytes().len(),
        }
    }
}

impl<'a> TextSlice<'a> {
    /// The raw bytes, where the text is not known to be a string.
    pub fn raw(&self) -> (r: Option<&'a [u8]>)
        ensures
            match *self {
                TextSlice::Raw(b) => r == Some(b),
                TextSlice::Utf8(_) => r is None,
            },
    {
        match self {
            TextSlice::Raw(b) => Some(*b),
            _ => None,
        }
    }

    /// The string, where the text is known to be one.
    pub fn utf8(&self) -> (r: Option<&'a str>)
        ensures
            match *self {
                TextSlice::Raw(_) => r is None,
                TextSlice::Utf8(s) => r == Some(s),
            },
    {
        match self {
            TextSlice::Utf8(s) => Some(*s),
            _ => None,
        }
    }

    /// The bytes of the text, whichever form it has.
    pub fn as_bytes(&self) -> (b: &'a [u8])
        ensures
            b@ == self@,
    {
        match self {
            TextSlice::Raw(b) => *b,
            TextSlice::Utf8(s) => s.as_bytes(),
        }
    }

    /// The number of bytes in the text.
    pub fn length(&self) -> (n: usize)
        ensures
            n == self@.len(),
    {
        self.as_bytes().len()
    }

    /// An owned copy of the text, in the same form.
    pub fn to_text(&self) -> (t: Text)
        ensures
            t@ == self@,
            t is Raw <==> self is Raw,
    {
        match self {
            TextSlice::Raw(b) => Text::Raw(slice_to_vec(*b)),
            TextSlice::Utf8(s) => Text::Utf8((*s).to_owned()),
        }
    }
}

impl<'a> From<TextSlice<'a>> for Text {
    /// An owned copy of the text, in the same form.
    fn from(ts: TextSlice<'a>) -> (t: Text)
        ensures
            t@ == ts@,
            t is Raw <==> ts is Raw,
    {
        ts.to_text()
    }
}

impl<'a> vstd::std_specs::convert::FromSpecImpl<TextSlice<'a>> for Text {
    open spec fn obeys_from_spec() -> bool {
        false
    }

    open spec fn from_spec(ts: TextSlice<'a>) -> Text {
        arbitrary()
    }
}

impl<'a> From<&'a Text> for TextSlice<'a> {
    /// The whole text, borrowed.
    fn from(t: &'a Text) -> (ts: TextSlice<'a>)
        ensures
            ts@ == t@,
            ts is Raw <==> t is Raw,
    {
        t.as_slice()
    }
}

impl<'a> vstd::std_specs::convert::FromSpecImpl<&'a Text> for TextSlice<'a> {
    open spec fn obeys_from_spec() -> bool {
        false
    }

    open spec fn from_spec(t: &'a Text) -> TextSlice<'a> {
        arbitrary()
    }
}

impl<'a> From<&'a str> for TextSlice<'a> {
    /// The string, as borrowed text.
    fn from(s: &'a str) -> (ts: TextSlice<'a>) {
        TextSlice::Utf8(s)
    }
}

impl<'a> vstd::std_specs::convert::FromSpecImpl<&'a str> for TextSlice<'a> {
    open spec fn obeys_from_spec() -> bool {
        true
    }

    open spec fn from_spec(s: &'a str) -> TextSlice<'a> {
        TextSlice::Utf8(s)
    }
}

impl<'a> From<&'a [u8]> for TextSlice<'a> {
    /// The bytes, as borrowed text.
    fn from(b: &'a [u8]) -> (ts: TextSlice<'a>) {
        TextSlice::Raw(b)
    }
}

impl<'a> vstd::std_specs::convert::FromSpecImpl<&'a [u8]> for TextSlice<'a> {
    open spec fn obeys_from_spec() -> bool {
        true
    }

    open spec fn from_spec(b: &'a [u8]) -> TextSlice<'a> {
        TextSlice::Raw(b)
    }
}

impl<'a> From<&'a str> for Text {
    /// An owned copy of the string.
    fn from(s: &'a str) -> (t: Text)
        ensures
            t.chars() == Some(s@),
    {
        Text::Utf8(s.to_owned())
    }
}

impl<'a> vstd::std_specs::convert::FromSpecImpl<&'a str> for Text {
    open spec fn obeys_from_spec() -> bool {
        false
    }

    open spec fn from_spec(s: &'a str) -> Text {
        arbitrary()
    }
}

impl<'a> From<&'a [u8]> for Text {
    /// An owned copy of the bytes.
    fn from(b: &'a [u8]) -> (t: Text)
        ensures
            t is Raw,
            t@ == b@,
    {
        Text::Raw(slice_to_vec(b))
    }
}

impl<'a> vstd::std_specs::convert::FromSpecImpl<&'a [u8]> for Text {
    open spec fn obeys_from_spec() -> bool {
        false
    }

    open spec fn from_spec(b: &'a [u8]) -> Text {
        arbitrary()
    }
}

impl std::ops::Deref for Text {
    type Target = [u8];

    /// The bytes of the text, whichever form it has.
    fn deref(&self) -> (b: &[u8])
        ensures
            b@ == self@,
    {
        self.as_bytes()
    }
}

impl<'a> std::ops::Deref for TextSlice<'a> {
    type Target = [u8];

    /// The bytes of the text, whichever form it has.
    fn deref(&self) -> (b: &[u8])
        ensures
            b@ == self@,
    {
        self.as_bytes()
    }
}

/// What a decoder does with bytes that are invalid in its encoding.
#[derive(Clone, Copy, Debug, PartialEq, Eq, Structural)]
pub enum DecoderTrap {
    /// Decoding fails.
    Strict,
    /// Each error is replaced by U+FFFD.
    Replace,
    /// Each error is left out.
    Ignore,
}

/// The name of the encoding that stands at a place in the list of
/// encodings, or `None` where the list has no such place.
pub uninterp spec fn encoding_name(index: int) -> Option<Seq<char>>;

/// The string that the bytes decode to in the encoding that stands at a
/// place in the list of encodings, or `None` where the list has no such
/// place or the bytes cannot be decoded.
pub uninterp spec fn decoded(index: int, bytes: Seq<u8>, trap: DecoderTrap) -> Option<Seq<char>>;

/// The characters of an optional string.
pub open spec fn opt_chars(o: Option<String>) -> Option<Seq<char>> {
    match o {
        Some(s) => Some(s@),
        None => None,
    }
}

/// The name of the encoding that is used where none is asked for.
pub open spec fn default_label() -> Seq<char> {
    "utf-8"@
}

/// Whether some encoding has exactly this name.
pub open spec fn label_known(name: Seq<char>) -> bool {
    exists|i: int| #[trigger] encoding_name(i) == Some(name)
}

/// Whether `i` is the first place in the list at which an encoding of this
/// name stands.
pub open spec fn first_named(name: Seq<char>, i: int) -> bool {
    &&& 0 <= i
    &&& encoding_name(i) == Some(name)
    &&& forall|j: int| 0 <= j < i ==> #[trigger] encoding_name(j) != Some(name)
}

/// The first place in the list at which an encoding of this name stands.
pub open spec fn place_of(name: Seq<char>) -> int {
    choose|i: int| first_named(name, i)
}

/// The string that the bytes decode to in the first encoding of this name.
pub open spec fn decoded_as(name: Seq<char>, bytes: Seq<u8>, trap: DecoderTrap) -> Option<
    Seq<char>,
> {
    decoded(place_of(name), bytes, trap)
}

/// Whether the list of encodings has exactly the places from 0 up to, but
/// not including, `n`.
pub open spec fn list_has_places(n: int) -> bool {
    forall|i: int| (#[trigger] encoding_name(i)) is Some <==> 0 <= i < n
}

/// Whether an encoding of this name stands at a place below `n`.
pub open spec fn named_below(name: Seq<char>, n: int) -> bool {
    exists|i: int| 0 <= i < n && #[trigger] encoding_name(i) == Some(name)
}

/// `encoding::all::encodings`, its length: the list of encodings has
/// exactly that many places, and UTF-8 stands at one of them.
#[verifier::external_body]
fn encoding_count() -> (n: usize)
    ensures
        list_has_places(n as int),
        named_below(default_label(), n as int),
{
    ::encoding::all::encodings().len()
}

/// `Encoding::name`, on the encoding at a place of
/// `encoding::all::encodings`.
#[verifier::external_body]
fn name_at(index: usize) -> (r: Option<String>)
    ensures
        opt_chars(r) == encoding_name(index as int),
{
    ::encoding::all::encodings().get(index).map(|e| e.name().to_owned())
}

/// `Encoding::decode`, on the encoding at a place of
/// `encoding::all::encodings`: the decoded string. There is none where the
/// list has no such place. At a place of the list, only the strict trap
/// lets decoding fail. UTF-8 decodes valid UTF-8 to the string it encodes.
#[verifier::external_body]
fn decode_at(index: usize, bytes: &[u8], trap: DecoderTrap) -> (r: Option<String>)
    ensures
        opt_chars(r) == decoded(index as int, bytes@, trap),
        encoding_name(index as int) is None ==> r is None,
        encoding_name(index as int) is Some && trap != DecoderTrap::Strict ==> r is Some,
        encoding_name(index as int) == Some(default_label()) && valid_utf8(bytes@) ==> opt_chars(r)
            == Some(decode_utf8(bytes@)),
{
    let trap = match trap {
        DecoderTrap::Strict => ::encoding::DecoderTrap::Strict,
        DecoderTrap::Replace => ::encoding::DecoderTrap::Replace,
        DecoderTrap::Ignore => ::encoding::DecoderTrap::Ignore,
    };
    ::encoding::all::encodings().get(index).and_then(|e| e.decode(bytes, trap).ok())
}

/// `std::str::from_utf8`: the bytes as a string, where they are valid
/// UTF-8.
#[verifier::external_body]
pub(crate) fn utf8_str<'a>(b: &'a [u8]) -> (r: Option<&'a str>)
    ensures
        r is Some <==> valid_utf8(b@),
        r matches Some(s) ==> s.spec_bytes() == b@,
{
    std::str::from_utf8(b).ok()
}

/// The first place of a name is the only first place.
pub proof fn lemma_first_place(name: Seq<char>, i: int)
    requires
        first_named(name, i),
    ensures
        place_of(name) == i,
        label_known(name),
{
    let j = place_of(name);
    assert(first_named(name, j));
    assert(encoding_name(i) == Some(name));
    assert(encoding_name(j) == Some(name));
    if 0 <= j < i {
        assert(encoding_name(j) != Some(name));
    }
    if i < j {
        assert(encoding_name(i) != Some(name));
    }
}

/// A character encoding, known by its name.
#[derive(Debug, PartialEq, Eq)]
pub struct Encoding {
    index: usize,
    name: String,
}

impl Encoding {
    #[verifier::type_invariant]
    spec fn known(self) -> bool {
        first_named(self.name@, self.index as int)
    }

    /// The name of the encoding.
    pub closed spec fn label(&self) -> Seq<char> {
        self.name@
    }

    /// The name of the encoding.
    pub fn name(&self) -> (s: &str)
        ensures
            s@ == self.label(),
            label_known(s@),
    {
        proof {
            use_type_invariant(self);
            lemma_first_place(self.name@, self.index as int);
        }
        self.name.as_str()
    }

    /// Decodes bytes in this encoding, or returns `None` where they cannot be
    /// decoded; only the strict trap lets decoding fail.
    pub fn decode(&self, b: &[u8], trap: DecoderTrap) -> (r: Option<String>)
        ensures
            opt_chars(r) == decoded_as(self.label(), b@, trap),
            trap != DecoderTrap::Strict ==> r is Some,
            self.label() == default_label() && valid_utf8(b@) ==> opt_chars(r) == Some(
                decode_utf8(b@),
            ),
    {
        proof {
            use_type_invariant(self);
            lemma_first_place(self.name@, self.index as int);
        }
        decode_at(self.index, b, trap)
    }

    /// UTF-8, the encoding that is used where none is asked for.
    pub fn utf8() -> (e: Encoding)
        ensures
            e.label() == default_label(),
    {
        encoding("utf-8").unwrap()
    }
}

impl Clone for Encoding {
    /// The same encoding.
    fn clone(&self) -> (e: Encoding)
        ensures
            e.label() == self.label(),
    {
        proof {
            use_type_invariant(self);
        }
        Encoding { index: self.index, name: self.name.clone() }
    }
}

/// The encoding of exactly this name, if there is one: the first in the
/// list of encodings.
pub fn encoding(s: &str) -> (e: Option<Encoding>)
    ensures
        e is Some <==> label_known(s@),
        e matches Some(x) ==> x.label() == s@,
        s@ == default_label() ==> e is Some,
{
    let wanted = s.to_owned();
    let n = encoding_count();
    let mut i: usize = 0;
    while i < n
        invariant
            i <= n,
            wanted@ == s@,
            list_has_places(n as int),
            named_below(default_label(), n as int),
            forall|j: int| 0 <= j < i ==> #[trigger] encoding_name(j) != Some(s@),
        decreases n - i,
    {
        match name_at(i) {
            Some(name) => {
                if name == wanted {
                    proof {
                        lemma_first_place(s@, i as int);
                    }
                    return Some(Encoding { index: i, name });
                }
            },
            None => {},
        }
        i += 1;
    }
    assert(!label_known(s@)) by {
        if label_known(s@) {
            let j = choose|j: int| #[trigger] encoding_name(j) == Some(s@);
            assert(encoding_name(j) is Some);
        }
    }
    None
}

/// Decodes bytes, with U+FFFD in place of what cannot be decoded.
pub fn lossy_decode(b: &[u8], e: &Encoding) -> (s: String)
    ensures
        decoded_as(e.label(), b@, DecoderTrap::Replace) == Some(s@),
        e.label() == default_label() && valid_utf8(b@) ==> s@ == decode_utf8(b@),
{
    proof {
        use_type_invariant(e);
        lemma_first_place(e.name@, e.index as int);
    }
    decode_at(e.index, b, DecoderTrap::Replace).unwrap()
}

/// Decodes bytes as UTF-8, with U+FFFD in place of what cannot be decoded.
/// Valid UTF-8 decodes to the string it encodes.
pub fn def_lossy_decode(b: &[u8]) -> (s: String)
    ensures
        decoded_as(default_label(), b@, DecoderTrap::Replace) == Some(s@),
        valid_utf8(b@) ==> s@ == decode_utf8(b@),
{
    let e = Encoding::utf8();
    lossy_decode(b, &e)
}

impl Text {
    /// The characters of the text, where it is known to be a string.
    pub open spec fn chars(&self) -> Option<Seq<char>> {
        match self {
            Text::Raw(_) => None,
            Text::Utf8(s) => Some(s@),
        }
    }

    /// The text that an attempt to decode raw bytes leaves: the decoded
    /// string where there is one, the bytes as they were otherwise.
    pub fn from_decoding(raw: &[u8], outcome: Option<String>) -> (t: Text)
        ensures
            match outcome {
                Some(s) => t.chars() == Some(s@),
                None => t is Raw && t@ == raw@,
            },
    {
        match outcome {
            Some(s) => Text::Utf8(s),
            None => Text::Raw(slice_to_vec(raw)),
        }
    }

    /// Decodes the text, where it is raw bytes. A string stays as it is, and
    /// so do bytes that cannot be decoded.
    pub fn decode_with(&self, e: &Encoding, d: DecoderTrap) -> (t: Text)
        ensures
            match *self {
                Text::Utf8(s) => t.chars() == Some(s@),
                Text::Raw(b) => match decoded_as(e.label(), b@, d) {
                    Some(s) => t.chars() == Some(s),
                    None => t is Raw && t@ == b@,
                },
            },
    {
        match self {
            Text::Raw(b) => Text::from_decoding(b.as_slice(), e.decode(b.as_slice(), d)),
            Text::Utf8(s) => Text::Utf8(s.clone()),
        }
    }

    /// Decodes the text, where it is raw bytes that are valid in the
    /// encoding; anything else stays as it is.
    pub fn try_decode_with(&self, e: &Encoding) -> (t: Text)
        ensures
            match *self {
                Text::Utf8(s) => t.chars() == Some(s@),
                Text::Raw(b) => match decoded_as(e.label(), b@, DecoderTrap::Strict) {
                    Some(s) => t.chars() == Some(s),
                    None => t is Raw && t@ == b@,
                },
            },
    {
        self.decode_with(e, DecoderTrap::Strict)
    }

    /// Decodes the text as [`Text::try_decode_with`] does, in the encoding
    /// of exactly that name; `None` where no encoding has the name.
    pub fn try_decode_as(&self, e: &str) -> (r: Option<Text>)
        ensures
            r is Some <==> label_known(e@),
            r matches Some(t) ==> match *self {
                Text::Utf8(s) => t.chars() == Some(s@),
                Text::Raw(b) => match decoded_as(e@, b@, DecoderTrap::Strict) {
                    Some(s) => t.chars() == Some(s),
                    None => t is Raw && t@ == b@,
                },
            },
    {
        match encoding(e) {
            Some(e) => Some(self.try_decode_with(&e)),
            None => None,
        }
    }

    /// Decodes the text, where it is raw bytes, with U+FFFD in place of what
    /// cannot be decoded. The outcome is always a string.
    pub fn lossy_decode_with(&self, e: &Encoding) -> (t: Text)
        ensures
            match *self {
                Text::Utf8(s) => t.chars() == Some(s@),
                Text::Raw(b) => t.chars() is Some && t.chars() == decoded_as(
                    e.label(),
                    b@,
                    DecoderTrap::Replace,
                ),
            },
    {
        match self {
            Text::Raw(b) => Text::Utf8(lossy_decode(b.as_slice(), e)),
            Text::Utf8(s) => Text::Utf8(s.clone()),
        }
    }

    /// Decodes the text as [`Text::lossy_decode_with`] does, in the encoding
    /// of exactly that name; `None` where no encoding has the name.
    pub fn lossy_decode_as(&self, e: &str) -> (r: Option<Text>)
        ensures
            r is Some <==> label_known(e@),
            r matches Some(t) ==> match *self {
                Text::Utf8(s) => t.chars() == Some(s@),
                Text::Raw(b) => t.chars() is Some && t.chars() == decoded_as(
                    e@,
                    b@,
                    DecoderTrap::Replace,
                ),
            },
    {
        match encoding(e) {
            Some(e) => Some(self.lossy_decode_with(&e)),
            None => None,
        }
    }
}

} // verus!
