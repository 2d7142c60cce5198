//! Byte-level text: ASCII literals, decimal numbers, fields and lines.
//!
//! Identifiers and manifests are ASCII text. This module models text as
//! `Seq<u8>` and provides the few operations the formats need.

use vstd::prelude::*;
use vstd::string::StringSliceAdditionalSpecFns;

verus! {

/// The byte that separates the parts of an identifier URL.
pub const COLON: u8 = 58;

/// The byte that separates the parts of a relation line.
pub const SPACE: u8 = 32;

/// The byte that ends a line.
pub const LINE_FEED: u8 = 10;

/// The byte that may stand before a line feed.
pub const CARRIAGE_RETURN: u8 = 13;

/// The bytes of a sequence of ASCII characters.
pub open spec fn ascii_bytes(chars: Seq<char>) -> Seq<u8> {
    Seq::new(chars.len(), |i: int| chars[i] as u8)
}

/// The characters of a sequence of ASCII bytes.
pub open spec fn ascii_chars(bytes: Seq<u8>) -> Seq<char> {
    Seq::new(bytes.len(), |i: int| bytes[i] as char)
}

/// True when every byte is below 128.
pub open spec fn is_ascii_bytes(bytes: Seq<u8>) -> bool {
    forall|i: int| 0 <= i < bytes.len() ==> #[trigger] bytes[i] < 128
}

/// True when `b` occurs nowhere in `s`.
pub open spec fn lacks(s: Seq<u8>, b: u8) -> bool {
    forall|i: int| 0 <= i < s.len() ==> #[trigger] s[i] != b
}

/// The decimal digits of `n`, most significant first, without padding.
pub open spec fn decimal(n: nat) -> Seq<u8>
    decreases n,
{
    if n < 10 {
        seq![(48 + n) as u8]
    } else {
        decimal(n / 10).push((48 + n % 10) as u8)
    }
}

/// The fields of `s` between occurrences of `sep`. There is always at least
/// one field; `n` separators give `n + 1` fields, some of them possibly empty.
pub open spec fn split(s: Seq<u8>, sep: u8) -> Seq<Seq<u8>>
    decreases s.len(),
{
    if s.len() == 0 {
        seq![Seq::<u8>::empty()]
    } else {
        let before = split(s.drop_last(), sep);
        if s.last() == sep {
            before.push(Seq::<u8>::empty())
        } else {
            before.update(before.len() - 1, before.last().push(s.last()))
        }
    }
}

/// `line` without one trailing carriage return, if it has one.
pub open spec fn strip_cr(line: Seq<u8>) -> Seq<u8> {
    if line.len() > 0 && line.last() == CARRIAGE_RETURN {
        line.drop_last()
    } else {
        line
    }
}

/// The lines of `s`. Every line feed ends a line, and a carriage return just
/// before it is not part of the line. What follows the last line feed is a
/// line of its own unless it is empty.
pub open spec fn lines(s: Seq<u8>) -> Seq<Seq<u8>> {
    let parts = split(s, LINE_FEED);
    let ended = parts.drop_last().map_values(|l: Seq<u8>| strip_cr(l));
    if parts.last().len() > 0 {
        ended.push(parts.last())
    } else {
        ended
    }
}

/// `split` never returns an empty list of fields.
pub proof fn lemma_split_nonempty(s: Seq<u8>, sep: u8)
    ensures
        split(s, sep).len() >= 1,
    decreases s.len(),
{
    if s.len() > 0 {
        lemma_split_nonempty(s.drop_last(), sep);
    }
}

/// Text without the separator is a single field.
pub proof fn lemma_split_single(s: Seq<u8>, sep: u8)
    requires
        lacks(s, sep),
    ensures
        split(s, sep) == seq![s],
    decreases s.len(),
{
    if s.len() == 0 {
        assert(s =~= Seq::<u8>::empty());
    } else {
        lemma_split_single(s.drop_last(), sep);
        assert(s.drop_last().push(s.last()) =~= s);
        assert(split(s, sep) =~= seq![s]);
    }
}

/// Splitting `a`, a separator and `b` gives the fields of `a` followed by
/// the fields of `b`.
pub proof fn lemma_split_join(a: Seq<u8>, b: Seq<u8>, sep: u8)
    ensures
        split(a + seq![sep] + b, sep) == split(a, sep) + split(b, sep),
    decreases b.len(),
{
    let whole = a + seq![sep] + b;
    if b.len() == 0 {
        assert(whole.drop_last() =~= a);
        assert(split(whole, sep) =~= split(a, sep) + split(b, sep));
    } else {
        lemma_split_join(a, b.drop_last(), sep);
        lemma_split_nonempty(b.drop_last(), sep);
        assert(whole.drop_last() =~= a + seq![sep] + b.drop_last());
        assert(whole.last() == b.last());
        assert(split(whole, sep) =~= split(a, sep) + split(b, sep));
    }
}

/// A field without the separator, then a separator and more text: the field
/// comes first, and the fields of the rest follow.
pub proof fn lemma_split_cons(field: Seq<u8>, rest: Seq<u8>, sep: u8)
    requires
        lacks(field, sep),
    ensures
        split(field + seq![sep] + rest, sep) == seq![field] + split(rest, sep),
{
    lemma_split_join(field, rest, sep);
    lemma_split_single(field, sep);
}

/// A line without line feed, followed by a line feed and more text, is the
/// first line of the whole.
pub proof fn lemma_lines_cons(line: Seq<u8>, rest: Seq<u8>)
    requires
        lacks(line, LINE_FEED),
    ensures
        lines(line + seq![LINE_FEED] + rest) == seq![strip_cr(line)] + lines(rest),
{
    let whole = line + seq![LINE_FEED] + rest;
    lemma_split_join(line, rest, LINE_FEED);
    lemma_split_single(line, LINE_FEED);
    lemma_split_nonempty(rest, LINE_FEED);
    let parts = split(whole, LINE_FEED);
    let tail = split(rest, LINE_FEED);
    assert(parts == seq![line] + tail);
    assert(parts.last() == tail.last());
    let strip = |l: Seq<u8>| strip_cr(l);
    assert(parts.drop_last().map_values(strip) =~= seq![strip_cr(line)] + tail.drop_last().map_values(
        strip,
    ));
    assert(lines(whole) =~= seq![strip_cr(line)] + lines(rest));
}

/// The text made of `lines`, each followed by a line feed.
pub open spec fn join_lines(lines: Seq<Seq<u8>>) -> Seq<u8>
    decreases lines.len(),
{
    if lines.len() == 0 {
        Seq::empty()
    } else {
        join_lines(lines.drop_last()) + lines.last() + seq![LINE_FEED]
    }
}

/// True for a line that can be written and read back: it holds no line feed
/// and does not end in a carriage return.
pub open spec fn is_line(line: Seq<u8>) -> bool {
    lacks(line, LINE_FEED) && strip_cr(line) == line
}

/// Joined lines start with the first line and its line feed.
pub proof fn lemma_join_lines_first(lines: Seq<Seq<u8>>)
    requires
        lines.len() > 0,
    ensures
        join_lines(lines) == lines.first() + seq![LINE_FEED] + join_lines(lines.drop_first()),
    decreases lines.len(),
{
    if lines.len() == 1 {
        assert(lines.drop_last() =~= Seq::<Seq<u8>>::empty());
        assert(lines.drop_first() =~= Seq::<Seq<u8>>::empty());
        assert(join_lines(lines) =~= lines.first() + seq![LINE_FEED] + join_lines(lines.drop_first()));
    } else {
        lemma_join_lines_first(lines.drop_last());
        assert(lines.drop_last().drop_first() =~= lines.drop_first().drop_last());
        assert(lines.drop_last().first() == lines.first());
        assert(lines.drop_first().last() == lines.last());
        assert(join_lines(lines) =~= lines.first() + seq![LINE_FEED] + join_lines(lines.drop_first()));
    }
}

/// Reading the lines of text that was joined from lines gives those lines.
pub proof fn lemma_lines_of_joined(ls: Seq<Seq<u8>>)
    requires
        forall|i: int| 0 <= i < ls.len() ==> is_line(#[trigger] ls[i]),
    ensures
        lines(join_lines(ls)) == ls,
    decreases ls.len(),
{
    if ls.len() == 0 {
        lemma_lines_empty();
        assert(ls =~= Seq::<Seq<u8>>::empty());
    } else {
        let rest = ls.drop_first();
        assert forall|i: int| 0 <= i < rest.len() implies is_line(#[trigger] rest[i]) by {
            assert(rest[i] == ls[i + 1]);
        }
        lemma_lines_of_joined(rest);
        lemma_join_lines_first(ls);
        assert(is_line(ls[0]));
        lemma_lines_cons(ls.first(), join_lines(rest));
        assert(seq![ls.first()] + rest =~= ls);
    }
}

/// Empty text has no lines.
pub proof fn lemma_lines_empty()
    ensures
        lines(Seq::<u8>::empty()) == Seq::<Seq<u8>>::empty(),
{
    assert(lines(Seq::<u8>::empty()) =~= Seq::<Seq<u8>>::empty());
}

/// The bytes of an ASCII string are its characters, one byte each.
pub proof fn lemma_ascii_str_bytes(s: &str)
    requires
        vstd::utf8::is_ascii_chars(s@),
    ensures
        s.spec_bytes() == ascii_bytes(s@),
{
    vstd::utf8::is_ascii_chars_encode_utf8(s@);
    assert(s.spec_bytes() =~= ascii_bytes(s@));
}

/// Turning ASCII bytes into characters and back changes nothing.
pub proof fn lemma_ascii_round_trip(bytes: Seq<u8>)
    requires
        is_ascii_bytes(bytes),
    ensures
        ascii_bytes(ascii_chars(bytes)) == bytes,
        vstd::utf8::is_ascii_chars(ascii_chars(bytes)),
{
    assert forall|i: int| 0 <= i < bytes.len() implies (bytes[i] as char) as u8 == bytes[i] && '\0'
        <= #[trigger] ascii_chars(bytes)[i] <= '\u{7f}' by {
        assert(bytes[i] < 128);
    }
    assert(ascii_bytes(ascii_chars(bytes)) =~= bytes);
}

/// The bytes of a string of ASCII characters.
pub(crate) fn ascii_str_bytes<'a>(s: &'a str) -> (bytes: &'a [u8])
    requires
        vstd::utf8::is_ascii_chars(s@),
    ensures
        bytes@ == ascii_bytes(s@),
{
    proof {
        lemma_ascii_str_bytes(s);
    }
    s.as_bytes()
}

/// How one byte string stands to another in the order of a dictionary.
#[derive(Debug, Clone, Copy, PartialEq, Eq, Structural)]
pub enum Precedence {
    /// The first comes before the second.
    Before,
    /// The two are the same.
    Same,
    /// The first comes after the second.
    After,
}

impl Precedence {
    /// The same relation seen from the other side.
    pub open spec fn reverse(self) -> Precedence {
        match self {
            Precedence::Before => Precedence::After,
            Precedence::Same => Precedence::Same,
            Precedence::After => Precedence::Before,
        }
    }
}

/// How `a` stands to `b` in the order of a dictionary: the first byte in
/// which they differ decides, and a string comes before every longer one
/// that starts with it.
pub open spec fn precedence(a: Seq<u8>, b: Seq<u8>) -> Precedence
    decreases a.len(),
{
    if a.len() == 0 {
        if b.len() == 0 {
            Precedence::Same
        } else {
            Precedence::Before
        }
    } else if b.len() == 0 {
        Precedence::After
    } else if a[0] < b[0] {
        Precedence::Before
    } else if a[0] > b[0] {
        Precedence::After
    } else {
        precedence(a.drop_first(), b.drop_first())
    }
}

/// Two byte strings are the same in the order exactly when they are equal.
pub proof fn lemma_precedence_same(a: Seq<u8>, b: Seq<u8>)
    ensures
        precedence(a, b) == Precedence::Same <==> a == b,
    decreases a.len(),
{
    if a.len() > 0 && b.len() > 0 {
        lemma_precedence_same(a.drop_first(), b.drop_first());
        if a[0] == b[0] && a.drop_first() == b.drop_first() {
            assert(a =~= seq![a[0]] + a.drop_first());
            assert(b =~= seq![b[0]] + b.drop_first());
        }
    } else if a.len() == 0 && b.len() == 0 {
        assert(a =~= b);
    }
}

/// Seen from the other side, the order is the reverse.
pub proof fn lemma_precedence_reverse(a: Seq<u8>, b: Seq<u8>)
    ensures
        precedence(b, a) == precedence(a, b).reverse(),
    decreases a.len(),
{
    if a.len() > 0 && b.len() > 0 {
        lemma_precedence_reverse(a.drop_first(), b.drop_first());
    }
}

/// How `a` stands to `b` in the order of a dictionary.
pub fn bytes_precedence(a: &[u8], b: &[u8]) -> (found: Precedence)
    ensures
        found == precedence(a@, b@),
{
    let mut i: usize = 0;
    assert(a@.skip(0) =~= a@ && b@.skip(0) =~= b@);
    while i < a.len() && i < b.len()
        invariant
            i <= a@.len(),
            i <= b@.len(),
            precedence(a@, b@) == precedence(a@.skip(i as int), b@.skip(i as int)),
        decreases a@.len() - i,
    {
        proof {
            assert(a@.skip(i as int).drop_first() =~= a@.skip(i + 1));
            assert(b@.skip(i as int).drop_first() =~= b@.skip(i + 1));
            assert(a@.skip(i as int)[0] == a@[i as int]);
            assert(b@.skip(i as int)[0] == b@[i as int]);
        }
        if a[i] < b[i] {
            return Precedence::Before;
        }
        if a[i] > b[i] {
            return Precedence::After;
        }
        i += 1;
    }
    if i < b.len() {
        Precedence::Before
    } else if i < a.len() {
        Precedence::After
    } else {
        Precedence::Same
    }
}

/// Whether two byte strings hold the same bytes.
pub fn bytes_eq(a: &[u8], b: &[u8]) -> (same: bool)
    ensures
        same == (a@ == b@),
{
    if a.len() != b.len() {
        return false;
    }
    let mut i: usize = 0;
    while i < a.len()
        invariant
            a@.len() == b@.len(),
            i <= a@.len(),
            forall|j: int| 0 <= j < i ==> a@[j] == b@[j],
        decreases a@.len() - i,
    {
        if a[i] != b[i] {
            return false;
        }
        i += 1;
    }
    assert(a@ =~= b@);
    true
}

/// Appends the bytes of `more` to `out`.
pub fn push_all(out: &mut Vec<u8>, more: &[u8])
    ensures
        final(out)@ == old(out)@ + more@,
{
    let mut i: usize = 0;
    while i < more.len()
        invariant
            i <= more@.len(),
            out@ == old(out)@ + more@.subrange(0, i as int),
        decreases more@.len() - i,
    {
        out.push(more[i]);
        assert(out@ =~= old(out)@ + more@.subrange(0, i + 1));
        i += 1;
    }
    assert(more@.subrange(0, i as int) =~= more@);
}

/// Appends the decimal digits of `n` to `out`.
pub fn push_decimal(out: &mut Vec<u8>, n: usize)
    ensures
        final(out)@ == old(out)@ + decimal(n as nat),
    decreases n,
{
    if n >= 10 {
        push_decimal(out, n / 10);
    }
    let digit: u8 = (n % 10) as u8;
    out.push(48 + digit);
    assert(final(out)@ =~= old(out)@ + decimal(n as nat));
}

/// The fields of `s` between occurrences of `sep`, as slices of `s`.
pub fn split_fields<'a>(s: &'a [u8], sep: u8) -> (fields: Vec<&'a [u8]>)
    ensures
        fields@.len() == split(s@, sep).len(),
        forall|i: int| 0 <= i < fields@.len() ==> (#[trigger] fields@[i])@ == split(s@, sep)[i],
{
    let mut fields: Vec<&'a [u8]> = Vec::new();
    let mut start: usize = 0;
    let mut i: usize = 0;
    assert(s@.subrange(0, 0) =~= Seq::<u8>::empty());
    while i < s.len()
        invariant
            start <= i <= s@.len(),
            split(s@.subrange(0, i as int), sep).len() == fields@.len() + 1,
            forall|j: int|
                0 <= j < fields@.len() ==> (#[trigger] fields@[j])@ == split(
                    s@.subrange(0, i as int),
                    sep,
                )[j],
            split(s@.subrange(0, i as int), sep).last() == s@.subrange(start as int, i as int),
        decreases s@.len() - i,
    {
        let ghost before = split(s@.subrange(0, i as int), sep);
        let ghost next = s@.subrange(0, i + 1);
        assert(next.drop_last() =~= s@.subrange(0, i as int));
        assert(next.last() == s@[i as int]);
        if s[i] == sep {
            let field = vstd::slice::slice_subrange(s, start, i);
            fields.push(field);
            start = i + 1;
            assert(s@.subrange(start as int, start as int) =~= Seq::<u8>::empty());
        } else {
            assert(s@.subrange(start as int, i + 1) =~= s@.subrange(start as int, i as int).push(
                s@[i as int],
            ));
        }
        i += 1;
    }
    assert(s@.subrange(0, i as int) =~= s@);
    let field = vstd::slice::slice_subrange(s, start, i);
    fields.push(field);
    fields
}

/// The lines of `s`, as slices of `s`.
pub fn split_lines<'a>(s: &'a [u8]) -> (out: Vec<&'a [u8]>)
    ensures
        out@.len() == lines(s@).len(),
        forall|i: int| 0 <= i < out@.len() ==> (#[trigger] out@[i])@ == lines(s@)[i],
{
    let parts = split_fields(s, LINE_FEED);
    proof {
        lemma_split_nonempty(s@, LINE_FEED);
    }
    let ghost spec_parts = split(s@, LINE_FEED);
    let ghost strip = |l: Seq<u8>| strip_cr(l);
    let mut out: Vec<&'a [u8]> = Vec::new();
    let ended: usize = parts.len() - 1;
    let mut i: usize = 0;
    while i < ended
        invariant
            parts@.len() == spec_parts.len(),
            ended + 1 == parts@.len(),
            i <= ended,
            forall|j: int| 0 <= j < parts@.len() ==> (#[trigger] parts@[j])@ == spec_parts[j],
            out@.len() == i,
            forall|j: int| 0 <= j < i ==> (#[trigger] out@[j])@ == strip_cr(spec_parts[j]),
        decreases ended - i,
    {
        let part = parts[i];
        let n = part.len();
        if n > 0 && part[n - 1] == CARRIAGE_RETURN {
            let stripped = vstd::slice::slice_subrange(part, 0, n - 1);
            assert(stripped@ =~= strip_cr(part@));
            out.push(stripped);
        } else {
            out.push(part);
        }
        i += 1;
    }
    let last = parts[ended];
    if last.len() > 0 {
        out.push(last);
    }
    proof {
        let want = lines(s@);
        assert(spec_parts.drop_last().map_values(strip).len() == spec_parts.len() - 1);
        assert(out@.len() == want.len());
        assert forall|j: int| 0 <= j < out@.len() implies (#[trigger] out@[j])@ == want[j] by {
            if j < spec_parts.len() - 1 {
                assert(spec_parts.drop_last().map_values(strip)[j] == strip_cr(spec_parts[j]));
            }
        }
    }
    out
}

} // verus!
