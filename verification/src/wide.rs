//! Operating system strings: sequences of 16-bit units that are UTF-16 as a rule, but need
//! not be.
use vstd::prelude::*;

verus! {

/// `char::from_u32`: the character with the scalar value `i`, and `None` where `i` is a
/// surrogate or lies beyond the last scalar value.
pub assume_specification[ char::from_u32 ](i: u32) -> (r: Option<char>)
    ensures
        r == (if i <= 0xD7FF || 0xE000 <= i <= 0x10FFFF {
            Some(i as char)
        } else {
            None::<char>
        }),
;

/// `String::push`: appends one character.
pub assume_specification[ std::string::String::push ](s: &mut std::string::String, c: char)
    ensures
        final(s)@ == old(s)@.push(c),
;

/// The first half of a surrogate pair.
pub open spec fn is_high_surrogate(unit: u16) -> bool {
    0xD800 <= unit <= 0xDBFF
}

/// The second half of a surrogate pair.
pub open spec fn is_low_surrogate(unit: u16) -> bool {
    0xDC00 <= unit <= 0xDFFF
}

/// One character in UTF-16.
pub open spec fn encode_char(c: char) -> Seq<u16> {
    let v = c as int;
    if v < 0x1_0000 {
        seq![v as u16]
    } else {
        seq![(0xD800 + (v - 0x1_0000) / 0x400) as u16, (0xDC00 + (v - 0x1_0000) % 0x400) as u16]
    }
}

/// A text in UTF-16.
pub open spec fn encode_utf16(text: Seq<char>) -> Seq<u16>
    decreases text.len(),
{
    if text.len() == 0 {
        Seq::empty()
    } else {
        encode_char(text[0]) + encode_utf16(text.skip(1))
    }
}

/// Whether the units are the UTF-16 of some text.
pub open spec fn is_unicode(units: Seq<u16>) -> bool {
    exists|text: Seq<char>| #[trigger] encode_utf16(text) == units
}

/// The character that a surrogate pair stands for.
pub open spec fn pair_char(high: u16, low: u16) -> char {
    (0x1_0000 + (high - 0xD800) * 0x400 + (low - 0xDC00)) as char
}

/// The text of the units, with U+FFFD for each surrogate that has no partner.
pub open spec fn decode_lossy(units: Seq<u16>) -> Seq<char>
    decreases units.len(),
{
    if units.len() == 0 {
        Seq::empty()
    } else if is_high_surrogate(units[0]) && units.len() > 1 && is_low_surrogate(units[1]) {
        seq![pair_char(units[0], units[1])] + decode_lossy(units.skip(2))
    } else if is_high_surrogate(units[0]) || is_low_surrogate(units[0]) {
        seq!['\u{FFFD}'] + decode_lossy(units.skip(1))
    } else {
        seq![units[0] as char] + decode_lossy(units.skip(1))
    }
}

/// The UTF-16 of two texts in a row is that of the first followed by that of the second.
pub proof fn encode_concat(a: Seq<char>, b: Seq<char>)
    ensures
        encode_utf16(a + b) == encode_utf16(a) + encode_utf16(b),
    decreases a.len(),
{
    if a.len() == 0 {
        assert(a + b =~= b);
        assert(encode_utf16(a) + encode_utf16(b) =~= encode_utf16(b));
    } else {
        assert((a + b).skip(1) =~= a.skip(1) + b);
        encode_concat(a.skip(1), b);
        assert(encode_char(a[0]) + (encode_utf16(a.skip(1)) + encode_utf16(b)) =~= encode_char(a[0])
            + encode_utf16(a.skip(1)) + encode_utf16(b));
    }
}

proof fn lemma_encode_single(c: char)
    ensures
        encode_utf16(seq![c]) == encode_char(c),
{
    reveal_with_fuel(encode_utf16, 2);
    assert(seq![c].skip(1) =~= Seq::empty());
    assert(encode_char(c) + Seq::<u16>::empty() =~= encode_char(c));
}

/// A character below U+10000 is one unit that is no surrogate; any other is a surrogate pair.
proof fn lemma_encode_char(c: char)
    ensures
        encode_char(c).len() == 1 ==> {
            &&& !is_high_surrogate(encode_char(c)[0])
            &&& !is_low_surrogate(encode_char(c)[0])
            &&& c == encode_char(c)[0] as char
        },
        encode_char(c).len() != 1 ==> {
            &&& encode_char(c).len() == 2
            &&& is_high_surrogate(encode_char(c)[0])
            &&& is_low_surrogate(encode_char(c)[1])
            &&& c == pair_char(encode_char(c)[0], encode_char(c)[1])
        },
{
    let v = c as int;
    assert(v <= 0xD7FF || 0xE000 <= v <= 0x10FFFF);
    if v >= 0x1_0000 {
        assert(0 <= (v - 0x1_0000) / 0x400 < 0x400);
    }
}

/// What the first unit says of the first character.
proof fn lemma_encode_front(text: Seq<char>)
    requires
        text.len() > 0,
    ensures
        encode_utf16(text).len() >= 1,
        is_high_surrogate(encode_utf16(text)[0]) ==> {
            &&& encode_utf16(text).len() >= 2
            &&& is_low_surrogate(encode_utf16(text)[1])
            &&& text[0] == pair_char(encode_utf16(text)[0], encode_utf16(text)[1])
            &&& encode_utf16(text).skip(2) == encode_utf16(text.skip(1))
        },
        !is_high_surrogate(encode_utf16(text)[0]) ==> {
            &&& !is_low_surrogate(encode_utf16(text)[0])
            &&& text[0] == encode_utf16(text)[0] as char
            &&& encode_utf16(text).skip(1) == encode_utf16(text.skip(1))
        },
{
    let front = encode_char(text[0]);
    let rest = encode_utf16(text.skip(1));
    lemma_encode_char(text[0]);
    assert((front + rest).skip(front.len() as int) =~= rest);
}

/// Text that went into UTF-16 comes back unchanged.
pub proof fn decode_of_encode(text: Seq<char>)
    ensures
        decode_lossy(encode_utf16(text)) == text,
    decreases text.len(),
{
    if text.len() > 0 {
        lemma_encode_front(text);
        decode_of_encode(text.skip(1));
        assert(seq![text[0]] + text.skip(1) =~= text);
    }
}

/// Two texts with the same UTF-16 are the same text.
pub proof fn encode_injective(a: Seq<char>, b: Seq<char>)
    requires
        encode_utf16(a) == encode_utf16(b),
    ensures
        a == b,
{
    decode_of_encode(a);
    decode_of_encode(b);
}

/// Units that are Unicode are the UTF-16 of their lossy text: nothing is lost on them.
pub proof fn lossy_is_exact_on_unicode(units: Seq<u16>)
    requires
        is_unicode(units),
    ensures
        encode_utf16(decode_lossy(units)) == units,
{
    let text = choose|text: Seq<char>| #[trigger] encode_utf16(text) == units;
    decode_of_encode(text);
}

/// A character below U+10000 is one unit of its own value; any other is a high and a low surrogate
/// that hold its value between them.
pub proof fn characters_are_units(c: char)
    ensures
        encode_utf16(Seq::empty()).len() == 0,
        (c as int) < 0x1_0000 ==> {
            &&& encode_utf16(seq![c]).len() == 1
            &&& encode_utf16(seq![c])[0] as int == c as int
        },
        (c as int) >= 0x1_0000 ==> {
            let units = encode_utf16(seq![c]);
            &&& units.len() == 2
            &&& 0xD800 <= units[0] <= 0xDBFF
            &&& 0xDC00 <= units[1] <= 0xDFFF
            &&& 0x1_0000 + (units[0] - 0xD800) * 0x400 + (units[1] - 0xDC00) == c as int
        },
{
    lemma_encode_single(c);
    lemma_encode_char(c);
    let v = c as int;
    assert(v <= 0xD7FF || 0xE000 <= v <= 0x10FFFF);
}

/// How units are read as text: one that is no surrogate stands for itself, a pair of surrogates
/// for one character, and a surrogate without its partner for U+FFFD.
pub proof fn units_are_read_one_by_one(unit: u16, low: u16, rest: Seq<u16>)
    ensures
        decode_lossy(Seq::empty()).len() == 0,
        unit < 0xD800 || unit > 0xDFFF ==> {
            let text = decode_lossy(seq![unit] + rest);
            &&& text.len() > 0
            &&& text[0] as int == unit as int
            &&& text.skip(1) == decode_lossy(rest)
        },
        0xD800 <= unit <= 0xDBFF && 0xDC00 <= low <= 0xDFFF ==> {
            let text = decode_lossy(seq![unit, low] + rest);
            &&& text.len() > 0
            &&& text[0] as int == 0x1_0000 + (unit - 0xD800) * 0x400 + (low - 0xDC00)
            &&& text.skip(1) == decode_lossy(rest)
        },
        0xDC00 <= unit <= 0xDFFF || (0xD800 <= unit <= 0xDBFF && (rest.len() == 0 || rest[0]
            < 0xDC00 || rest[0] > 0xDFFF)) ==> {
            let text = decode_lossy(seq![unit] + rest);
            &&& text.len() > 0
            &&& text[0] as int == 0xFFFD
            &&& text.skip(1) == decode_lossy(rest)
        },
{
    let one = seq![unit] + rest;
    let two = seq![unit, low] + rest;
    assert(one.skip(1) =~= rest);
    assert(two.skip(2) =~= rest);
    assert(one[0] == unit && two[0] == unit && two[1] == low);
    if rest.len() > 0 {
        assert(one[1] == rest[0]);
    }
    let (a, b) = (decode_lossy(one), decode_lossy(two));
    assert(a.len() > 0 && a.skip(1) =~= decode_lossy(one).skip(1));
    if unit < 0xD800 || unit > 0xDFFF {
        assert(a =~= seq![unit as char] + decode_lossy(rest));
        assert(a.skip(1) =~= decode_lossy(rest));
    }
    if 0xD800 <= unit <= 0xDBFF && 0xDC00 <= low <= 0xDFFF {
        assert(b =~= seq![pair_char(unit, low)] + decode_lossy(rest));
        assert(b.skip(1) =~= decode_lossy(rest));
    }
    if 0xDC00 <= unit <= 0xDFFF || (0xD800 <= unit <= 0xDBFF && (rest.len() == 0 || rest[0] < 0xDC00
        || rest[0] > 0xDFFF)) {
        assert(a =~= seq!['\u{FFFD}'] + decode_lossy(rest));
        assert(a.skip(1) =~= decode_lossy(rest));
    }
}

/// Units are Unicode if and only if reading them as text and writing that down again gives them
/// back.
pub proof fn unicode_is_what_survives_reading(units: Seq<u16>)
    ensures
        is_unicode(units) <==> encode_utf16(decode_lossy(units)) == units,
{
    if is_unicode(units) {
        lossy_is_exact_on_unicode(units);
    }
}

/// A string of the operating system: a path, the name of an environment variable or of a
/// container.
#[derive(Debug)]
pub struct WideString {
    units: Vec<u16>,
}

impl View for WideString {
    type V = Seq<u16>;

    closed spec fn view(&self) -> Seq<u16> {
        self.units@
    }
}

/// A string is shown by all of its units.
proof fn strings_are_shown_in_full(string: WideString)
    ensures
        string@ == string.units@,
{
}

impl Clone for WideString {
    fn clone(&self) -> (r: Self)
        ensures
            r@ == self@,
    {
        self.skip(0)
    }
}

impl WideString {
    /// The string of the given units.
    pub fn from_wide(units: Vec<u16>) -> (r: WideString)
        ensures
            r@ == units@,
    {
        WideString { units }
    }

    /// The units of the string.
    pub fn encode_wide(&self) -> (r: &Vec<u16>)
        ensures
            r@ == self@,
    {
        &self.units
    }

    /// The string of a text.
    pub fn from_text(text: &str) -> (r: WideString)
        ensures
            r@ == encode_utf16(text@),
    {
        let mut units: Vec<u16> = Vec::new();
        assert(text@.take(0) =~= Seq::<char>::empty());
        for c in iter: text.chars()
            invariant
                iter.seq() == text@,
                units@ == encode_utf16(text@.take(iter.index())),
        {
            let v: u32 = c as u32;
            let ghost i = iter.index();
            proof {
                assert(text@.take(i + 1) =~= text@.take(i) + seq![c]);
                encode_concat(text@.take(i), seq![c]);
                lemma_encode_single(c);
                lemma_encode_char(c);
            }
            let ghost before = units@;
            if v < 0x1_0000 {
                units.push(v as u16);
            } else {
                units.push((0xD800 + (v - 0x1_0000) / 0x400) as u16);
                units.push((0xDC00 + (v - 0x1_0000) % 0x400) as u16);
            }
            assert(units@ =~= before + encode_char(c));
        }
        assert(text@.take(text@.len() as int) =~= text@);
        WideString { units }
    }

    /// The lossy text, and whether nothing was lost.
    fn decode(&self) -> (r: (String, bool))
        ensures
            r.0@ == decode_lossy(self@),
            r.1 == is_unicode(self@),
    {
        let mut text: String = String::new();
        let mut exact: bool = true;
        let n: usize = self.units.len();
        let mut i: usize = 0;
        let ghost units = self@;
        assert(units.skip(0) =~= units);
        while i < n
            invariant
                units == self@,
                n == units.len(),
                i <= n,
                decode_lossy(units) == text@ + decode_lossy(units.skip(i as int)),
                exact ==> encode_utf16(text@) == units.take(i as int),
                exact ==> (is_unicode(units) ==> is_unicode(units.skip(i as int))),
                !exact ==> !is_unicode(units),
            decreases n - i,
        {
            let unit: u16 = self.units[i];
            let ghost rest = units.skip(i as int);
            let ghost before = text@;
            assert(rest[0] == unit);
            proof {
                if is_unicode(rest) {
                    let t = choose|t: Seq<char>| #[trigger] encode_utf16(t) == rest;
                    lemma_encode_front(t);
                    assert(encode_utf16(t.skip(1)) == encode_utf16(t.skip(1)));
                }
            }
            if 0xD800 <= unit && unit <= 0xDBFF && i + 1 < n && 0xDC00 <= self.units[i + 1]
                && self.units[i + 1] <= 0xDFFF {
                let low: u16 = self.units[i + 1];
                let v: u32 = 0x1_0000 + (unit as u32 - 0xD800) * 0x400 + (low as u32 - 0xDC00);
                let ghost c = pair_char(unit, low);
                assert(rest[1] == low);
                if let Some(c) = char::from_u32(v) {
                    text.push(c);
                }
                proof {
                    assert(text@ == before.push(c));
                    assert(rest.skip(2) =~= units.skip(i + 2));
                    assert(text@ =~= before + seq![c]);
                    assert(before + (seq![c] + decode_lossy(rest.skip(2))) =~= text@ + decode_lossy(
                        rest.skip(2),
                    ));
                    encode_concat(before, seq![c]);
                    lemma_encode_single(c);
                    lemma_encode_char(c);
                    assert(units.take(i + 2) =~= units.take(i as int) + seq![unit, low]);
                    assert(encode_char(c) =~= seq![unit, low]);
                }
                i = i + 2;
            } else if 0xD800 <= unit && unit <= 0xDFFF {
                text.push('\u{FFFD}');
                exact = false;
                proof {
                    assert(rest.skip(1) =~= units.skip(i + 1));
                    assert(before + (seq!['\u{FFFD}'] + decode_lossy(rest.skip(1))) =~= text@
                        + decode_lossy(rest.skip(1)));
                }
                i = i + 1;
            } else {
                let ghost c = unit as char;
                if let Some(c) = char::from_u32(unit as u32) {
                    text.push(c);
                }
                proof {
                    assert(text@ == before.push(c));
                    assert(rest.skip(1) =~= units.skip(i + 1));
                    assert(text@ =~= before + seq![c]);
                    assert(before + (seq![c] + decode_lossy(rest.skip(1))) =~= text@ + decode_lossy(
                        rest.skip(1),
                    ));
                    encode_concat(before, seq![c]);
                    lemma_encode_single(c);
                    lemma_encode_char(c);
                    assert(units.take(i + 1) =~= units.take(i as int) + seq![unit]);
                    assert(encode_char(c) =~= seq![unit]);
                }
                i = i + 1;
            }
        }
        proof {
            assert(units.take(n as int) =~= units);
            assert(text@ + decode_lossy(units.skip(n as int)) =~= text@);
        }
        (text, exact)
    }

    /// The text of the string, if it is Unicode.
    pub fn to_str(&self) -> (r: Option<String>)
        ensures
            r is Some <==> is_unicode(self@),
            r is Some ==> encode_utf16(r->0@) == self@,
    {
        let (text, exact) = self.decode();
        proof {
            if exact {
                lossy_is_exact_on_unicode(self@);
            }
        }
        if exact {
            Some(text)
        } else {
            None
        }
    }

    /// The text of the string, with U+FFFD for what is not Unicode.
    pub fn to_string_lossy(&self) -> (r: String)
        ensures
            r@ == decode_lossy(self@),
    {
        self.decode().0
    }

    /// The units followed by the terminating zero that system calls expect.
    pub fn with_nul(&self) -> (r: Vec<u16>)
        ensures
            r@ == self@.push(0),
    {
        let mut units: Vec<u16> = self.skip(0).units;
        units.push(0);
        units
    }

    /// The string without its first `count` units; empty where it has no more than those.
    pub fn skip(&self, count: usize) -> (r: WideString)
        ensures
            r@ == (if count <= self@.len() {
                self@.skip(count as int)
            } else {
                Seq::<u16>::empty()
            }),
    {
        let mut units: Vec<u16> = Vec::new();
        let mut i: usize = count;
        while i < self.units.len()
            invariant
                count <= self@.len() ==> count <= i <= self@.len(),
                count > self@.len() ==> i == count,
                units@ == (if count <= self@.len() {
                    self@.subrange(count as int, i as int)
                } else {
                    Seq::<u16>::empty()
                }),
            decreases self.units.len() - i,
        {
            units.push(self.units[i]);
            i = i + 1;
        }
        WideString { units }
    }

    /// Whether two strings have the same units.
    pub fn same(&self, other: &WideString) -> (r: bool)
        ensures
            r == (self@ == other@),
    {
        if self.units.len() != other.units.len() {
            return false;
        }
        let mut i: usize = 0;
        while i < self.units.len()
            invariant
                i <= self@.len(),
                self@.len() == other@.len(),
                self@.take(i as int) =~= other@.take(i as int),
            decreases self@.len() - i,
        {
            if self.units[i] != other.units[i] {
                assert(self@[i as int] != other@[i as int]);
                return false;
            }
            assert(self@.take(i + 1) =~= self@.take(i as int).push(self@[i as int]));
            assert(other@.take(i + 1) =~= other@.take(i as int).push(other@[i as int]));
            i = i + 1;
        }
        assert(self@.take(i as int) =~= self@);
        assert(other@.take(i as int) =~= other@);
        true
    }
}

impl PartialEq for WideString {
    fn eq(&self, other: &WideString) -> (r: bool) {
        self.same(other)
    }
}

impl vstd::std_specs::cmp::PartialEqSpecImpl for WideString {
    open spec fn obeys_eq_spec() -> bool {
        true
    }

    open spec fn eq_spec(&self, other: &WideString) -> bool {
        self@ == other@
    }
}

} // verus!
