//! Fingerprints of shader source texts.
//!
//! A fingerprint is the sdbm rolling hash over the UTF-16 code units of a
//! text. It is a fast lookup key and no identity: distinct texts may share one.

use std::str::Chars;
use vstd::arithmetic::div_mod::lemma_fundamental_div_mod_converse;
use vstd::prelude::*;
use vstd::std_specs::iter::IteratorSpec;

verus! {

broadcast use vstd::string::group_string_axioms;

/// The code unit of `#`, at which the stable fingerprint stops reading.
pub const HASH_MARK: u16 = 0x23;

/// The UTF-16 encoding of one character: itself below U+10000, a surrogate
/// pair above.
pub open spec fn char_units(c: char) -> Seq<u16> {
    let v = c as u32;
    if v < 0x10000 {
        seq![v as u16]
    } else {
        seq![(0xD800 + (v - 0x10000) / 0x400) as u16, (0xDC00 + (v - 0x10000) % 0x400) as u16]
    }
}

/// The UTF-16 code units of a text, in order.
pub open spec fn utf16_units(text: Seq<char>) -> Seq<u16>
    decreases text.len(),
{
    if text.len() == 0 {
        Seq::empty()
    } else {
        utf16_units(text.drop_last()) + char_units(text.last())
    }
}

/// One round of the hash: `unit + 65599 * hash`, modulo 2^32.
pub open spec fn mix(hash: u32, unit: u16) -> u32 {
    ((unit as int + 65599 * (hash as int)) % 0x1_0000_0000) as u32
}

/// The hash of a sequence of code units, starting from zero.
pub open spec fn fingerprint_units(units: Seq<u16>) -> u32
    decreases units.len(),
{
    if units.len() == 0 {
        0
    } else {
        mix(fingerprint_units(units.drop_last()), units.last())
    }
}

/// The code units that stand before the first `#`; all of them where there is
/// none.
pub open spec fn stable_prefix(units: Seq<u16>) -> Seq<u16>
    decreases units.len(),
{
    if units.len() == 0 || units[0] == HASH_MARK {
        Seq::empty()
    } else {
        seq![units[0]] + stable_prefix(units.drop_first())
    }
}

/// The fingerprint of a whole text.
pub open spec fn fingerprint(text: Seq<char>) -> u32 {
    fingerprint_units(utf16_units(text))
}

/// The fingerprint of the part of a text that stands before its first `#`.
pub open spec fn fingerprint_stable(text: Seq<char>) -> u32 {
    fingerprint_units(stable_prefix(utf16_units(text)))
}

/// Whether no code unit of `units` is `#`.
pub open spec fn unmarked(units: Seq<u16>) -> bool {
    forall|i: int| 0 <= i < units.len() ==> units[i] != HASH_MARK
}

/// Texts that can be fingerprinted.
pub trait Hashable {
    /// The characters that the fingerprints are taken over.
    spec fn text(&self) -> Seq<char>;

    /// The fingerprint of the whole text.
    fn hash(&self) -> (h: u32)
        ensures
            h == fingerprint(self.text()),
    ;

    /// The fingerprint of the text up to its first `#`, so that a leading name
    /// tags a shader whatever follows it.
    #[allow(non_snake_case)]
    fn hashShader(&self) -> (h: u32)
        ensures
            h == fingerprint_stable(self.text()),
    ;
}

impl Hashable for str {
    open spec fn text(&self) -> Seq<char> {
        self@
    }

    fn hash(&self) -> (h: u32) {
        let mut it: Chars = self.chars();
        let mut hash: u32 = 0;
        let ghost mut done: Seq<char> = Seq::empty();
        loop
            invariant
                done + it.remaining() == self@,
                hash == fingerprint(done),
                it.decrease() is Some,
            ensures
                hash == fingerprint(self@),
            decreases it.decrease()->0,
        {
            match it.next() {
                Some(c) => {
                    proof {
                        lemma_units_concat(done, seq![c]);
                        lemma_units_single(c);
                    }
                    hash = absorb_char(hash, c, Ghost(utf16_units(done)));
                    proof {
                        assert(done.push(c) =~= done + seq![c]);
                        done = done.push(c);
                    }
                },
                None => {
                    break ;
                },
            }
        }
        hash
    }

    #[allow(non_snake_case)]
    fn hashShader(&self) -> (h: u32) {
        let mut it: Chars = self.chars();
        let mut hash: u32 = 0;
        let ghost mut done: Seq<char> = Seq::empty();
        loop
            invariant_except_break
                done + it.remaining() == self@,
                unmarked(utf16_units(done)),
                hash == fingerprint(done),
                it.decrease() is Some,
            ensures
                hash == fingerprint_stable(self@),
            decreases it.decrease()->0,
        {
            let ghost before = it.remaining();
            match it.next() {
                Some(c) => {
                    proof {
                        lemma_units_concat(done, seq![c]);
                        lemma_units_single(c);
                    }
                    if c == '#' {
                        proof {
                            let rest = before.drop_first();
                            assert(before =~= seq![c] + rest);
                            lemma_units_concat(seq![c], rest);
                            lemma_units_concat(done, before);
                            lemma_stable_concat(utf16_units(done), utf16_units(before));
                        }
                        break ;
                    }
                    hash = absorb_char(hash, c, Ghost(utf16_units(done)));
                    proof {
                        assert(done.push(c) =~= done + seq![c]);
                        done = done.push(c);
                    }
                },
                None => {
                    proof {
                        lemma_stable_concat(utf16_units(done), Seq::empty());
                    }
                    break ;
                },
            }
        }
        hash
    }
}

/// One round of the hash on machine integers, with the shifts and wrapping
/// sums of the sdbm recurrence.
fn absorb(hash: u32, unit: u16) -> (r: u32)
    ensures
        r == mix(hash, unit),
{
    let low: u32 = hash << 6;
    let high: u32 = hash << 16;
    let first: u32 = (unit as u32).wrapping_add(low);
    let second: u32 = first.wrapping_add(high);
    let r: u32 = second.wrapping_sub(hash);
    proof {
        assert(low == (hash as u64 * 64) % 0x1_0000_0000) by (bit_vector)
            requires
                low == hash << 6,
        ;
        assert(high == (hash as u64 * 65536) % 0x1_0000_0000) by (bit_vector)
            requires
                high == hash << 16,
        ;
        let range: int = 0x1_0000_0000;
        let carried: int = (64 * hash) / range + (65536 * hash) / range + (unit + low - first) / range
            + (first + high - second) / range - (r + hash - second) / range;
        lemma_fundamental_div_mod_converse(unit + 65599 * hash, range, carried, r as int);
    }
    r
}

/// Hashes the code units of one character onto `hash`, which is the
/// fingerprint of the units in `seen`.
fn absorb_char(hash: u32, c: char, Ghost(seen): Ghost<Seq<u16>>) -> (r: u32)
    requires
        hash == fingerprint_units(seen),
    ensures
        r == fingerprint_units(seen + char_units(c)),
{
    let v: u32 = c as u32;
    if v < 0x10000 {
        let unit: u16 = v as u16;
        proof {
            lemma_fingerprint_push(seen, unit);
            assert(seen + char_units(c) =~= seen.push(unit));
        }
        absorb(hash, unit)
    } else {
        let w: u32 = v - 0x10000;
        let lead: u16 = (0xD800 + w / 0x400) as u16;
        let trail: u16 = (0xDC00 + w % 0x400) as u16;
        proof {
            lemma_fingerprint_push(seen, lead);
            lemma_fingerprint_push(seen.push(lead), trail);
            assert(seen + char_units(c) =~= seen.push(lead).push(trail));
        }
        absorb(absorb(hash, lead), trail)
    }
}

/// Hashing one more unit is one more round.
pub proof fn lemma_fingerprint_push(units: Seq<u16>, unit: u16)
    ensures
        fingerprint_units(units.push(unit)) == mix(fingerprint_units(units), unit),
{
    assert(units.push(unit).drop_last() =~= units);
}

/// A text of one character encodes to that character's units.
pub proof fn lemma_units_single(c: char)
    ensures
        utf16_units(seq![c]) == char_units(c),
        c == '#' <==> char_units(c) == seq![HASH_MARK],
        c != '#' ==> unmarked(char_units(c)),
{
    assert(seq![c].drop_last() =~= Seq::<char>::empty());
    assert(utf16_units(Seq::<char>::empty()) =~= Seq::<u16>::empty());
    if c != '#' && char_units(c) == seq![HASH_MARK] {
        assert(char_units(c)[0] == HASH_MARK);
    }
}

/// Encoding distributes over concatenation.
pub proof fn lemma_units_concat(a: Seq<char>, b: Seq<char>)
    ensures
        utf16_units(a + b) == utf16_units(a) + utf16_units(b),
    decreases b.len(),
{
    if b.len() > 0 {
        lemma_units_concat(a, b.drop_last());
        assert((a + b).drop_last() =~= a + b.drop_last());
    }
}

/// The stable prefix reads through units that hold no `#`.
pub proof fn lemma_stable_concat(a: Seq<u16>, b: Seq<u16>)
    requires
        unmarked(a),
    ensures
        stable_prefix(a + b) == a + stable_prefix(b),
    decreases a.len(),
{
    if a.len() > 0 {
        lemma_stable_concat(a.drop_first(), b);
        assert((a + b).drop_first() =~= a.drop_first() + b);
    }
}

/// A text without `#` encodes to units without `#`.
pub proof fn lemma_units_unmarked(text: Seq<char>)
    requires
        !text.contains('#'),
    ensures
        unmarked(utf16_units(text)),
    decreases text.len(),
{
    if text.len() > 0 {
        lemma_units_unmarked(text.drop_last());
        lemma_units_single(text.last());
    }
}

/// Determinism. The fingerprint depends on the characters of the text alone:
/// two texts that read the same have the same fingerprint, whenever and
/// wherever each is taken.
pub proof fn lemma_fingerprint_deterministic(first: &str, second: &str)
    requires
        first@ == second@,
    ensures
        fingerprint(first@) == fingerprint(second@),
        fingerprint_stable(first@) == fingerprint_stable(second@),
{
}

/// Stable truncation. The stable fingerprint of a `name` without `#` that is
/// followed by `#` and by any `rest` is the fingerprint of `name`: nothing
/// from the first `#` on is read. A text without `#` has the same
/// fingerprint either way.
pub proof fn lemma_stable_truncation(name: Seq<char>, rest: Seq<char>)
    requires
        !name.contains('#'),
    ensures
        fingerprint_stable(name + seq!['#'] + rest) == fingerprint(name),
        fingerprint_stable(name) == fingerprint(name),
{
    let units = utf16_units(name);
    lemma_units_unmarked(name);
    lemma_stable_concat(units, Seq::empty());
    let tail = seq!['#'] + rest;
    assert(name + seq!['#'] + rest =~= name + tail);
    lemma_units_concat(name, tail);
    lemma_units_concat(seq!['#'], rest);
    lemma_units_single('#');
    lemma_stable_concat(units, utf16_units(tail));
}

} // verus!
