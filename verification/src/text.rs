//! Letters in a row and letters in slots.
//!
//! Written text is a sequence of characters of any length. The inventories
//! hold their entries in four slots each, the unused ones filled with a
//! blank. This module converts between the two.

use vstd::prelude::*;

verus! {

/// The filler of an unused slot.
pub const BLANK: char = ' ';

/// Four letter slots. Every inventory entry fills them from the left and
/// leaves the rest blank.
#[derive(Debug, PartialEq, Eq, Copy, Clone, Structural)]
pub struct Slots {
    pub c0: char,
    pub c1: char,
    pub c2: char,
    pub c3: char,
}

impl Slots {
    /// The slots that hold the elements of `a` in their order.
    pub open spec fn of(a: [char; 4]) -> Slots {
        Slots { c0: a[0], c1: a[1], c2: a[2], c3: a[3] }
    }

    /// Whether some slot holds `c`.
    pub open spec fn has(self, c: char) -> bool {
        self.c0 == c || self.c1 == c || self.c2 == c || self.c3 == c
    }

    /// The slot at `k`, counted from 0.
    pub open spec fn at(self, k: int) -> char {
        if k == 0 {
            self.c0
        } else if k == 1 {
            self.c1
        } else if k == 2 {
            self.c2
        } else {
            self.c3
        }
    }

    /// The same slots with `c` at `k`.
    pub open spec fn with(self, k: int, c: char) -> Slots {
        Slots {
            c0: if k == 0 { c } else { self.c0 },
            c1: if k == 1 { c } else { self.c1 },
            c2: if k == 2 { c } else { self.c2 },
            c3: if k == 3 { c } else { self.c3 },
        }
    }

    /// The same slots with `to` wherever `from` stood.
    pub open spec fn replace(self, from: char, to: char) -> Slots {
        Slots {
            c0: if self.c0 == from { to } else { self.c0 },
            c1: if self.c1 == from { to } else { self.c1 },
            c2: if self.c2 == from { to } else { self.c2 },
            c3: if self.c3 == from { to } else { self.c3 },
        }
    }

    /// Whether the blank slots, if any, all come after the letters.
    pub open spec fn left_filled(self) -> bool {
        &&& self.c0 == BLANK ==> self.c1 == BLANK
        &&& self.c1 == BLANK ==> self.c2 == BLANK
        &&& self.c2 == BLANK ==> self.c3 == BLANK
    }

    /// The letters up to the first blank, as they are written.
    pub open spec fn text(self) -> Seq<char> {
        if self.c0 == BLANK {
            Seq::empty()
        } else if self.c1 == BLANK {
            seq![self.c0]
        } else if self.c2 == BLANK {
            seq![self.c0, self.c1]
        } else if self.c3 == BLANK {
            seq![self.c0, self.c1, self.c2]
        } else {
            seq![self.c0, self.c1, self.c2, self.c3]
        }
    }

    /// Whether `t` can be held in four slots: it has at most four characters
    /// and none of them is a blank.
    pub open spec fn fits(t: Seq<char>) -> bool {
        &&& t.len() <= 4
        &&& forall|i: int| 0 <= i < t.len() ==> t[i] != BLANK
    }

    /// The slots filled from the left with the characters of `t`.
    pub open spec fn pad(t: Seq<char>) -> Slots {
        Slots {
            c0: if t.len() > 0 { t[0] } else { BLANK },
            c1: if t.len() > 1 { t[1] } else { BLANK },
            c2: if t.len() > 2 { t[2] } else { BLANK },
            c3: if t.len() > 3 { t[3] } else { BLANK },
        }
    }

    /// The slots that are written as `t`, if there are any.
    pub open spec fn parse(t: Seq<char>) -> Option<Slots> {
        if Slots::fits(t) {
            Some(Slots::pad(t))
        } else {
            None
        }
    }

    /// Makes slots of four letters.
    pub fn new(c0: char, c1: char, c2: char, c3: char) -> (s: Slots)
        ensures
            s == (Slots { c0, c1, c2, c3 }),
    {
        Slots { c0, c1, c2, c3 }
    }

    /// Takes the slots from an array.
    pub fn from_array(a: &[char; 4]) -> (s: Slots)
        ensures
            s == Slots::of(*a),
    {
        Slots { c0: a[0], c1: a[1], c2: a[2], c3: a[3] }
    }

    /// Whether some slot holds `c`.
    pub fn contains(&self, c: char) -> (b: bool)
        ensures
            b == self.has(c),
    {
        self.c0 == c || self.c1 == c || self.c2 == c || self.c3 == c
    }

    /// Puts `to` wherever `from` stands.
    pub fn substitute(&self, from: char, to: char) -> (s: Slots)
        ensures
            s == self.replace(from, to),
    {
        Slots {
            c0: if self.c0 == from { to } else { self.c0 },
            c1: if self.c1 == from { to } else { self.c1 },
            c2: if self.c2 == from { to } else { self.c2 },
            c3: if self.c3 == from { to } else { self.c3 },
        }
    }

    /// Reads slots from text: `None` for text of more than four characters
    /// or with a blank in it.
    pub fn from_text(t: &[char]) -> (r: Option<Slots>)
        ensures
            r == Slots::parse(t@),
    {
        let n = t.len();
        if n > 4 {
            return None;
        }
        let mut i: usize = 0;
        while i < n
            invariant
                n == t@.len(),
                i <= n,
                forall|j: int| 0 <= j < i ==> t@[j] != BLANK,
            decreases n - i,
        {
            if t[i] == BLANK {
                return None;
            }
            i += 1;
        }
        Some(
            Slots {
                c0: if n > 0 { t[0] } else { BLANK },
                c1: if n > 1 { t[1] } else { BLANK },
                c2: if n > 2 { t[2] } else { BLANK },
                c3: if n > 3 { t[3] } else { BLANK },
            },
        )
    }

    /// Appends the letters up to the first blank to `out`.
    pub fn write(&self, out: &mut Vec<char>)
        ensures
            final(out)@ == old(out)@ + self.text(),
    {
        if self.c0 != BLANK {
            out.push(self.c0);
            if self.c1 != BLANK {
                out.push(self.c1);
                if self.c2 != BLANK {
                    out.push(self.c2);
                    if self.c3 != BLANK {
                        out.push(self.c3);
                    }
                }
            }
        }
    }
}

/// Whether `pattern` stands in `text` from position `i` on.
pub open spec fn occurs_at(text: Seq<char>, pattern: Seq<char>, i: int) -> bool {
    &&& 0 <= i
    &&& i + pattern.len() <= text.len()
    &&& forall|k: int| 0 <= k < pattern.len() ==> text[i + k] == #[trigger] pattern[k]
}

/// Whether `pattern` stands somewhere in `text`.
pub open spec fn occurs(text: Seq<char>, pattern: Seq<char>) -> bool {
    exists|i: int| occurs_at(text, pattern, i)
}

/// Whether `pattern` stands somewhere in `text`.
pub fn contains(text: &[char], pattern: &[char]) -> (b: bool)
    ensures
        b == occurs(text@, pattern@),
{
    let n = text.len();
    let m = pattern.len();
    if m > n {
        return false;
    }
    let mut i: usize = 0;
    while i <= n - m
        invariant
            n == text@.len(),
            m == pattern@.len(),
            m <= n,
            i <= n - m + 1,
            forall|j: int| 0 <= j < i ==> !occurs_at(text@, pattern@, j),
        decreases n - m + 1 - i,
    {
        let mut k: usize = 0;
        while k < m && text[i + k] == pattern[k]
            invariant
                n == text@.len(),
                m == pattern@.len(),
                i + m <= n,
                k <= m,
                forall|l: int| 0 <= l < k ==> text@[i + l] == pattern@[l],
            decreases m - k,
        {
            k += 1;
        }
        if k == m {
            assert(occurs_at(text@, pattern@, i as int));
            return true;
        }
        i += 1;
    }
    false
}

/// The characters of `s`, one by one.
pub fn chars_of(s: &str) -> (v: Vec<char>)
    ensures
        v@ == s@,
{
    let mut v: Vec<char> = Vec::new();
    for c in it: s.chars()
        invariant
            v@ == it.seq().take(it.index()),
    {
        v.push(c);
    }
    v
}

/// `String::push`: appends one character to the string and leaves the
/// characters before it as they were.
#[verifier::external_body]
fn push_char(s: &mut String, c: char)
    ensures
        final(s)@ == old(s)@.push(c),
{
    s.push(c);
}

/// The string that holds the characters of `t`.
pub fn string_of(t: &[char]) -> (s: String)
    ensures
        s@ == t@,
{
    let mut s = String::new();
    let mut i: usize = 0;
    while i < t.len()
        invariant
            i <= t@.len(),
            s@ == t@.take(i as int),
        decreases t@.len() - i,
    {
        push_char(&mut s, t[i]);
        i += 1;
    }
    s
}

} // verus!
