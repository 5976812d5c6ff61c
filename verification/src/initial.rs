//! The initial consonant of a syllable.
//!
//! The letters y and w are no initials: a syllable without an initial takes
//! them on in writing, and the rules for that belong to the syllable.

use crate::error::Error;
use crate::text::string_of;
use vstd::prelude::*;

verus! {

/// The twenty-one initials. The digraphs zh, ch and sh stand in it as the
/// single symbols ẑ, ĉ and ŝ.
pub const INITIAL_TABLE: [char; 21] = [
    'b', 'c', 'ĉ', 'd', 'f', 'g',
    'h', 'j', 'k', 'l', 'm', 'n',
    'p', 'q', 'r', 's', 'ŝ', 't',
    'x', 'z', 'ẑ',
];

/// Whether `c` is the symbol of an initial.
pub open spec fn is_initial(c: char) -> bool {
    ||| c == 'b' || c == 'p' || c == 'm' || c == 'f'
    ||| c == 'd' || c == 't' || c == 'n' || c == 'l'
    ||| c == 'g' || c == 'k' || c == 'h'
    ||| c == 'j' || c == 'q' || c == 'x'
    ||| c == 'ẑ' || c == 'ĉ' || c == 'ŝ' || c == 'r'
    ||| c == 'z' || c == 'c' || c == 's'
}

/// Whether `c` is one of j, q and x, after which ü is written without its
/// dots.
pub open spec fn is_palatal(c: char) -> bool {
    c == 'j' || c == 'q' || c == 'x'
}

/// The letters that the symbol `c` is written with.
pub open spec fn initial_text(c: char) -> Seq<char> {
    if c == 'ẑ' {
        seq!['z', 'h']
    } else if c == 'ĉ' {
        seq!['c', 'h']
    } else if c == 'ŝ' {
        seq!['s', 'h']
    } else {
        seq![c]
    }
}

/// An initial. Its view is its symbol.
#[derive(Debug, PartialEq, Eq, Copy, Clone, Structural)]
pub struct Initial {
    symbol: char,
}

impl View for Initial {
    type V = char;

    closed spec fn view(&self) -> char {
        self.symbol
    }
}

impl Initial {
    /// Every initial holds a symbol of the inventory.
    #[verifier::type_invariant]
    pub open spec fn wf(self) -> bool {
        is_initial(self@)
    }

    /// Two initials with one symbol are equal.
    pub proof fn lemma_same_view(self, other: Initial)
        requires
            self@ == other@,
        ensures
            self == other,
    {
    }

    /// The initial with the symbol `c`. The digraphs are given as ẑ, ĉ and ŝ.
    pub fn new(c: char) -> (r: Result<Initial, Error>)
        ensures
            r is Ok <==> is_initial(c),
            r matches Ok(i) ==> i@ == c && i.wf(),
            r matches Err(e) ==> e == Error::InvalidInitial,
    {
        let mut k: usize = 0;
        while k < 21
            invariant
                k <= 21,
                forall|j: int| 0 <= j < k ==> INITIAL_TABLE[j] != c,
            decreases 21 - k,
        {
            if INITIAL_TABLE[k] == c {
                return Ok(Initial { symbol: c });
            }
            k += 1;
        }
        Err(Error::InvalidInitial)
    }

    /// The initial m.
    pub fn m() -> (i: Initial)
        ensures
            i@ == 'm',
            i.wf(),
    {
        Initial { symbol: 'm' }
    }

    /// The initial n.
    pub fn n() -> (i: Initial)
        ensures
            i@ == 'n',
            i.wf(),
    {
        Initial { symbol: 'n' }
    }

    /// The initial j.
    pub fn j() -> (i: Initial)
        ensures
            i@ == 'j',
            i.wf(),
    {
        Initial { symbol: 'j' }
    }

    /// The initial q.
    pub fn q() -> (i: Initial)
        ensures
            i@ == 'q',
            i.wf(),
    {
        Initial { symbol: 'q' }
    }

    /// The initial x.
    pub fn x() -> (i: Initial)
        ensures
            i@ == 'x',
            i.wf(),
    {
        Initial { symbol: 'x' }
    }

    /// The symbol of the initial.
    pub fn symbol(&self) -> (c: char)
        ensures
            c == self@,
            is_initial(c),
    {
        proof {
            use_type_invariant(self);
        }
        self.symbol
    }

    /// Whether the initial is one of j, q and x.
    pub fn is_palatal(&self) -> (b: bool)
        ensures
            b == is_palatal(self@),
    {
        self.symbol == 'j' || self.symbol == 'q' || self.symbol == 'x'
    }

    /// Appends the letters of the initial to `out`.
    pub fn write(&self, out: &mut Vec<char>)
        ensures
            final(out)@ == old(out)@ + initial_text(self@),
    {
        if self.symbol == 'ẑ' {
            out.push('z');
            out.push('h');
        } else if self.symbol == 'ĉ' {
            out.push('c');
            out.push('h');
        } else if self.symbol == 'ŝ' {
            out.push('s');
            out.push('h');
        } else {
            out.push(self.symbol);
        }
    }

    /// The initial as it is written: the digraphs in two letters, every
    /// other one as its symbol.
    pub fn to_string(&self) -> (s: String)
        ensures
            s@ == initial_text(self@),
    {
        let mut out: Vec<char> = Vec::new();
        self.write(&mut out);
        string_of(out.as_slice())
    }
}

} // verus!
