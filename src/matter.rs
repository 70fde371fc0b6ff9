use vstd::prelude::*;

verus! {

/// Geometry of a table entry: hard size, soft size and, where the selector
/// fixes it, full size, all in characters of the encoded text.
pub struct Geometry {
    pub hs: usize,
    pub ss: usize,
    pub fs: Option<usize>,
}

/// An entry whose full size the selector fixes.
pub open spec fn fixed(hs: usize, ss: usize, fs: usize) -> Option<Geometry> {
    Some(Geometry { hs, ss, fs: Some(fs) })
}

/// An entry whose full size follows from a count in its soft part.
pub open spec fn counted(hs: usize, ss: usize) -> Option<Geometry> {
    Some(Geometry { hs, ss, fs: None })
}

/// The code table: the geometry of each known selector, `None` for any other
/// string.
pub open spec fn geometry_of(sel: Seq<char>) -> Option<Geometry> {
    if sel.len() == 1 {
        table_one(sel[0])
    } else if sel.len() == 2 {
        table_two(sel[0], sel[1])
    } else if sel.len() == 3 {
        table_three(sel[0], sel[1], sel[2])
    } else if sel.len() == 4 {
        table_four(sel[0], sel[1], sel[2], sel[3])
    } else {
        None
    }
}

/// Entries with a selector of one character.
pub open spec fn table_one(a: char) -> Option<Geometry> {
    match a {
        'A' => fixed(1, 0, 44),
        'B' => fixed(1, 0, 44),
        'C' => fixed(1, 0, 44),
        'D' => fixed(1, 0, 44),
        'E' => fixed(1, 0, 44),
        'F' => fixed(1, 0, 44),
        'G' => fixed(1, 0, 44),
        'H' => fixed(1, 0, 44),
        'I' => fixed(1, 0, 44),
        'J' => fixed(1, 0, 44),
        'K' => fixed(1, 0, 76),
        'L' => fixed(1, 0, 76),
        'M' => fixed(1, 0, 4),
        'N' => fixed(1, 0, 12),
        'O' => fixed(1, 0, 44),
        'P' => fixed(1, 0, 124),
        'Q' => fixed(1, 0, 44),
        '_' => fixed(1, 0, 1),
        _ => None,
    }
}

/// Entries with a selector of two characters.
pub open spec fn table_two(a: char, b: char) -> Option<Geometry> {
    match (a, b) {
        ('-', '-') => fixed(3, 5, 8),
        ('-', 'A') => fixed(2, 2, 4),
        ('-', 'E') => fixed(2, 2, 4),
        ('-', 'F') => fixed(2, 2, 4),
        ('0', 'A') => fixed(2, 0, 24),
        ('0', 'B') => fixed(2, 0, 88),
        ('0', 'C') => fixed(2, 0, 88),
        ('0', 'D') => fixed(2, 0, 88),
        ('0', 'E') => fixed(2, 0, 88),
        ('0', 'F') => fixed(2, 0, 88),
        ('0', 'G') => fixed(2, 0, 88),
        ('0', 'H') => fixed(2, 0, 8),
        ('0', 'I') => fixed(2, 0, 88),
        ('4', 'A') => counted(2, 2),
        ('5', 'A') => counted(2, 2),
        ('6', 'A') => counted(2, 2),
        ('4', 'B') => counted(2, 2),
        ('5', 'B') => counted(2, 2),
        ('6', 'B') => counted(2, 2),
        _ => None,
    }
}

/// Entries with a selector of three characters.
pub open spec fn table_three(a: char, b: char, c: char) -> Option<Geometry> {
    match (a, b, c) {
        ('-', '0', 'A') => fixed(3, 5, 8),
        ('-', '0', 'E') => fixed(3, 5, 8),
        ('-', '0', 'F') => fixed(3, 5, 8),
        _ => None,
    }
}

/// Entries with a selector of four characters.
pub open spec fn table_four(a: char, b: char, c: char, d: char) -> Option<Geometry> {
    match (a, b, c, d) {
        ('1', 'A', 'A', 'A') => fixed(4, 0, 48),
        ('1', 'A', 'A', 'B') => fixed(4, 0, 48),
        ('1', 'A', 'A', 'C') => fixed(4, 0, 80),
        ('1', 'A', 'A', 'D') => fixed(4, 0, 80),
        ('1', 'A', 'A', 'E') => fixed(4, 0, 56),
        ('1', 'A', 'A', 'F') => fixed(4, 0, 8),
        ('1', 'A', 'A', 'G') => fixed(4, 0, 36),
        ('1', 'A', 'A', 'H') => fixed(4, 0, 100),
        ('1', 'A', 'A', 'I') => fixed(4, 0, 48),
        ('1', 'A', 'A', 'J') => fixed(4, 0, 48),
        ('2', 'A', 'A', 'A') => fixed(4, 0, 8),
        ('3', 'A', 'A', 'A') => fixed(4, 0, 8),
        ('7', 'A', 'A', 'A') => counted(4, 4),
        ('8', 'A', 'A', 'A') => counted(4, 4),
        ('9', 'A', 'A', 'A') => counted(4, 4),
        ('7', 'A', 'A', 'B') => counted(4, 4),
        ('8', 'A', 'A', 'B') => counted(4, 4),
        ('9', 'A', 'A', 'B') => counted(4, 4),
        _ => None,
    }
}

/// The invariants of a table entry: a hard part of at least one character, a
/// code size that fits in `usize`, and, where the full size is fixed, a full
/// size no smaller than the code size.
pub open spec fn well_formed(g: Geometry) -> bool {
    &&& g.hs >= 1
    &&& g.hs + g.ss <= usize::MAX
    &&& g.fs matches Some(fs) ==> fs >= g.hs + g.ss
}

/// Every entry of the code table has a hard size of at least one, and a full
/// size, where present, at least as large as its hard and soft sizes together.
pub proof fn lemma_table_well_formed(sel: Seq<char>)
    ensures
        geometry_of(sel) matches Some(g) ==> well_formed(g),
{
}

/// Why the universal selector (the first character of a selector) could not
/// be classified.
#[derive(Clone, Copy, Debug, PartialEq, Eq, Structural)]
pub enum SelectorError {
    /// The selector holds no character.
    Empty,
    /// The first character belongs to no selector class.
    Unrecognized(char),
}

/// An ASCII letter, upper or lower case.
pub open spec fn is_letter(c: char) -> bool {
    ('A' <= c && c <= 'Z') || ('a' <= c && c <= 'z')
}

/// Zero bytes that pre-pad the raw value for a universal selector `c`.
pub open spec fn lead_of(c: char) -> Option<usize> {
    if is_letter(c) {
        Some(0)
    } else {
        match c {
            '0' | '1' | '4' | '7' | '-' => Some(0),
            '2' | '5' | '8' => Some(1),
            '3' | '6' | '9' => Some(2),
            '_' => Some(0),
            _ => None,
        }
    }
}

/// Pad characters in the encoded text for a universal selector `c`.
pub open spec fn pad_of(c: char) -> Option<usize> {
    if is_letter(c) {
        Some(1)
    } else {
        match c {
            '1' | '4' | '7' | '-' => Some(0),
            '2' | '5' | '8' => Some(1),
            '0' | '3' | '6' | '9' => Some(2),
            '_' => Some(0),
            _ => None,
        }
    }
}

/// What a size derived from the universal selector of `sel` comes to, given
/// the mapping `f` from that character to a size.
pub open spec fn by_universal(sel: Seq<char>, f: spec_fn(char) -> Option<usize>) -> Result<
    usize,
    SelectorError,
> {
    if sel.len() == 0 {
        Err(SelectorError::Empty)
    } else {
        match f(sel[0]) {
            Some(n) => Ok(n),
            None => Err(SelectorError::Unrecognized(sel[0])),
        }
    }
}

/// A character that starts a selector of some class: an ASCII letter, a
/// decimal digit, `-` or `_`.
pub open spec fn is_universal(c: char) -> bool {
    is_letter(c) || ('0' <= c && c <= '9') || c == '-' || c == '_'
}

/// Lead size and pad size are both defined exactly for the selectors whose
/// first character is an ASCII letter, a digit, `-` or `_`; every other
/// selector, the empty one included, gives an error for both.
pub proof fn lemma_classification_total(sel: Seq<char>)
    ensures
        by_universal(sel, |c: char| lead_of(c)) is Ok <==> (sel.len() > 0 && is_universal(sel[0])),
        by_universal(sel, |c: char| pad_of(c)) is Ok <==> (sel.len() > 0 && is_universal(sel[0])),
{
}

fn is_letter_char(c: char) -> (r: bool)
    ensures
        r == is_letter(c),
{
    ('A' <= c && c <= 'Z') || ('a' <= c && c <= 'z')
}

/// The first character of `s`, if any.
fn universal_selector(s: &str) -> (r: Option<char>)
    ensures
        r == (if s@.len() == 0 { None } else { Some(s@[0]) }),
{
    if s.unicode_len() == 0 {
        None
    } else {
        Some(s.get_char(0))
    }
}

fn lead_size_of(c: char) -> (r: Option<usize>)
    ensures
        r == lead_of(c),
{
    if is_letter_char(c) {
        Some(0)
    } else {
        match c {
            '0' | '1' | '4' | '7' | '-' => Some(0),
            '2' | '5' | '8' => Some(1),
            '3' | '6' | '9' => Some(2),
            '_' => Some(0),
            _ => None,
        }
    }
}

fn pad_size_of(c: char) -> (r: Option<usize>)
    ensures
        r == pad_of(c),
{
    if is_letter_char(c) {
        Some(1)
    } else {
        match c {
            '1' | '4' | '7' | '-' => Some(0),
            '2' | '5' | '8' => Some(1),
            '0' | '3' | '6' | '9' => Some(2),
            '_' => Some(0),
            _ => None,
        }
    }
}

/// Framing geometry of one primitive, keyed by its selector.
#[derive(Debug, PartialEq, Eq)]
pub struct MatterCodeage<'a> {
    pub selector: &'a str,
    pub description: &'a str,
    /// hard size in chars: the fixed part of the code
    pub hs: usize,
    /// soft size in chars: the variable part of the code
    pub ss: usize,
    /// full size in chars, where fs = hs + ss + vs; absent when the size
    /// is carried by a count in the soft part
    pub fs: Option<usize>,
}

impl<'a> MatterCodeage<'a> {
    /// The sizes of this record, without its selector and description.
    pub open spec fn geometry(&self) -> Geometry {
        Geometry { hs: self.hs, ss: self.ss, fs: self.fs }
    }

    /// code size in chars, cs = hs + ss
    pub fn cs(&self) -> (r: usize)
        requires
            self.hs + self.ss <= usize::MAX,
        ensures
            r == self.hs + self.ss,
    {
        self.hs + self.ss
    }

    /// value size in chars, fs - hs - ss; `None` when the full size is not
    /// fixed by the selector
    pub fn vs(&self) -> (r: Option<usize>)
        requires
            self.fs matches Some(fs) ==> fs >= self.hs + self.ss,
        ensures
            r == (match self.fs {
                Some(fs) => Some((fs - self.hs - self.ss) as usize),
                None => None,
            }),
    {
        match self.fs {
            Some(fs) => Some(fs - self.hs - self.ss),
            None => None,
        }
    }

    /// lead size in bytes to pre-pad the raw binary value; it depends on the
    /// first character of the selector alone
    pub fn ls(&self) -> (r: Result<usize, SelectorError>)
        ensures
            r == by_universal(self.selector@, |c: char| lead_of(c)),
    {
        match universal_selector(self.selector) {
            None => Err(SelectorError::Empty),
            Some(c) => match lead_size_of(c) {
                Some(n) => Ok(n),
                None => Err(SelectorError::Unrecognized(c)),
            },
        }
    }

    /// pad size in chars of the encoded text; it depends on the first
    /// character of the selector alone
    pub fn ps(&self) -> (r: Result<usize, SelectorError>)
        ensures
            r == by_universal(self.selector@, |c: char| pad_of(c)),
    {
        match universal_selector(self.selector) {
            None => Err(SelectorError::Empty),
            Some(c) => match pad_size_of(c) {
                Some(n) => Ok(n),
                None => Err(SelectorError::Unrecognized(c)),
            },
        }
    }
}

fn entry<'a>(
    selector: &'a str,
    description: &'a str,
    hs: usize,
    ss: usize,
    fs: Option<usize>,
) -> (r: MatterCodeage<'a>)
    ensures
        r.selector == selector,
        r.geometry() == (Geometry { hs, ss, fs }),
{
    MatterCodeage { selector, description, hs, ss, fs }
}

/// Looks `s` up in the code table: the geometry record of the selector
/// `s`, or `None` where `s` is not a known selector.
pub fn codeage<'a>(s: &'a str) -> (r: Option<MatterCodeage<'a>>)
    ensures
        r is None <==> geometry_of(s@) is None,
        r matches Some(m) ==> m.selector@ == s@ && geometry_of(s@) == Some(m.geometry()),
        r matches Some(m) ==> well_formed(m.geometry()),
{
    proof {
        lemma_table_well_formed(s@);
    }
    let n = s.unicode_len();
    if n == 1 {
        let a = s.get_char(0);
        Some(
            match a {
                'A' => entry(s, "Seed of Ed25519 private key", 1, 0, Some(44)),
                'B' => entry(s, "Ed25519 non-transferable prefix public verification key", 1, 0, Some(44)),
                'C' => entry(s, "X25519 public encryption key, may be converted from Ed25519 public key", 1, 0, Some(44)),
                'D' => entry(s, "Ed25519 public verification key", 1, 0, Some(44)),
                'E' => entry(s, "Blake3-256 Digest", 1, 0, Some(44)),
                'F' => entry(s, "Blake2b-256 Digest", 1, 0, Some(44)),
                'G' => entry(s, "Blake2s-256 Digest", 1, 0, Some(44)),
                'H' => entry(s, "SHA3-256 Digest", 1, 0, Some(44)),
                'I' => entry(s, "SHA2-256 Digest", 1, 0, Some(44)),
                'J' => entry(s, "Seed of ECDSA secp256k1 private key", 1, 0, Some(44)),
                'K' => entry(s, "Seed of Ed448 private key", 1, 0, Some(76)),
                'L' => entry(s, "X448 public encryption key", 1, 0, Some(76)),
                'M' => entry(s, "Short number 2-byte b2", 1, 0, Some(4)),
                'N' => entry(s, "Big number 8-byte b2", 1, 0, Some(12)),
                'O' => entry(s, "X25519 private decryption key/seed may be converted from Ed25519 key/seed", 1, 0, Some(44)),
                'P' => entry(s, "P", 1, 0, Some(124)),
                'Q' => entry(s, "Q", 1, 0, Some(44)),
                '_' => entry(s, "TBD", 1, 0, Some(1)),
                _ => return None,
            },
        )
    } else if n == 2 {
        let a = s.get_char(0);
        let b = s.get_char(1);
        Some(
            match (a, b) {
                ('-', '-') => entry(s, "Universal genus version code", 3, 5, Some(8)),
                ('-', 'A') => entry(s, "Generic pipeline group up to 4,095 quadlets/triplets", 2, 2, Some(4)),
                ('-', 'E') => entry(s, "ESSR wrapper signable up to 4,095 quadlets/triplets", 2, 2, Some(4)),
                ('-', 'F') => entry(s, "CESR native message top-level fixed field signable up to 4,095 quadlets/triplets", 2, 2, Some(4)),
                ('0', 'A') => entry(s, "0A", 2, 0, Some(24)),
                ('0', 'B') => entry(s, "0B", 2, 0, Some(88)),
                ('0', 'C') => entry(s, "0C", 2, 0, Some(88)),
                ('0', 'D') => entry(s, "0D", 2, 0, Some(88)),
                ('0', 'E') => entry(s, "0E", 2, 0, Some(88)),
                ('0', 'F') => entry(s, "0F", 2, 0, Some(88)),
                ('0', 'G') => entry(s, "0G", 2, 0, Some(88)),
                ('0', 'H') => entry(s, "0H", 2, 0, Some(8)),
                ('0', 'I') => entry(s, "0I", 2, 0, Some(88)),
                ('4', 'A') => entry(s, "4A", 2, 2, None),
                ('5', 'A') => entry(s, "5A", 2, 2, None),
                ('6', 'A') => entry(s, "6A", 2, 2, None),
                ('4', 'B') => entry(s, "4B", 2, 2, None),
                ('5', 'B') => entry(s, "5B", 2, 2, None),
                ('6', 'B') => entry(s, "6B", 2, 2, None),
                _ => return None,
            },
        )
    } else if n == 3 {
        let a = s.get_char(0);
        let b = s.get_char(1);
        let c = s.get_char(2);
        Some(
            match (a, b, c) {
                ('-', '0', 'A') => entry(s, "Generic pipeline group up to 1,073,741,823 quadlets/triplets", 3, 5, Some(8)),
                ('-', '0', 'E') => entry(s, "ESSR wrapper signable up to 1,073,741,823 quadlets/triplets", 3, 5, Some(8)),
                ('-', '0', 'F') => entry(s, "CESR native message top-level fixed field signable up to 1,073,741,823 quadlets/triplets", 3, 5, Some(8)),
                _ => return None,
            },
        )
    } else if n == 4 {
        let a = s.get_char(0);
        let b = s.get_char(1);
        let c = s.get_char(2);
        let d = s.get_char(3);
        Some(
            match (a, b, c, d) {
                ('1', 'A', 'A', 'A') => entry(s, "1AAA", 4, 0, Some(48)),
                ('1', 'A', 'A', 'B') => entry(s, "1AAB", 4, 0, Some(48)),
                ('1', 'A', 'A', 'C') => entry(s, "1AAC", 4, 0, Some(80)),
                ('1', 'A', 'A', 'D') => entry(s, "1AAD", 4, 0, Some(80)),
                ('1', 'A', 'A', 'E') => entry(s, "1AAE", 4, 0, Some(56)),
                ('1', 'A', 'A', 'F') => entry(s, "1AAF", 4, 0, Some(8)),
                ('1', 'A', 'A', 'G') => entry(s, "1AAG", 4, 0, Some(36)),
                ('1', 'A', 'A', 'H') => entry(s, "1AAH", 4, 0, Some(100)),
                ('1', 'A', 'A', 'I') => entry(s, "1AAI", 4, 0, Some(48)),
                ('1', 'A', 'A', 'J') => entry(s, "1AAJ", 4, 0, Some(48)),
                ('2', 'A', 'A', 'A') => entry(s, "2AAA", 4, 0, Some(8)),
                ('3', 'A', 'A', 'A') => entry(s, "3AAA", 4, 0, Some(8)),
                ('7', 'A', 'A', 'A') => entry(s, "7AAA", 4, 4, None),
                ('8', 'A', 'A', 'A') => entry(s, "8AAA", 4, 4, None),
                ('9', 'A', 'A', 'A') => entry(s, "9AAA", 4, 4, None),
                ('7', 'A', 'A', 'B') => entry(s, "7AAB", 4, 4, None),
                ('8', 'A', 'A', 'B') => entry(s, "8AAB", 4, 4, None),
                ('9', 'A', 'A', 'B') => entry(s, "9AAB", 4, 4, None),
                _ => return None,
            },
        )
    } else {
        None
    }
}

} // verus!
