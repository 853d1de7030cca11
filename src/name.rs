use vstd::prelude::*;
use vstd::string::StrSliceExecFns;

use crate::error::StringError;

verus! {

/// Linux's `IFNAMSIZ`: bytes in an interface name buffer, terminator included.
pub const IFNAMSIZ: usize = 16;

/// An ASCII character.
pub open spec fn is_ascii_char(c: char) -> bool {
    c <= '\u{7f}'
}

/// A character that may stand in an interface name: ASCII and not zero.
pub open spec fn is_name_char(c: char) -> bool {
    '\0' < c && c <= '\u{7f}'
}

/// The first `n` characters of `s` may all stand in a name.
pub open spec fn name_chars_upto(s: Seq<char>, n: int) -> bool {
    forall|i: int| 0 <= i < n ==> is_name_char(#[trigger] s[i])
}

/// `s` can be encoded: only name characters, with room left for the terminator.
pub open spec fn is_valid_name(s: Seq<char>) -> bool {
    name_chars_upto(s, s.len() as int) && s.len() < IFNAMSIZ
}

/// The buffer that holds the characters of `s`, one byte each, then zeros.
pub open spec fn padded(s: Seq<char>) -> Seq<u8> {
    Seq::new(IFNAMSIZ as nat, |i: int| if i < s.len() { (s[i] as u32) as u8 } else { 0u8 })
}

/// The buffer of all zeros, which asks the kernel to pick a name.
pub open spec fn zeros() -> Seq<u8> {
    Seq::new(IFNAMSIZ as nat, |i: int| 0u8)
}

/// `b` holds the text `s`: ASCII bytes that are not zero, then a zero.
pub open spec fn holds_text(b: Seq<u8>, s: Seq<char>) -> bool {
    &&& s.len() < b.len()
    &&& b[s.len() as int] == 0
    &&& forall|i: int|
        0 <= i < s.len() ==> b[i] != 0 && b[i] < 128 && #[trigger] s[i] == (b[i] as char)
}

/// The bytes before position `n` of `b` are all nonzero ASCII.
pub open spec fn text_bytes_upto(b: Seq<u8>, n: int) -> bool {
    forall|i: int| 0 <= i < n ==> #[trigger] b[i] != 0 && b[i] < 128
}

/// `r` is what encoding `s` gives: the buffer, or the error for its first
/// rejected character, or for its length.
pub open spec fn encodes_to(s: Seq<char>, r: Result<Seq<u8>, StringError>) -> bool {
    match r {
        Ok(b) => is_valid_name(s) && b == padded(s),
        Err(StringError::InvalidCharacter(p)) => {
            &&& p < s.len()
            &&& name_chars_upto(s, p as int)
            &&& !is_ascii_char(s[p as int])
        },
        Err(StringError::UnexpectedNull(p)) => {
            &&& p < s.len()
            &&& name_chars_upto(s, p as int)
            &&& s[p as int] == '\0'
        },
        Err(StringError::StringTooLong(c)) => {
            &&& c == IFNAMSIZ
            &&& name_chars_upto(s, s.len() as int)
            &&& s.len() >= IFNAMSIZ
        },
        Err(StringError::MangledString) => false,
    }
}

/// `r` is what decoding the buffer `b` gives: the text before its first
/// zero, or the error for a missing zero or for a byte that is not ASCII.
pub open spec fn decodes_to(b: Seq<u8>, r: Result<Seq<char>, StringError>) -> bool {
    match r {
        Ok(s) => holds_text(b, s),
        Err(StringError::MangledString) => forall|i: int| 0 <= i < b.len() ==> #[trigger] b[i] != 0,
        Err(StringError::InvalidCharacter(p)) => {
            &&& p < b.len()
            &&& b[p as int] >= 128
            &&& text_bytes_upto(b, p as int)
            &&& exists|j: int| p < j < b.len() && #[trigger] b[j] == 0
        },
        Err(_) => false,
    }
}

/// Relies on `String::push`: appends one character at the end.
#[verifier::external_body]
fn push_char(s: &mut String, c: char)
    ensures
        final(s)@ == old(s)@.push(c),
{
    s.push(c)
}

/// A fixed-size, zero-terminated ASCII buffer holding a network interface name.
#[derive(Clone, Copy, Debug)]
pub struct InterfaceName {
    pub name: [u8; IFNAMSIZ],
}

impl InterfaceName {
    /// The empty name, used to let the kernel assign a name.
    pub fn empty() -> (r: Self)
        ensures
            r.name@ == zeros(),
    {
        let r = Self { name: [0u8; IFNAMSIZ] };
        assert(r.name@ =~= zeros());
        r
    }

    /// Encodes `name` into a buffer.
    ///
    /// Every character is checked first, in order: the first that is not
    /// ASCII gives `InvalidCharacter`, the first zero gives `UnexpectedNull`.
    /// A name of `IFNAMSIZ` characters or more then gives `StringTooLong`.
    /// The empty string gives the all-zero buffer.
    pub fn from_str(name: &str) -> (r: Result<Self, StringError>)
        ensures
            r is Ok <==> is_valid_name(name@),
            encodes_to(
                name@,
                match r {
                    Ok(n) => Ok(n.name@),
                    Err(e) => Err(e),
                },
            ),
    {
        let len = name.unicode_len();
        let mut i: usize = 0;
        while i < len
            invariant
                len == name@.len(),
                i <= len,
                name_chars_upto(name@, i as int),
            decreases len - i,
        {
            let c = name.get_char(i);
            if c > '\u{7f}' {
                return Err(StringError::InvalidCharacter(i));
            }
            if c == '\0' {
                return Err(StringError::UnexpectedNull(i));
            }
            i = i + 1;
        }
        if len >= IFNAMSIZ {
            return Err(StringError::StringTooLong(IFNAMSIZ));
        }
        let mut buf = [0u8; IFNAMSIZ];
        let mut j: usize = 0;
        while j < len
            invariant
                len == name@.len(),
                len < IFNAMSIZ,
                j <= len,
                forall|k: int| 0 <= k < j ==> buf@[k] == (name@[k] as u32) as u8,
                forall|k: int| j <= k < IFNAMSIZ ==> buf@[k] == 0u8,
            decreases len - j,
        {
            let c = name.get_char(j);
            buf[j] = (c as u32) as u8;
            j = j + 1;
        }
        assert(buf@ =~= padded(name@));
        Ok(Self { name: buf })
    }

    /// Decodes the buffer: the bytes before the first zero, as a string.
    ///
    /// Without a zero byte this is `MangledString`; a byte before the first
    /// zero that is not ASCII gives `InvalidCharacter` at its position.
    pub fn to_string(&self) -> (r: Result<String, StringError>)
        ensures
            decodes_to(
                self.name@,
                match r {
                    Ok(s) => Ok(s@),
                    Err(e) => Err(e),
                },
            ),
    {
        let mut end: usize = 0;
        while end < IFNAMSIZ && self.name[end] != 0
            invariant
                end <= IFNAMSIZ,
                forall|k: int| 0 <= k < end ==> #[trigger] self.name@[k] != 0,
            decreases IFNAMSIZ - end,
        {
            end = end + 1;
        }
        if end == IFNAMSIZ {
            return Err(StringError::MangledString);
        }
        let mut ret = String::new();
        let mut pos: usize = 0;
        while pos < end
            invariant
                end < IFNAMSIZ,
                self.name@[end as int] == 0,
                forall|k: int| 0 <= k < end ==> #[trigger] self.name@[k] != 0,
                pos <= end,
                ret@.len() == pos,
                text_bytes_upto(self.name@, pos as int),
                forall|k: int| 0 <= k < pos ==> #[trigger] ret@[k] == (self.name@[k] as char),
            decreases end - pos,
        {
            let byte = self.name[pos];
            if byte >= 128 {
                return Err(StringError::InvalidCharacter(pos));
            }
            let c = byte as char;
            push_char(&mut ret, c);
            pos = pos + 1;
        }
        Ok(ret)
    }
}

/// Decoding the buffer that encoding a valid name produced gives that name
/// back.
pub proof fn lemma_decode_encode(
    s: Seq<char>,
    e: Result<Seq<u8>, StringError>,
    d: Result<Seq<char>, StringError>,
)
    requires
        is_valid_name(s),
        encodes_to(s, e),
        e is Ok ==> decodes_to(e->Ok_0, d),
    ensures
        e == Ok::<Seq<u8>, StringError>(padded(s)),
        d == Ok::<Seq<char>, StringError>(s),
{
    let b = padded(s);
    assert(b[s.len() as int] == 0);
    assert(text_bytes_upto(b, s.len() as int));
    match d {
        Ok(t) => {
            if t.len() < s.len() {
                assert(is_name_char(s[t.len() as int]));
                assert(b[t.len() as int] != 0);
            } else if t.len() > s.len() {
                let c = t[s.len() as int];
                assert(b[s.len() as int] != 0);
            }
            assert forall|i: int| 0 <= i < s.len() implies t[i] == s[i] by {
                assert(is_name_char(s[i]));
                let c = t[i];
            }
            assert(t =~= s);
        },
        Err(StringError::MangledString) => {
            assert(b[s.len() as int] != 0);
        },
        Err(StringError::InvalidCharacter(p)) => {
            let j = choose|j: int| p < j < b.len() && #[trigger] b[j] == 0;
            if p < s.len() {
            } else {
                assert(b[p as int] == 0);
            }
        },
        Err(_) => {},
    }
}

/// The empty string encodes to the all-zero buffer, and the all-zero buffer
/// decodes to the empty string.
pub proof fn lemma_empty_name(
    e: Result<Seq<u8>, StringError>,
    d: Result<Seq<char>, StringError>,
)
    requires
        encodes_to(Seq::<char>::empty(), e),
        decodes_to(zeros(), d),
    ensures
        e == Ok::<Seq<u8>, StringError>(zeros()),
        d == Ok::<Seq<char>, StringError>(Seq::<char>::empty()),
{
    assert(padded(Seq::<char>::empty()) =~= zeros());
    match d {
        Ok(t) => {
            if t.len() > 0 {
                let c = t[0];
                assert(zeros()[0] == 0);
            }
            assert(t =~= Seq::<char>::empty());
        },
        Err(StringError::MangledString) => {
            assert(zeros()[0] == 0);
        },
        Err(StringError::InvalidCharacter(p)) => {
            assert(zeros()[p as int] == 0);
        },
        Err(_) => {},
    }
}

/// A name of ASCII characters that are not zero, with `IFNAMSIZ` characters
/// or more, fails to encode with `StringTooLong`.
pub proof fn lemma_too_long(s: Seq<char>, e: Result<Seq<u8>, StringError>)
    requires
        name_chars_upto(s, s.len() as int),
        s.len() >= IFNAMSIZ,
        encodes_to(s, e),
    ensures
        e == Err::<Seq<u8>, StringError>(StringError::StringTooLong(IFNAMSIZ)),
{
    match e {
        Err(StringError::InvalidCharacter(p)) => {
            assert(is_name_char(s[p as int]));
        },
        Err(StringError::UnexpectedNull(p)) => {
            assert(is_name_char(s[p as int]));
        },
        _ => {},
    }
}

/// A buffer without a zero byte fails to decode with `MangledString`.
pub proof fn lemma_unterminated(b: Seq<u8>, d: Result<Seq<char>, StringError>)
    requires
        forall|i: int| 0 <= i < b.len() ==> #[trigger] b[i] != 0,
        decodes_to(b, d),
    ensures
        d == Err::<Seq<char>, StringError>(StringError::MangledString),
{
    match d {
        Ok(t) => {
            assert(b[t.len() as int] != 0);
        },
        Err(StringError::InvalidCharacter(p)) => {
            let j = choose|j: int| p < j < b.len() && #[trigger] b[j] == 0;
        },
        _ => {},
    }
}

/// Encoding fails with `InvalidCharacter` at the position of the first
/// character that is not ASCII, when no zero character comes before it.
pub proof fn lemma_first_invalid_character(
    s: Seq<char>,
    p: int,
    e: Result<Seq<u8>, StringError>,
)
    requires
        0 <= p < s.len(),
        name_chars_upto(s, p),
        !is_ascii_char(s[p]),
        encodes_to(s, e),
    ensures
        e == Err::<Seq<u8>, StringError>(StringError::InvalidCharacter(p as usize)),
{
    match e {
        Ok(b) => {
            assert(is_name_char(s[p]));
        },
        Err(StringError::InvalidCharacter(q)) => {
            if q < p {
                assert(is_name_char(s[q as int]));
            } else if q > p {
                assert(is_name_char(s[p]));
            }
        },
        Err(StringError::UnexpectedNull(q)) => {
            if q < p {
                assert(is_name_char(s[q as int]));
            } else if q > p {
                assert(is_name_char(s[p]));
            }
        },
        Err(StringError::StringTooLong(_)) => {
            assert(is_name_char(s[p]));
        },
        Err(StringError::MangledString) => {},
    }
}

} // verus!
