use vstd::prelude::*;
use vstd::string::StrSliceExecFns;

verus! {

/// What `String::from_utf8` makes of a byte sequence: the characters it
/// encodes, or `None` where it is not valid UTF-8.
pub uninterp spec fn utf8_text(b: Seq<u8>) -> Option<Seq<char>>;

/// Every byte is below 0x80.
pub open spec fn all_ascii(b: Seq<u8>) -> bool {
    forall|i: int| 0 <= i < b.len() ==> b[i] < 0x80
}

/// The characters of an ASCII byte sequence, one per byte.
pub open spec fn ascii_chars(b: Seq<u8>) -> Seq<char> {
    b.map_values(|x: u8| x as char)
}

/// Relies on `String::from_utf8`: it accepts exactly the valid UTF-8 byte
/// sequences, and ASCII bytes decode to the characters of the same code.
#[verifier::external_body]
pub(crate) fn string_from_utf8(b: Vec<u8>) -> (r: Option<String>)
    ensures
        r is Some <==> utf8_text(b@) is Some,
        r is Some ==> utf8_text(b@) == Some(r->0@),
        all_ascii(b@) ==> r is Some && r->0@ == ascii_chars(b@),
{
    String::from_utf8(b).ok()
}

/// `k` is the index of the first NUL character of `s`.
pub open spec fn is_first_nul(s: Seq<char>, k: int) -> bool {
    0 <= k < s.len() && s[k] == '\0' && forall|j: int| 0 <= j < k ==> s[j] != '\0'
}

/// The length of the longest prefix of `s` that holds no NUL character.
pub open spec fn nul_index(s: Seq<char>) -> int {
    if exists|k: int| is_first_nul(s, k) {
        choose|k: int| is_first_nul(s, k)
    } else {
        s.len() as int
    }
}

/// The characters of a fixed-length text field up to its first NUL: the
/// padding that follows the text is not part of it.
pub open spec fn until_nul(s: Seq<char>) -> Seq<char> {
    s.take(nul_index(s))
}

/// The text that a fixed-length field holds: all of its bytes must be valid
/// UTF-8, and the text is what they decode to, up to the first NUL.
pub open spec fn field_text(s: Seq<u8>) -> Option<Seq<char>> {
    if utf8_text(s) is Some {
        Some(until_nul(utf8_text(s)->0))
    } else {
        None
    }
}

/// Two first NULs are the same character.
proof fn lemma_first_nul_unique(s: Seq<char>, a: int, b: int)
    requires
        is_first_nul(s, a),
        is_first_nul(s, b),
    ensures
        a == b,
{
}

/// The bytes of `s`, as a vector.
pub(crate) fn bytes_to_vec(s: &[u8]) -> (r: Vec<u8>)
    ensures
        r@ == s@,
{
    let mut v: Vec<u8> = Vec::new();
    let mut i: usize = 0;
    while i < s.len()
        invariant
            i <= s@.len(),
            v@ == s@.take(i as int),
        decreases s@.len() - i,
    {
        v.push(s[i]);
        i = i + 1;
        assert(v@ =~= s@.take(i as int));
    }
    assert(v@ =~= s@);
    v
}

/// The text of a fixed-length field given as bytes: the whole field must be
/// valid UTF-8, and the text ends before its first NUL.
pub fn text_of_field(s: &[u8]) -> (r: Option<String>)
    ensures
        r is Some <==> utf8_text(s@) is Some,
        r is Some ==> field_text(s@) == Some(r->0@),
        all_ascii(s@) ==> r is Some && r->0@ == until_nul(ascii_chars(s@)),
{
    let decoded = match string_from_utf8(bytes_to_vec(s)) {
        Some(t) => t,
        None => {
            return None;
        },
    };
    let text = decoded.as_str();
    let n = text.unicode_len();
    let mut k: usize = 0;
    while k < n && text.get_char(k) != '\0'
        invariant
            n == text@.len(),
            k <= n,
            forall|j: int| 0 <= j < k ==> text@[j] != '\0',
        decreases n - k,
    {
        k = k + 1;
    }
    proof {
        if k < n {
            assert(is_first_nul(text@, k as int));
            let c = choose|c: int| is_first_nul(text@, c);
            lemma_first_nul_unique(text@, c, k as int);
        } else {
            assert forall|c: int| !is_first_nul(text@, c) by {
                if is_first_nul(text@, c) {
                    assert(text@[c] != '\0');
                }
            }
        }
        assert(text@.subrange(0, k as int) =~= until_nul(text@));
    }
    Some(text.substring_char(0, k).to_owned())
}

} // verus!
