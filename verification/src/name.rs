use vstd::prelude::*;
use vstd::utf8::*;
use vstd::string::*;
use crate::params::BatchParams;

verus! {

/// A placeholder name without its optional leading colon.
pub open spec fn stripped_name(s: Seq<char>) -> Seq<char> {
    if s.len() > 0 && s[0] == ':' {
        s.drop_first()
    } else {
        s
    }
}

/// What `str::to_uppercase` returns for a string.
pub uninterp spec fn uppercase(s: Seq<char>) -> Seq<char>;

/// Calls `str::to_uppercase`.  Its result is a function of the characters
/// of `s` alone (Unicode case mapping, independent of locale); the contract
/// names it and says nothing more.
#[verifier::external_body]
pub(crate) fn to_uppercase(s: &str) -> (r: String)
    ensures
        r@ == uppercase(s@),
{
    s.to_uppercase()
}

/// A name of ASCII characters with each lower-case letter made a capital.
pub open spec fn ascii_upper(s: Seq<char>) -> Seq<char> {
    Seq::new(s.len(), |i: int| if 'a' <= s[i] <= 'z' { ((s[i] as u32) - 32) as char } else { s[i] })
}

/// The upper-case form of a placeholder name that the lookup falls back
/// to: for a name of ASCII characters its capitals, for any other name what
/// `str::to_uppercase` returns (on ASCII characters the two agree).
pub open spec fn upper_name(s: Seq<char>) -> Seq<char> {
    if is_ascii_chars(s) {
        ascii_upper(s)
    } else {
        uppercase(s)
    }
}

/// The byte of an ASCII character, made a capital if it is a lower-case
/// letter.
fn upper_byte(b: u8) -> (r: u8)
    requires
        b < 128,
    ensures
        r < 128,
        (r as char) == (if 'a' <= (b as char) <= 'z' { (((b as char) as u32) - 32) as char } else { b as char }),
{
    if 97 <= b && b <= 122 {
        b - 32
    } else {
        b
    }
}

/// The capitals of `s` when it is made of ASCII characters, else `None`.
pub fn ascii_upper_name(s: &str) -> (r: Option<String>)
    ensures
        r is Some <==> is_ascii_chars(s@),
        r matches Some(u) ==> u@ == ascii_upper(s@),
{
    if !s.is_ascii() {
        return None;
    }
    let bytes = s.as_bytes();
    proof {
        is_ascii_chars_encode_utf8(s@);
    }
    let n = bytes.len();
    let mut up: Vec<u8> = Vec::new();
    let mut i: usize = 0;
    while i < n
        invariant
            i <= n,
            n == bytes@.len(),
            n == s@.len(),
            is_ascii_chars(s@),
            forall|k: int| 0 <= k < n ==> #[trigger] bytes@[k] == s@[k] as u8,
            up@.len() == i,
            forall|k: int| 0 <= k < i ==> (#[trigger] up@[k]) < 128 && (up@[k] as char) == ascii_upper(s@)[k],
        decreases n - i,
    {
        proof {
            assert('\0' <= s@[i as int] <= '\u{7f}');
            assert((s@[i as int] as u8) as char == s@[i as int]);
        }
        let b = upper_byte(bytes[i]);
        up.push(b);
        i += 1;
    }
    let ghost chars = ascii_upper(s@);
    proof {
        assert(is_ascii_chars(chars));
        is_ascii_chars_encode_utf8(chars);
        assert forall|k: int| 0 <= k < n implies #[trigger] encode_utf8(chars)[k] == up@[k] by {
            assert((up@[k] as char) as u8 == up@[k]);
        }
        assert(encode_utf8(chars) =~= up@);
        encode_utf8_valid_utf8(chars);
        encode_utf8_decode_utf8(chars);
    }
    match crate::text::utf8_str(up.as_slice()) {
        Some(t) => {
            proof {
                encode_utf8_decode_utf8(t@);
            }
            Some(t.to_owned())
        },
        None => None,
    }
}

proof fn lemma_colon_byte(c: u32)
    by (bit_vector)
    ensures
        (c == 58u32) ==> ((c & 0x7F) as u8 == 58u8),
        ((58u8 & 0x7Fu8) as u32 == 58u32),
{
}

impl BatchParams {
    /// Returns the bind name without an optional leading colon.
    pub fn strip_colon(name: &str) -> (r: &str)
        ensures
            r@ == stripped_name(name@),
    {
        let bytes = name.as_bytes();
        proof {
            broadcast use encode_utf8_valid_utf8;
            broadcast use encode_utf8_decode_utf8;
            lemma_colon_byte(58);
        }
        if bytes.len() > 0 && bytes[0] == 58u8 {
            proof {
                let s = name@;
                let b = encode_utf8(s);
                assert(b == bytes@);
                assert(s.len() > 0);
                encode_utf8_first_scalar(s);
                assert(decode_first_scalar(b) == 58);
                vstd::utf8::char_u32_cast(s[0], 58u32);
                assert(s[0] == ':');
                assert(length_of_first_scalar(b) == 1);
                assert(is_char_boundary(b, 1)) by {
                    reveal_with_fuel(is_char_boundary, 2);
                }
            }
            let (_, rest) = name.split_at(1);
            proof {
                let s = name@;
                let b = encode_utf8(s);
                assert(encode_scalar(s[0] as u32) =~= seq![58u8]);
                assert(b =~= encode_scalar(s[0] as u32) + encode_utf8(s.drop_first()));
                assert(b.subrange(1, b.len() as int) =~= encode_utf8(s.drop_first()));
                assert(decode_utf8(encode_utf8(rest@)) == rest@);
                assert(decode_utf8(encode_utf8(s.drop_first())) == s.drop_first());
            }
            rest
        } else {
            proof {
                let s = name@;
                if s.len() > 0 && s[0] == ':' {
                    let b = encode_utf8(s);
                    assert(encode_scalar(s[0] as u32) =~= seq![58u8]);
                    assert(b =~= encode_scalar(s[0] as u32) + encode_utf8(s.drop_first()));
                    assert(b[0] == 58u8);
                }
            }
            name
        }
    }
}

} // verus!
