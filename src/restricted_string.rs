//! Names limited to a safe set of characters and a bounded length.

use vstd::prelude::*;

verus! {

/// The characters a restricted string may not hold: Unicode white space and
/// the invisible characters U+200B to U+200F and U+2060.
pub open spec fn is_restricted_char(c: char) -> bool {
    let n = c as u32;
    (0x9 <= n <= 0xd) || n == 0x20 || n == 0x85 || n == 0xa0 || n == 0x1680 || (0x2000 <= n
        <= 0x200f) || n == 0x2028 || n == 0x2029 || n == 0x202f || n == 0x205f || n == 0x2060 || n
        == 0x3000
}

/// `s` with each restricted character replaced by `repl`.
pub open spec fn replace_restricted(s: Seq<char>, repl: Seq<char>) -> Seq<char>
    decreases s.len(),
{
    if s.len() == 0 {
        Seq::empty()
    } else {
        replace_restricted(s.drop_last(), repl) + if is_restricted_char(s.last()) {
            repl
        } else {
            seq![s.last()]
        }
    }
}

/// The longest length, in characters, of a restricted string.
pub open spec fn max_restricted_len() -> nat {
    32
}

/// The first 32 characters of `s`.
pub open spec fn truncated(s: Seq<char>) -> Seq<char> {
    if s.len() <= max_restricted_len() {
        s
    } else {
        s.take(max_restricted_len() as int)
    }
}

/// `s` as a restricted string whose restricted characters became spaces.
pub open spec fn spaced(s: Seq<char>) -> Seq<char> {
    truncated(replace_restricted(s, seq![' ']))
}

/// `s` as a restricted string whose restricted characters became dashes.
pub open spec fn dashed(s: Seq<char>) -> Seq<char> {
    truncated(replace_restricted(s, seq!['-']))
}

/// The regular expression of the restricted characters: the white space class
/// and the range U+200B to U+200F and U+2060.
pub open spec fn restricted_pattern() -> Seq<char> {
    seq!['[', '\\', 's', '\u{200b}', '-', '\u{200f}', '\u{2060}', ']']
}

/// Relies on regex's `Regex::new` and `Regex::replace_all`: the pattern is a
/// valid class of single characters, `\s` being Unicode's White_Space set, so
/// each matching character is replaced in turn; a replacement without `$`
/// is inserted as it stands.
#[verifier::external_body]
fn replace_matches(pattern: &str, value: &str, repl: &str) -> (r: String)
    requires
        pattern@ == restricted_pattern(),
        !repl@.contains('$'),
    ensures
        r@ == replace_restricted(value@, repl@),
{
    regex::Regex::new(pattern).unwrap().replace_all(value, repl).to_string()
}

/// Makes names safe: restricted characters are replaced, and anything past
/// 32 characters is cut off.
#[derive(Debug, Clone, Copy)]
pub struct RestrictedString;

impl RestrictedString {
    /// `value` with restricted characters turned into spaces, cut to 32
    /// characters.
    pub fn space(value: &str) -> (r: String)
        ensures
            r@ == spaced(value@),
    {
        proof {
            reveal_strlit(" ");
            assert(" "@ =~= seq![' ']);
        }
        Self::trim(Self::filter(value, " "))
    }

    /// `value` with restricted characters turned into dashes, cut to 32
    /// characters.
    pub fn no_space(value: &str) -> (r: String)
        ensures
            r@ == dashed(value@),
    {
        proof {
            reveal_strlit("-");
            assert("-"@ =~= seq!['-']);
        }
        Self::trim(Self::filter(value, "-"))
    }

    fn filter(value: &str, repl: &str) -> (r: String)
        requires
            !repl@.contains('$'),
        ensures
            r@ == replace_restricted(value@, repl@),
    {
        let pattern = "[\\s\u{200b}-\u{200f}\u{2060}]";
        proof {
            reveal_strlit("[\\s\u{200b}-\u{200f}\u{2060}]");
            assert(pattern@ =~= restricted_pattern());
        }
        replace_matches(pattern, value, repl)
    }

    /// The first 32 characters of `value`.
    pub fn trim(value: String) -> (r: String)
        ensures
            r@ == truncated(value@),
    {
        let n = value.as_str().unicode_len();
        if n <= 32 {
            return value;
        }
        String::from_str(value.as_str().substring_char(0, 32))
    }
}

} // verus!
