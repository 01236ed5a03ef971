//! Random file names that are never reserved device names on Windows.

use vstd::prelude::*;
use crate::text::{seq_starts_with, string_of};
use rand::Rng;

verus! {

/// `rand::thread_rng().gen_range(0..bound)`: a random number below the bound.
#[verifier::external_body]
fn random_below(bound: u32) -> (r: u32)
    requires
        bound > 0,
    ensures
        r < bound,
{
    rand::thread_rng().gen_range(0..bound)
}

/// The names Windows reserves for devices.
pub open spec fn reserved_names() -> Seq<Seq<char>> {
    seq!["CON"@, "PRN"@, "AUX"@, "NUL"@, "COM1"@, "COM2"@, "COM3"@, "COM4"@, "COM5"@, "COM6"@, "COM7"@,
        "COM8"@, "COM9"@, "LPT1"@, "LPT2"@, "LPT3"@, "LPT4"@, "LPT5"@, "LPT6"@, "LPT7"@, "LPT8"@, "LPT9"@]
}

/// ASCII upper-casing of one character.
pub open spec fn upper_char(c: char) -> char {
    if 'a' <= c && c <= 'z' { ((c as u32) - 32) as char } else { c }
}

/// A name is reserved when, upper-cased, it is a device name or begins with
/// one followed by a dot.
pub open spec fn is_reserved(name: Seq<char>) -> bool {
    let upper = Seq::new(name.len(), |i: int| upper_char(name[i]));
    exists|k: int| 0 <= k < reserved_names().len()
        && (upper == #[trigger] reserved_names()[k] || seq_starts_with(upper, reserved_names()[k] + "."@))
}

/// An ASCII letter or digit.
pub open spec fn is_alphanumeric(c: char) -> bool {
    ('0' <= c && c <= '9') || ('a' <= c && c <= 'z') || ('A' <= c && c <= 'Z')
}

/// The character of an index below 62: digits, then lower-case letters,
/// then upper-case letters.
pub open spec fn alphabet_char(idx: u32) -> char {
    if idx < 10 {
        ((('0' as u32) + idx) as char)
    } else if idx < 36 {
        ((('a' as u32) + (idx - 10)) as char)
    } else {
        ((('A' as u32) + (idx - 36)) as char)
    }
}

fn alphabet(idx: u32) -> (c: char)
    requires
        idx < 62,
    ensures
        c == alphabet_char(idx),
        is_alphanumeric(c),
{
    if idx < 10 {
        crate::text::char_from_ascii(48 + idx)
    } else if idx < 36 {
        crate::text::char_from_ascii(97 + (idx - 10))
    } else {
        crate::text::char_from_ascii(65 + (idx - 36))
    }
}

proof fn lemma_alphanumeric_not_reserved(name: Seq<char>)
    requires
        name.len() == 16,
        forall|i: int| 0 <= i < name.len() ==> is_alphanumeric(#[trigger] name[i]),
    ensures
        !is_reserved(name),
{
    let upper = Seq::new(name.len(), |i: int| upper_char(name[i]));
    assert forall|k: int| 0 <= k < reserved_names().len() implies !(upper == #[trigger] reserved_names()[k]
        || seq_starts_with(upper, reserved_names()[k] + "."@)) by {
        reveal_strlit(".");
        let r = reserved_names()[k];
        reveal_strlit("CON"); reveal_strlit("PRN"); reveal_strlit("AUX"); reveal_strlit("NUL");
        reveal_strlit("COM1"); reveal_strlit("COM2"); reveal_strlit("COM3"); reveal_strlit("COM4");
        reveal_strlit("COM5"); reveal_strlit("COM6"); reveal_strlit("COM7"); reveal_strlit("COM8");
        reveal_strlit("COM9"); reveal_strlit("LPT1"); reveal_strlit("LPT2"); reveal_strlit("LPT3");
        reveal_strlit("LPT4"); reveal_strlit("LPT5"); reveal_strlit("LPT6"); reveal_strlit("LPT7");
        reveal_strlit("LPT8"); reveal_strlit("LPT9");
        assert(r.len() <= 4);
        let d = r + "."@;
        if seq_starts_with(upper, d) {
            let j = r.len() as int;
            assert(upper.subrange(0, d.len() as int)[j] == d[j]);
            assert(d[j] == '.');
            assert(is_alphanumeric(name[j]));
        }
    }
}

/// A random name of sixteen ASCII letters and digits. Such a name can never
/// be a reserved device name, so the first draw is always used.
pub fn generate_random_name() -> (r: String)
    ensures
        r@.len() == 16,
        forall|i: int| 0 <= i < r@.len() ==> is_alphanumeric(#[trigger] r@[i]),
        !is_reserved(r@),
{
    let mut chars: Vec<char> = Vec::new();
    let mut i: usize = 0;
    while i < 16
        invariant
            i <= 16,
            chars@.len() == i,
            forall|k: int| 0 <= k < i ==> is_alphanumeric(#[trigger] chars@[k]),
        decreases 16 - i,
    {
        let idx = random_below(62);
        chars.push(alphabet(idx));
        i = i + 1;
    }
    proof {
        lemma_alphanumeric_not_reserved(chars@);
    }
    string_of(chars.as_slice())
}

} // verus!
