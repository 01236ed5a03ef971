//! Path obfuscation for progress and log output.

use vstd::prelude::*;
use crate::text::{cat, chars_of, decimal, owned, str_eq, string_of, u64_to_string};

verus! {

/// Log obfuscation modes chosen by the user.
#[derive(Debug, Clone, Copy, PartialEq, Eq, Structural)]
pub enum LogObfuscation {
    /// Full paths are shown.
    Off,
    /// Paths are replaced by `File_<index>`.
    Numbered,
    /// First three and last five characters are kept, with `***` in between.
    PartialMask,
}

/// The mode a stored setting names: `numbered`, `partial_mask`, and full
/// paths for anything else.
pub open spec fn mode_of_setting(text: Seq<char>) -> LogObfuscation {
    if text == "numbered"@ {
        LogObfuscation::Numbered
    } else if text == "partial_mask"@ {
        LogObfuscation::PartialMask
    } else {
        LogObfuscation::Off
    }
}

/// The mode a stored setting names.
pub fn obfuscation_from_setting(text: &str) -> (r: LogObfuscation)
    ensures
        r == mode_of_setting(text@),
{
    if str_eq(text, "numbered") {
        LogObfuscation::Numbered
    } else if str_eq(text, "partial_mask") {
        LogObfuscation::PartialMask
    } else {
        LogObfuscation::Off
    }
}

/// What a path is shown as under a mode.
pub open spec fn obfuscated(path: Seq<char>, mode: LogObfuscation, index: nat) -> Seq<char> {
    match mode {
        LogObfuscation::Off => path,
        LogObfuscation::Numbered => "File_"@ + decimal(index),
        LogObfuscation::PartialMask => if path.len() <= 8 {
            "***"@
        } else {
            path.subrange(0, 3) + "***"@ + path.subrange(path.len() - 5, path.len() as int)
        },
    }
}

/// Obfuscates a file path for display.
pub fn obfuscate_path(path: &str, mode: LogObfuscation, index: usize) -> (r: String)
    ensures
        r@ == obfuscated(path@, mode, index as nat),
{
    match mode {
        LogObfuscation::Off => owned(path),
        LogObfuscation::Numbered => {
            let n = u64_to_string(index as u64);
            cat("File_", n.as_str())
        },
        LogObfuscation::PartialMask => {
            let v = chars_of(path);
            let len = v.len();
            if len <= 8 {
                owned("***")
            } else {
                let mut out: Vec<char> = Vec::new();
                out.push(v[0]);
                out.push(v[1]);
                out.push(v[2]);
                out.push('*');
                out.push('*');
                out.push('*');
                let mut i: usize = len - 5;
                while i < len
                    invariant
                        len == v@.len(),
                        len > 8,
                        len - 5 <= i <= len,
                        out@ =~= v@.subrange(0, 3) + seq!['*', '*', '*'] + v@.subrange(len - 5, i as int),
                    decreases len - i,
                {
                    out.push(v[i]);
                    i = i + 1;
                }
                proof {
                    reveal_strlit("***");
                    assert("***"@ =~= seq!['*', '*', '*']);
                }
                string_of(out.as_slice())
            }
        },
    }
}

/// No mode shows more than eight characters of a long path other than `Off`.
pub proof fn lemma_mask_hides_the_middle(path: Seq<char>)
    requires
        path.len() > 8,
    ensures
        obfuscated(path, LogObfuscation::PartialMask, 0).len() == 11,
        obfuscated(path, LogObfuscation::PartialMask, 0).subrange(3, 6) == "***"@,
{
    reveal_strlit("***");
    let r = obfuscated(path, LogObfuscation::PartialMask, 0);
    assert(r.subrange(3, 6) =~= "***"@);
}

} // verus!
