//! Finger-name formatting for display.

use vstd::prelude::*;
use vstd::string::StrSliceExecFns;
use vstd::string::StringExecFns;
use crate::text::spec_ascii_upper;
use crate::text::ascii_upper;
use crate::text::spec_replace_all;
use crate::text::replace_all;
use crate::text::push_char;
use crate::text::upper_of;
use crate::text::char_to_uppercase;

verus! {

/// Dashes become spaces; every other character is kept.
pub open spec fn spec_dash_to_space(c: char) -> char {
    if c == '-' {
        ' '
    } else {
        c
    }
}

/// A string with its first character ASCII-uppercased.
pub open spec fn spec_upper_first(s: Seq<char>) -> Seq<char> {
    if s.len() == 0 {
        s
    } else {
        s.update(0, spec_ascii_upper(s[0]))
    }
}

/// The display form of a raw finger name: dashes replaced by spaces and
/// the first character ASCII-uppercased.
pub open spec fn spec_display_finger_name(s: Seq<char>) -> Seq<char> {
    spec_upper_first(s.map(|i: int, c: char| spec_dash_to_space(c)))
}

/// Format a raw finger name for display: replace dashes by spaces and
/// capitalize the first character. An empty name stays empty.
pub fn display_finger_name(name: &str) -> (r: String)
    ensures
        r@ == spec_display_finger_name(name@),
{
    let n = name.unicode_len();
    let mut out = String::new();
    let ghost mapped = spec_display_finger_name(name@);
    let mut i: usize = 0;
    while i < n
        invariant
            i <= n,
            n == name@.len(),
            mapped == spec_display_finger_name(name@),
            mapped.len() == n,
            out@ =~= mapped.take(i as int),
        decreases n - i,
    {
        let c = name.get_char(i);
        let c = if c == '-' {
            ' '
        } else {
            c
        };
        let c = if i == 0 {
            ascii_upper(c)
        } else {
            c
        };
        push_char(&mut out, c);
        proof {
            assert(mapped[i as int] == c);
            assert(out@ =~= mapped.take(i + 1));
        }
        i = i + 1;
    }
    proof {
        assert(mapped.take(n as int) =~= mapped);
    }
    out
}

/// A string with its first character Unicode-uppercased; that one
/// character may expand to several.
pub open spec fn spec_unicode_upper_first(s: Seq<char>) -> Seq<char> {
    if s.len() == 0 {
        s
    } else {
        upper_of(s[0]) + s.skip(1)
    }
}

/// The short form of a display finger name: the common words
/// `" finger"`, `"Left "` and `"Right "` removed, and the first
/// character of what remains Unicode-uppercased.
pub open spec fn spec_short_finger_name(s: Seq<char>) -> Seq<char> {
    spec_unicode_upper_first(
        spec_replace_all(
            spec_replace_all(spec_replace_all(s, " finger"@, ""@), "Left "@, ""@),
            "Right "@,
            ""@,
        ),
    )
}

/// Create a short finger name from a display name by removing common
/// words and capitalizing what remains.
pub fn create_short_finger_name(display_name: &str) -> (r: String)
    ensures
        r@ == spec_short_finger_name(display_name@),
{
    proof {
        reveal_strlit(" finger");
        reveal_strlit("Left ");
        reveal_strlit("Right ");
        reveal_strlit("");
    }
    let r1 = replace_all(display_name, " finger", "");
    let r2 = replace_all(r1.as_str(), "Left ", "");
    let r3 = replace_all(r2.as_str(), "Right ", "");
    let n = r3.as_str().unicode_len();
    if n == 0 {
        r3
    } else {
        let out = char_to_uppercase(r3.as_str().get_char(0));
        let out = out.concat(r3.as_str().substring_char(1, n));
        proof {
            assert(out@ =~= spec_short_finger_name(display_name@));
        }
        out
    }
}

} // verus!
