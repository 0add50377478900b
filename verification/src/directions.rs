//! Wind-direction handling: translate a compass-point abbreviation, in any
//! letter case, to its display name.

use vstd::prelude::*;
use vstd::string::StrSliceExecFns;

verus! {

/// What `str::to_uppercase` returns for a given character sequence.
pub uninterp spec fn upper_of(s: Seq<char>) -> Seq<char>;

/// Relies on str::to_uppercase: the Unicode uppercase of the string, a
/// locale-independent function of the characters alone.
#[verifier::external_body]
fn to_upper(s: &str) -> (r: String)
    ensures
        r@ == upper_of(s@),
{
    s.to_uppercase()
}

/// The display name of a one-letter compass point.
pub open spec fn dir1(a: char) -> Option<Seq<char>> {
    if a == 'N' {
        Some("북"@)
    } else if a == 'E' {
        Some("동"@)
    } else if a == 'S' {
        Some("남"@)
    } else if a == 'W' {
        Some("서"@)
    } else {
        None
    }
}

/// The display name of a two-letter compass point.
pub open spec fn dir2(a: char, b: char) -> Option<Seq<char>> {
    if a == 'N' && b == 'E' {
        Some("북동"@)
    } else if a == 'S' && b == 'E' {
        Some("남동"@)
    } else if a == 'S' && b == 'W' {
        Some("남서"@)
    } else if a == 'N' && b == 'W' {
        Some("북서"@)
    } else {
        None
    }
}

/// The display name of a three-letter compass point.
pub open spec fn dir3(a: char, b: char, c: char) -> Option<Seq<char>> {
    if a == 'N' && b == 'N' && c == 'E' {
        Some("북북동"@)
    } else if a == 'E' && b == 'N' && c == 'E' {
        Some("동북동"@)
    } else if a == 'E' && b == 'S' && c == 'E' {
        Some("동남동"@)
    } else if a == 'S' && b == 'S' && c == 'E' {
        Some("남남동"@)
    } else if a == 'S' && b == 'S' && c == 'W' {
        Some("남남서"@)
    } else if a == 'W' && b == 'S' && c == 'W' {
        Some("서남서"@)
    } else if a == 'W' && b == 'N' && c == 'W' {
        Some("서북서"@)
    } else if a == 'N' && b == 'N' && c == 'W' {
        Some("북북서"@)
    } else {
        None
    }
}

/// The display name of an already-uppercased compass-point abbreviation:
/// one of the sixteen points of the compass rose, or nothing.
pub open spec fn direction_name(u: Seq<char>) -> Option<Seq<char>> {
    if u.len() == 1 {
        dir1(u[0])
    } else if u.len() == 2 {
        dir2(u[0], u[1])
    } else if u.len() == 3 {
        dir3(u[0], u[1], u[2])
    } else {
        None
    }
}

/// Match an already-uppercased abbreviation against the compass rose.
pub fn match_direction(u: &str) -> (r: Option<String>)
    ensures
        match direction_name(u@) {
            Some(v) => r matches Some(name) && name@ == v,
            None => r is None,
        },
{
    let n = u.unicode_len();
    if n == 1 {
        let a = u.get_char(0);
        if a == 'N' {
            Some("북".to_owned())
        } else if a == 'E' {
            Some("동".to_owned())
        } else if a == 'S' {
            Some("남".to_owned())
        } else if a == 'W' {
            Some("서".to_owned())
        } else {
            None
        }
    } else if n == 2 {
        let a = u.get_char(0);
        let b = u.get_char(1);
        if a == 'N' && b == 'E' {
            Some("북동".to_owned())
        } else if a == 'S' && b == 'E' {
            Some("남동".to_owned())
        } else if a == 'S' && b == 'W' {
            Some("남서".to_owned())
        } else if a == 'N' && b == 'W' {
            Some("북서".to_owned())
        } else {
            None
        }
    } else if n == 3 {
        let a = u.get_char(0);
        let b = u.get_char(1);
        let c = u.get_char(2);
        if a == 'N' && b == 'N' && c == 'E' {
            Some("북북동".to_owned())
        } else if a == 'E' && b == 'N' && c == 'E' {
            Some("동북동".to_owned())
        } else if a == 'E' && b == 'S' && c == 'E' {
            Some("동남동".to_owned())
        } else if a == 'S' && b == 'S' && c == 'E' {
            Some("남남동".to_owned())
        } else if a == 'S' && b == 'S' && c == 'W' {
            Some("남남서".to_owned())
        } else if a == 'W' && b == 'S' && c == 'W' {
            Some("서남서".to_owned())
        } else if a == 'W' && b == 'N' && c == 'W' {
            Some("서북서".to_owned())
        } else if a == 'N' && b == 'N' && c == 'W' {
            Some("북북서".to_owned())
        } else {
            None
        }
    } else {
        None
    }
}

/// Translate a compass-point abbreviation, in any letter case, to its
/// display name: the point is uppercased and matched against the sixteen
/// points of the compass rose.
pub fn translate_cardinal_point(point: String) -> (r: Option<String>)
    ensures
        match direction_name(upper_of(point@)) {
            Some(v) => r matches Some(name) && name@ == v,
            None => r is None,
        },
{
    let up = to_upper(point.as_str());
    match_direction(up.as_str())
}

} // verus!
