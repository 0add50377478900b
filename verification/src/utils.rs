//! Extracting a wall-clock time of the form `HH:MM` from upstream text, and
//! placing it on today's local date.

use vstd::prelude::*;
use crate::clock::local_today_at;

verus! {

/// An ASCII decimal digit.
pub open spec fn is_clock_digit(c: char) -> bool {
    '0' as int <= c as int && c as int <= '9' as int
}

/// The value of an ASCII decimal digit.
pub open spec fn digit_val(c: char) -> int {
    c as int - '0' as int
}

/// Two digits, a colon, two digits, starting at position `i`.
pub open spec fn hhmm_at(s: Seq<char>, i: int) -> bool {
    &&& 0 <= i
    &&& i + 5 <= s.len()
    &&& is_clock_digit(s[i])
    &&& is_clock_digit(s[i + 1])
    &&& s[i + 2] == ':'
    &&& is_clock_digit(s[i + 3])
    &&& is_clock_digit(s[i + 4])
}

/// The value of the two digits starting at position `i`.
pub open spec fn two_digits(s: Seq<char>, i: int) -> int {
    10 * digit_val(s[i]) + digit_val(s[i + 1])
}

/// Relies on the regex crate: `captures` with the pattern
/// `([0-9]{2}):([0-9]{2})` yields the leftmost match of the haystack, with
/// the two two-digit groups, or `None` when nothing in the haystack matches.
#[verifier::external_body]
fn find_hhmm(text: &str) -> (r: Option<(u32, u32)>)
    ensures
        r matches Some(hm) ==> exists|i: int|
            {
                &&& #[trigger] hhmm_at(text@, i)
                &&& hm.0 == two_digits(text@, i)
                &&& hm.1 == two_digits(text@, i + 3)
                &&& forall|j: int| 0 <= j < i ==> !(#[trigger] hhmm_at(text@, j))
            },
        r is None ==> forall|i: int| !(#[trigger] hhmm_at(text@, i)),
{
    let re = regex::Regex::new("([0-9]{2}):([0-9]{2})").unwrap();
    match re.captures(text) {
        Some(caps) => {
            let h = caps[1].parse::<u32>().unwrap();
            let m = caps[2].parse::<u32>().unwrap();
            Some((h, m))
        },
        None => None,
    }
}

/// The instant, on today's local date, of the first wall-clock time of the
/// form `HH:MM` found in `text`; `None` when no such time stands in the
/// text, when the first one found is no valid time of day, or when that time
/// does not exist on today's local calendar.
pub fn hhmm_to_timestamp_millis(text: &str) -> (r: Option<i64>)
    ensures
        (forall|i: int| !(#[trigger] hhmm_at(text@, i))) ==> r is None,
        r is Some ==> exists|i: int|
            {
                &&& #[trigger] hhmm_at(text@, i)
                &&& two_digits(text@, i) < 24
                &&& two_digits(text@, i + 3) < 60
                &&& forall|j: int| 0 <= j < i ==> !(#[trigger] hhmm_at(text@, j))
            },
{
    match find_hhmm(text) {
        None => None,
        Some((h, m)) => {
            if h < 24 && m < 60 {
                proof {
                    let i = choose|i: int|
                        {
                            &&& #[trigger] hhmm_at(text@, i)
                            &&& h == two_digits(text@, i)
                            &&& m == two_digits(text@, i + 3)
                            &&& forall|j: int| 0 <= j < i ==> !(#[trigger] hhmm_at(text@, j))
                        };
                    assert(hhmm_at(text@, i) && two_digits(text@, i) < 24 && two_digits(
                        text@,
                        i + 3,
                    ) < 60 && (forall|j: int| 0 <= j < i ==> !(#[trigger] hhmm_at(text@, j))));
                }
                local_today_at(h, m)
            } else {
                None
            }
        },
    }
}

} // verus!
