//! Rendering of a millisecond duration as English text, e.g.
//! `1 day, 2 hours, and 5 seconds`.
use vstd::prelude::*;
use vstd::string::*;

use crate::text::{dec_str, join_with, lemma_join_with_push, singular_or_plural_u64, u64_to_string};

verus! {

pub const MILLIS_PER_SECOND: u64 = 1000;

pub const MILLIS_PER_MINUTE: u64 = 60000;

pub const MILLIS_PER_HOUR: u64 = 3600000;

pub const MILLIS_PER_DAY: u64 = 86400000;

/// One component of the rendering: the count, a space, and the unit name,
/// pluralized unless the count is exactly one.
pub open spec fn unit_part(n: int, unit: Seq<char>) -> Seq<char> {
    dec_str(n as nat) + " "@ + unit + (if n == 1 {
        Seq::<char>::empty()
    } else {
        "s"@
    })
}

/// The non-zero components of a duration, largest unit first. Units are chained:
/// each smaller unit counts only the remainder left by the larger ones.
pub open spec fn duration_parts(millis: int) -> Seq<Seq<char>> {
    let days = millis / 86400000;
    let hours = (millis / 3600000) % 24;
    let minutes = (millis / 60000) % 60;
    let seconds = (millis / 1000) % 60;
    (if days > 0 {
        seq![unit_part(days, "day"@)]
    } else {
        Seq::empty()
    }) + (if hours > 0 {
        seq![unit_part(hours, "hour"@)]
    } else {
        Seq::empty()
    }) + (if minutes > 0 {
        seq![unit_part(minutes, "minute"@)]
    } else {
        Seq::empty()
    }) + (if seconds > 0 {
        seq![unit_part(seconds, "second"@)]
    } else {
        Seq::empty()
    })
}

/// An English list: one part stands alone, two are joined with ` and `, and
/// three or more keep a comma before the final ` and ` as well.
pub open spec fn list_text(parts: Seq<Seq<char>>) -> Seq<char> {
    if parts.len() == 0 {
        Seq::empty()
    } else if parts.len() == 1 {
        parts[0]
    } else {
        join_with(parts.take(parts.len() - 1), ", "@) + (if parts.len() >= 3 {
            ","@
        } else {
            Seq::<char>::empty()
        }) + " and "@ + parts.last()
    }
}

/// The full rendering: the non-zero components as an English list, or the
/// literal `0 seconds` when every component is zero.
pub open spec fn duration_text(millis: int) -> Seq<char> {
    let parts = duration_parts(millis);
    if parts.len() == 0 {
        "0 seconds"@
    } else {
        list_text(parts)
    }
}

fn unit_part_text(n: u64, unit: &str) -> (r: String)
    ensures
        r@ == unit_part(n as int, unit@),
{
    let mut r = u64_to_string(n);
    r.append(" ");
    let name = singular_or_plural_u64(unit, n);
    r.append(name.as_str());
    proof {
        assert(r@ =~= unit_part(n as int, unit@));
    }
    r
}

fn list_join(parts: &Vec<String>) -> (r: String)
    requires
        parts.len() >= 1,
    ensures
        r@ == list_text(parts.deep_view()),
{
    let n = parts.len();
    if n == 1 {
        return parts[0].clone();
    }
    let mut r = parts[0].clone();
    let mut i: usize = 1;
    proof {
        assert(parts.deep_view().take(1) =~= seq![parts.deep_view()[0]]);
    }
    while i < n - 1
        invariant
            1 <= i <= n - 1,
            n == parts.len() >= 2,
            parts.deep_view().len() == n,
            r@ == join_with(parts.deep_view().take(i as int), ", "@),
        decreases n - i,
    {
        r.append(", ");
        r.append(parts[i].as_str());
        proof {
            let dv = parts.deep_view();
            lemma_join_with_push(dv.take(i as int), ", "@, dv[i as int]);
            assert(dv.take(i + 1) =~= dv.take(i as int).push(dv[i as int]));
        }
        i = i + 1;
    }
    if n >= 3 {
        r.append(",");
    }
    r.append(" and ");
    r.append(parts[n - 1].as_str());
    proof {
        assert(r@ =~= list_text(parts.deep_view()));
    }
    r
}

/// Renders a non-negative duration in milliseconds as English text, as
/// `duration_text` states: non-zero units from days down to seconds, or
/// `0 seconds` when the duration rounds down to nothing.
pub fn as_text(millis: i64) -> (r: String)
    requires
        millis >= 0,
    ensures
        r@ == duration_text(millis as int),
{
    let ms = millis as u64;
    let days = ms / MILLIS_PER_DAY;
    let hours = (ms / MILLIS_PER_HOUR) % 24;
    let minutes = (ms / MILLIS_PER_MINUTE) % 60;
    let seconds = (ms / MILLIS_PER_SECOND) % 60;
    let mut parts: Vec<String> = Vec::new();
    if days > 0 {
        let p = unit_part_text(days, "day");
        parts.push(p);
    }
    if hours > 0 {
        let p = unit_part_text(hours, "hour");
        parts.push(p);
    }
    if minutes > 0 {
        let p = unit_part_text(minutes, "minute");
        parts.push(p);
    }
    if seconds > 0 {
        let p = unit_part_text(seconds, "second");
        parts.push(p);
    }
    proof {
        assert(parts.deep_view() =~= duration_parts(millis as int));
    }
    if parts.len() == 0 {
        String::from_str("0 seconds")
    } else {
        list_join(&parts)
    }
}

} // verus!
