//! Human-readable rendering of elapsed times reported by the service.
//!
//! A millisecond count is shown in one of three tiers: seconds only while
//! under a minute, minutes and seconds while under an hour, and hours and
//! minutes from an hour up.

use vstd::prelude::*;

use crate::strutil::{spec_dec, u64_to_dec};

verus! {

/// The seconds-only rendering, used below one minute.
pub open spec fn spec_seconds_form(ms: u64) -> Seq<char> {
    spec_dec(ms as nat / 1000) + " сек."@
}

/// The minutes-and-seconds rendering, used from one minute up to an hour.
pub open spec fn spec_minutes_form(ms: u64) -> Seq<char> {
    spec_dec(ms as nat / 1000 / 60) + " мин. "@ + spec_dec(ms as nat / 1000 % 60) + " сек."@
}

/// The hours-and-minutes rendering, used from one hour up.
pub open spec fn spec_hours_form(ms: u64) -> Seq<char> {
    spec_dec(ms as nat / 1000 / 60 / 60) + " ч. "@ + spec_dec(ms as nat / 1000 / 60 % 60)
        + " м."@
}

/// What `format_milliseconds` returns: the tier is chosen by the number of
/// whole seconds, then whole minutes.
pub open spec fn spec_format_milliseconds(ms: u64) -> Seq<char> {
    if ms as nat / 1000 < 60 {
        spec_seconds_form(ms)
    } else if ms as nat / 1000 / 60 < 60 {
        spec_minutes_form(ms)
    } else {
        spec_hours_form(ms)
    }
}

/// Renders a millisecond count for a human reader.  Total: every input has
/// exactly one of the three renderings.
pub fn format_milliseconds(ms: u64) -> (r: String)
    ensures
        r@ == spec_format_milliseconds(ms),
{
    let seconds = ms / 1000;
    if seconds < 60 {
        let mut r = u64_to_dec(seconds);
        r.append(" сек.");
        proof {
            assert(r@ =~= spec_format_milliseconds(ms));
        }
        r
    } else {
        let minutes = seconds / 60;
        let remaining_seconds = seconds % 60;
        if minutes < 60 {
            let mut r = u64_to_dec(minutes);
            r.append(" мин. ");
            let rs = u64_to_dec(remaining_seconds);
            r.append(rs.as_str());
            r.append(" сек.");
            proof {
                assert(r@ =~= spec_format_milliseconds(ms));
            }
            r
        } else {
            let hours = minutes / 60;
            let remaining_minutes = minutes % 60;
            let mut r = u64_to_dec(hours);
            r.append(" ч. ");
            let rm = u64_to_dec(remaining_minutes);
            r.append(rm.as_str());
            r.append(" м.");
            proof {
                assert(r@ =~= spec_format_milliseconds(ms));
            }
            r
        }
    }
}

/// Some index of `s` holds the character `c`.
pub open spec fn spec_seq_has_char(s: Seq<char>, c: char) -> bool {
    exists|i: int| 0 <= i < s.len() && s[i] == c
}

/// A decimal rendering is never empty and holds digit characters only.
proof fn lemma_dec_digits(n: nat)
    ensures
        spec_dec(n).len() >= 1,
        forall|i: int| 0 <= i < spec_dec(n).len() ==> '0' <= #[trigger] spec_dec(n)[i]
            && spec_dec(n)[i] <= '9',
    decreases n,
{
    if n >= 10 {
        lemma_dec_digits(n / 10);
    }
}

/// The seconds form holds neither the minutes marker nor the hours
/// marker.
proof fn lemma_seconds_form_chars(ms: u64)
    ensures
        !spec_seq_has_char(spec_seconds_form(ms), 'м'),
        !spec_seq_has_char(spec_seconds_form(ms), 'ч'),
{
    let d = spec_dec(ms as nat / 1000);
    lemma_dec_digits(ms as nat / 1000);
    reveal_strlit(" сек.");
    assert forall|i: int|
        0 <= i < spec_seconds_form(ms).len() implies spec_seconds_form(ms)[i] != 'м'
        && spec_seconds_form(ms)[i] != 'ч' by {
        if i < d.len() {
            assert(spec_seconds_form(ms)[i] == d[i]);
        } else {
            assert(spec_seconds_form(ms)[i] == " сек."@[i - d.len()]);
        }
    }
}

/// The minutes form shows the minutes marker right after the minute
/// count, and never the hours marker.
proof fn lemma_minutes_form_chars(ms: u64)
    ensures
        spec_minutes_form(ms).len() > spec_dec(ms as nat / 1000 / 60).len() + 1,
        spec_minutes_form(ms)[spec_dec(ms as nat / 1000 / 60).len() as int + 1] == 'м',
        !spec_seq_has_char(spec_minutes_form(ms), 'ч'),
{
    let dm = spec_dec(ms as nat / 1000 / 60);
    let ds = spec_dec(ms as nat / 1000 % 60);
    lemma_dec_digits(ms as nat / 1000 / 60);
    lemma_dec_digits(ms as nat / 1000 % 60);
    reveal_strlit(" мин. ");
    reveal_strlit(" сек.");
    assert(spec_minutes_form(ms)[dm.len() as int + 1] == " мин. "@[1]);
    assert forall|i: int|
        0 <= i < spec_minutes_form(ms).len() implies spec_minutes_form(ms)[i] != 'ч' by {
        if i < dm.len() {
            assert(spec_minutes_form(ms)[i] == dm[i]);
        } else if i < dm.len() + 6 {
            assert(spec_minutes_form(ms)[i] == " мин. "@[i - dm.len()]);
        } else if i < dm.len() + 6 + ds.len() {
            assert(spec_minutes_form(ms)[i] == ds[i - dm.len() - 6]);
        } else {
            assert(spec_minutes_form(ms)[i] == " сек."@[i - dm.len() - 6 - ds.len()]);
        }
    }
}

/// The hours form shows the hours marker right after the hour count.
proof fn lemma_hours_form_chars(ms: u64)
    ensures
        spec_hours_form(ms).len() > spec_dec(ms as nat / 1000 / 60 / 60).len() + 1,
        spec_hours_form(ms)[spec_dec(ms as nat / 1000 / 60 / 60).len() as int + 1] == 'ч',
{
    let dh = spec_dec(ms as nat / 1000 / 60 / 60);
    lemma_dec_digits(ms as nat / 1000 / 60 / 60);
    lemma_dec_digits(ms as nat / 1000 / 60 % 60);
    reveal_strlit(" ч. ");
    assert(spec_hours_form(ms)[dh.len() as int + 1] == " ч. "@[1]);
}

/// No millisecond count renders the same under two different tiers: the
/// minutes form alone shows the minutes marker without an hours marker,
/// and the hours form alone shows the hours marker.
proof fn lemma_forms_distinct(a: u64, b: u64)
    ensures
        spec_seconds_form(a) != spec_minutes_form(b),
        spec_seconds_form(a) != spec_hours_form(b),
        spec_minutes_form(a) != spec_hours_form(b),
{
    lemma_seconds_form_chars(a);
    lemma_minutes_form_chars(a);
    lemma_minutes_form_chars(b);
    lemma_hours_form_chars(b);
    if spec_seconds_form(a) == spec_minutes_form(b) {
        let k = spec_dec(b as nat / 1000 / 60).len() as int + 1;
        assert(spec_seconds_form(a)[k] == 'м');
        assert(spec_seq_has_char(spec_seconds_form(a), 'м'));
    }
    if spec_seconds_form(a) == spec_hours_form(b) {
        let k = spec_dec(b as nat / 1000 / 60 / 60).len() as int + 1;
        assert(spec_seconds_form(a)[k] == 'ч');
        assert(spec_seq_has_char(spec_seconds_form(a), 'ч'));
    }
    if spec_minutes_form(a) == spec_hours_form(b) {
        let k = spec_dec(b as nat / 1000 / 60 / 60).len() as int + 1;
        assert(spec_minutes_form(a)[k] == 'ч');
        assert(spec_seq_has_char(spec_minutes_form(a), 'ч'));
    }
}

/// The tier thresholds in milliseconds: the seconds form is used exactly
/// below one minute, the minutes form exactly from one minute up to an
/// hour, and the hours form exactly from an hour on.
pub proof fn lemma_format_milliseconds_tiers(ms: u64)
    ensures
        (spec_format_milliseconds(ms) == spec_seconds_form(ms)) <==> ms < 60000,
        (spec_format_milliseconds(ms) == spec_minutes_form(ms)) <==> (60000 <= ms < 3600000),
        (spec_format_milliseconds(ms) == spec_hours_form(ms)) <==> ms >= 3600000,
{
    vstd::arithmetic::div_mod::lemma_div_denominator(ms as int, 1000, 60);
    assert(ms as nat / 1000 / 60 == ms as nat / 60000);
    assert(ms < 60000 ==> ms as nat / 1000 < 60) by (nonlinear_arith);
    assert(ms >= 60000 ==> ms as nat / 1000 >= 60) by (nonlinear_arith);
    assert(ms < 3600000 ==> ms as nat / 60000 < 60) by (nonlinear_arith);
    assert(ms >= 3600000 ==> ms as nat / 60000 >= 60) by (nonlinear_arith);
    lemma_forms_distinct(ms, ms);
}

} // verus!
