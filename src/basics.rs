//! Small functions on integers and strings.
use vstd::prelude::*;
use vstd::string::{StringExecFns, StringSliceAdditionalSpecFns};
use vstd::utf8::encode_utf8;

verus! {

/// The sum of `a` and `b`.
pub fn add_numbers(a: i32, b: i32) -> (r: i32)
    requires
        i32::MIN <= a + b <= i32::MAX,
    ensures
        r == a + b,
{
    a + b
}

/// Whether `num` is divisible by two.
pub fn is_even(num: i32) -> (r: bool)
    ensures
        r == (num % 2 == 0),
{
    num % 2 == 0
}

/// The length of `s` in bytes of UTF-8.
pub fn calculate_length(s: &String) -> (r: usize)
    ensures
        r == encode_utf8(s@).len() as usize,
{
    s.as_str().len()
}

/// Appends " World!" to `s`.
pub fn change(s: &mut String)
    ensures
        final(s)@ == old(s)@ + " World!"@,
{
    s.append(" World!");
}

/// Whichever of `x` and `y` has more bytes; `y` when they have as many.
pub fn longest<'a>(x: &'a str, y: &'a str) -> (r: &'a str)
    ensures
        r@ == (if x.spec_bytes().len() as usize > y.spec_bytes().len() as usize {
            x@
        } else {
            y@
        }),
{
    if x.len() > y.len() {
        x
    } else {
        y
    }
}

/// The remark on a temperature: above 40 it is extremely hot, above 35 hot.
pub open spec fn temperature_remark(temp: int) -> Seq<char> {
    if temp > 40 {
        "It's extremely hot!"@
    } else if temp > 35 {
        "It's hot!"@
    } else {
        "Not too hot."@
    }
}

/// The remark on `temp` degrees.
pub fn check_temperature(temp: i32) -> (r: &'static str)
    ensures
        r@ == temperature_remark(temp as int),
{
    proof {
        reveal_strlit("It's extremely hot!");
        reveal_strlit("It's hot!");
        reveal_strlit("Not too hot.");
    }
    if temp > 35 {
        if temp > 40 {
            "It's extremely hot!"
        } else {
            "It's hot!"
        }
    } else {
        "Not too hot."
    }
}

/// The name of the weekday numbered `day`, Monday being 1.
pub open spec fn weekday_name(day: int) -> Seq<char> {
    if day == 1 {
        "Monday"@
    } else if day == 2 {
        "Tuesday"@
    } else if day == 3 {
        "Wednesday"@
    } else if day == 4 {
        "Thursday"@
    } else if day == 5 {
        "Friday"@
    } else if day == 6 {
        "Saturday"@
    } else if day == 7 {
        "Sunday"@
    } else {
        "Invalid day"@
    }
}

/// The weekday numbered `day`, or "Invalid day" outside 1 to 7.
pub fn match_day(day: u32) -> (r: &'static str)
    ensures
        r@ == weekday_name(day as int),
{
    proof {
        reveal_strlit("Monday");
        reveal_strlit("Tuesday");
        reveal_strlit("Wednesday");
        reveal_strlit("Thursday");
        reveal_strlit("Friday");
        reveal_strlit("Saturday");
        reveal_strlit("Sunday");
        reveal_strlit("Invalid day");
    }
    match day {
        1 => "Monday",
        2 => "Tuesday",
        3 => "Wednesday",
        4 => "Thursday",
        5 => "Friday",
        6 => "Saturday",
        7 => "Sunday",
        _ => "Invalid day",
    }
}

} // verus!
