//! A capability that transforms one value into another of the same type and
//! describes itself, with a processor that multiplies by a fixed factor.
use vstd::prelude::*;
use vstd::string::StringExecFns;

verus! {

/// A transformation of values of type `T` that can describe itself.
pub trait DataProcessor<T> {
    /// Whether `data` lies in the domain of `process`.
    spec fn can_process(&self, data: T) -> bool;

    /// The value that `process` returns on `data`.
    spec fn processed(&self, data: T) -> T;

    /// The text that `describe` returns.
    spec fn description(&self) -> Seq<char>;

    /// Transforms `data`; the processor itself is left as it was.
    fn process(&self, data: T) -> (r: T)
        requires
            self.can_process(data),
        ensures
            r == self.processed(data),
    ;

    /// A label that names the processor and its parameters.
    fn describe(&self) -> (r: String)
        ensures
            r@ == self.description(),
    ;
}

/// Multiplies every input by `multiplier`.
pub struct NumberProcessor<T> {
    pub multiplier: T,
    pub name: String,
}

/// The decimal digits of `n`, most significant first.
pub open spec fn digits(n: nat) -> Seq<char>
    decreases n,
{
    if n < 10 {
        seq![digit_char(n)]
    } else {
        digits(n / 10).push(digit_char(n % 10))
    }
}

/// The character of one decimal digit.
pub open spec fn digit_char(d: nat) -> char {
    if d <= 9 {
        (('0' as u8) + (d as u8)) as char
    } else {
        '?'
    }
}

/// `n` written in decimal, with a leading minus sign when it is negative.
pub open spec fn decimal(n: int) -> Seq<char> {
    if n < 0 {
        seq!['-'] + digits((-n) as nat)
    } else {
        digits(n as nat)
    }
}

/// The label of a processor named `name` whose multiplier is written `m`.
pub open spec fn processor_label(name: Seq<char>, m: Seq<char>) -> Seq<char> {
    name + " Processor (multiplier: "@ + m + ")"@
}

/// Relies on `i32`'s `Display` through `ToString`: the shortest decimal form,
/// with a minus sign for negative values.
#[verifier::external_body]
fn i32_text(n: i32) -> (r: String)
    ensures
        r@ == decimal(n as int),
{
    n.to_string()
}

/// Relies on `i64`'s `Display` through `ToString`: the shortest decimal form,
/// with a minus sign for negative values.
#[verifier::external_body]
fn i64_text(n: i64) -> (r: String)
    ensures
        r@ == decimal(n as int),
{
    n.to_string()
}

/// Joins a processor's name and its multiplier's text into its label.
fn label(name: &String, m: String) -> (r: String)
    ensures
        r@ == processor_label(name@, m@),
{
    proof {
        reveal_strlit(" Processor (multiplier: ");
        reveal_strlit(")");
    }
    let s = name.clone();
    let s = s.concat(" Processor (multiplier: ");
    let s = s.concat(m.as_str());
    s.concat(")")
}

impl DataProcessor<i32> for NumberProcessor<i32> {
    open spec fn can_process(&self, data: i32) -> bool {
        i32::MIN <= data * self.multiplier <= i32::MAX
    }

    open spec fn processed(&self, data: i32) -> i32 {
        (data * self.multiplier) as i32
    }

    open spec fn description(&self) -> Seq<char> {
        processor_label(self.name@, decimal(self.multiplier as int))
    }

    fn process(&self, data: i32) -> (r: i32) {
        data * self.multiplier
    }

    fn describe(&self) -> (r: String) {
        label(&self.name, i32_text(self.multiplier))
    }
}

impl DataProcessor<i64> for NumberProcessor<i64> {
    open spec fn can_process(&self, data: i64) -> bool {
        i64::MIN <= data * self.multiplier <= i64::MAX
    }

    open spec fn processed(&self, data: i64) -> i64 {
        (data * self.multiplier) as i64
    }

    open spec fn description(&self) -> Seq<char> {
        processor_label(self.name@, decimal(self.multiplier as int))
    }

    fn process(&self, data: i64) -> (r: i64) {
        data * self.multiplier
    }

    fn describe(&self) -> (r: String) {
        label(&self.name, i64_text(self.multiplier))
    }
}

/// Describing a processor gives the same text on every call: two results of
/// `describe` on one processor are equal, and so are those of two processors
/// with the same name and multiplier.
pub proof fn describe_is_idempotent(
    p: NumberProcessor<i32>,
    q: NumberProcessor<i32>,
    first: Seq<char>,
    second: Seq<char>,
)
    requires
        first == p.description(),
        second == p.description(),
    ensures
        first == second,
        q.name@ == p.name@ && q.multiplier == p.multiplier ==> q.description() == first,
{
}

/// Deferring the work never alters it: what `process_data` returns for a
/// multiplying processor is the input times the multiplier.
pub proof fn deferred_result_is_product(p: NumberProcessor<i32>, data: i32, r: i32)
    requires
        p.can_process(data),
        r == p.processed(data),
    ensures
        r == data * p.multiplier,
{
}

/// Applies `processor` to `data`: the deferred stage of a processing run does
/// this once its wait is over, so the result is exactly that of `process`.
pub fn process_data<T, P: DataProcessor<T>>(processor: &P, data: T) -> (r: T)
    requires
        processor.can_process(data),
    ensures
        r == processor.processed(data),
{
    processor.process(data)
}

} // verus!
