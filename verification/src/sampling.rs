//! The sampling policy and the text form of a timing record.
//!
//! The sample count is a fixed step function of the size parameter:
//! large circuits are expensive per sample, so fewer repetitions are taken
//! as the size grows. A timing record is one line of plain text,
//! `"<size>, <average millis>"`, appended to the system's output file.

use vstd::prelude::*;
use vstd::string::*;
use vstd::pervasive::unreached;
use crate::clock::MAX_DURATION_NANOS;
use crate::output::OutputSink;
use crate::output::record_appended;
use crate::registry::System;

verus! {

/// How many timed proving repetitions to run for size parameter `k`.
pub open spec fn spec_sample_size(k: int) -> int {
    if k < 16 {
        20
    } else if k < 20 {
        5
    } else {
        1
    }
}

/// How many timed proving repetitions to run for size parameter `k`.
///
/// The thresholds and counts are a fixed policy; they must stay as they
/// are for output comparability across runs.
pub fn sample_size(k: usize) -> (n: usize)
    ensures
        n == spec_sample_size(k as int),
        1 <= n <= 20,
{
    if k < 16 {
        20
    } else if k < 20 {
        5
    } else {
        1
    }
}

/// The decimal digit character for `d`.
pub open spec fn spec_digit_char(d: int) -> char {
    if d == 0 {
        '0'
    } else if d == 1 {
        '1'
    } else if d == 2 {
        '2'
    } else if d == 3 {
        '3'
    } else if d == 4 {
        '4'
    } else if d == 5 {
        '5'
    } else if d == 6 {
        '6'
    } else if d == 7 {
        '7'
    } else if d == 8 {
        '8'
    } else {
        '9'
    }
}

/// The decimal digit sequence of `n`, most significant digit first,
/// without leading zeros (`0` is written as one digit).
pub open spec fn spec_decimal(n: int) -> Seq<char>
    decreases n,
{
    if n < 10 {
        seq![spec_digit_char(n)]
    } else {
        spec_decimal(n / 10) + seq![spec_digit_char(n % 10)]
    }
}

fn digit_str(d: u128) -> (r: &'static str)
    requires
        d < 10,
    ensures
        r@ == seq![spec_digit_char(d as int)],
{
    proof {
        reveal_strlit("0");
        reveal_strlit("1");
        reveal_strlit("2");
        reveal_strlit("3");
        reveal_strlit("4");
        reveal_strlit("5");
        reveal_strlit("6");
        reveal_strlit("7");
        reveal_strlit("8");
        reveal_strlit("9");
    }
    if d == 0 {
        "0"
    } else if d == 1 {
        "1"
    } else if d == 2 {
        "2"
    } else if d == 3 {
        "3"
    } else if d == 4 {
        "4"
    } else if d == 5 {
        "5"
    } else if d == 6 {
        "6"
    } else if d == 7 {
        "7"
    } else if d == 8 {
        "8"
    } else {
        "9"
    }
}

/// The decimal text of `n`.
pub fn decimal_string(n: u128) -> (r: String)
    ensures
        r@ == spec_decimal(n as int),
    decreases n,
{
    if n < 10 {
        String::from_str(digit_str(n))
    } else {
        let mut s = decimal_string(n / 10);
        s.append(digit_str(n % 10));
        s
    }
}

/// One timing record: the size parameter, a comma and a space, the average
/// elapsed proving time in whole milliseconds, and a line terminator.
pub open spec fn spec_record_line(k: int, millis: int) -> Seq<char> {
    spec_decimal(k) + ", "@ + spec_decimal(millis) + "\n"@
}

/// The text of the timing record for size `k` and average `millis`.
pub fn format_record(k: usize, millis: u128) -> (r: String)
    ensures
        r@ == spec_record_line(k as int, millis as int),
{
    let mut line = decimal_string(k as u128);
    line.append(", ");
    let digits = decimal_string(millis);
    line.append(digits.as_str());
    line.append("\n");
    line
}

/// The average of `n` summed nanosecond durations, in whole milliseconds:
/// the mean duration is taken first, at nanosecond precision, and only
/// then truncated to milliseconds, to avoid premature rounding.
pub open spec fn spec_average_millis(sum_nanos: int, n: int) -> int {
    (sum_nanos / n) / 1_000_000
}

/// Computes the recorded average from the summed durations of `n` samples.
pub fn average_millis(sum_nanos: u128, n: usize) -> (r: u128)
    requires
        1 <= n,
    ensures
        r == spec_average_millis(sum_nanos as int, n as int),
{
    (sum_nanos / (n as u128)) / 1_000_000
}

/// Why a sample run stopped short: the timed operation itself failed, or
/// its timing record could not be written.
#[derive(Debug)]
pub enum SampleError<E, IE> {
    Op(E),
    Io(IE),
}

/// Runs `prove` exactly `sample_size(k)` times, timing each run on the
/// monotonic clock, appends one record with the average elapsed time in
/// whole milliseconds to the output file of `system`, and returns the
/// result of the last run.
///
/// A failed run aborts the sampling at once, before anything is
/// recorded: a single failed proof invalidates the whole sample run.
pub fn sample<T, E, S: OutputSink, F: Fn() -> Result<T, E>>(
    sink: &mut S,
    system: System,
    k: usize,
    prove: F,
) -> (r: Result<T, SampleError<E, S::Error>>)
    requires
        call_requires(prove, ()),
    ensures
        r matches Ok(t) ==> call_ensures(prove, (), Ok::<T, E>(t)),
        r is Ok ==> exists|m: int|
            0 <= m && record_appended(*old(sink), *final(sink), system, k as int, m),
        r matches Err(SampleError::Op(e)) ==> call_ensures(prove, (), Err::<T, E>(e)),
        r matches Err(SampleError::Op(e)) ==> forall|s: System|
            (#[trigger] final(sink).file(s)) == old(sink).file(s),
{
    let n = sample_size(k);
    let mut last: Option<T> = None;
    let mut sum: u128 = 0;
    let mut i: usize = 0;
    while i < n
        invariant
            n == spec_sample_size(k as int),
            1 <= n <= 20,
            i <= n,
            sum <= (i as int) * (MAX_DURATION_NANOS as int),
            i > 0 ==> last is Some,
            last matches Some(t) ==> call_ensures(prove, (), Ok::<T, E>(t)),
            call_requires(prove, ()),
        decreases n - i,
    {
        let start = std::time::Instant::now();
        match prove() {
            Ok(t) => {
                last = Some(t);
            },
            Err(e) => {
                return Err(SampleError::Op(e));
            },
        }
        let elapsed = start.elapsed().as_nanos();
        proof {
            assert(((i as int) + 1) * (MAX_DURATION_NANOS as int) == (i as int) * (
            MAX_DURATION_NANOS as int) + (MAX_DURATION_NANOS as int)) by (nonlinear_arith);
            assert(((i as int) + 1) * (MAX_DURATION_NANOS as int) <= 20 * (
            MAX_DURATION_NANOS as int)) by (nonlinear_arith)
                requires
                    (i as int) + 1 <= 20,
                    0 <= (MAX_DURATION_NANOS as int),
            ;
            assert(20 * (MAX_DURATION_NANOS as int) < u128::MAX as int) by (nonlinear_arith);
        }
        sum = sum + elapsed;
        i = i + 1;
    }
    let millis = average_millis(sum, n);
    match sink.append_record(system, k, millis) {
        Ok(_) => {},
        Err(e) => {
            return Err(SampleError::Io(e));
        },
    }
    proof {
        assert(record_appended(*old(sink), *final(sink), system, k as int, millis as int));
    }
    match last {
        Some(t) => Ok(t),
        None => unreached(),
    }
}

} // verus!
