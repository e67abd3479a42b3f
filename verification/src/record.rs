//! The textual form of the output: a header and one line per record.

use vstd::prelude::*;
use vstd::string::StringExecFns;
use crate::delta::Delta;
use crate::metrics::DerivedMetrics;

verus! {

/// The text of one decimal digit.
pub open spec fn digit_text(d: nat) -> Seq<char> {
    if d == 0 {
        "0"@
    } else if d == 1 {
        "1"@
    } else if d == 2 {
        "2"@
    } else if d == 3 {
        "3"@
    } else if d == 4 {
        "4"@
    } else if d == 5 {
        "5"@
    } else if d == 6 {
        "6"@
    } else if d == 7 {
        "7"@
    } else if d == 8 {
        "8"@
    } else {
        "9"@
    }
}

/// A natural number in decimal, without leading zeros.
pub open spec fn decimal(n: nat) -> Seq<char>
    decreases n,
{
    if n < 10 {
        digit_text(n)
    } else {
        decimal(n / 10) + digit_text(n % 10)
    }
}

/// An integer in decimal, with a minus sign where it is below zero.
pub open spec fn signed_decimal(value: int) -> Seq<char> {
    if value < 0 {
        "-"@ + decimal((-value) as nat)
    } else {
        decimal(value as nat)
    }
}

/// The line of one record: the CPU percentage and the memory in MiB, both as
/// the caller rendered them, then the bytes received, sent, read and written,
/// with commas between.
pub open spec fn record_text(cpu: Seq<char>, mem: Seq<char>, metrics: DerivedMetrics) -> Seq<
    char,
> {
    cpu + ","@ + mem + ","@ + signed_decimal(metrics.rx_bytes@) + ","@ + signed_decimal(
        metrics.tx_bytes@,
    ) + ","@ + signed_decimal(metrics.read_bytes@) + ","@ + signed_decimal(metrics.write_bytes@)
}

fn digit(d: u128) -> (text: &'static str)
    requires
        d < 10,
    ensures
        text@ == digit_text(d as nat),
{
    if d == 0 {
        "0"
    } else if d == 1 {
        "1"
    } else if d == 2 {
        "2"
    } else if d == 3 {
        "3"
    } else if d == 4 {
        "4"
    } else if d == 5 {
        "5"
    } else if d == 6 {
        "6"
    } else if d == 7 {
        "7"
    } else if d == 8 {
        "8"
    } else {
        "9"
    }
}

fn append_decimal(line: &mut String, n: u128)
    ensures
        final(line)@ == old(line)@ + decimal(n as nat),
    decreases n,
{
    if n >= 10 {
        append_decimal(line, n / 10);
    }
    line.append(digit(n % 10));
    proof {
        if n >= 10 {
            assert(old(line)@ + decimal((n / 10) as nat) + digit_text((n % 10) as nat) =~= old(
                line,
            )@ + (decimal((n / 10) as nat) + digit_text((n % 10) as nat)));
        }
    }
}

fn append_signed(line: &mut String, delta: &Delta)
    ensures
        final(line)@ == old(line)@ + signed_decimal(delta@),
{
    if delta.is_negative() {
        line.append("-");
        append_decimal(line, delta.magnitude);
        proof {
            assert(old(line)@ + "-"@ + decimal(delta.magnitude as nat) =~= old(line)@ + ("-"@
                + decimal(delta.magnitude as nat)));
        }
    } else {
        append_decimal(line, delta.magnitude);
    }
}

/// The column names, in the order of the fields of a record's line.
pub fn header() -> (line: &'static str)
    ensures
        line@ == "cpu,mem,rx,tx,read,write"@,
{
    "cpu,mem,rx,tx,read,write"
}

/// The line of one record. `cpu` and `mem` are the CPU percentage and the
/// memory in MiB as decimal numbers; they stand in the line as they are.
pub fn record_line(cpu: &str, mem: &str, metrics: &DerivedMetrics) -> (line: String)
    ensures
        line@ == record_text(cpu@, mem@, *metrics),
{
    let mut line = String::from_str(cpu);
    line.append(",");
    line.append(mem);
    line.append(",");
    append_signed(&mut line, &metrics.rx_bytes);
    line.append(",");
    append_signed(&mut line, &metrics.tx_bytes);
    line.append(",");
    append_signed(&mut line, &metrics.read_bytes);
    line.append(",");
    append_signed(&mut line, &metrics.write_bytes);
    line
}

} // verus!
