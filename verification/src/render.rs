//! Rendering for the entry point: the listing line of a task is its id in
//! decimal followed by a space and the description, and the decimal numeral
//! itself is specified and proved digit by digit.

use vstd::prelude::*;
use crate::parser::{dec_value, digit_val, is_digit_char, is_u32_numeral};
use crate::types::Task;

verus! {

/// The decimal digit character of a value below ten.
pub open spec fn digit_char(d: nat) -> char {
    if d == 0 {
        '0'
    } else if d == 1 {
        '1'
    } else if d == 2 {
        '2'
    } else if d == 3 {
        '3'
    } else if d == 4 {
        '4'
    } else if d == 5 {
        '5'
    } else if d == 6 {
        '6'
    } else if d == 7 {
        '7'
    } else if d == 8 {
        '8'
    } else {
        '9'
    }
}

/// The decimal numeral of a number, most significant digit first, with no
/// leading zeros (zero itself is the single digit `0`).
pub open spec fn dec_digits(n: nat) -> Seq<char>
    decreases n,
{
    if n < 10 {
        seq![digit_char(n)]
    } else {
        dec_digits(n / 10).push(digit_char(n % 10))
    }
}

/// The ids a listing shows are the ids the parser accepts back: the decimal
/// numeral of any 32-bit id is a well-formed numeral and denotes that id
/// itself, so `done`/`drop` on a listed id always names the listed task.
pub proof fn lemma_numeral_round_trip(n: u32)
    ensures
        dec_digits(n as nat).len() > 0,
        crate::parser::all_digit_chars(dec_digits(n as nat)),
        dec_value(dec_digits(n as nat)) == n,
        is_u32_numeral(dec_digits(n as nat)),
    decreases n,
{
    lemma_digit_char_val((n % 10) as nat);
    if n < 10 {
        let s = dec_digits(n as nat);
        assert(s == seq![digit_char(n as nat)]);
        assert(s.drop_last() =~= Seq::<char>::empty());
        assert(dec_value(Seq::<char>::empty()) == 0);
        assert(dec_value(s) == digit_val(digit_char(n as nat)));
    } else {
        lemma_numeral_round_trip(n / 10);
        let rest = dec_digits((n / 10) as nat);
        let s = dec_digits(n as nat);
        assert(s == rest.push(digit_char((n % 10) as nat)));
        assert(s.drop_last() =~= rest);
        assert(s.last() == digit_char((n % 10) as nat));
        assert(dec_value(s) == dec_value(rest) * 10 + digit_val(digit_char((n % 10) as nat)));
        assert(dec_value(s) == (n / 10) * 10 + n % 10);
        assert forall|i: int| 0 <= i < s.len() implies is_digit_char(s[i]) by {
            if i < s.len() - 1 {
                assert(s[i] == rest[i]);
                assert(is_digit_char(rest[i]));
            } else {
                assert(s[i] == digit_char((n % 10) as nat));
            }
        }
    }
    let s = dec_digits(n as nat);
    assert(s.len() > 0);
    assert(crate::parser::all_digit_chars(s));
    assert(dec_value(s) == n);
    assert(is_digit_char(s[0]));
    assert(s[0] != '+');
    assert(crate::parser::numeral_digits(s) == s);
}

/// Each digit character is a digit and reads back as its own value.
proof fn lemma_digit_char_val(d: nat)
    requires
        d < 10,
    ensures
        is_digit_char(digit_char(d)),
        digit_val(digit_char(d)) == d,
{
}

/// The single-character string of one decimal digit.
fn digit_str(d: u32) -> (s: &'static str)
    requires
        d < 10,
    ensures
        s@ == seq![digit_char(d as nat)],
{
    let s = if d == 0 {
        "0"
    } else if d == 1 {
        "1"
    } else if d == 2 {
        "2"
    } else if d == 3 {
        "3"
    } else if d == 4 {
        "4"
    } else if d == 5 {
        "5"
    } else if d == 6 {
        "6"
    } else if d == 7 {
        "7"
    } else if d == 8 {
        "8"
    } else {
        "9"
    };
    proof {
        reveal_strlit("0");
        reveal_strlit("1");
        reveal_strlit("2");
        reveal_strlit("3");
        reveal_strlit("4");
        reveal_strlit("5");
        reveal_strlit("6");
        reveal_strlit("7");
        reveal_strlit("8");
        reveal_strlit("9");
        assert(s@ =~= seq![digit_char(d as nat)]);
    }
    s
}

/// Append the decimal numeral of `n` to the string.
fn push_dec(n: u32, out: &mut String)
    ensures
        final(out)@ == old(out)@ + dec_digits(n as nat),
    decreases n,
{
    if n >= 10 {
        push_dec(n / 10, out);
        out.append(digit_str(n % 10));
        proof {
            assert(old(out)@ + dec_digits((n / 10) as nat) + seq![digit_char((n % 10) as nat)]
                =~= old(out)@ + dec_digits(n as nat));
        }
    } else {
        out.append(digit_str(n));
        proof {
            assert(old(out)@ + seq![digit_char(n as nat)] =~= old(out)@ + dec_digits(n as nat));
        }
    }
}

/// The listing line of a task: its id in decimal, one space, and the
/// description, verbatim.
pub open spec fn rendered(t: Task) -> Seq<char> {
    dec_digits(t.id as nat) + seq![' '] + t.description@
}

impl Task {
    /// The listing line: the id in decimal, a space, and the description.
    pub fn print(&self) -> (out: String)
        ensures
            out@ == rendered(*self),
    {
        let mut out = String::new();
        push_dec(self.id, &mut out);
        out.append(" ");
        out.append(self.description.as_str());
        proof {
            reveal_strlit(" ");
            assert(" "@ =~= seq![' ']);
            assert(out@ =~= rendered(*self));
        }
        out
    }
}

/// The listing lines of a task sequence, one line per task, in order.
pub fn render_tasks(tasks: &Vec<Task>) -> (lines: Vec<String>)
    ensures
        lines@.len() == tasks@.len(),
        forall|i: int| 0 <= i < tasks@.len() ==> (#[trigger] lines@[i])@ == rendered(tasks@[i]),
{
    let n = tasks.len();
    let mut lines: Vec<String> = Vec::new();
    let mut i: usize = 0;
    while i < n
        invariant
            n == tasks@.len(),
            0 <= i <= n,
            lines@.len() == i,
            forall|k: int| 0 <= k < i ==> (#[trigger] lines@[k])@ == rendered(tasks@[k]),
        decreases n - i,
    {
        let line = tasks[i].print();
        lines.push(line);
        i = i + 1;
    }
    lines
}

} // verus!
