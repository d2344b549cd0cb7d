//! The action parser: a deterministic, total function from the raw argument
//! list to a typed `Action` or a descriptive `ParseError`. The intended
//! meaning is written once, as the spec function `parse_spec`, and the
//! executable parser is proved to return exactly what it says.

use vstd::prelude::*;
use crate::types::{
    Action, ActionModel, ParseError, ParseErrorModel, State, action_model, parse_error_model,
};

verus! {

/// Whether a character is an ASCII decimal digit.
pub open spec fn is_digit_char(c: char) -> bool {
    48 <= c as int <= 57
}

/// The value of an ASCII decimal digit character.
pub open spec fn digit_val(c: char) -> nat {
    (c as int - 48) as nat
}

/// The non-negative integer a digit sequence denotes in base ten.
pub open spec fn dec_value(s: Seq<char>) -> nat
    decreases s.len(),
{
    if s.len() == 0 {
        0
    } else {
        dec_value(s.drop_last()) * 10 + digit_val(s.last())
    }
}

/// Whether every character of the sequence is an ASCII decimal digit.
pub open spec fn all_digit_chars(s: Seq<char>) -> bool {
    forall|i: int| 0 <= i < s.len() ==> is_digit_char(s[i])
}

/// The digit part of a numeral: one optional leading `+` sign is dropped,
/// everything else stands as it is.
pub open spec fn numeral_digits(s: Seq<char>) -> Seq<char> {
    if s.len() > 0 && s[0] == '+' {
        s.subrange(1, s.len() as int)
    } else {
        s
    }
}

/// The non-negative integer a numeral denotes: the base-ten value of its
/// digit part.
pub open spec fn numeral_value(s: Seq<char>) -> nat {
    dec_value(numeral_digits(s))
}

/// Whether the sequence is a well-formed decimal numeral for a `u32`: one
/// optional leading `+`, then at least one digit, nothing else, and within
/// range — exactly what `u32` reads from a string. Negative, fractional and
/// overflowing numerals are rejected alike.
pub open spec fn is_u32_numeral(s: Seq<char>) -> bool {
    &&& numeral_digits(s).len() > 0
    &&& all_digit_chars(numeral_digits(s))
    &&& dec_value(numeral_digits(s)) <= u32::MAX
}

/// A longer digit prefix never denotes a smaller value.
proof fn lemma_dec_value_take_monotone(s: Seq<char>, i: int, j: int)
    requires
        0 <= i <= j <= s.len(),
    ensures
        dec_value(s.take(i)) <= dec_value(s.take(j)),
    decreases j - i,
{
    if i < j {
        lemma_dec_value_take_monotone(s, i, j - 1);
        assert(s.take(j).drop_last() =~= s.take(j - 1));
    }
}

/// The filter a `list`/`show` token denotes, if any: the fixed vocabulary
/// `all`, `todo`, `done`, `drop`, matched case-sensitively.
pub open spec fn filter_of(tok: Seq<char>) -> Option<State> {
    if tok == "all"@ {
        Some(State::All)
    } else if tok == "todo"@ {
        Some(State::Pending)
    } else if tok == "done"@ {
        Some(State::Done)
    } else if tok == "drop"@ {
        Some(State::Dropped)
    } else {
        None
    }
}

/// What parsing an argument list means. `args` is the whole argument vector,
/// program name first; the verb stands at index 1 and its argument, if any,
/// at index 2. Later arguments are ignored.
pub open spec fn parse_spec(args: Seq<Seq<char>>) -> Result<ActionModel, ParseErrorModel> {
    if args.len() < 2 {
        Err(ParseErrorModel::MissingVerb)
    } else {
        let verb = args[1];
        if verb == "help"@ {
            Ok(ActionModel::Help)
        } else if verb == "list"@ || verb == "show"@ {
            if args.len() < 3 {
                Ok(ActionModel::List(State::Pending))
            } else {
                match filter_of(args[2]) {
                    Some(f) => Ok(ActionModel::List(f)),
                    None => Err(ParseErrorModel::UnknownFilter(args[2])),
                }
            }
        } else if verb == "add"@ {
            if args.len() < 3 {
                Err(ParseErrorModel::MissingArgument)
            } else {
                Ok(ActionModel::Add(args[2]))
            }
        } else if verb == "done"@ {
            if args.len() < 3 {
                Err(ParseErrorModel::MissingArgument)
            } else if is_u32_numeral(args[2]) {
                Ok(ActionModel::Done(numeral_value(args[2]) as u32))
            } else {
                Err(ParseErrorModel::NotANumber(args[2]))
            }
        } else if verb == "drop"@ {
            if args.len() < 3 {
                Err(ParseErrorModel::MissingArgument)
            } else if is_u32_numeral(args[2]) {
                Ok(ActionModel::Drop(numeral_value(args[2]) as u32))
            } else {
                Err(ParseErrorModel::NotANumber(args[2]))
            }
        } else {
            Err(ParseErrorModel::UnknownAction(verb))
        }
    }
}

/// The alias law: `show` is `list`. Two argument vectors of the same length
/// that agree everywhere but the verb, where one says `list` and the other
/// `show`, parse to the same result — action or error alike.
pub proof fn lemma_show_is_list(a1: Seq<Seq<char>>, a2: Seq<Seq<char>>)
    requires
        a1.len() == a2.len(),
        a1.len() >= 2,
        a1[1] == "list"@,
        a2[1] == "show"@,
        forall|i: int| 0 <= i < a1.len() && i != 1 ==> a1[i] == a2[i],
    ensures
        parse_spec(a1) == parse_spec(a2),
{
    reveal_strlit("list");
    reveal_strlit("show");
    reveal_strlit("help");
    assert(("list"@)[0] != ("help"@)[0]);
    assert(("show"@)[0] != ("help"@)[0]);
    if a1.len() >= 3 {
        assert(a1[2] == a2[2]);
    }
}

/// The default-filter law: `list` with no argument means `list todo`. A
/// two-argument vector whose verb is `list` (or `show`) parses to the same
/// result as the same vector extended with the token `todo`.
pub proof fn lemma_list_default_is_todo(a: Seq<Seq<char>>)
    requires
        a.len() == 2,
        a[1] == "list"@ || a[1] == "show"@,
    ensures
        parse_spec(a) == parse_spec(a.push("todo"@)),
{
    reveal_strlit("list");
    reveal_strlit("show");
    reveal_strlit("help");
    reveal_strlit("todo");
    reveal_strlit("all");
    reveal_strlit("done");
    reveal_strlit("drop");
    assert(("list"@)[0] != ("help"@)[0]);
    assert(("show"@)[0] != ("help"@)[0]);
    assert(a.push("todo"@)[1] == a[1]);
    assert(a.push("todo"@)[2] == "todo"@);
    assert(("todo"@)[0] != ("done"@)[0]);
    assert(("todo"@)[0] != ("drop"@)[0]);
    assert(("todo"@).len() != ("all"@).len());
    assert(filter_of("todo"@) == Some(State::Pending));
}

/// Whether a string slice equals a literal, decided on the views.
fn str_eq_lit(s: &str, lit: &str) -> (r: bool)
    ensures
        r == (s@ == lit@),
{
    let a = s.to_owned();
    let b = lit.to_owned();
    a == b
}

/// Parse a string as a non-negative 32-bit integer, exactly as `u32` reads
/// one: an optional leading `+`, then digits. Anything else — empty, a bare
/// or repeated sign, negative, fractional, non-numeric or out of range —
/// fails with `NotANumber` carrying the text.
pub fn parse_str_to_u32(s: &str) -> (r: Result<u32, ParseError>)
    ensures
        r is Ok <==> is_u32_numeral(s@),
        (r matches Ok(n) ==> n == numeral_value(s@)),
        (r matches Err(e) ==> e matches ParseError::NotANumber(t) && t@ == s@),
{
    let len = s.unicode_len();
    let mut start: usize = 0;
    if len > 0 {
        if s.get_char(0) == '+' {
            start = 1;
        }
    }
    let ghost d = numeral_digits(s@);
    proof {
        assert(d =~= s@.subrange(start as int, len as int));
    }
    if start >= len {
        return Err(ParseError::NotANumber(s.to_owned()));
    }
    let mut acc: u32 = 0;
    let mut i: usize = start;
    while i < len
        invariant
            start <= i <= len,
            len == s@.len(),
            d == numeral_digits(s@),
            d == s@.subrange(start as int, len as int),
            forall|k: int| 0 <= k < i - start ==> is_digit_char(d[k]),
            acc == dec_value(d.take(i as int - start as int)),
        decreases len - i,
    {
        let ghost j = i as int - start as int;
        let c = s.get_char(i);
        proof {
            assert(d[j] == s@[i as int]);
        }
        let u = c as u32;
        if u < 48 || u > 57 {
            return Err(ParseError::NotANumber(s.to_owned()));
        }
        let dv: u32 = u - 48;
        proof {
            assert(d.take(j + 1).drop_last() =~= d.take(j));
            assert(d.take(j + 1).last() == d[j]);
        }
        if acc > (u32::MAX - dv) / 10 {
            proof {
                assert(dec_value(d.take(j + 1)) > u32::MAX);
                lemma_dec_value_take_monotone(d, j + 1, d.len() as int);
                assert(d.take(d.len() as int) =~= d);
            }
            return Err(ParseError::NotANumber(s.to_owned()));
        }
        acc = acc * 10 + dv;
        i = i + 1;
    }
    proof {
        assert(d.take(len as int - start as int) =~= d);
    }
    Ok(acc)
}

/// Resolve a `list`/`show` filter token: exactly the four fixed tokens
/// succeed, and anything else fails with `UnknownFilter` carrying the token.
pub fn get_state(s: &str) -> (r: Result<State, ParseError>)
    ensures
        r is Ok <==> filter_of(s@) is Some,
        (r matches Ok(f) ==> filter_of(s@) == Some(f)),
        (r matches Err(e) ==> e matches ParseError::UnknownFilter(t) && t@ == s@),
{
    if str_eq_lit(s, "all") {
        Ok(State::All)
    } else if str_eq_lit(s, "todo") {
        Ok(State::Pending)
    } else if str_eq_lit(s, "done") {
        Ok(State::Done)
    } else if str_eq_lit(s, "drop") {
        Ok(State::Dropped)
    } else {
        Err(ParseError::UnknownFilter(s.to_owned()))
    }
}

/// Parse the raw argument vector (program name first) into exactly one
/// `Action`, or the specific `ParseError` the argument shape calls for —
/// precisely as `parse_spec` says.
pub fn parse_actions(args: &Vec<String>) -> (r: Result<Action, ParseError>)
    ensures
        r is Ok <==> parse_spec(args.deep_view()) is Ok,
        (r matches Ok(a) ==> action_model(a) == parse_spec(args.deep_view())->Ok_0),
        (r matches Err(e) ==> parse_error_model(e) == parse_spec(args.deep_view())->Err_0),
{
    proof {
        assert(forall|i: int|
            0 <= i < args@.len() ==> #[trigger] args.deep_view()[i] == args@[i]@);
    }
    if args.len() < 2 {
        return Err(ParseError::MissingVerb);
    }
    let verb: &str = args[1].as_str();
    if str_eq_lit(verb, "help") {
        Ok(Action::Help)
    } else if str_eq_lit(verb, "list") || str_eq_lit(verb, "show") {
        if args.len() < 3 {
            Ok(Action::List(State::Pending))
        } else {
            match get_state(args[2].as_str()) {
                Ok(f) => Ok(Action::List(f)),
                Err(e) => Err(e),
            }
        }
    } else if str_eq_lit(verb, "add") {
        if args.len() < 3 {
            Err(ParseError::MissingArgument)
        } else {
            Ok(Action::Add(args[2].clone()))
        }
    } else if str_eq_lit(verb, "done") {
        if args.len() < 3 {
            Err(ParseError::MissingArgument)
        } else {
            match parse_str_to_u32(args[2].as_str()) {
                Ok(n) => Ok(Action::Done(n)),
                Err(e) => Err(e),
            }
        }
    } else if str_eq_lit(verb, "drop") {
        if args.len() < 3 {
            Err(ParseError::MissingArgument)
        } else {
            match parse_str_to_u32(args[2].as_str()) {
                Ok(n) => Ok(Action::Drop(n)),
                Err(e) => Err(e),
            }
        }
    } else {
        Err(ParseError::UnknownAction(args[1].clone()))
    }
}

} // verus!

