//! The commands of the todo-list program and how its arguments select them.
use vstd::prelude::*;

verus! {

/// What the todo-list program is asked to do.
pub enum Command {
    Add { name: String },
    List,
    Complete { id: i32 },
}

/// Whether `c` is an ASCII decimal digit.
pub open spec fn is_digit(c: char) -> bool {
    '0' <= c && c <= '9'
}

/// A non-empty run of ASCII decimal digits.
pub open spec fn all_digits(d: Seq<char>) -> bool {
    d.len() > 0 && forall|k: int| 0 <= k < d.len() ==> is_digit(#[trigger] d[k])
}

/// The number that a run of decimal digits spells.
pub open spec fn digits_value(d: Seq<char>) -> int
    decreases d.len(),
{
    if d.len() == 0 {
        0
    } else {
        digits_value(d.drop_last()) * 10 + (d.last() as int - '0' as int)
    }
}

/// The integer that `s` writes in decimal, with an optional leading `+` or
/// `-`, if it writes one.
pub open spec fn decimal_value(s: Seq<char>) -> Option<int> {
    if s.len() > 0 && (s[0] == '+' || s[0] == '-') {
        if all_digits(s.drop_first()) {
            if s[0] == '-' {
                Some(-digits_value(s.drop_first()))
            } else {
                Some(digits_value(s.drop_first()))
            }
        } else {
            None
        }
    } else if all_digits(s) {
        Some(digits_value(s))
    } else {
        None
    }
}

/// Whether `s` writes, in decimal, an integer that fits in an `i32`.
pub open spec fn is_i32_text(s: Seq<char>) -> bool {
    decimal_value(s) matches Some(v) && i32::MIN <= v <= i32::MAX
}

/// Relies on `str::parse::<i32>`: it accepts an optional sign and then
/// decimal digits whose value fits, and gives that value; on any other text
/// it fails, and the error is returned as its display text.
#[verifier::external_body]
fn parse_i32(s: &str) -> (r: Result<i32, String>)
    ensures
        r is Ok <==> is_i32_text(s@),
        r matches Ok(n) ==> decimal_value(s@) == Some(n as int),
{
    match s.parse::<i32>() {
        Ok(n) => Ok(n),
        Err(e) => Err(e.to_string()),
    }
}

/// The command that the program's arguments select. The first argument is
/// the program's own name; the second names the command; `add` and
/// `complete` take one more.
pub fn parse_args(args: Vec<String>) -> (r: Result<Command, String>)
    ensures
        args@.len() < 2 ==> (r matches Err(e) && e@ == "No command found"@),
        args@.len() >= 2 && args@[1]@ == "add"@ ==> (if args@.len() >= 3 {
            r matches Ok(Command::Add { name }) && name@ == args@[2]@
        } else {
            r matches Err(e) && e@ == "Missing argument to 'add' command"@
        }),
        args@.len() >= 2 && args@[1]@ == "list"@ ==> r matches Ok(Command::List),
        args@.len() >= 2 && args@[1]@ == "complete"@ ==> (if args@.len() < 3 {
            r matches Err(e) && e@ == "Missing argument to 'complete' command"@
        } else if is_i32_text(args@[2]@) {
            r matches Ok(Command::Complete { id }) && decimal_value(args@[2]@) == Some(id as int)
        } else {
            r matches Err(e) && e@.len() >= ("Failed to parse argument as number: "@
                + args@[2]@ + ", "@).len() && e@.take(
                ("Failed to parse argument as number: "@ + args@[2]@ + ", "@).len() as int,
            ) == "Failed to parse argument as number: "@ + args@[2]@ + ", "@
        }),
        args@.len() >= 2 && args@[1]@ != "add"@ && args@[1]@ != "list"@ && args@[1]@
            != "complete"@ ==> (r matches Err(e) && e@ == "Unknown command: "@ + args@[1]@),
{
    proof {
        reveal_strlit("add");
        reveal_strlit("list");
        reveal_strlit("complete");
        assert("add"@.len() == 3 && "list"@.len() == 4 && "complete"@.len() == 8);
    }
    if args.len() < 2 {
        return Err(String::from_str("No command found"));
    }
    let cmd = &args[1];
    if cmd.eq(&String::from_str("add")) {
        if args.len() >= 3 {
            Ok(Command::Add { name: args[2].clone() })
        } else {
            Err(String::from_str("Missing argument to 'add' command"))
        }
    } else if cmd.eq(&String::from_str("list")) {
        Ok(Command::List)
    } else if cmd.eq(&String::from_str("complete")) {
        if args.len() < 3 {
            return Err(String::from_str("Missing argument to 'complete' command"));
        }
        let id_str = &args[2];
        match parse_i32(id_str.as_str()) {
            Ok(id) => Ok(Command::Complete { id }),
            Err(e) => {
                let mut msg = String::from_str("Failed to parse argument as number: ");
                msg.append(id_str.as_str());
                msg.append(", ");
                let ghost head = msg@;
                msg.append(e.as_str());
                assert(msg@.take(head.len() as int) =~= head);
                Err(msg)
            },
        }
    } else {
        let mut msg = String::from_str("Unknown command: ");
        msg.append(cmd.as_str());
        Err(msg)
    }
}

} // verus!
