//! The command-line grammar: four commands, two with one argument each,
//! and short aliases for three of them.

use vstd::prelude::*;

verus! {

/// One operation per process run.
#[derive(Debug, PartialEq)]
pub enum Command {
    /// `add <text>` (alias `a`): log one entry with the current timestamp.
    Add { task: String },
    /// `today` (alias `t`): list the entries logged today.
    Today,
    /// `yesterday` (alias `y`): list the entries logged one calendar day back.
    Yesterday,
    /// `date <value>`: list the entries whose timestamp starts with `value`.
    Date { date: String },
}

/// Why the arguments were rejected.
#[derive(Clone, Copy, Debug, PartialEq, Eq, Structural)]
pub enum CliError {
    /// No command word was given.
    MissingCommand,
    /// The command word is none of the four known ones.
    UnknownCommand,
    /// `add` or `date` came without its argument.
    MissingArgument,
    /// More arguments than the command takes.
    ExtraArgument,
}

/// Is the first argument the given command word?
pub open spec fn head_is(args: Seq<String>, w: Seq<char>) -> bool {
    args.len() >= 1 && args[0]@ == w
}

/// Does the first argument name the `add` command?
pub open spec fn head_is_add(args: Seq<String>) -> bool {
    head_is(args, "add"@) || head_is(args, "a"@)
}

/// Does the first argument name the `today` command?
pub open spec fn head_is_today(args: Seq<String>) -> bool {
    head_is(args, "today"@) || head_is(args, "t"@)
}

/// Does the first argument name the `yesterday` command?
pub open spec fn head_is_yesterday(args: Seq<String>) -> bool {
    head_is(args, "yesterday"@) || head_is(args, "y"@)
}

/// Does the first argument name the `date` command?
pub open spec fn head_is_date(args: Seq<String>) -> bool {
    head_is(args, "date"@)
}

/// Compare a runtime argument with a command word.
fn word_eq(s: &String, w: &str) -> (r: bool)
    ensures
        r == (s@ == w@),
{
    let t = String::from_str(w);
    *s == t
}

/// Turn the arguments after the program name into a command.
///
/// Every argument vector is accepted or rejected exactly as stated: an
/// empty vector is a missing command; an unknown first word is rejected;
/// each known command demands exactly its own number of arguments.
pub fn parse_command(args: &Vec<String>) -> (r: Result<Command, CliError>)
    ensures
        args@.len() == 0 ==> r == Result::<Command, CliError>::Err(CliError::MissingCommand),
        args@.len() >= 1 && !(head_is_add(args@) || head_is_today(args@) || head_is_yesterday(
            args@,
        ) || head_is_date(args@)) ==> r == Result::<Command, CliError>::Err(
            CliError::UnknownCommand,
        ),
        head_is_add(args@) ==> match r {
            Ok(Command::Add { task }) => args@.len() == 2 && task@ == args@[1]@,
            Err(CliError::MissingArgument) => args@.len() == 1,
            Err(CliError::ExtraArgument) => args@.len() > 2,
            _ => false,
        },
        head_is_today(args@) ==> match r {
            Ok(Command::Today) => args@.len() == 1,
            Err(CliError::ExtraArgument) => args@.len() > 1,
            _ => false,
        },
        head_is_yesterday(args@) ==> match r {
            Ok(Command::Yesterday) => args@.len() == 1,
            Err(CliError::ExtraArgument) => args@.len() > 1,
            _ => false,
        },
        head_is_date(args@) ==> match r {
            Ok(Command::Date { date }) => args@.len() == 2 && date@ == args@[1]@,
            Err(CliError::MissingArgument) => args@.len() == 1,
            Err(CliError::ExtraArgument) => args@.len() > 2,
            _ => false,
        },
{
    proof {
        reveal_strlit("add");
        reveal_strlit("a");
        reveal_strlit("today");
        reveal_strlit("t");
        reveal_strlit("yesterday");
        reveal_strlit("y");
        reveal_strlit("date");
        assert("add"@.len() == 3 && "a"@.len() == 1 && "today"@.len() == 5 && "t"@.len() == 1
            && "yesterday"@.len() == 9 && "y"@.len() == 1 && "date"@.len() == 4);
        assert("a"@[0] == 'a' && "t"@[0] == 't' && "y"@[0] == 'y');
    }
    if args.len() == 0 {
        return Err(CliError::MissingCommand);
    }
    let head = &args[0];
    if word_eq(head, "add") || word_eq(head, "a") {
        if args.len() == 2 {
            Ok(Command::Add { task: args[1].clone() })
        } else if args.len() == 1 {
            Err(CliError::MissingArgument)
        } else {
            Err(CliError::ExtraArgument)
        }
    } else if word_eq(head, "today") || word_eq(head, "t") {
        if args.len() == 1 {
            Ok(Command::Today)
        } else {
            Err(CliError::ExtraArgument)
        }
    } else if word_eq(head, "yesterday") || word_eq(head, "y") {
        if args.len() == 1 {
            Ok(Command::Yesterday)
        } else {
            Err(CliError::ExtraArgument)
        }
    } else if word_eq(head, "date") {
        if args.len() == 2 {
            Ok(Command::Date { date: args[1].clone() })
        } else if args.len() == 1 {
            Err(CliError::MissingArgument)
        } else {
            Err(CliError::ExtraArgument)
        }
    } else {
        Err(CliError::UnknownCommand)
    }
}

} // verus!
