//! What the command line asks for.

use vstd::prelude::*;

verus! {

/// What `str::to_uppercase` makes of a text.
pub uninterp spec fn upper_of(s: Seq<char>) -> Seq<char>;

/// Relies on str::to_uppercase: the result depends on the characters alone.
#[verifier::external_body]
fn uppercase(s: &str) -> (r: String)
    ensures
        r@ == upper_of(s@),
{
    s.to_uppercase()
}

/// A conversion: currency codes, upper case, and the amount as it was written.
#[derive(Clone, Debug)]
pub struct Request {
    pub from: String,
    pub to: String,
    pub amount: String,
}

/// What a run does.
#[derive(Clone, Debug)]
pub enum Command {
    /// Print how the program is used, and succeed.
    Usage,
    /// Convert an amount.
    Convert(Request),
}

/// Reads the arguments that follow the program's name. Exactly three, source
/// code, target code and amount, make a conversion; any other count asks for
/// the usage text.
pub fn parse_args(args: &Vec<String>) -> (r: Command)
    ensures
        args@.len() != 3 ==> r is Usage,
        args@.len() == 3 ==> (r matches Command::Convert(q) && q.from@ == upper_of(args@[0]@)
            && q.to@ == upper_of(args@[1]@) && q.amount@ == args@[2]@),
{
    if args.len() != 3 {
        return Command::Usage;
    }
    let from = uppercase(args[0].as_str());
    let to = uppercase(args[1].as_str());
    let amount = args[2].clone();
    Command::Convert(Request { from, to, amount })
}

/// The first line of the usage text.
pub const USAGE_TITLE: &'static str = "currency -- Currency converter.";

/// The second line of the usage text.
pub const USAGE_LINE: &'static str = "Usage:   currency FROM TO amount";

/// The usage text, two lines, printed when the arguments are not three.
pub fn usage_text() -> (r: String)
    ensures
        r@ == USAGE_TITLE@ + "\n"@ + USAGE_LINE@,
{
    let mut r = USAGE_TITLE.to_string();
    r.append("\n");
    r.append(USAGE_LINE);
    r
}

} // verus!
