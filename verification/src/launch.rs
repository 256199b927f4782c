//! Programs the companion starts: a program name and its arguments.

use vstd::prelude::*;

verus! {

/// A program to run, with its arguments.
pub struct Launch {
    pub program: String,
    pub args: Vec<String>,
}

/// The texts of a list of strings.
pub open spec fn texts(args: Seq<String>) -> Seq<Seq<char>> {
    args.map_values(|s: String| s@)
}

/// The abstract value of a [`Launch`].
pub struct LaunchView {
    pub program: Seq<char>,
    pub args: Seq<Seq<char>>,
}

impl View for Launch {
    type V = LaunchView;

    open spec fn view(&self) -> LaunchView {
        LaunchView { program: self.program@, args: texts(self.args@) }
    }
}

/// Runs `program` with one argument.
pub fn launch1(program: &str, a: String) -> (r: Launch)
    ensures
        r@ == (LaunchView { program: program@, args: seq![a@] }),
{
    let mut args: Vec<String> = Vec::new();
    let ghost av = a@;
    args.push(a);
    assert(texts(args@) =~= seq![av]);
    Launch { program: String::from_str(program), args }
}

/// Runs `program` with two arguments.
pub fn launch2(program: &str, a: String, b: String) -> (r: Launch)
    ensures
        r@ == (LaunchView { program: program@, args: seq![a@, b@] }),
{
    let mut args: Vec<String> = Vec::new();
    let ghost av = a@;
    let ghost bv = b@;
    args.push(a);
    args.push(b);
    assert(texts(args@) =~= seq![av, bv]);
    Launch { program: String::from_str(program), args }
}

} // verus!
