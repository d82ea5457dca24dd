//! The lines of the client's interactive loop: what a typed line asks for.

use crate::commands::object1;
use crate::json::{lemma_object_model, members_model, put, JsonModel, JsonValue};
use crate::text::str_equal;
use vstd::prelude::*;
use vstd::string::*;

verus! {

/// What a typed line asks for.
#[derive(Debug, Clone)]
pub enum Input {
    /// Nothing: the line is blank.
    Blank,
    /// To leave the loop.
    Quit,
    /// `ECHO` without the text to echo.
    MissingText,
    /// To run a command.
    Command { cmd: String, args: JsonValue },
}

/// The mathematical content of an [`Input`].
pub enum InputView {
    Blank,
    Quit,
    MissingText,
    Command { cmd: Seq<char>, args: JsonModel },
}

impl View for Input {
    type V = InputView;

    open spec fn view(&self) -> InputView {
        match self {
            Input::Blank => InputView::Blank,
            Input::Quit => InputView::Quit,
            Input::MissingText => InputView::MissingText,
            Input::Command { cmd, args } => InputView::Command { cmd: cmd@, args: args.model() },
        }
    }
}

/// The text without the white space at its ends, as `str::trim` gives it.
pub uninterp spec fn trimmed(s: Seq<char>) -> Seq<char>;

/// The text in upper case, as `str::to_uppercase` gives it.
pub uninterp spec fn uppercased(s: Seq<char>) -> Seq<char>;

/// Whether `i` is the position of the first space of `s`.
pub open spec fn first_space_at(s: Seq<char>, i: int) -> bool {
    &&& 0 <= i < s.len()
    &&& s[i] == ' '
    &&& forall|j: int| 0 <= j < i ==> s[j] != ' '
}

/// `str::trim`: the text without leading and trailing white space.
#[verifier::external_body]
fn trim(s: &str) -> (r: &str)
    ensures
        r@ == trimmed(s@),
{
    s.trim()
}

/// `str::to_uppercase`: the text in upper case.
#[verifier::external_body]
fn to_uppercase(s: &str) -> (r: String)
    ensures
        r@ == uppercased(s@),
{
    s.to_uppercase()
}

/// `str::split_once` on a space: the text before the first space and the
/// text after it, `None` where there is no space.
#[verifier::external_body]
fn split_at_space(s: &str) -> (r: Option<(&str, &str)>)
    ensures
        match r {
            Some((head, tail)) => exists|i: int| #[trigger]
                first_space_at(s@, i) && head@ == s@.subrange(0, i) && tail@ == s@.subrange(
                    i + 1,
                    s@.len() as int,
                ),
            None => forall|j: int| 0 <= j < s@.len() ==> s@[j] != ' ',
        },
{
    s.split_once(' ')
}

/// The command word of a trimmed line and what follows its first space; the
/// whole line and nothing where it holds no space.
pub open spec fn words(input: Seq<char>) -> (Seq<char>, Seq<char>) {
    if exists|i: int| first_space_at(input, i) {
        let i = choose|i: int| first_space_at(input, i);
        (input.subrange(0, i), input.subrange(i + 1, input.len() as int))
    } else {
        (input, Seq::empty())
    }
}

/// What a command word in upper case and the rest of its line ask for:
/// `ECHO` takes the rest as the text to echo and needs one, every other
/// command goes without arguments.
pub open spec fn request(cmd: Seq<char>, rest: Seq<char>) -> InputView {
    if cmd == "ECHO"@ {
        if rest.len() == 0 {
            InputView::MissingText
        } else {
            InputView::Command { cmd, args: object1("text"@, JsonModel::Str(rest)) }
        }
    } else {
        InputView::Command { cmd, args: JsonModel::Object(Seq::empty()) }
    }
}

/// What a typed line asks for. White space at its ends does not count; a
/// blank line asks for nothing; `quit` and `exit` leave; otherwise the first
/// word in upper case is the command.
pub open spec fn line_meaning(line: Seq<char>) -> InputView {
    let input = trimmed(line);
    if input.len() == 0 {
        InputView::Blank
    } else if input == "quit"@ || input == "exit"@ {
        InputView::Quit
    } else {
        request(uppercased(words(input).0), words(input).1)
    }
}

/// What a command word in upper case and the rest of its line ask for.
pub fn command_of(cmd: String, rest: &str) -> (r: Input)
    ensures
        r@ == request(cmd@, rest@),
{
    let mut members: Vec<(String, JsonValue)> = Vec::new();
    assert(members_model(members@) =~= Seq::empty());
    if str_equal(cmd.as_str(), "ECHO") {
        if rest.is_empty() {
            return Input::MissingText;
        }
        put(&mut members, "text", JsonValue::Str(String::from_str(rest)));
    }
    Input::Command { cmd, args: JsonValue::object(members) }
}

/// What a typed line asks for.
pub fn parse_line(line: &str) -> (r: Input)
    ensures
        r@ == line_meaning(line@),
{
    let input = trim(line);
    if input.is_empty() {
        return Input::Blank;
    }
    if str_equal(input, "quit") || str_equal(input, "exit") {
        return Input::Quit;
    }
    match split_at_space(input) {
        Some((head, tail)) => {
            proof {
                let i = choose|i: int| first_space_at(input@, i);
                let k = choose|k: int|
                    #[trigger] first_space_at(input@, k) && head@ == input@.subrange(0, k) && tail@
                        == input@.subrange(k + 1, input@.len() as int);
                assert(first_space_at(input@, i));
                if i < k {
                    assert(input@[i] != ' ');
                }
                if k < i {
                    assert(input@[k] != ' ');
                }
            }
            command_of(to_uppercase(head), tail)
        },
        None => {
            proof {
                assert forall|i: int| !first_space_at(input@, i) by {}
                reveal_strlit("");
            }
            let none = "";
            assert(none@ =~= Seq::<char>::empty());
            command_of(to_uppercase(input), none)
        },
    }
}

} // verus!
