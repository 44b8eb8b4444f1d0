//! The grammar of a command line.
//!
//! The first token of a line is the keyword, in capital letters; the tokens
//! after it are the arguments. A command takes the arguments it needs from
//! the front and passes over any that follow.

use vstd::prelude::*;
use crate::color::{Color, chosen_color, token_to_color};
use crate::error::CommandError;
use crate::text::{same_text, split_tokens, texts, tokens};

verus! {

/// The commands of the language.
#[derive(Clone, Copy, Debug, PartialEq, Eq, Structural)]
pub enum Keyword {
    PenUp,
    PenDown,
    Forward,
    Back,
    Left,
    Right,
    Turn,
    SetHeading,
    SetX,
    SetY,
    SetPenColor,
    Make,
    AddAssign,
}

impl Keyword {
    /// The number of arguments that the command needs.
    pub open spec fn spec_arity(self) -> nat {
        match self {
            Keyword::PenUp | Keyword::PenDown => 0,
            Keyword::Make | Keyword::AddAssign => 2,
            _ => 1,
        }
    }

    /// The number of arguments that the command needs.
    pub fn arity(self) -> (r: usize)
        ensures
            r == self.spec_arity(),
    {
        match self {
            Keyword::PenUp | Keyword::PenDown => 0,
            Keyword::Make | Keyword::AddAssign => 2,
            _ => 1,
        }
    }
}

/// The command that a token names. Case counts.
pub open spec fn keyword_of(token: Seq<char>) -> Option<Keyword> {
    if token == "PENUP"@ {
        Some(Keyword::PenUp)
    } else if token == "PENDOWN"@ {
        Some(Keyword::PenDown)
    } else if token == "FORWARD"@ {
        Some(Keyword::Forward)
    } else if token == "BACK"@ {
        Some(Keyword::Back)
    } else if token == "LEFT"@ {
        Some(Keyword::Left)
    } else if token == "RIGHT"@ {
        Some(Keyword::Right)
    } else if token == "TURN"@ {
        Some(Keyword::Turn)
    } else if token == "SETHEADING"@ {
        Some(Keyword::SetHeading)
    } else if token == "SETX"@ {
        Some(Keyword::SetX)
    } else if token == "SETY"@ {
        Some(Keyword::SetY)
    } else if token == "SETPENCOLOR"@ {
        Some(Keyword::SetPenColor)
    } else if token == "MAKE"@ {
        Some(Keyword::Make)
    } else if token == "ADDASSIGN"@ {
        Some(Keyword::AddAssign)
    } else {
        None
    }
}

/// The command that a token names, if it names one.
pub fn recognize(token: &str) -> (r: Option<Keyword>)
    ensures
        r == keyword_of(token@),
{
    if same_text(token, "PENUP") {
        Some(Keyword::PenUp)
    } else if same_text(token, "PENDOWN") {
        Some(Keyword::PenDown)
    } else if same_text(token, "FORWARD") {
        Some(Keyword::Forward)
    } else if same_text(token, "BACK") {
        Some(Keyword::Back)
    } else if same_text(token, "LEFT") {
        Some(Keyword::Left)
    } else if same_text(token, "RIGHT") {
        Some(Keyword::Right)
    } else if same_text(token, "TURN") {
        Some(Keyword::Turn)
    } else if same_text(token, "SETHEADING") {
        Some(Keyword::SetHeading)
    } else if same_text(token, "SETX") {
        Some(Keyword::SetX)
    } else if same_text(token, "SETY") {
        Some(Keyword::SetY)
    } else if same_text(token, "SETPENCOLOR") {
        Some(Keyword::SetPenColor)
    } else if same_text(token, "MAKE") {
        Some(Keyword::Make)
    } else if same_text(token, "ADDASSIGN") {
        Some(Keyword::AddAssign)
    } else {
        None
    }
}

/// A command with its arguments. A number is still the text that writes it.
#[derive(Debug, PartialEq, Eq)]
pub enum Command {
    PenUp,
    PenDown,
    Forward(String),
    Back(String),
    Left(String),
    Right(String),
    Turn(String),
    SetHeading(String),
    SetX(String),
    SetY(String),
    SetPenColor(Color),
    Make(String, String),
    AddAssign(String, String),
}

/// A command, with each text as the characters it holds.
pub enum CommandView {
    PenUp,
    PenDown,
    Forward(Seq<char>),
    Back(Seq<char>),
    Left(Seq<char>),
    Right(Seq<char>),
    Turn(Seq<char>),
    SetHeading(Seq<char>),
    SetX(Seq<char>),
    SetY(Seq<char>),
    SetPenColor(Color),
    Make(Seq<char>, Seq<char>),
    AddAssign(Seq<char>, Seq<char>),
}

impl View for Command {
    type V = CommandView;

    open spec fn view(&self) -> CommandView {
        match self {
            Command::PenUp => CommandView::PenUp,
            Command::PenDown => CommandView::PenDown,
            Command::Forward(distance) => CommandView::Forward(distance@),
            Command::Back(distance) => CommandView::Back(distance@),
            Command::Left(angle) => CommandView::Left(angle@),
            Command::Right(angle) => CommandView::Right(angle@),
            Command::Turn(angle) => CommandView::Turn(angle@),
            Command::SetHeading(angle) => CommandView::SetHeading(angle@),
            Command::SetX(x) => CommandView::SetX(x@),
            Command::SetY(y) => CommandView::SetY(y@),
            Command::SetPenColor(color) => CommandView::SetPenColor(*color),
            Command::Make(name, value) => CommandView::Make(name@, value@),
            Command::AddAssign(name, amount) => CommandView::AddAssign(name@, amount@),
        }
    }
}

/// The command made of a keyword and the arguments it needs. The color of
/// the pen is chosen here: a token that names no color chooses black.
pub open spec fn assemble(keyword: Keyword, arguments: Seq<Seq<char>>) -> CommandView
    recommends
        arguments.len() >= keyword.spec_arity(),
{
    match keyword {
        Keyword::PenUp => CommandView::PenUp,
        Keyword::PenDown => CommandView::PenDown,
        Keyword::Forward => CommandView::Forward(arguments[0]),
        Keyword::Back => CommandView::Back(arguments[0]),
        Keyword::Left => CommandView::Left(arguments[0]),
        Keyword::Right => CommandView::Right(arguments[0]),
        Keyword::Turn => CommandView::Turn(arguments[0]),
        Keyword::SetHeading => CommandView::SetHeading(arguments[0]),
        Keyword::SetX => CommandView::SetX(arguments[0]),
        Keyword::SetY => CommandView::SetY(arguments[0]),
        Keyword::SetPenColor => CommandView::SetPenColor(chosen_color(arguments[0])),
        Keyword::Make => CommandView::Make(arguments[0], arguments[1]),
        Keyword::AddAssign => CommandView::AddAssign(arguments[0], arguments[1]),
    }
}

/// The command that a sequence of tokens writes, or why it writes none.
pub open spec fn command_of(tokens: Seq<Seq<char>>) -> Result<CommandView, CommandError> {
    if tokens.len() == 0 {
        Err(CommandError::EmptyCommand)
    } else {
        match keyword_of(tokens[0]) {
            None => Err(CommandError::UnknownCommand),
            Some(keyword) => if tokens.len() - 1 < keyword.spec_arity() {
                Err(CommandError::MissingArgument)
            } else {
                Ok(assemble(keyword, tokens.drop_first()))
            },
        }
    }
}

/// A result of parsing, with the command as the characters it holds.
pub open spec fn parsed(result: Result<Command, CommandError>) -> Result<
    CommandView,
    CommandError,
> {
    match result {
        Ok(command) => Ok(command@),
        Err(error) => Err(error),
    }
}

/// Reads a line as a command.
pub fn parse_command(line: &str) -> (r: Result<Command, CommandError>)
    ensures
        parsed(r) == command_of(tokens(line@)),
{
    let words: Vec<String> = split_tokens(line);
    if words.len() == 0 {
        return Err(CommandError::EmptyCommand);
    }
    let ghost all = texts(words@);
    assert(all[0] == words@[0]@);
    let keyword = match recognize(words[0].as_str()) {
        Some(keyword) => keyword,
        None => {
            return Err(CommandError::UnknownCommand);
        },
    };
    if words.len() - 1 < keyword.arity() {
        return Err(CommandError::MissingArgument);
    }
    let ghost arguments = all.drop_first();
    proof {
        if keyword.spec_arity() >= 1 {
            assert(arguments[0] == words@[1]@);
        }
        if keyword.spec_arity() >= 2 {
            assert(arguments[1] == words@[2]@);
        }
    }
    let command = match keyword {
        Keyword::PenUp => Command::PenUp,
        Keyword::PenDown => Command::PenDown,
        Keyword::Forward => Command::Forward(words[1].clone()),
        Keyword::Back => Command::Back(words[1].clone()),
        Keyword::Left => Command::Left(words[1].clone()),
        Keyword::Right => Command::Right(words[1].clone()),
        Keyword::Turn => Command::Turn(words[1].clone()),
        Keyword::SetHeading => Command::SetHeading(words[1].clone()),
        Keyword::SetX => Command::SetX(words[1].clone()),
        Keyword::SetY => Command::SetY(words[1].clone()),
        Keyword::SetPenColor => Command::SetPenColor(token_to_color(words[1].as_str())),
        Keyword::Make => Command::Make(words[1].clone(), words[2].clone()),
        Keyword::AddAssign => Command::AddAssign(words[1].clone(), words[2].clone()),
    };
    Ok(command)
}

} // verus!
