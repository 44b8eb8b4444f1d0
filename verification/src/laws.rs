//! What each command comes to, whatever the arithmetic answers.
//!
//! The laws speak of [`outcome`]: a command carried through from its first
//! step to its last, with `answers` standing for the caller's arithmetic.
//! They hold for every choice of `answers`.

use vstd::prelude::*;
use crate::color::{Color, chosen_color, index_value};
use crate::command::{CommandView, Keyword, command_of, keyword_of};
use crate::error::CommandError;
use crate::interpreter::{
    AnswerView, ProgressView, QueryView, TaskView, outcome, resumed, settled, started,
};
use crate::number::{negation, negation_is_opposite, scaled_value};
use crate::turtle::{Segment, TurtleView, moved, stroke};

verus! {

/// A command that is done: the line it drew, if any, and the turtle after
/// it.
pub open spec fn done(segment: Option<Segment>, turtle: TurtleView) -> Result<
    (Option<Segment>, TurtleView),
    CommandError,
> {
    Ok((segment, turtle))
}

/// A command that failed. The turtle is as it was.
pub open spec fn failed(error: CommandError) -> Result<
    (Option<Segment>, TurtleView),
    CommandError,
> {
    Err(error)
}

/// The argument of a command that has to be a number, if it has one.
pub open spec fn number_argument(command: CommandView) -> Option<Seq<char>> {
    match command {
        CommandView::Forward(text) => Some(text),
        CommandView::Back(text) => Some(text),
        CommandView::Left(text) => Some(text),
        CommandView::Right(text) => Some(text),
        CommandView::Turn(text) => Some(text),
        CommandView::SetHeading(text) => Some(text),
        CommandView::SetX(text) => Some(text),
        CommandView::SetY(text) => Some(text),
        CommandView::AddAssign(_, amount) => Some(amount),
        _ => None,
    }
}

/// The turtle changes only when a command is done: a step that leaves the
/// command waiting leaves the turtle as it was.
pub proof fn waiting_changes_nothing(
    command: CommandView,
    task: TaskView,
    answer: AnswerView,
    turtle: TurtleView,
)
    ensures
        started(command, turtle).0 is Waiting ==> started(command, turtle).1 == turtle,
        resumed(task, answer, turtle) matches Ok((ProgressView::Waiting(_, _), after)) ==> after
            == turtle,
{
}

/// `PENUP` lifts the pen and `PENDOWN` lowers it. Neither draws, and neither
/// changes anything else.
pub proof fn pen_commands_set_the_pen(
    answers: spec_fn(QueryView) -> AnswerView,
    turtle: TurtleView,
)
    ensures
        outcome(answers, CommandView::PenUp, turtle) == done(
            None,
            TurtleView { pen_down: false, ..turtle },
        ),
        outcome(answers, CommandView::PenDown, turtle) == done(
            None,
            TurtleView { pen_down: true, ..turtle },
        ),
{
    reveal_with_fuel(settled, 1);
}

/// Choosing a color never fails: whatever the argument, the command is done
/// at once, and what names no color of the palette chooses black.
pub proof fn pen_color_never_fails(
    answers: spec_fn(QueryView) -> AnswerView,
    tokens: Seq<Seq<char>>,
    turtle: TurtleView,
)
    requires
        tokens.len() >= 2,
        keyword_of(tokens[0]) == Some(Keyword::SetPenColor),
    ensures
        command_of(tokens) == Ok::<_, CommandError>(
            CommandView::SetPenColor(chosen_color(tokens[1])),
        ),
        outcome(answers, CommandView::SetPenColor(chosen_color(tokens[1])), turtle) == done(
            None,
            TurtleView { pen_color: chosen_color(tokens[1]), ..turtle },
        ),
        index_value(tokens[1]) is None ==> chosen_color(tokens[1]) == Color::Black,
        index_value(tokens[1]) matches Some(index) && !(1 <= index <= 3) ==> chosen_color(
            tokens[1],
        ) == Color::Black,
{
    reveal_with_fuel(settled, 1);
    assert(tokens.drop_first()[0] == tokens[1]);
}

/// `MAKE` sets the variable to the text given, whether or not it was set
/// before, and whatever the text is.
pub proof fn make_sets_the_variable(
    answers: spec_fn(QueryView) -> AnswerView,
    name: Seq<char>,
    value: Seq<char>,
    turtle: TurtleView,
)
    ensures
        outcome(answers, CommandView::Make(name, value), turtle) == done(
            None,
            TurtleView { variables: turtle.variables.insert(name, value), ..turtle },
        ),
        turtle.variables.insert(name, value)[name] == value,
{
    reveal_with_fuel(settled, 1);
}

/// `FORWARD` goes to the point that lies the distance ahead, and `BACK` to
/// the point that lies the opposite distance ahead. With the pen down the
/// move draws the line from the old place to the new one; the pen, the
/// heading and the variables stay as they are.
pub proof fn moves_go_to_the_end_point(
    answers: spec_fn(QueryView) -> AnswerView,
    text: Seq<char>,
    distance: u32,
    x: u32,
    y: u32,
    turtle: TurtleView,
)
    requires
        answers(QueryView::Parse(text)) == AnswerView::Value(distance),
    ensures
        answers(
            QueryView::EndPoint { x: turtle.x, y: turtle.y, heading: turtle.heading, distance },
        ) == AnswerView::Point(x, y) ==> outcome(answers, CommandView::Forward(text), turtle)
            == done(stroke(turtle, x, y), moved(turtle, x, y)),
        answers(
            QueryView::EndPoint {
                x: turtle.x,
                y: turtle.y,
                heading: turtle.heading,
                distance: negation(distance),
            },
        ) == AnswerView::Point(x, y) ==> outcome(answers, CommandView::Back(text), turtle) == done(
            stroke(turtle, x, y),
            moved(turtle, x, y),
        ),
        stroke(turtle, x, y) is Some <==> turtle.pen_down,
{
    reveal_with_fuel(settled, 3);
}

/// `RIGHT` and `TURN` make the heading the sum of the heading and the
/// angle, `LEFT` the sum of the heading and the opposite angle. No turn
/// moves the turtle or draws.
pub proof fn turns_add_to_the_heading(
    answers: spec_fn(QueryView) -> AnswerView,
    text: Seq<char>,
    angle: u32,
    heading: u32,
    turtle: TurtleView,
)
    requires
        answers(QueryView::Parse(text)) == AnswerView::Value(angle),
    ensures
        answers(QueryView::Sum(turtle.heading, angle)) == AnswerView::Value(heading) ==> {
            &&& outcome(answers, CommandView::Right(text), turtle) == done(
                None,
                TurtleView { heading, ..turtle },
            )
            &&& outcome(answers, CommandView::Turn(text), turtle) == done(
                None,
                TurtleView { heading, ..turtle },
            )
        },
        answers(QueryView::Sum(turtle.heading, negation(angle))) == AnswerView::Value(heading)
            ==> outcome(answers, CommandView::Left(text), turtle) == done(
            None,
            TurtleView { heading, ..turtle },
        ),
{
    reveal_with_fuel(settled, 3);
}

/// `SETHEADING`, `SETX` and `SETY` take the number given for the heading
/// and for one coordinate of the place. None of them draws, not even with
/// the pen down.
pub proof fn setting_takes_the_number(
    answers: spec_fn(QueryView) -> AnswerView,
    text: Seq<char>,
    value: u32,
    turtle: TurtleView,
)
    requires
        answers(QueryView::Parse(text)) == AnswerView::Value(value),
    ensures
        outcome(answers, CommandView::SetHeading(text), turtle) == done(
            None,
            TurtleView { heading: value, ..turtle },
        ),
        outcome(answers, CommandView::SetX(text), turtle) == done(
            None,
            TurtleView { x: value, ..turtle },
        ),
        outcome(answers, CommandView::SetY(text), turtle) == done(
            None,
            TurtleView { y: value, ..turtle },
        ),
{
    reveal_with_fuel(settled, 2);
}

/// Setting the heading twice to the same number is setting it once: the
/// second command leaves the turtle as the first left it.
pub proof fn set_heading_is_idempotent(
    answers: spec_fn(QueryView) -> AnswerView,
    text: Seq<char>,
    turtle: TurtleView,
)
    ensures
        outcome(answers, CommandView::SetHeading(text), turtle) matches Ok((segment, after))
            ==> outcome(answers, CommandView::SetHeading(text), after) == done(segment, after),
{
    reveal_with_fuel(settled, 2);
}

/// `ADDASSIGN` on a variable that is set gives it the text that comes back
/// for the sum of its number and the amount.
pub proof fn add_assign_stores_the_sum(
    answers: spec_fn(QueryView) -> AnswerView,
    name: Seq<char>,
    amount: Seq<char>,
    value: u32,
    sum: Seq<char>,
    turtle: TurtleView,
)
    requires
        turtle.variables.contains_key(name),
        answers(QueryView::Parse(amount)) == AnswerView::Value(value),
        answers(QueryView::Increase { text: turtle.variables[name], amount: value })
            == AnswerView::Text(sum),
    ensures
        outcome(answers, CommandView::AddAssign(name, amount), turtle) == done(
            None,
            TurtleView { variables: turtle.variables.insert(name, sum), ..turtle },
        ),
{
    reveal_with_fuel(settled, 3);
}

/// `ADDASSIGN` on a variable that was never set fails, and says so.
pub proof fn add_assign_needs_the_variable(
    answers: spec_fn(QueryView) -> AnswerView,
    name: Seq<char>,
    amount: Seq<char>,
    turtle: TurtleView,
)
    requires
        !turtle.variables.contains_key(name),
        answers(QueryView::Parse(amount)) is Value,
    ensures
        outcome(answers, CommandView::AddAssign(name, amount), turtle) == failed(
            CommandError::UndefinedVariable,
        ),
{
    reveal_with_fuel(settled, 2);
}

/// `ADDASSIGN` on a variable whose text writes no number fails, and says
/// so.
pub proof fn add_assign_needs_a_number_in_the_variable(
    answers: spec_fn(QueryView) -> AnswerView,
    name: Seq<char>,
    amount: Seq<char>,
    value: u32,
    turtle: TurtleView,
)
    requires
        turtle.variables.contains_key(name),
        answers(QueryView::Parse(amount)) == AnswerView::Value(value),
        !(answers(QueryView::Increase { text: turtle.variables[name], amount: value }) is Text),
    ensures
        outcome(answers, CommandView::AddAssign(name, amount), turtle) == failed(
            CommandError::NonNumericVariable,
        ),
{
    reveal_with_fuel(settled, 3);
}

/// A command whose argument has to be a number fails where the argument
/// writes none, before anything else is looked at.
pub proof fn an_argument_must_be_a_number(
    answers: spec_fn(QueryView) -> AnswerView,
    command: CommandView,
    turtle: TurtleView,
)
    requires
        number_argument(command) matches Some(text) && !(answers(QueryView::Parse(text))
            is Value),
    ensures
        outcome(answers, command, turtle) == failed(CommandError::InvalidNumber),
{
    reveal_with_fuel(settled, 2);
}

/// A move or a turn fails where the place or the heading it leads to is
/// not finite.
pub proof fn a_result_must_be_a_number(
    answers: spec_fn(QueryView) -> AnswerView,
    text: Seq<char>,
    value: u32,
    turtle: TurtleView,
)
    requires
        answers(QueryView::Parse(text)) == AnswerView::Value(value),
    ensures
        !(answers(
            QueryView::EndPoint {
                x: turtle.x,
                y: turtle.y,
                heading: turtle.heading,
                distance: value,
            },
        ) is Point) ==> outcome(answers, CommandView::Forward(text), turtle) == failed(
            CommandError::InvalidNumber,
        ),
        !(answers(
            QueryView::EndPoint {
                x: turtle.x,
                y: turtle.y,
                heading: turtle.heading,
                distance: negation(value),
            },
        ) is Point) ==> outcome(answers, CommandView::Back(text), turtle) == failed(
            CommandError::InvalidNumber,
        ),
        !(answers(QueryView::Sum(turtle.heading, value)) is Value) ==> {
            &&& outcome(answers, CommandView::Right(text), turtle) == failed(
                CommandError::InvalidNumber,
            )
            &&& outcome(answers, CommandView::Turn(text), turtle) == failed(
                CommandError::InvalidNumber,
            )
        },
        !(answers(QueryView::Sum(turtle.heading, negation(value))) is Value) ==> outcome(
            answers,
            CommandView::Left(text),
            turtle,
        ) == failed(CommandError::InvalidNumber),
{
    reveal_with_fuel(settled, 3);
}

/// Going back by a distance is going forward by the opposite distance, and
/// the opposite of the opposite is the distance itself.
pub proof fn back_is_forward_by_the_opposite(distance: u32, turtle: TurtleView)
    ensures
        resumed(TaskView::Back, AnswerView::Value(distance), turtle) == resumed(
            TaskView::Forward,
            AnswerView::Value(negation(distance)),
            turtle,
        ),
        scaled_value(negation(distance)) == -scaled_value(distance),
        negation(negation(distance)) == distance,
{
    negation_is_opposite(distance);
}

/// Turning left by an angle is turning right by the opposite angle, and
/// `TURN` turns as `RIGHT` does.
pub proof fn left_is_right_by_the_opposite(angle: u32, turtle: TurtleView)
    ensures
        resumed(TaskView::Left, AnswerView::Value(angle), turtle) == resumed(
            TaskView::Right,
            AnswerView::Value(negation(angle)),
            turtle,
        ),
        resumed(TaskView::Turn, AnswerView::Value(angle), turtle) == resumed(
            TaskView::Right,
            AnswerView::Value(angle),
            turtle,
        ),
{
}

} // verus!
