//! The interpreter: what each command does to the turtle.
//!
//! The interpreter decides; it does not calculate. Where a command needs a
//! number read from text, a sum, or the end point of a move, the interpreter
//! stops with a [`Query`] and a [`Task`]. The caller works the query out in
//! single precision and hands the [`Answer`] back with the task, and the
//! interpreter goes on from there. A command is done after two answers at
//! most.
//!
//! The turtle changes only when a command is done. A command that fails, at
//! whichever step, leaves it as it was.

use vstd::prelude::*;
use crate::command::{Command, CommandView, command_of, parse_command};
use crate::error::CommandError;
use crate::number::{Number, negation};
use crate::text::tokens;
use crate::turtle::{Segment, Turtle, TurtleView, move_turtle, moved, stroke};

verus! {

/// What the interpreter asks its caller to work out.
#[derive(Debug, PartialEq, Eq)]
pub enum Query {
    /// The number that the text writes.
    Parse(String),
    /// The sum of two numbers.
    Sum(Number, Number),
    /// The point reached from `(x, y)` after `distance` in the direction
    /// `heading`. The heading is in degrees: 0 points up the image, toward
    /// smaller `y`, and the degrees count clockwise, so that 90 points
    /// toward larger `x`. A negative distance goes backward.
    EndPoint { x: Number, y: Number, heading: Number, distance: Number },
    /// The text of the sum of `amount` and the number that `text` writes.
    Increase { text: String, amount: Number },
}

/// A query, with each number as its bit pattern and each text as the
/// characters it holds.
pub enum QueryView {
    Parse(Seq<char>),
    Sum(u32, u32),
    EndPoint { x: u32, y: u32, heading: u32, distance: u32 },
    Increase { text: Seq<char>, amount: u32 },
}

impl View for Query {
    type V = QueryView;

    open spec fn view(&self) -> QueryView {
        match self {
            Query::Parse(text) => QueryView::Parse(text@),
            Query::Sum(a, b) => QueryView::Sum(a@, b@),
            Query::EndPoint { x, y, heading, distance } => QueryView::EndPoint {
                x: x@,
                y: y@,
                heading: heading@,
                distance: distance@,
            },
            Query::Increase { text, amount } => QueryView::Increase {
                text: text@,
                amount: amount@,
            },
        }
    }
}

/// What the caller found.
#[derive(Debug, PartialEq, Eq)]
pub enum Answer {
    /// There is no such number: the text writes none, or the result is not
    /// finite.
    Nothing,
    /// The number asked for.
    Value(Number),
    /// The point asked for.
    Point(Number, Number),
    /// The text asked for.
    Text(String),
}

/// An answer, with each number as its bit pattern and each text as the
/// characters it holds.
pub enum AnswerView {
    Nothing,
    Value(u32),
    Point(u32, u32),
    Text(Seq<char>),
}

impl View for Answer {
    type V = AnswerView;

    open spec fn view(&self) -> AnswerView {
        match self {
            Answer::Nothing => AnswerView::Nothing,
            Answer::Value(value) => AnswerView::Value(value@),
            Answer::Point(x, y) => AnswerView::Point(x@, y@),
            Answer::Text(text) => AnswerView::Text(text@),
        }
    }
}

/// What is left to do of a command once the answer is there. The caller
/// hands a task back as it got it.
#[derive(Debug, PartialEq, Eq)]
pub enum Task {
    /// Move forward by the number that comes.
    Forward,
    /// Move backward by the number that comes.
    Back,
    /// Turn left by the number that comes.
    Left,
    /// Turn right by the number that comes.
    Right,
    /// Turn by the number that comes.
    Turn,
    /// Take the number that comes as the heading.
    SetHeading,
    /// Take the number that comes as the horizontal position.
    SetX,
    /// Take the number that comes as the vertical position.
    SetY,
    /// Add the number that comes to the variable.
    AddAssign(String),
    /// Go to the point that comes, and draw if the pen is down.
    Arrive,
    /// Take the number that comes as the heading after a turn.
    Face,
    /// Take the text that comes as the value of the variable.
    Store(String),
}

/// A task, with each text as the characters it holds.
pub enum TaskView {
    Forward,
    Back,
    Left,
    Right,
    Turn,
    SetHeading,
    SetX,
    SetY,
    AddAssign(Seq<char>),
    Arrive,
    Face,
    Store(Seq<char>),
}

impl View for Task {
    type V = TaskView;

    open spec fn view(&self) -> TaskView {
        match self {
            Task::Forward => TaskView::Forward,
            Task::Back => TaskView::Back,
            Task::Left => TaskView::Left,
            Task::Right => TaskView::Right,
            Task::Turn => TaskView::Turn,
            Task::SetHeading => TaskView::SetHeading,
            Task::SetX => TaskView::SetX,
            Task::SetY => TaskView::SetY,
            Task::AddAssign(name) => TaskView::AddAssign(name@),
            Task::Arrive => TaskView::Arrive,
            Task::Face => TaskView::Face,
            Task::Store(name) => TaskView::Store(name@),
        }
    }
}

impl TaskView {
    /// The number of answers that the task can still need.
    pub open spec fn rounds(self) -> nat {
        match self {
            TaskView::Forward | TaskView::Back => 2,
            TaskView::Left | TaskView::Right | TaskView::Turn => 2,
            TaskView::AddAssign(_) => 2,
            _ => 1,
        }
    }
}

/// How far a command has come.
#[derive(Debug, PartialEq, Eq)]
pub enum Progress {
    /// The command is done. If it drew a line, this is the line.
    Finished(Option<Segment>),
    /// The command needs the answer to the query; the task says how it goes
    /// on.
    Waiting(Task, Query),
}

/// How far a command has come, with task and query as their views.
pub enum ProgressView {
    Finished(Option<Segment>),
    Waiting(TaskView, QueryView),
}

impl View for Progress {
    type V = ProgressView;

    open spec fn view(&self) -> ProgressView {
        match self {
            Progress::Finished(segment) => ProgressView::Finished(*segment),
            Progress::Waiting(task, query) => ProgressView::Waiting(task@, query@),
        }
    }
}

impl ProgressView {
    /// The number of answers that the command can still need.
    pub open spec fn rounds(self) -> nat {
        match self {
            ProgressView::Finished(_) => 0,
            ProgressView::Waiting(task, _) => task.rounds(),
        }
    }
}

/// The first step of a command: how far it comes without an answer, and the
/// turtle after it.
///
/// The commands for the pen and `MAKE` are done at once. Every other command
/// has a number for an argument and waits for it to be read.
pub open spec fn started(command: CommandView, turtle: TurtleView) -> (ProgressView, TurtleView) {
    match command {
        CommandView::PenUp => (
            ProgressView::Finished(None),
            TurtleView { pen_down: false, ..turtle },
        ),
        CommandView::PenDown => (
            ProgressView::Finished(None),
            TurtleView { pen_down: true, ..turtle },
        ),
        CommandView::SetPenColor(color) => (
            ProgressView::Finished(None),
            TurtleView { pen_color: color, ..turtle },
        ),
        CommandView::Make(name, value) => (
            ProgressView::Finished(None),
            TurtleView { variables: turtle.variables.insert(name, value), ..turtle },
        ),
        CommandView::Forward(text) => (
            ProgressView::Waiting(TaskView::Forward, QueryView::Parse(text)),
            turtle,
        ),
        CommandView::Back(text) => (
            ProgressView::Waiting(TaskView::Back, QueryView::Parse(text)),
            turtle,
        ),
        CommandView::Left(text) => (
            ProgressView::Waiting(TaskView::Left, QueryView::Parse(text)),
            turtle,
        ),
        CommandView::Right(text) => (
            ProgressView::Waiting(TaskView::Right, QueryView::Parse(text)),
            turtle,
        ),
        CommandView::Turn(text) => (
            ProgressView::Waiting(TaskView::Turn, QueryView::Parse(text)),
            turtle,
        ),
        CommandView::SetHeading(text) => (
            ProgressView::Waiting(TaskView::SetHeading, QueryView::Parse(text)),
            turtle,
        ),
        CommandView::SetX(text) => (
            ProgressView::Waiting(TaskView::SetX, QueryView::Parse(text)),
            turtle,
        ),
        CommandView::SetY(text) => (
            ProgressView::Waiting(TaskView::SetY, QueryView::Parse(text)),
            turtle,
        ),
        CommandView::AddAssign(name, amount) => (
            ProgressView::Waiting(TaskView::AddAssign(name), QueryView::Parse(amount)),
            turtle,
        ),
    }
}

/// The step that a number allows, for a task that waits for one.
///
/// A move asks for its end point: `FORWARD` at the distance given, `BACK` at
/// the opposite distance. A turn asks for the new heading: the sum of the
/// old one and the angle, which `LEFT` takes with the opposite sign. The
/// commands that set a place or the heading are done, and so is a turn once
/// its sum is there. `ADDASSIGN` looks the variable up and asks for its new
/// text.
pub open spec fn resumed_with_value(task: TaskView, value: u32, turtle: TurtleView) -> Result<
    (ProgressView, TurtleView),
    CommandError,
>
    recommends
        !(task is Arrive),
        !(task is Store),
{
    match task {
        TaskView::Forward => Ok(
            (
                ProgressView::Waiting(
                    TaskView::Arrive,
                    QueryView::EndPoint {
                        x: turtle.x,
                        y: turtle.y,
                        heading: turtle.heading,
                        distance: value,
                    },
                ),
                turtle,
            ),
        ),
        TaskView::Back => Ok(
            (
                ProgressView::Waiting(
                    TaskView::Arrive,
                    QueryView::EndPoint {
                        x: turtle.x,
                        y: turtle.y,
                        heading: turtle.heading,
                        distance: negation(value),
                    },
                ),
                turtle,
            ),
        ),
        TaskView::Left => Ok(
            (
                ProgressView::Waiting(
                    TaskView::Face,
                    QueryView::Sum(turtle.heading, negation(value)),
                ),
                turtle,
            ),
        ),
        TaskView::Right | TaskView::Turn => Ok(
            (ProgressView::Waiting(TaskView::Face, QueryView::Sum(turtle.heading, value)), turtle),
        ),
        TaskView::SetHeading | TaskView::Face => Ok(
            (ProgressView::Finished(None), TurtleView { heading: value, ..turtle }),
        ),
        TaskView::SetX => Ok((ProgressView::Finished(None), TurtleView { x: value, ..turtle })),
        TaskView::SetY => Ok((ProgressView::Finished(None), TurtleView { y: value, ..turtle })),
        TaskView::AddAssign(name) => if turtle.variables.contains_key(name) {
            Ok(
                (
                    ProgressView::Waiting(
                        TaskView::Store(name),
                        QueryView::Increase { text: turtle.variables[name], amount: value },
                    ),
                    turtle,
                ),
            )
        } else {
            Err(CommandError::UndefinedVariable)
        },
        TaskView::Arrive => Err(CommandError::InvalidNumber),
        TaskView::Store(_) => Err(CommandError::NonNumericVariable),
    }
}

/// The step that an answer allows: how far the command comes and the turtle
/// after it, or the error that ends the command.
///
/// Each task takes one kind of answer. A move that waits for its end point
/// takes a point, goes there, and draws if the pen is down. `ADDASSIGN`
/// that waits for the new text takes a text and stores it; any other answer
/// means that the variable held no number. Every other task takes a number;
/// any other answer to it, and any answer but a point to a move, makes the
/// number invalid.
pub open spec fn resumed(task: TaskView, answer: AnswerView, turtle: TurtleView) -> Result<
    (ProgressView, TurtleView),
    CommandError,
> {
    match task {
        TaskView::Arrive => match answer {
            AnswerView::Point(x, y) => Ok(
                (ProgressView::Finished(stroke(turtle, x, y)), moved(turtle, x, y)),
            ),
            _ => Err(CommandError::InvalidNumber),
        },
        TaskView::Store(name) => match answer {
            AnswerView::Text(text) => Ok(
                (
                    ProgressView::Finished(None),
                    TurtleView { variables: turtle.variables.insert(name, text), ..turtle },
                ),
            ),
            _ => Err(CommandError::NonNumericVariable),
        },
        _ => match answer {
            AnswerView::Value(value) => resumed_with_value(task, value, turtle),
            _ => Err(CommandError::InvalidNumber),
        },
    }
}

/// What a step returned, with the progress as its view.
pub open spec fn stepped(result: Result<Progress, CommandError>) -> Result<
    ProgressView,
    CommandError,
> {
    match result {
        Ok(progress) => Ok(progress@),
        Err(error) => Err(error),
    }
}

/// What a step does, for a caller that holds the turtle: the progress or the
/// error, and the turtle afterward, which is the turtle before where the
/// step fails.
pub open spec fn step_of(
    step: Result<(ProgressView, TurtleView), CommandError>,
    before: TurtleView,
) -> (Result<ProgressView, CommandError>, TurtleView) {
    match step {
        Ok((progress, after)) => (Ok(progress), after),
        Err(error) => (Err(error), before),
    }
}

/// The first step of a line: its command is read and started.
pub open spec fn begun(line: Seq<char>, turtle: TurtleView) -> Result<
    (ProgressView, TurtleView),
    CommandError,
> {
    match command_of(tokens(line)) {
        Ok(command) => Ok(started(command, turtle)),
        Err(error) => Err(error),
    }
}

/// Each answer brings a command nearer to its end: what is left after a
/// step needs fewer answers than what was left before.
pub proof fn every_answer_counts(task: TaskView, answer: AnswerView, turtle: TurtleView)
    ensures
        resumed(task, answer, turtle) matches Ok((next, _)) ==> next.rounds() < task.rounds(),
{
}

/// A command carried through with the answers that `answers` gives: the
/// line it drew, if any, and the turtle after it, or the error that ended
/// it.
pub open spec fn settled(
    answers: spec_fn(QueryView) -> AnswerView,
    progress: ProgressView,
    turtle: TurtleView,
) -> Result<(Option<Segment>, TurtleView), CommandError>
    decreases progress.rounds(),
{
    match progress {
        ProgressView::Finished(segment) => Ok((segment, turtle)),
        ProgressView::Waiting(task, query) => match resumed(task, answers(query), turtle) {
            Ok((next, after)) => {
                proof {
                    every_answer_counts(task, answers(query), turtle);
                }
                settled(answers, next, after)
            },
            Err(error) => Err(error),
        },
    }
}

/// What a command does to a turtle, with the answers that `answers` gives.
pub open spec fn outcome(
    answers: spec_fn(QueryView) -> AnswerView,
    command: CommandView,
    turtle: TurtleView,
) -> Result<(Option<Segment>, TurtleView), CommandError> {
    settled(answers, started(command, turtle).0, started(command, turtle).1)
}

/// Starts a command.
pub fn start(command: Command, turtle: &mut Turtle) -> (r: Progress)
    ensures
        (r@, final(turtle)@) == started(command@, old(turtle)@),
        final(turtle)@.finite(),
{
    proof {
        use_type_invariant(&turtle.x);
        use_type_invariant(&turtle.y);
        use_type_invariant(&turtle.heading);
    }
    match command {
        Command::PenUp => {
            turtle.pen_down = false;
            Progress::Finished(None)
        },
        Command::PenDown => {
            turtle.pen_down = true;
            Progress::Finished(None)
        },
        Command::SetPenColor(color) => {
            turtle.pen_color = color;
            Progress::Finished(None)
        },
        Command::Make(name, value) => {
            turtle.variables.insert(name, value);
            Progress::Finished(None)
        },
        Command::Forward(text) => Progress::Waiting(Task::Forward, Query::Parse(text)),
        Command::Back(text) => Progress::Waiting(Task::Back, Query::Parse(text)),
        Command::Left(text) => Progress::Waiting(Task::Left, Query::Parse(text)),
        Command::Right(text) => Progress::Waiting(Task::Right, Query::Parse(text)),
        Command::Turn(text) => Progress::Waiting(Task::Turn, Query::Parse(text)),
        Command::SetHeading(text) => Progress::Waiting(Task::SetHeading, Query::Parse(text)),
        Command::SetX(text) => Progress::Waiting(Task::SetX, Query::Parse(text)),
        Command::SetY(text) => Progress::Waiting(Task::SetY, Query::Parse(text)),
        Command::AddAssign(name, amount) => Progress::Waiting(
            Task::AddAssign(name),
            Query::Parse(amount),
        ),
    }
}

/// Reads a line and starts its command.
///
/// The line fails here if it is blank, if its first token is no command, or
/// if the command has too few arguments.
pub fn execute_command(line: &str, turtle: &mut Turtle) -> (r: Result<Progress, CommandError>)
    ensures
        (stepped(r), final(turtle)@) == step_of(begun(line@, old(turtle)@), old(turtle)@),
        r is Err ==> *final(turtle) == *old(turtle),
        final(turtle)@.finite(),
{
    proof {
        use_type_invariant(&turtle.x);
        use_type_invariant(&turtle.y);
        use_type_invariant(&turtle.heading);
    }
    match parse_command(line) {
        Ok(command) => Ok(start(command, turtle)),
        Err(error) => Err(error),
    }
}

/// Goes on with a command now that the answer to its query is there.
pub fn resume(task: Task, answer: Answer, turtle: &mut Turtle) -> (r: Result<
    Progress,
    CommandError,
>)
    ensures
        (stepped(r), final(turtle)@) == step_of(
            resumed(task@, answer@, old(turtle)@),
            old(turtle)@,
        ),
        r is Err ==> *final(turtle) == *old(turtle),
        final(turtle)@.finite(),
{
    proof {
        use_type_invariant(&turtle.x);
        use_type_invariant(&turtle.y);
        use_type_invariant(&turtle.heading);
    }
    match (task, answer) {
        (Task::Arrive, Answer::Point(x, y)) => Ok(Progress::Finished(move_turtle(turtle, x, y))),
        (Task::Arrive, _) => Err(CommandError::InvalidNumber),
        (Task::Store(name), Answer::Text(text)) => {
            turtle.variables.insert(name, text);
            Ok(Progress::Finished(None))
        },
        (Task::Store(_), _) => Err(CommandError::NonNumericVariable),
        (Task::Forward, Answer::Value(distance)) => Ok(
            Progress::Waiting(
                Task::Arrive,
                Query::EndPoint { x: turtle.x, y: turtle.y, heading: turtle.heading, distance },
            ),
        ),
        (Task::Back, Answer::Value(distance)) => Ok(
            Progress::Waiting(
                Task::Arrive,
                Query::EndPoint {
                    x: turtle.x,
                    y: turtle.y,
                    heading: turtle.heading,
                    distance: distance.negated(),
                },
            ),
        ),
        (Task::Left, Answer::Value(angle)) => Ok(
            Progress::Waiting(Task::Face, Query::Sum(turtle.heading, angle.negated())),
        ),
        (Task::Right, Answer::Value(angle)) => Ok(
            Progress::Waiting(Task::Face, Query::Sum(turtle.heading, angle)),
        ),
        (Task::Turn, Answer::Value(angle)) => Ok(
            Progress::Waiting(Task::Face, Query::Sum(turtle.heading, angle)),
        ),
        (Task::SetHeading, Answer::Value(heading)) => {
            proof {
                use_type_invariant(&heading);
            }
            turtle.heading = heading;
            Ok(Progress::Finished(None))
        },
        (Task::Face, Answer::Value(heading)) => {
            proof {
                use_type_invariant(&heading);
            }
            turtle.heading = heading;
            Ok(Progress::Finished(None))
        },
        (Task::SetX, Answer::Value(x)) => {
            proof {
                use_type_invariant(&x);
            }
            turtle.x = x;
            Ok(Progress::Finished(None))
        },
        (Task::SetY, Answer::Value(y)) => {
            proof {
                use_type_invariant(&y);
            }
            turtle.y = y;
            Ok(Progress::Finished(None))
        },
        (Task::AddAssign(name), Answer::Value(amount)) => {
            match turtle.variables.get(name.as_str()) {
                Some(text) => {
                    let text: String = text.clone();
                    Ok(Progress::Waiting(Task::Store(name), Query::Increase { text, amount }))
                },
                None => Err(CommandError::UndefinedVariable),
            }
        },
        _ => Err(CommandError::InvalidNumber),
    }
}

} // verus!
