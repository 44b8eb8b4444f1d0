use turtle_script::color::Color;
use turtle_script::error::CommandError;
use turtle_script::interpreter::{execute_command, resume, Answer, Progress, Query, Task};
use turtle_script::number::Number;
use turtle_script::turtle::{move_turtle, Segment, Turtle};

fn finite(value: f32) -> Option<Number> {
    Number::from_bits(value.to_bits())
}

fn number(value: f32) -> Number {
    finite(value).expect("a finite value")
}

fn value(n: Number) -> f32 {
    f32::from_bits(n.to_bits())
}

fn value_or_nothing(v: f32) -> Answer {
    match finite(v) {
        Some(n) => Answer::Value(n),
        None => Answer::Nothing,
    }
}

/// Works a query out in single precision.
fn answer(query: &Query) -> Answer {
    match query {
        Query::Parse(text) => match text.parse::<f32>() {
            Ok(v) => value_or_nothing(v),
            Err(_) => Answer::Nothing,
        },
        Query::Sum(a, b) => value_or_nothing(value(*a) + value(*b)),
        Query::EndPoint { x, y, heading, distance } => {
            let (end_x, end_y) = unsvg::get_end_coordinates(
                value(*x),
                value(*y),
                heading.truncated(),
                value(*distance),
            );
            match (finite(end_x), finite(end_y)) {
                (Some(end_x), Some(end_y)) => Answer::Point(end_x, end_y),
                _ => Answer::Nothing,
            }
        }
        Query::Increase { text, amount } => match text.parse::<f32>() {
            Ok(current) => Answer::Text((current + value(*amount)).to_string()),
            Err(_) => Answer::Nothing,
        },
    }
}

/// Carries one line through, from the first step to the last.
fn run_line(line: &str, turtle: &mut Turtle) -> Result<Option<Segment>, CommandError> {
    let mut progress = execute_command(line, turtle)?;
    let mut answers = 0;
    loop {
        match progress {
            Progress::Finished(segment) => return Ok(segment),
            Progress::Waiting(task, query) => {
                answers += 1;
                assert!(answers <= 2, "a command is done after two answers");
                progress = resume(task, answer(&query), turtle)?;
            }
        }
    }
}

/// Carries the lines through as a run does: over blank lines and unknown
/// commands, up to the first error that ends the run.
fn run(lines: &[&str], turtle: &mut Turtle) -> (Vec<Segment>, Option<CommandError>) {
    let mut drawn = Vec::new();
    for line in lines {
        match run_line(line, turtle) {
            Ok(Some(segment)) => drawn.push(segment),
            Ok(None) => {}
            Err(error) => {
                if error.is_fatal() {
                    return (drawn, Some(error));
                }
            }
        }
    }
    (drawn, None)
}

fn centered(width: u32, height: u32) -> Turtle {
    Turtle::centered(width, height)
}

fn variable(turtle: &Turtle, name: &str) -> Option<String> {
    turtle.variables.get(name).cloned()
}

/// What a test can see of a turtle.
fn snapshot(turtle: &Turtle) -> (u32, u32, u32, bool, Color, usize) {
    (
        turtle.x.to_bits(),
        turtle.y.to_bits(),
        turtle.heading.to_bits(),
        turtle.pen_down,
        turtle.pen_color,
        turtle.variables.len(),
    )
}

fn close(a: f32, b: f32) -> bool {
    (a - b).abs() <= 0.01
}

#[test]
fn a_new_turtle_is_where_it_was_put() {
    let turtle = centered(200, 100);
    assert_eq!(value(turtle.x), 100.0);
    assert_eq!(value(turtle.y), 50.0);
    assert_eq!(turtle.heading.to_bits(), 0);
    assert!(!turtle.pen_down);
    assert_eq!(turtle.pen_color, Color::Black);
    assert_eq!(turtle.variables.len(), 0);
}

#[test]
fn a_centered_turtle_is_in_the_middle() {
    for (width, height) in [(200u32, 200u32), (1, 1), (0, 7), (641, 480), (u32::MAX, 1 << 25)] {
        let turtle = Turtle::centered(width, height);
        assert_eq!(turtle.x.to_bits(), (width as f32 / 2.0).to_bits());
        assert_eq!(turtle.y.to_bits(), (height as f32 / 2.0).to_bits());
        assert_eq!(turtle.heading.to_bits(), 0);
        assert!(!turtle.pen_down);
        assert_eq!(turtle.pen_color, Color::Black);
        assert_eq!(turtle.variables.len(), 0);
    }
}

#[test]
fn a_turtle_can_be_put_anywhere() {
    let turtle = Turtle::new(number(-3.25), number(1e9));
    assert_eq!(value(turtle.x), -3.25);
    assert_eq!(value(turtle.y), 1e9);
    assert_eq!(turtle.heading.to_bits(), 0);
    assert!(!turtle.pen_down);
    assert_eq!(turtle.pen_color, Color::Black);
    assert_eq!(turtle.variables.len(), 0);
}

#[test]
fn no_lines_draw_nothing() {
    let mut turtle = centered(200, 200);
    let before = snapshot(&turtle);
    let (drawn, error) = run(&[], &mut turtle);
    assert!(drawn.is_empty());
    assert_eq!(error, None);
    assert_eq!(snapshot(&turtle), before);
}

#[test]
fn pen_down_then_forward_draws_one_line_up() {
    let mut turtle = centered(200, 200);
    let (drawn, error) = run(&["PENDOWN", "FORWARD 100"], &mut turtle);
    assert_eq!(error, None);
    assert_eq!(drawn, vec![Segment { x0: 100, y0: 100, x1: 100, y1: 0, color: Color::Black }]);
    assert_eq!(value(turtle.x), 100.0);
    assert_eq!(value(turtle.y), 0.0);
    assert!(turtle.pen_down);
}

#[test]
fn forward_with_the_pen_up_moves_and_draws_nothing() {
    let mut turtle = centered(200, 200);
    let (drawn, error) = run(&["FORWARD 100"], &mut turtle);
    assert_eq!(error, None);
    assert!(drawn.is_empty());
    assert_eq!(value(turtle.x), 100.0);
    assert_eq!(value(turtle.y), 0.0);
}

#[test]
fn pen_up_stops_the_drawing() {
    let mut turtle = centered(200, 200);
    let (drawn, error) = run(&["PENDOWN", "FORWARD 10", "PENUP", "FORWARD 10"], &mut turtle);
    assert_eq!(error, None);
    assert_eq!(drawn, vec![Segment { x0: 100, y0: 100, x1: 100, y1: 90, color: Color::Black }]);
    assert_eq!(value(turtle.y), 80.0);
    assert!(!turtle.pen_down);
}

#[test]
fn right_turns_to_the_right() {
    let mut turtle = centered(200, 200);
    let (drawn, error) = run(&["PENDOWN", "RIGHT 90", "FORWARD 50"], &mut turtle);
    assert_eq!(error, None);
    assert_eq!(drawn, vec![Segment { x0: 100, y0: 100, x1: 150, y1: 100, color: Color::Black }]);
    assert_eq!(value(turtle.heading), 90.0);
}

#[test]
fn left_turns_to_the_left() {
    let mut turtle = centered(200, 200);
    let (drawn, error) = run(&["PENDOWN", "LEFT 90", "FORWARD 50"], &mut turtle);
    assert_eq!(error, None);
    assert_eq!(drawn, vec![Segment { x0: 100, y0: 100, x1: 50, y1: 100, color: Color::Black }]);
    assert_eq!(value(turtle.heading), -90.0);
}

#[test]
fn turn_adds_to_the_heading() {
    let mut turtle = centered(200, 200);
    let (_, error) = run(&["TURN 30", "TURN 30.5", "TURN -10"], &mut turtle);
    assert_eq!(error, None);
    assert_eq!(value(turtle.heading), 50.5);
}

#[test]
fn the_heading_is_not_brought_into_a_range() {
    let mut turtle = centered(200, 200);
    let (_, error) = run(&["RIGHT 350", "RIGHT 350", "LEFT 1000"], &mut turtle);
    assert_eq!(error, None);
    assert_eq!(value(turtle.heading), -300.0);
}

#[test]
fn back_moves_against_the_heading() {
    let mut turtle = centered(200, 200);
    let (drawn, error) = run(&["PENDOWN", "BACK 40"], &mut turtle);
    assert_eq!(error, None);
    assert_eq!(drawn, vec![Segment { x0: 100, y0: 100, x1: 100, y1: 140, color: Color::Black }]);
    assert_eq!(value(turtle.y), 140.0);
}

#[test]
fn back_asks_for_the_opposite_distance() {
    let mut turtle = centered(200, 200);
    let forward = resume(Task::Forward, Answer::Value(number(12.5)), &mut turtle);
    let back = resume(Task::Back, Answer::Value(number(12.5)), &mut turtle);
    let at = |distance: f32| {
        Ok(Progress::Waiting(
            Task::Arrive,
            Query::EndPoint {
                x: number(100.0),
                y: number(100.0),
                heading: number(0.0),
                distance: number(distance),
            },
        ))
    };
    assert_eq!(forward, at(12.5));
    assert_eq!(back, at(-12.5));
}

#[test]
fn left_asks_for_the_sum_with_the_opposite_angle() {
    let mut turtle = centered(200, 200);
    turtle.heading = number(10.0);
    let left = resume(Task::Left, Answer::Value(number(30.0)), &mut turtle);
    let right = resume(Task::Right, Answer::Value(number(30.0)), &mut turtle);
    let turn = resume(Task::Turn, Answer::Value(number(30.0)), &mut turtle);
    assert_eq!(left, Ok(Progress::Waiting(Task::Face, Query::Sum(number(10.0), number(-30.0)))));
    assert_eq!(right, Ok(Progress::Waiting(Task::Face, Query::Sum(number(10.0), number(30.0)))));
    assert_eq!(turn, Ok(Progress::Waiting(Task::Face, Query::Sum(number(10.0), number(30.0)))));
    assert_eq!(value(turtle.heading), 10.0);
}

#[test]
fn forward_then_back_returns() {
    for (heading, distance) in [("0", "100"), ("37", "12.5"), ("-120", "80"), ("400", "0.3")] {
        let mut turtle = centered(200, 200);
        let set = format!("SETHEADING {heading}");
        let forward = format!("FORWARD {distance}");
        let back = format!("BACK {distance}");
        let (_, error) = run(&[&set, &forward, &back], &mut turtle);
        assert_eq!(error, None);
        assert!(close(value(turtle.x), 100.0), "x is {}", value(turtle.x));
        assert!(close(value(turtle.y), 100.0), "y is {}", value(turtle.y));
    }
}

#[test]
fn a_full_turn_more_leads_to_the_same_place() {
    for heading in [0, 45, 90, 135, 270, -30] {
        let mut one = centered(200, 200);
        let mut other = centered(200, 200);
        let first = format!("SETHEADING {heading}");
        let second = format!("SETHEADING {}", heading + 360);
        let (_, error) = run(&[&first, "FORWARD 70"], &mut one);
        assert_eq!(error, None);
        let (_, error) = run(&[&second, "FORWARD 70"], &mut other);
        assert_eq!(error, None);
        assert!(close(value(one.x), value(other.x)));
        assert!(close(value(one.y), value(other.y)));
    }
}

#[test]
fn set_heading_twice_is_set_heading_once() {
    let mut turtle = centered(200, 200);
    let (_, error) = run(&["RIGHT 15", "SETHEADING 45"], &mut turtle);
    assert_eq!(error, None);
    let once = snapshot(&turtle);
    assert_eq!(value(turtle.heading), 45.0);
    let (drawn, error) = run(&["SETHEADING 45"], &mut turtle);
    assert_eq!(error, None);
    assert!(drawn.is_empty());
    assert_eq!(snapshot(&turtle), once);
}

#[test]
fn set_x_and_set_y_move_without_drawing() {
    let mut turtle = centered(200, 200);
    let (drawn, error) = run(&["PENDOWN", "SETX 10.5", "SETY -3"], &mut turtle);
    assert_eq!(error, None);
    assert!(drawn.is_empty());
    assert_eq!(value(turtle.x), 10.5);
    assert_eq!(value(turtle.y), -3.0);
    assert_eq!(turtle.heading.to_bits(), 0);
}

#[test]
fn the_turtle_keeps_fractions_and_the_line_is_in_whole_pixels() {
    let mut turtle = centered(200, 200);
    let (drawn, error) =
        run(&["SETX 10.75", "SETY 20.75", "PENDOWN", "SETHEADING 90", "FORWARD 5.5"], &mut turtle);
    assert_eq!(error, None);
    assert_eq!(drawn, vec![Segment { x0: 10, y0: 20, x1: 16, y1: 20, color: Color::Black }]);
    assert_eq!(value(turtle.x), 16.25);
    assert_eq!(value(turtle.y), 20.75);
}

#[test]
fn a_pen_color_is_used_for_the_lines_that_follow() {
    let mut turtle = centered(200, 200);
    let (drawn, error) = run(
        &["PENDOWN", "SETPENCOLOR 1", "FORWARD 10", "SETPENCOLOR 3", "FORWARD 10"],
        &mut turtle,
    );
    assert_eq!(error, None);
    assert_eq!(
        drawn,
        vec![
            Segment { x0: 100, y0: 100, x1: 100, y1: 90, color: Color::Red },
            Segment { x0: 100, y0: 90, x1: 100, y1: 80, color: Color::Blue },
        ]
    );
}

#[test]
fn a_pen_color_out_of_range_is_black_and_the_run_goes_on() {
    let mut turtle = centered(200, 200);
    let (drawn, error) =
        run(&["PENDOWN", "SETPENCOLOR 2", "SETPENCOLOR 99", "FORWARD 10"], &mut turtle);
    assert_eq!(error, None);
    assert_eq!(turtle.pen_color, Color::Black);
    assert_eq!(drawn, vec![Segment { x0: 100, y0: 100, x1: 100, y1: 90, color: Color::Black }]);
}

#[test]
fn a_pen_color_that_is_no_number_is_black() {
    let mut turtle = centered(200, 200);
    let (_, error) = run(&["SETPENCOLOR 2", "SETPENCOLOR green"], &mut turtle);
    assert_eq!(error, None);
    assert_eq!(turtle.pen_color, Color::Black);
}

#[test]
fn make_then_add_assign_adds() {
    let mut turtle = centered(200, 200);
    let (drawn, error) = run(&["MAKE x 5", "ADDASSIGN x 3"], &mut turtle);
    assert_eq!(error, None);
    assert!(drawn.is_empty());
    assert_eq!(variable(&turtle, "x"), Some("8".to_string()));
    assert_eq!(turtle.variables.len(), 1);
}

#[test]
fn add_assign_keeps_fractions() {
    let mut turtle = centered(200, 200);
    let (_, error) = run(&["MAKE x 1.5", "ADDASSIGN x 0.25", "ADDASSIGN x -2"], &mut turtle);
    assert_eq!(error, None);
    assert_eq!(variable(&turtle, "x"), Some("-0.25".to_string()));
}

#[test]
fn make_takes_any_text_and_a_later_make_replaces_it() {
    let mut turtle = centered(200, 200);
    let (_, error) = run(&["MAKE x hello", "MAKE y 1", "MAKE x world"], &mut turtle);
    assert_eq!(error, None);
    assert_eq!(variable(&turtle, "x"), Some("world".to_string()));
    assert_eq!(variable(&turtle, "y"), Some("1".to_string()));
    assert_eq!(turtle.variables.len(), 2);
}

#[test]
fn add_assign_to_an_unset_variable_fails_and_changes_nothing() {
    let mut turtle = centered(200, 200);
    let (_, error) = run(&["PENDOWN", "RIGHT 30", "MAKE x 1"], &mut turtle);
    assert_eq!(error, None);
    let before = snapshot(&turtle);
    assert_eq!(run_line("ADDASSIGN y 1", &mut turtle), Err(CommandError::UndefinedVariable));
    assert_eq!(snapshot(&turtle), before);
    assert_eq!(variable(&turtle, "y"), None);
    assert_eq!(variable(&turtle, "x"), Some("1".to_string()));
}

#[test]
fn add_assign_to_text_fails_and_changes_nothing() {
    let mut turtle = centered(200, 200);
    let (_, error) = run(&["MAKE x hello"], &mut turtle);
    assert_eq!(error, None);
    let before = snapshot(&turtle);
    assert_eq!(run_line("ADDASSIGN x 1", &mut turtle), Err(CommandError::NonNumericVariable));
    assert_eq!(snapshot(&turtle), before);
    assert_eq!(variable(&turtle, "x"), Some("hello".to_string()));
}

#[test]
fn add_assign_checks_the_amount_before_the_variable() {
    let mut turtle = centered(200, 200);
    assert_eq!(run_line("ADDASSIGN y abc", &mut turtle), Err(CommandError::InvalidNumber));
    let (_, error) = run(&["MAKE x hello"], &mut turtle);
    assert_eq!(error, None);
    assert_eq!(run_line("ADDASSIGN x abc", &mut turtle), Err(CommandError::InvalidNumber));
    assert_eq!(run_line("ADDASSIGN x", &mut turtle), Err(CommandError::MissingArgument));
}

#[test]
fn an_argument_that_is_no_number_fails_and_changes_nothing() {
    for line in [
        "FORWARD abc", "BACK abc", "LEFT abc", "RIGHT abc", "TURN abc", "SETHEADING abc",
        "SETX abc", "SETY abc", "FORWARD 1,5", "FORWARD NaN", "FORWARD inf", "SETX -inf",
        "TURN infinity",
    ] {
        let mut turtle = centered(200, 200);
        let (_, error) = run(&["PENDOWN", "SETPENCOLOR 2", "MAKE x 1"], &mut turtle);
        assert_eq!(error, None);
        let before = snapshot(&turtle);
        assert_eq!(run_line(line, &mut turtle), Err(CommandError::InvalidNumber), "line {line:?}");
        assert_eq!(snapshot(&turtle), before, "line {line:?}");
    }
}

#[test]
fn a_result_that_is_not_finite_fails_and_changes_nothing() {
    let mut turtle = centered(200, 200);
    let (_, error) = run(&["SETHEADING 3e38"], &mut turtle);
    assert_eq!(error, None);
    let before = snapshot(&turtle);
    assert_eq!(run_line("RIGHT 3e38", &mut turtle), Err(CommandError::InvalidNumber));
    assert_eq!(snapshot(&turtle), before);
}

#[test]
fn a_blank_line_and_an_unknown_command_do_not_end_the_run() {
    let mut turtle = centered(200, 200);
    assert_eq!(run_line("", &mut turtle), Err(CommandError::EmptyCommand));
    assert_eq!(run_line("   ", &mut turtle), Err(CommandError::EmptyCommand));
    assert_eq!(run_line("JUMP 3", &mut turtle), Err(CommandError::UnknownCommand));
    let (drawn, error) =
        run(&["PENDOWN", "", "JUMP 3", "// a remark", "FORWARD 10", "  "], &mut turtle);
    assert_eq!(error, None);
    assert_eq!(drawn.len(), 1);
}

#[test]
fn an_error_in_an_argument_ends_the_run() {
    let mut turtle = centered(200, 200);
    let (drawn, error) = run(&["PENDOWN", "FORWARD 10", "FORWARD", "FORWARD 10"], &mut turtle);
    assert_eq!(error, Some(CommandError::MissingArgument));
    assert_eq!(drawn.len(), 1);
    assert_eq!(value(turtle.y), 90.0);

    let mut turtle = centered(200, 200);
    let (drawn, error) = run(&["PENDOWN", "FORWARD ten", "FORWARD 10"], &mut turtle);
    assert_eq!(error, Some(CommandError::InvalidNumber));
    assert!(drawn.is_empty());
    assert_eq!(value(turtle.y), 100.0);
}

#[test]
fn the_first_step_asks_for_the_argument() {
    let mut turtle = centered(200, 200);
    let before = snapshot(&turtle);
    let parse = |text: &str| Query::Parse(text.to_string());
    assert_eq!(
        execute_command("FORWARD 10", &mut turtle),
        Ok(Progress::Waiting(Task::Forward, parse("10")))
    );
    assert_eq!(
        execute_command("BACK 10", &mut turtle),
        Ok(Progress::Waiting(Task::Back, parse("10")))
    );
    assert_eq!(
        execute_command("LEFT 10", &mut turtle),
        Ok(Progress::Waiting(Task::Left, parse("10")))
    );
    assert_eq!(
        execute_command("RIGHT 10", &mut turtle),
        Ok(Progress::Waiting(Task::Right, parse("10")))
    );
    assert_eq!(
        execute_command("TURN 10", &mut turtle),
        Ok(Progress::Waiting(Task::Turn, parse("10")))
    );
    assert_eq!(
        execute_command("SETHEADING 10", &mut turtle),
        Ok(Progress::Waiting(Task::SetHeading, parse("10")))
    );
    assert_eq!(
        execute_command("SETX 10", &mut turtle),
        Ok(Progress::Waiting(Task::SetX, parse("10")))
    );
    assert_eq!(
        execute_command("SETY 10", &mut turtle),
        Ok(Progress::Waiting(Task::SetY, parse("10")))
    );
    assert_eq!(
        execute_command("ADDASSIGN x 10", &mut turtle),
        Ok(Progress::Waiting(Task::AddAssign("x".to_string()), parse("10")))
    );
    assert_eq!(snapshot(&turtle), before);
}

#[test]
fn the_first_step_is_the_last_for_the_pen_and_for_make() {
    let mut turtle = centered(200, 200);
    assert_eq!(execute_command("PENDOWN", &mut turtle), Ok(Progress::Finished(None)));
    assert!(turtle.pen_down);
    assert_eq!(execute_command("PENUP", &mut turtle), Ok(Progress::Finished(None)));
    assert!(!turtle.pen_down);
    assert_eq!(execute_command("SETPENCOLOR 3", &mut turtle), Ok(Progress::Finished(None)));
    assert_eq!(turtle.pen_color, Color::Blue);
    assert_eq!(execute_command("MAKE x 5", &mut turtle), Ok(Progress::Finished(None)));
    assert_eq!(variable(&turtle, "x"), Some("5".to_string()));
}

#[test]
fn add_assign_asks_for_the_new_text() {
    let mut turtle = centered(200, 200);
    let (_, error) = run(&["MAKE x 5"], &mut turtle);
    assert_eq!(error, None);
    let step = resume(Task::AddAssign("x".to_string()), Answer::Value(number(3.0)), &mut turtle);
    assert_eq!(
        step,
        Ok(Progress::Waiting(
            Task::Store("x".to_string()),
            Query::Increase { text: "5".to_string(), amount: number(3.0) },
        ))
    );
    assert_eq!(variable(&turtle, "x"), Some("5".to_string()));
    let step = resume(Task::Store("x".to_string()), Answer::Text("8".to_string()), &mut turtle);
    assert_eq!(step, Ok(Progress::Finished(None)));
    assert_eq!(variable(&turtle, "x"), Some("8".to_string()));
}

#[test]
fn an_answer_of_the_wrong_kind_is_no_answer() {
    let mut turtle = centered(200, 200);
    let (_, error) = run(&["PENDOWN", "MAKE x 5"], &mut turtle);
    assert_eq!(error, None);
    let before = snapshot(&turtle);
    let one = number(1.0);
    let invalid = Err(CommandError::InvalidNumber);
    assert_eq!(resume(Task::Forward, Answer::Nothing, &mut turtle), invalid);
    assert_eq!(resume(Task::Forward, Answer::Point(one, one), &mut turtle), invalid);
    assert_eq!(resume(Task::Back, Answer::Text("1".to_string()), &mut turtle), invalid);
    assert_eq!(resume(Task::Left, Answer::Nothing, &mut turtle), invalid);
    assert_eq!(resume(Task::Right, Answer::Nothing, &mut turtle), invalid);
    assert_eq!(resume(Task::Turn, Answer::Nothing, &mut turtle), invalid);
    assert_eq!(resume(Task::SetHeading, Answer::Point(one, one), &mut turtle), invalid);
    assert_eq!(resume(Task::SetX, Answer::Nothing, &mut turtle), invalid);
    assert_eq!(resume(Task::SetY, Answer::Text("1".to_string()), &mut turtle), invalid);
    assert_eq!(resume(Task::AddAssign("x".to_string()), Answer::Nothing, &mut turtle), invalid);
    assert_eq!(resume(Task::Arrive, Answer::Value(one), &mut turtle), invalid);
    assert_eq!(resume(Task::Arrive, Answer::Nothing, &mut turtle), invalid);
    assert_eq!(resume(Task::Face, Answer::Nothing, &mut turtle), invalid);
    assert_eq!(resume(Task::Face, Answer::Point(one, one), &mut turtle), invalid);
    let not_numeric = Err(CommandError::NonNumericVariable);
    assert_eq!(resume(Task::Store("x".to_string()), Answer::Nothing, &mut turtle), not_numeric);
    assert_eq!(resume(Task::Store("x".to_string()), Answer::Value(one), &mut turtle), not_numeric);
    assert_eq!(snapshot(&turtle), before);
    assert_eq!(variable(&turtle, "x"), Some("5".to_string()));
}

#[test]
fn move_turtle_draws_only_with_the_pen_down() {
    let mut turtle = Turtle::new(number(1.9), number(-2.9));
    assert_eq!(move_turtle(&mut turtle, number(10.2), number(20.7)), None);
    assert_eq!(value(turtle.x), 10.2);
    assert_eq!(value(turtle.y), 20.7);
    turtle.pen_down = true;
    turtle.pen_color = Color::Green;
    assert_eq!(
        move_turtle(&mut turtle, number(-0.5), number(300.99)),
        Some(Segment { x0: 10, y0: 20, x1: 0, y1: 300, color: Color::Green })
    );
    assert_eq!(value(turtle.x), -0.5);
    assert_eq!(value(turtle.y), 300.99);
    assert!(turtle.pen_down);
    assert_eq!(turtle.pen_color, Color::Green);
}

#[test]
fn a_square_comes_back_to_where_it_began() {
    let mut turtle = centered(200, 200);
    let lines = [
        "PENDOWN", "FORWARD 50", "RIGHT 90", "FORWARD 50", "RIGHT 90", "FORWARD 50", "RIGHT 90",
        "FORWARD 50",
    ];
    let (drawn, error) = run(&lines, &mut turtle);
    assert_eq!(error, None);
    assert_eq!(
        drawn,
        vec![
            Segment { x0: 100, y0: 100, x1: 100, y1: 50, color: Color::Black },
            Segment { x0: 100, y0: 50, x1: 150, y1: 50, color: Color::Black },
            Segment { x0: 150, y0: 50, x1: 150, y1: 100, color: Color::Black },
            Segment { x0: 150, y0: 100, x1: 100, y1: 100, color: Color::Black },
        ]
    );
    assert_eq!(value(turtle.heading), 270.0);
}
