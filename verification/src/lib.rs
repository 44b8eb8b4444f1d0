//! An interpreter for a small line-oriented turtle-graphics language.
//!
//! A script is a sequence of lines, each one command: the pen goes up or
//! down, the turtle moves or turns, a variable is set. The interpreter keeps
//! the turtle and says which lines to draw.
//!
//! The library holds every decision and no arithmetic on fractions. A number
//! is the bit pattern of a finite single-precision value ([`number`]); where
//! a command needs a number read, a sum or the end point of a move, the
//! interpreter asks its caller and goes on with the answer
//! ([`interpreter`]). What each command comes to, whatever the answers, is
//! stated in [`laws`].
//!
//! - [`text`]: a line and its tokens
//! - [`command`]: the grammar of a command line
//! - [`color`]: the pen's palette
//! - [`number`]: finite numbers as bit patterns
//! - [`variables`]: the table of variables
//! - [`turtle`]: the turtle and the lines it draws
//! - [`interpreter`]: the steps of a command
//! - [`laws`]: what holds of every command
//! - [`error`]: what can go wrong with a command
//! - [`output`]: the formats an image can be saved in

pub mod color;
pub mod command;
pub mod error;
pub mod interpreter;
pub mod laws;
pub mod number;
pub mod output;
pub mod text;
pub mod turtle;
pub mod variables;
