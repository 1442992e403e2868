//! Errors that the script runtime reports, and their rendering for the log.

use vstd::prelude::*;
use crate::text::{decimal, push_decimal, push_signed, push_text, signed_decimal};

verus! {

/// One diagnostic of the script compiler.
#[derive(Debug, Clone, PartialEq, Eq)]
pub struct WrenCompileError {
    pub module: String,
    pub message: String,
    pub line: i32,
}

/// One frame of the call stack at the time of a runtime error.
#[derive(Debug, Clone, PartialEq, Eq)]
pub struct WrenStackFrame {
    pub module: String,
    pub line: i32,
    pub function: String,
    /// Whether the frame is a native one.
    pub is_foreign: bool,
}

/// What kind of failure the runtime reported.
#[derive(Debug, Clone, PartialEq, Eq)]
pub enum WrenErrorKind {
    /// The compiler rejected a module.
    CompileError(Vec<WrenCompileError>),
    /// A script aborted. `foreign` holds the text of the native error that
    /// caused the abort, if one did.
    RuntimeError { message: String, foreign: Option<String>, stack: Vec<WrenStackFrame> },
    /// Any other failure.
    Other,
}

/// A failure reported by the script runtime.
#[derive(Debug, Clone, PartialEq, Eq)]
pub struct WrenError {
    /// The runtime's own one-line text for the failure.
    pub display: String,
    pub kind: WrenErrorKind,
}

#[derive(Debug, Clone, PartialEq, Eq)]
pub enum GersError {
    /// Error in Wren VM or deeper within foreign function calls.
    Wren(WrenError),
    /// Error when the program was executed with incorrect command line arguments.
    InvalidCmdArgs,
}

pub type GersResult<T> = Result<T, GersError>;

impl GersError {
    pub open spec fn text(self) -> Seq<char> {
        match self {
            GersError::Wren(err) => err.display@,
            GersError::InvalidCmdArgs => "Invalid command line arguments"@,
        }
    }

    /// The error as text.
    pub fn to_string(&self) -> (s: String)
        ensures
            s@ == self.text(),
    {
        match self {
            GersError::Wren(err) => err.display.clone(),
            GersError::InvalidCmdArgs => String::from_str("Invalid command line arguments"),
        }
    }

    /// Wraps a failure of the script runtime.
    pub fn from(wren_error: WrenError) -> (e: Self)
        ensures
            e == GersError::Wren(wren_error),
    {
        GersError::Wren(wren_error)
    }
}

/// The log line of one compiler diagnostic.
pub open spec fn compile_line(error: WrenCompileError) -> Seq<char> {
    "Compile ["@ + error.module@ + " line "@ + signed_decimal(error.line as int) + "] "@
        + error.message@
}

/// The line of one stack frame, numbered from the bottom of the stack.
pub open spec fn frame_line(frame: WrenStackFrame, number: nat) -> Seq<char> {
    if frame.is_foreign {
        "\t"@ + decimal(number) + ". *foreign "@ + frame.module@ + ":"@ + signed_decimal(
            frame.line as int,
        ) + "\n"@
    } else {
        "\t"@ + decimal(number) + ". "@ + frame.module@ + " "@ + frame.function@ + ":"@
            + signed_decimal(frame.line as int) + "\n"@
    }
}

/// The lines of the first `upto` frames of a stack. The frame at position
/// `i` carries the number of frames minus `i`.
pub open spec fn stack_lines(stack: Seq<WrenStackFrame>, upto: nat) -> Seq<char>
    decreases upto,
{
    if upto == 0 {
        Seq::<char>::empty()
    } else {
        stack_lines(stack, (upto - 1) as nat) + frame_line(
            stack[upto - 1],
            (stack.len() - (upto - 1)) as nat,
        )
    }
}

/// The log message of a runtime error: the cause, then the stack trace.
pub open spec fn runtime_message(
    message: Seq<char>,
    foreign: Option<Seq<char>>,
    stack: Seq<WrenStackFrame>,
) -> Seq<char> {
    (match foreign {
        Some(cause) => "Foreign Runtime Error: "@ + cause + "\n"@,
        None => "Script Runtime Error: "@ + message + "\n"@,
    }) + "Stack Trace:\n"@ + stack_lines(stack, stack.len())
}

/// The messages that the log receives for an error, in order.
pub open spec fn log_messages(err: WrenError) -> Seq<Seq<char>> {
    match err.kind {
        WrenErrorKind::CompileError(errors) => Seq::new(
            errors@.len(),
            |i: int| compile_line(errors@[i]),
        ),
        WrenErrorKind::RuntimeError { message, foreign, stack } => seq![
            runtime_message(
                message@,
                match foreign {
                    Some(cause) => Some(cause@),
                    None => None,
                },
                stack@,
            ),
        ],
        WrenErrorKind::Other => seq![err.display@],
    }
}

fn render_frame(out: &mut String, frame: &WrenStackFrame, number: usize)
    ensures
        final(out)@ == old(out)@ + frame_line(*frame, number as nat),
{
    push_text(out, "\t");
    push_decimal(out, number as u64);
    if frame.is_foreign {
        push_text(out, ". *foreign ");
        push_text(out, frame.module.as_str());
    } else {
        push_text(out, ". ");
        push_text(out, frame.module.as_str());
        push_text(out, " ");
        push_text(out, frame.function.as_str());
    }
    push_text(out, ":");
    push_signed(out, frame.line as i64);
    push_text(out, "\n");
    assert(out@ =~= old(out)@ + frame_line(*frame, number as nat));
}

/// Renders a Wren error, with its stack trace, as the messages to write to
/// the log at error level.
pub fn log_wren_error(err: &WrenError) -> (messages: Vec<String>)
    ensures
        messages@.len() == log_messages(*err).len(),
        forall|i: int|
            0 <= i < messages@.len() ==> (#[trigger] messages@[i])@ == log_messages(*err)[i],
{
    let mut messages: Vec<String> = Vec::new();
    match &err.kind {
        WrenErrorKind::CompileError(errors) => {
            let mut i: usize = 0;
            while i < errors.len()
                invariant
                    i <= errors@.len(),
                    messages@.len() == i,
                    forall|j: int|
                        0 <= j < i ==> (#[trigger] messages@[j])@ == compile_line(errors@[j]),
                decreases errors@.len() - i,
            {
                let error = &errors[i];
                let mut line = String::new();
                push_text(&mut line, "Compile [");
                push_text(&mut line, error.module.as_str());
                push_text(&mut line, " line ");
                push_signed(&mut line, error.line as i64);
                push_text(&mut line, "] ");
                push_text(&mut line, error.message.as_str());
                assert(line@ =~= compile_line(*error));
                messages.push(line);
                i += 1;
            }
        },
        WrenErrorKind::RuntimeError { message, foreign, stack } => {
            let mut msg = String::new();
            match foreign {
                Some(cause) => {
                    push_text(&mut msg, "Foreign Runtime Error: ");
                    push_text(&mut msg, cause.as_str());
                },
                None => {
                    push_text(&mut msg, "Script Runtime Error: ");
                    push_text(&mut msg, message.as_str());
                },
            }
            push_text(&mut msg, "\n");
            push_text(&mut msg, "Stack Trace:\n");
            let ghost head = msg@;
            let count = stack.len();
            let mut idx: usize = 0;
            while idx < count
                invariant
                    count == stack@.len(),
                    idx <= count,
                    msg@ == head + stack_lines(stack@, idx as nat),
                decreases count - idx,
            {
                let ghost before = msg@;
                render_frame(&mut msg, &stack[idx], count - idx);
                assert(msg@ =~= head + stack_lines(stack@, (idx + 1) as nat));
                idx += 1;
            }
            assert(msg@ =~= log_messages(*err)[0]);
            messages.push(msg);
        },
        WrenErrorKind::Other => {
            messages.push(err.display.clone());
        },
    }
    messages
}

} // verus!
