//! GERS errors.

use vstd::prelude::*;
use crate::text::push_text;

verus! {

#[derive(Debug, Clone, PartialEq, Eq)]
pub enum ErrorKind {
    /// Unspecified error occurred.
    Generic,
    /// An input or output error, with its text.
    Io(String),
    /// An error of the window system, with its text.
    Window(String),
    /// An error in a YAML document, with its text.
    Yaml(String),
}

#[derive(Debug, Clone, PartialEq, Eq)]
pub struct GersError {
    pub message: Option<String>,
    pub kind: ErrorKind,
    /// Optional further context that decorates the error.
    pub context: Vec<String>,
}

impl ErrorKind {
    pub open spec fn text(self) -> Seq<char> {
        match self {
            ErrorKind::Generic => "unspecified error"@,
            ErrorKind::Io(err) => err@,
            ErrorKind::Window(err) => err@,
            ErrorKind::Yaml(err) => err@,
        }
    }

    /// The kind as text.
    pub fn to_string(&self) -> (s: String)
        ensures
            s@ == self.text(),
    {
        match self {
            ErrorKind::Generic => String::from_str("unspecified error"),
            ErrorKind::Io(err) => err.clone(),
            ErrorKind::Window(err) => err.clone(),
            ErrorKind::Yaml(err) => err.clone(),
        }
    }
}

/// The lines of the first `upto` context entries.
pub open spec fn context_lines(context: Seq<String>, upto: nat) -> Seq<char>
    decreases upto,
{
    if upto == 0 {
        Seq::<char>::empty()
    } else {
        context_lines(context, (upto - 1) as nat) + "- "@ + context[upto - 1]@ + "\n"@
    }
}

impl GersError {
    /// The error as text: the message, if there is one, and the kind; then
    /// the context entries, one per line, if there are any.
    pub open spec fn text(self) -> Seq<char> {
        (match self.message {
            Some(message) => "Engine error: "@ + message@ + "; "@ + self.kind.text(),
            None => "Engine error: "@ + self.kind.text(),
        }) + (if self.context@.len() > 0 {
            "\n\nFurther context:\n\n"@ + context_lines(self.context@, self.context@.len())
        } else {
            Seq::<char>::empty()
        })
    }

    pub fn generic(message: String) -> (e: Self)
        ensures
            e.message == Some(message),
            e.kind == ErrorKind::Generic,
            e.context@ == Seq::<String>::empty(),
    {
        Self { kind: ErrorKind::Generic, message: Some(message), context: Vec::new() }
    }

    /// The error for an input or output error of the given text.
    pub fn io(err: String) -> (e: Self)
        ensures
            e.message is None,
            e.kind == ErrorKind::Io(err),
            e.context@ == Seq::<String>::empty(),
    {
        Self { message: None, kind: ErrorKind::Io(err), context: Vec::new() }
    }

    /// The error for an error of the window system of the given text.
    pub fn window(err: String) -> (e: Self)
        ensures
            e.message is None,
            e.kind == ErrorKind::Window(err),
            e.context@ == Seq::<String>::empty(),
    {
        Self { message: None, kind: ErrorKind::Window(err), context: Vec::new() }
    }

    /// The error for an error in a YAML document of the given text.
    pub fn yaml(err: String) -> (e: Self)
        ensures
            e.message is None,
            e.kind == ErrorKind::Yaml(err),
            e.context@ == Seq::<String>::empty(),
    {
        Self { message: None, kind: ErrorKind::Yaml(err), context: Vec::new() }
    }

    pub fn add_context(&mut self, context: String)
        ensures
            final(self).message == old(self).message,
            final(self).kind == old(self).kind,
            final(self).context@ == old(self).context@.push(context),
    {
        self.context.push(context);
    }

    /// The error as text.
    pub fn to_string(&self) -> (s: String)
        ensures
            s@ == self.text(),
    {
        let mut s = String::new();
        push_text(&mut s, "Engine error: ");
        match &self.message {
            Some(message) => {
                push_text(&mut s, message.as_str());
                push_text(&mut s, "; ");
            },
            None => {},
        }
        let kind = self.kind.to_string();
        push_text(&mut s, kind.as_str());
        // Further optional context
        if self.context.len() > 0 {
            push_text(&mut s, "\n\nFurther context:\n\n");
            let ghost head = s@;
            let mut i: usize = 0;
            while i < self.context.len()
                invariant
                    i <= self.context@.len(),
                    s@ == head + context_lines(self.context@, i as nat),
                decreases self.context@.len() - i,
            {
                push_text(&mut s, "- ");
                push_text(&mut s, self.context[i].as_str());
                push_text(&mut s, "\n");
                assert(s@ =~= head + context_lines(self.context@, (i + 1) as nat));
                i += 1;
            }
        }
        assert(s@ =~= self.text());
        s
    }
}

pub trait GersResultExt: Sized {
    /// Adds additional context, if the result contains an error.
    fn with_context<F: FnOnce() -> String>(self, context: F) -> (r: Self)
        requires
            context.requires(()),
    ;

    /// Replace the error message, if the result contains an error.
    fn with_message(self, message: String) -> (r: Self);
}

impl<T> GersResultExt for Result<T, GersError> {
    fn with_context<F: FnOnce() -> String>(self, context: F) -> (r: Self)
        ensures
            match self {
                Ok(value) => r == Ok::<T, GersError>(value),
                Err(e) => r matches Err(decorated) && decorated.message == e.message
                    && decorated.kind == e.kind && exists|entry: String|
                    context.ensures((), entry) && decorated.context@ == e.context@.push(entry),
            },
    {
        match self {
            Ok(value) => Ok(value),
            Err(err) => {
                let mut err = err;
                let entry = context();
                err.add_context(entry);
                Err(err)
            },
        }
    }

    fn with_message(self, message: String) -> (r: Self)
        ensures
            match self {
                Ok(value) => r == Ok::<T, GersError>(value),
                Err(e) => r == Err::<T, GersError>(
                    GersError { message: Some(message), kind: e.kind, context: e.context },
                ),
            },
    {
        match self {
            Ok(value) => Ok(value),
            Err(err) => Err(GersError { message: Some(message), kind: err.kind, context: err.context }),
        }
    }
}

pub trait GersExpectExt<T>: Sized {
    /// Whether the result holds a value.
    spec fn succeeded(self) -> bool;

    /// The value of a result that holds one.
    spec fn value(self) -> T;

    /// The value of a result that holds one.
    fn gers_expect(self, msg: &'static str) -> (value: T)
        requires
            self.succeeded(),
        ensures
            value == self.value(),
    ;
}

impl<T> GersExpectExt<T> for Result<T, GersError> {
    open spec fn succeeded(self) -> bool {
        self is Ok
    }

    open spec fn value(self) -> T {
        self->Ok_0
    }

    fn gers_expect(self, msg: &'static str) -> (value: T) {
        match self {
            Ok(value) => value,
            Err(_) => vstd::pervasive::unreached(),
        }
    }
}

} // verus!
