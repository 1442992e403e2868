//! Errors of the graphics layer.

use vstd::prelude::*;
use crate::graphics::gl;
use crate::graphics::rect::Rect;
use crate::text::{decimal, hex, push_decimal, push_hex, push_text};

verus! {

pub type GfxResult<T> = Result<T, GfxError>;

#[derive(Debug, PartialEq, Eq)]
pub enum GfxError {
    /// Error code from OpenGL.
    /// Contextual depending on which commands
    /// were run.
    OpenGl(u32),
    /// Error when creating a vertex-array-object with
    /// indices that are out of bounds of the given vertices.
    InvalidVertexArray { index: usize, vertex_count: usize },
    /// Texture size is not valid for the graphics hardware.
    InvalidTextureSize(u32, u32),
    /// Inner-texture does not fit in outer-texture.
    InvalidSubTexture { outer: Rect<u32>, inner: Rect<u32> },
    /// Error when a buffer of image data does not fit inside
    /// the specific texture rectangle.
    ///
    /// Data length would be something like `width * height * rgba`.
    InvalidImageData { expected: usize, actual: usize },
    /// Shader compilation error, with the driver's diagnostics.
    ShaderCompile(String),
}

/// The name under which an OpenGL error code is reported, if it has one.
pub open spec fn error_name(code: u32) -> Option<Seq<char>> {
    if code == gl::NO_ERROR {
        Some("GL_NO_ERROR"@)
    } else if code == gl::INVALID_ENUM {
        Some("GL_INVALID_ENUM"@)
    } else if code == gl::INVALID_VALUE {
        Some("GL_INVALID_VALUE"@)
    } else if code == gl::INVALID_OPERATION {
        Some("GL_INVALID_OPERATION"@)
    } else if code == gl::INVALID_FRAMEBUFFER_OPERATION || code == gl::OUT_OF_MEMORY {
        Some("GL_INVALID_FRAMEBUFFER_OPERATION"@)
    } else if code == gl::STACK_UNDERFLOW {
        Some("GL_STACK_UNDERFLOW"@)
    } else if code == gl::STACK_OVERFLOW {
        Some("GL_STACK_OVERFLOW"@)
    } else {
        None
    }
}

/// The sentence that explains an OpenGL error code; empty for a code
/// without one.
pub open spec fn error_description(code: u32) -> Seq<char> {
    if code == gl::NO_ERROR {
        "No error has been recorded"@
    } else if code == gl::INVALID_ENUM {
        "An unacceptable value is specified for an enumerated argument."@
    } else if code == gl::INVALID_VALUE {
        "A numeric argument is out of range."@
    } else if code == gl::INVALID_OPERATION {
        "The specified operation is not allowed in the current state."@
    } else if code == gl::INVALID_FRAMEBUFFER_OPERATION {
        "The framebuffer object is not complete."@
    } else if code == gl::OUT_OF_MEMORY {
        "There is not enough memory left to execute the command."@
    } else if code == gl::STACK_UNDERFLOW {
        "An attempt has been made to perform an operation that would cause an internal stack to underflow."@
    } else if code == gl::STACK_OVERFLOW {
        "An attempt has been made to perform an operation that would cause an internal stack to overflow."@
    } else {
        Seq::<char>::empty()
    }
}

/// The report of an OpenGL error code: the code in hexadecimal, its name
/// where it has one, and its description.
pub open spec fn opengl_text(code: u32) -> Seq<char> {
    "OpenGL Error: 0x"@ + hex(code as nat) + " "@ + (match error_name(code) {
        Some(name) => name + " "@,
        None => Seq::<char>::empty(),
    }) + error_description(code)
}

fn describe_code(code: u32) -> (s: &'static str)
    ensures
        s@ == error_description(code),
{
    if code == gl::NO_ERROR {
        "No error has been recorded"
    } else if code == gl::INVALID_ENUM {
        "An unacceptable value is specified for an enumerated argument."
    } else if code == gl::INVALID_VALUE {
        "A numeric argument is out of range."
    } else if code == gl::INVALID_OPERATION {
        "The specified operation is not allowed in the current state."
    } else if code == gl::INVALID_FRAMEBUFFER_OPERATION {
        "The framebuffer object is not complete."
    } else if code == gl::OUT_OF_MEMORY {
        "There is not enough memory left to execute the command."
    } else if code == gl::STACK_UNDERFLOW {
        "An attempt has been made to perform an operation that would cause an internal stack to underflow."
    } else if code == gl::STACK_OVERFLOW {
        "An attempt has been made to perform an operation that would cause an internal stack to overflow."
    } else {
        proof {
            reveal_strlit("");
        }
        assert(""@ =~= Seq::<char>::empty());
        ""
    }
}

impl GfxError {
    /// The text of the error.
    pub open spec fn text(self) -> Seq<char> {
        match self {
            GfxError::OpenGl(code) => opengl_text(code),
            GfxError::InvalidVertexArray { index, vertex_count } => {
                "Invalid vertex array object. Index "@ + decimal(index as nat)
                    + " is out of bounds for the given "@ + decimal(vertex_count as nat)
                    + " vertices."@
            },
            GfxError::InvalidTextureSize(width, height) => {
                "Invalid texture size ("@ + decimal(width as nat) + ", "@ + decimal(height as nat)
                    + "). Ensure that neither dimension is zero, and is power-of-two."@
            },
            GfxError::InvalidSubTexture { outer, inner } => {
                "Sub-texture rectangle "@ + inner.text() + " does not fit in "@ + outer.text()
                    + "."@
            },
            GfxError::InvalidImageData { expected, actual } => {
                "Image data does not match texture storage size. Expected bytes "@ + decimal(
                    expected as nat,
                ) + ". Actual bytes "@ + decimal(actual as nat) + "."@
            },
            GfxError::ShaderCompile(message) => "Shader compile error: "@ + message@,
        }
    }

    /// The name of the OpenGL error code that the error carries; none for a
    /// code without a name and for the other errors.
    pub fn opengl_error_name(&self) -> (name: Option<&'static str>)
        ensures
            match self {
                GfxError::OpenGl(code) => match error_name(*code) {
                    Some(expected) => name matches Some(n) && n@ == expected,
                    None => name is None,
                },
                _ => name is None,
            },
    {
        match self {
            GfxError::OpenGl(code) => {
                let code = *code;
                if code == gl::NO_ERROR {
                    Some("GL_NO_ERROR")
                } else if code == gl::INVALID_ENUM {
                    Some("GL_INVALID_ENUM")
                } else if code == gl::INVALID_VALUE {
                    Some("GL_INVALID_VALUE")
                } else if code == gl::INVALID_OPERATION {
                    Some("GL_INVALID_OPERATION")
                } else if code == gl::INVALID_FRAMEBUFFER_OPERATION || code == gl::OUT_OF_MEMORY {
                    Some("GL_INVALID_FRAMEBUFFER_OPERATION")
                } else if code == gl::STACK_UNDERFLOW {
                    Some("GL_STACK_UNDERFLOW")
                } else if code == gl::STACK_OVERFLOW {
                    Some("GL_STACK_OVERFLOW")
                } else {
                    None
                }
            },
            _ => None,
        }
    }

    /// The error as text.
    pub fn to_string(&self) -> (s: String)
        ensures
            s@ == self.text(),
    {
        let mut s = String::new();
        match self {
            GfxError::OpenGl(code) => {
                push_text(&mut s, "OpenGL Error: 0x");
                push_hex(&mut s, *code as u64);
                push_text(&mut s, " ");
                match self.opengl_error_name() {
                    Some(name) => {
                        push_text(&mut s, name);
                        push_text(&mut s, " ");
                    },
                    None => {},
                }
                push_text(&mut s, describe_code(*code));
            },
            GfxError::InvalidVertexArray { index, vertex_count } => {
                push_text(&mut s, "Invalid vertex array object. Index ");
                push_decimal(&mut s, *index as u64);
                push_text(&mut s, " is out of bounds for the given ");
                push_decimal(&mut s, *vertex_count as u64);
                push_text(&mut s, " vertices.");
            },
            GfxError::InvalidTextureSize(width, height) => {
                push_text(&mut s, "Invalid texture size (");
                push_decimal(&mut s, *width as u64);
                push_text(&mut s, ", ");
                push_decimal(&mut s, *height as u64);
                push_text(&mut s, "). Ensure that neither dimension is zero, and is power-of-two.");
            },
            GfxError::InvalidSubTexture { outer, inner } => {
                push_text(&mut s, "Sub-texture rectangle ");
                let inner_text = inner.to_string();
                push_text(&mut s, inner_text.as_str());
                push_text(&mut s, " does not fit in ");
                let outer_text = outer.to_string();
                push_text(&mut s, outer_text.as_str());
                push_text(&mut s, ".");
            },
            GfxError::InvalidImageData { expected, actual } => {
                push_text(&mut s, "Image data does not match texture storage size. Expected bytes ");
                push_decimal(&mut s, *expected as u64);
                push_text(&mut s, ". Actual bytes ");
                push_decimal(&mut s, *actual as u64);
                push_text(&mut s, ".");
            },
            GfxError::ShaderCompile(message) => {
                push_text(&mut s, "Shader compile error: ");
                push_text(&mut s, message.as_str());
            },
        }
        assert(s@ =~= self.text());
        s
    }
}

} // verus!
