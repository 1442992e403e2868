//! Graphics renderer.

use vstd::prelude::*;
use crate::color::Color;
use crate::text::push_text;

verus! {

/// What a renderer needs of a graphics backend.
pub trait GfxBackend {
    /// Clears the surface to the colour.
    fn clear_color(&self, color: Color);
}

pub struct Render<B: GfxBackend> {
    backend: B,
}

impl<B: GfxBackend> Render<B> {
    /// The backend that the renderer draws with.
    pub closed spec fn backend(self) -> B {
        self.backend
    }

    pub fn new(backend: B) -> (render: Self)
        ensures
            render.backend() == backend,
    {
        Self { backend }
    }

    /// The backend that the renderer draws with.
    pub fn get_backend(&self) -> (backend: &B)
        ensures
            *backend == self.backend(),
    {
        &self.backend
    }

    /// Clears the surface of the backend to the colour.
    pub fn clear_color(&self, color: Color) {
        self.backend.clear_color(color)
    }
}

/// What an OpenGL driver tells of itself.
#[derive(Debug, Clone, PartialEq, Eq)]
pub struct OpenGLInfo {
    pub version: String,
    pub vendor: String,
    pub renderer: String,
}

impl OpenGLInfo {
    pub open spec fn text(self) -> Seq<char> {
        "version: "@ + self.version@ + ", vendor: "@ + self.vendor@ + ", renderer: "@
            + self.renderer@
    }

    /// The information on one line.
    pub fn to_string(&self) -> (s: String)
        ensures
            s@ == self.text(),
    {
        let mut s = String::new();
        push_text(&mut s, "version: ");
        push_text(&mut s, self.version.as_str());
        push_text(&mut s, ", vendor: ");
        push_text(&mut s, self.vendor.as_str());
        push_text(&mut s, ", renderer: ");
        push_text(&mut s, self.renderer.as_str());
        assert(s@ =~= self.text());
        s
    }
}

} // verus!
