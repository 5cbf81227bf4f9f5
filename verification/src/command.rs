//! The driver calls that the plugin decides on, as values.
//!
//! A [`Command`] names one call and carries its arguments. Programs and
//! vertex buffers are referred to by the handles that the
//! [`Context`](crate::context::Context) gave them; the host keeps the table
//! from handles to the driver's own names.

use vstd::prelude::*;
use crate::values::{Rgba, Viewport};
use crate::material::{Blending, CullFace};

verus! {

/// One call to the graphics driver.
#[derive(Debug, PartialEq, Eq)]
pub enum Command {
    /// Bring the driver's state to the defaults of a fresh context.
    Init,
    /// Return the driver's state to those defaults.
    Reset,
    /// Set the colour that a clear fills the colour buffer with.
    ClearColor(Rgba),
    /// Clear the buffers whose flag is set.
    Clear { color: bool, depth: bool, stencil: bool },
    /// Set the rectangle that is drawn to.
    Viewport(Viewport),
    CullFace(CullFace),
    Blending(Blending),
    /// Set the width of rasterised lines, a single-precision bit pattern.
    LineWidth(u32),
    /// Compile and link the two stages into the program with this handle.
    CompileProgram { program: usize, vertex: String, fragment: String },
    /// Upload `value` (16 words for a 4x4 matrix, 9 for a 3x3 one) to the
    /// uniform `name` of `program`.
    Uniform { program: usize, name: String, value: Vec<u32> },
    /// Fill the vertex buffer with `data`.
    BufferData { buffer: usize, data: Vec<u32> },
    /// Point the attribute `name` of `program` at `buffer`, reading one item
    /// every `stride` bytes starting `offset` bytes in.
    Attribute { program: usize, name: String, buffer: usize, stride: usize, offset: usize },
}

/// The mathematical value of a [`Command`].
pub enum CommandView {
    Init,
    Reset,
    ClearColor(Rgba),
    Clear { color: bool, depth: bool, stencil: bool },
    Viewport(Viewport),
    CullFace(CullFace),
    Blending(Blending),
    LineWidth(u32),
    CompileProgram { program: usize, vertex: Seq<char>, fragment: Seq<char> },
    Uniform { program: usize, name: Seq<char>, value: Seq<u32> },
    BufferData { buffer: usize, data: Seq<u32> },
    Attribute { program: usize, name: Seq<char>, buffer: usize, stride: usize, offset: usize },
}

impl View for Command {
    type V = CommandView;

    open spec fn view(&self) -> CommandView {
        match *self {
            Command::Init => CommandView::Init,
            Command::Reset => CommandView::Reset,
            Command::ClearColor(color) => CommandView::ClearColor(color),
            Command::Clear { color, depth, stencil } => CommandView::Clear { color, depth, stencil },
            Command::Viewport(viewport) => CommandView::Viewport(viewport),
            Command::CullFace(mode) => CommandView::CullFace(mode),
            Command::Blending(mode) => CommandView::Blending(mode),
            Command::LineWidth(width) => CommandView::LineWidth(width),
            Command::CompileProgram { program, vertex, fragment } => CommandView::CompileProgram {
                program,
                vertex: vertex@,
                fragment: fragment@,
            },
            Command::Uniform { program, name, value } => CommandView::Uniform {
                program,
                name: name@,
                value: value@,
            },
            Command::BufferData { buffer, data } => CommandView::BufferData { buffer, data: data@ },
            Command::Attribute { program, name, buffer, stride, offset } => CommandView::Attribute {
                program,
                name: name@,
                buffer,
                stride,
                offset,
            },
        }
    }
}

/// The values of a list of commands, in order.
pub open spec fn commands_view(commands: Seq<Command>) -> Seq<CommandView> {
    commands.map_values(|command: Command| command@)
}

} // verus!
