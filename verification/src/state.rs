//! The value of a context: the driver state that the plugin keeps a picture
//! of, and how each operation changes it.
//!
//! Everything here is plain data or a definition over it. The operations
//! themselves are those of [`Context`](crate::context::Context), each of
//! which is proved to change the context's value exactly as the function of
//! the same name here says.

use vstd::prelude::*;
use crate::command::CommandView;
use crate::material::{Blending, CullFace};
use crate::values::{Rgba, Viewport, ONE_BITS};

verus! {

/// The fixed-function state that materials and cameras set.
#[derive(Clone, Copy, Debug, PartialEq, Eq, Structural)]
pub struct Pipeline {
    pub clear_color: Rgba,
    pub cull_face: CullFace,
    pub blending: Blending,
    /// The width of rasterised lines, a single-precision bit pattern.
    pub line_width: u32,
    pub viewport: Viewport,
}

impl Pipeline {
    /// The state of a fresh context: opaque black clear colour, back faces
    /// culled, normal blending, lines one unit wide, an empty viewport.
    pub open spec fn spec_initial() -> Pipeline {
        Pipeline {
            clear_color: Rgba::spec_opaque_black(),
            cull_face: CullFace::Back,
            blending: Blending::Normal,
            line_width: ONE_BITS,
            viewport: Viewport { x: 0, y: 0, width: 0, height: 0 },
        }
    }

    /// The state of a fresh context.
    #[verifier::when_used_as_spec(spec_initial)]
    pub fn initial() -> (pipeline: Pipeline)
        ensures
            pipeline == Pipeline::spec_initial(),
    {
        Pipeline {
            clear_color: Rgba::opaque_black(),
            cull_face: CullFace::Back,
            blending: Blending::Normal,
            line_width: ONE_BITS,
            viewport: Viewport { x: 0, y: 0, width: 0, height: 0 },
        }
    }
}

/// The handle of a program: its position among the programs of the context
/// that created it.
#[derive(Clone, Copy, Debug, PartialEq, Eq, Structural)]
pub struct Program {
    pub handle: usize,
}

/// The handle of a vertex buffer: its position among the buffers of the
/// context that created it.
#[derive(Clone, Copy, Debug, PartialEq, Eq, Structural)]
pub struct VertexBuffer {
    pub handle: usize,
}

/// Where a vertex attribute reads its data: from `buffer`, one item every
/// `stride` bytes, starting `offset` bytes in.
#[derive(Clone, Copy, Debug, PartialEq, Eq, Structural)]
pub struct Binding {
    pub buffer: usize,
    pub stride: usize,
    pub offset: usize,
}

/// The mathematical value of a uniform slot.
pub struct UniformView {
    pub name: Seq<char>,
    pub value: Option<Seq<u32>>,
}

/// The mathematical value of an attribute slot.
pub struct AttributeView {
    pub name: Seq<char>,
    pub binding: Option<Binding>,
}

/// The mathematical value of a program's state.
pub struct ProgramView {
    pub uniforms: Seq<UniformView>,
    /// The declared attributes, in the order in which they are bound.
    pub attributes: Seq<AttributeView>,
}

/// The values of a list of names, in order.
pub open spec fn names_view(names: Seq<String>) -> Seq<Seq<char>> {
    names.map_values(|name: String| name@)
}

/// Whether some slot is named `name`.
pub open spec fn declares(slots: Seq<UniformView>, name: Seq<char>) -> bool {
    exists|i: int| 0 <= i < slots.len() && (#[trigger] slots[i]).name == name
}

/// Whether every slot named `name` last received `value`.
pub open spec fn holds(slots: Seq<UniformView>, name: Seq<char>, value: Seq<u32>) -> bool {
    forall|i: int|
        0 <= i < slots.len() && (#[trigger] slots[i]).name == name
            ==> slots[i].value == Some(value)
}

/// The slots after `value` was uploaded to the uniform `name`: every slot so
/// named holds `value`, the others are as they were.
pub open spec fn stored(
    slots: Seq<UniformView>,
    name: Seq<char>,
    value: Seq<u32>,
) -> Seq<UniformView> {
    Seq::new(
        slots.len(),
        |i: int|
            if slots[i].name == name {
                UniformView { name, value: Some(value) }
            } else {
                slots[i]
            },
    )
}

/// The uniform slots of a program just linked: one per name, nothing uploaded.
pub open spec fn fresh_uniforms(names: Seq<Seq<char>>) -> Seq<UniformView> {
    Seq::new(names.len(), |i: int| UniformView { name: names[i], value: None })
}

/// The attribute slots of a program just linked: one per name, none bound.
pub open spec fn fresh_attributes(names: Seq<Seq<char>>) -> Seq<AttributeView> {
    Seq::new(names.len(), |i: int| AttributeView { name: names[i], binding: None })
}

/// The mathematical value of a [`Context`](crate::context::Context).
pub struct ContextView {
    pub pipeline: Pipeline,
    /// The state of each program, by handle.
    pub programs: Seq<ProgramView>,
    /// For each vertex buffer, by handle, whether its data was uploaded.
    pub buffers: Seq<bool>,
    /// The calls decided on since the record was last taken, oldest first.
    pub commands: Seq<CommandView>,
}

impl ContextView {
    /// A fresh context: initial pipeline, nothing recorded.
    pub open spec fn initial() -> ContextView {
        ContextView {
            pipeline: Pipeline::spec_initial(),
            programs: Seq::empty(),
            buffers: Seq::empty(),
            commands: Seq::empty(),
        }
    }

    /// This context with `command` appended to the record.
    pub open spec fn issue(self, command: CommandView) -> ContextView {
        ContextView { commands: self.commands.push(command), ..self }
    }

    /// This context with another pipeline state.
    pub open spec fn with_pipeline(self, pipeline: Pipeline) -> ContextView {
        ContextView { pipeline, ..self }
    }

    /// The pipeline is brought to its initial state and the driver's
    /// initialisation is recorded.
    pub open spec fn init(self) -> ContextView {
        self.with_pipeline(Pipeline::spec_initial()).issue(CommandView::Init)
    }

    /// The pipeline is returned to its initial state and the reset is
    /// recorded. Programs and buffers stay as they are.
    pub open spec fn reset(self) -> ContextView {
        self.with_pipeline(Pipeline::spec_initial()).issue(CommandView::Reset)
    }

    /// The clear colour is set and the call recorded, whatever the colour
    /// was before. The other pipeline setters below do likewise.
    pub open spec fn set_clear_color(self, color: Rgba) -> ContextView {
        self.with_pipeline(Pipeline { clear_color: color, ..self.pipeline }).issue(
            CommandView::ClearColor(color),
        )
    }

    /// A clear of the buffers whose flag is set is recorded.
    pub open spec fn clear(self, color: bool, depth: bool, stencil: bool) -> ContextView {
        self.issue(CommandView::Clear { color, depth, stencil })
    }

    pub open spec fn set_viewport(self, viewport: Viewport) -> ContextView {
        self.with_pipeline(Pipeline { viewport, ..self.pipeline }).issue(
            CommandView::Viewport(viewport),
        )
    }

    pub open spec fn set_cull_face(self, mode: CullFace) -> ContextView {
        self.with_pipeline(Pipeline { cull_face: mode, ..self.pipeline }).issue(
            CommandView::CullFace(mode),
        )
    }

    pub open spec fn set_blending(self, mode: Blending) -> ContextView {
        self.with_pipeline(Pipeline { blending: mode, ..self.pipeline }).issue(
            CommandView::Blending(mode),
        )
    }

    pub open spec fn set_line_width(self, width: u32) -> ContextView {
        self.with_pipeline(Pipeline { line_width: width, ..self.pipeline }).issue(
            CommandView::LineWidth(width),
        )
    }

    /// This context with an empty record.
    pub open spec fn take_commands(self) -> ContextView {
        ContextView { commands: Seq::empty(), ..self }
    }

    /// Whether `program` is a handle of this context.
    pub open spec fn has_program(self, program: usize) -> bool {
        program < self.programs.len()
    }

    /// This context with the state of `program` replaced.
    pub open spec fn with_program(self, program: usize, state: ProgramView) -> ContextView {
        ContextView { programs: self.programs.update(program as int, state), ..self }
    }

    /// A new program takes the next handle, has no known interface yet, and
    /// its compilation is recorded.
    pub open spec fn new_program(self, vertex: Seq<char>, fragment: Seq<char>) -> ContextView {
        ContextView {
            programs: self.programs.push(
                ProgramView { uniforms: Seq::empty(), attributes: Seq::empty() },
            ),
            ..self
        }.issue(
            CommandView::CompileProgram {
                program: self.programs.len() as usize,
                vertex,
                fragment,
            },
        )
    }

    /// The host's report of the interface of `program` replaces what was
    /// known of it; a report on an unknown handle changes nothing.
    pub open spec fn link_program(
        self,
        program: usize,
        uniforms: Seq<Seq<char>>,
        attributes: Seq<Seq<char>>,
    ) -> ContextView {
        if self.has_program(program) {
            self.with_program(
                program,
                ProgramView {
                    uniforms: fresh_uniforms(uniforms),
                    attributes: fresh_attributes(attributes),
                },
            )
        } else {
            self
        }
    }

    /// Whether `program` is known to declare the uniform `name`.
    pub open spec fn has_uniform(self, program: usize, name: Seq<char>) -> bool {
        self.has_program(program) && declares(self.programs[program as int].uniforms, name)
    }

    /// Whether setting the uniform leads to an upload: the program declares
    /// it, and the upload is forced or the value differs from the last one.
    pub open spec fn uploads_uniform(
        self,
        program: usize,
        name: Seq<char>,
        value: Seq<u32>,
        force: bool,
    ) -> bool {
        self.has_uniform(program, name) && (force || !holds(
            self.programs[program as int].uniforms,
            name,
            value,
        ))
    }

    /// Where the uniform is uploaded, every slot of that name holds `value`
    /// afterwards and the upload is recorded; else nothing changes.
    pub open spec fn set_uniform(
        self,
        program: usize,
        name: Seq<char>,
        value: Seq<u32>,
        force: bool,
    ) -> ContextView {
        if self.uploads_uniform(program, name, value, force) {
            self.with_program(
                program,
                ProgramView {
                    uniforms: stored(self.programs[program as int].uniforms, name, value),
                    ..self.programs[program as int]
                },
            ).issue(CommandView::Uniform { program, name, value })
        } else {
            self
        }
    }

    /// A new vertex buffer takes the next handle and holds no data yet.
    pub open spec fn new_buffer(self) -> ContextView {
        ContextView { buffers: self.buffers.push(false), ..self }
    }

    /// Whether handing the buffer its data leads to an upload: the buffer is
    /// known, and the upload is forced or the buffer holds no data yet.
    pub open spec fn uploads_buffer(self, buffer: usize, force: bool) -> bool {
        buffer < self.buffers.len() && (force || !self.buffers[buffer as int])
    }

    /// Where the data is uploaded, the buffer is marked as holding data and
    /// the upload is recorded; else nothing changes.
    pub open spec fn buffer_data(self, buffer: usize, data: Seq<u32>, force: bool) -> ContextView {
        if self.uploads_buffer(buffer, force) {
            ContextView { buffers: self.buffers.update(buffer as int, true), ..self }.issue(
                CommandView::BufferData { buffer, data },
            )
        } else {
            self
        }
    }

    /// The attribute slots of `program`; none for an unknown handle.
    pub open spec fn attributes(self, program: usize) -> Seq<AttributeView> {
        if self.has_program(program) {
            self.programs[program as int].attributes
        } else {
            Seq::empty()
        }
    }

    /// Whether binding the attribute leads to a driver call: the slot exists,
    /// and the call is forced or the slot is not bound to `binding` already.
    pub open spec fn rebinds_attribute(
        self,
        program: usize,
        index: usize,
        binding: Binding,
        force: bool,
    ) -> bool {
        index < self.attributes(program).len() && (force || self.attributes(
            program,
        )[index as int].binding != Some(binding))
    }

    /// Where the attribute is rebound, its slot is bound to `binding`
    /// afterwards and the call is recorded; else nothing changes.
    pub open spec fn set_attribute(
        self,
        program: usize,
        index: usize,
        binding: Binding,
        force: bool,
    ) -> ContextView {
        if self.rebinds_attribute(program, index, binding, force) {
            let slot = self.attributes(program)[index as int];
            self.with_program(
                program,
                ProgramView {
                    attributes: self.attributes(program).update(
                        index as int,
                        AttributeView { binding: Some(binding), ..slot },
                    ),
                    ..self.programs[program as int]
                },
            ).issue(
                CommandView::Attribute {
                    program,
                    name: slot.name,
                    buffer: binding.buffer,
                    stride: binding.stride,
                    offset: binding.offset,
                },
            )
        } else {
            self
        }
    }
}

} // verus!
