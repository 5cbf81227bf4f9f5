//! The context: the plugin's picture of the driver's state, and the record of
//! the calls that bring the driver to it.
//!
//! Every operation first decides whether a driver call is needed, then
//! updates the picture and appends the call to the record. The host takes the
//! record with [`Context::take_commands`] and performs it in order. The one
//! thing the host hands back is the interface of a program once the driver
//! has linked it, with [`Context::link_program`].

use vstd::prelude::*;
use crate::command::{commands_view, Command};
use crate::material::{Blending, CullFace};
use crate::state::{
    declares, fresh_attributes, fresh_uniforms, holds, names_view, stored, AttributeView, Binding,
    ContextView, Pipeline, Program, ProgramView, UniformView, VertexBuffer,
};
use crate::values::{Rgba, Viewport};

verus! {

/// A uniform that a linked program declares, and the value last uploaded to
/// it, if any.
struct UniformSlot {
    name: String,
    value: Option<Vec<u32>>,
}

impl View for UniformSlot {
    type V = UniformView;

    closed spec fn view(&self) -> UniformView {
        UniformView {
            name: self.name@,
            value: match self.value {
                Some(value) => Some(value@),
                None => None,
            },
        }
    }
}

/// A vertex attribute that a linked program declares, and what it was last
/// pointed at, if anything.
struct AttributeSlot {
    name: String,
    binding: Option<Binding>,
}

impl View for AttributeSlot {
    type V = AttributeView;

    closed spec fn view(&self) -> AttributeView {
        AttributeView { name: self.name@, binding: self.binding }
    }
}

/// What the context knows of one program. Both lists are empty until the
/// host reports the program's interface.
struct ProgramState {
    uniforms: Vec<UniformSlot>,
    attributes: Vec<AttributeSlot>,
}

spec fn uniforms_view(slots: Seq<UniformSlot>) -> Seq<UniformView> {
    slots.map_values(|slot: UniformSlot| slot@)
}

spec fn attributes_view(slots: Seq<AttributeSlot>) -> Seq<AttributeView> {
    slots.map_values(|slot: AttributeSlot| slot@)
}

impl View for ProgramState {
    type V = ProgramView;

    closed spec fn view(&self) -> ProgramView {
        ProgramView {
            uniforms: uniforms_view(self.uniforms@),
            attributes: attributes_view(self.attributes@),
        }
    }
}

spec fn programs_view(programs: Seq<ProgramState>) -> Seq<ProgramView> {
    programs.map_values(|program: ProgramState| program@)
}

/// The picture of the driver's state and the record of calls not yet taken.
pub struct Context {
    pipeline: Pipeline,
    programs: Vec<ProgramState>,
    buffers: Vec<bool>,
    commands: Vec<Command>,
}

/// Whether two lists of words are equal.
fn same_words(a: &Vec<u32>, b: &Vec<u32>) -> (same: bool)
    ensures
        same == (a@ == b@),
{
    if a.len() != b.len() {
        return false;
    }
    let mut i: usize = 0;
    while i < a.len()
        invariant
            i <= a.len(),
            a.len() == b.len(),
            forall|k: int| 0 <= k < i ==> a@[k] == b@[k],
        decreases a.len() - i,
    {
        if a[i] != b[i] {
            return false;
        }
        i = i + 1;
    }
    assert(a@ =~= b@);
    true
}

/// What one more slot adds to a scan of the first `count` slots.
proof fn lemma_one_more_slot(slots: Seq<UniformView>, count: int, name: Seq<char>, value: Seq<u32>)
    requires
        0 <= count < slots.len(),
    ensures
        declares(slots.take(count + 1), name) == (declares(slots.take(count), name)
            || slots[count].name == name),
        holds(slots.take(count + 1), name, value) == (holds(slots.take(count), name, value) && (
        slots[count].name == name ==> slots[count].value == Some(value))),
{
    let before = slots.take(count);
    let after = slots.take(count + 1);
    assert(after[count] == slots[count]);
    assert forall|k: int| 0 <= k < count implies before[k] == after[k] by {}
    if declares(before, name) {
        let k = choose|k: int| 0 <= k < before.len() && (#[trigger] before[k]).name == name;
        assert(after[k].name == name);
    }
    if declares(after, name) && slots[count].name != name {
        let k = choose|k: int| 0 <= k < after.len() && (#[trigger] after[k]).name == name;
        assert(before[k].name == name);
    }
    if holds(after, name, value) {
        assert forall|k: int| 0 <= k < before.len() && (#[trigger] before[k]).name
            == name implies before[k].value == Some(value) by {
            assert(after[k].name == name);
        }
    }
    if holds(before, name, value) && (slots[count].name == name ==> slots[count].value == Some(
        value,
    )) {
        assert forall|k: int| 0 <= k < after.len() && (#[trigger] after[k]).name
            == name implies after[k].value == Some(value) by {
            if k < count {
                assert(before[k].name == name);
            }
        }
    }
}

/// Whether some slot is named `name`, and whether all so named hold `value`.
fn scan_uniforms(slots: &Vec<UniformSlot>, name: &String, value: &Vec<u32>) -> (found: (bool, bool))
    ensures
        found.0 == declares(uniforms_view(slots@), name@),
        found.1 == holds(uniforms_view(slots@), name@, value@),
{
    let ghost views = uniforms_view(slots@);
    let mut declared = false;
    let mut current = true;
    let mut i: usize = 0;
    while i < slots.len()
        invariant
            i <= slots.len(),
            views == uniforms_view(slots@),
            declared == declares(views.take(i as int), name@),
            current == holds(views.take(i as int), name@, value@),
        decreases slots.len() - i,
    {
        proof {
            lemma_one_more_slot(views, i as int, name@, value@);
        }
        if slots[i].name == *name {
            declared = true;
            let same = match &slots[i].value {
                Some(last) => same_words(last, value),
                None => false,
            };
            if !same {
                current = false;
            }
        }
        i = i + 1;
    }
    assert(views.take(slots.len() as int) =~= views);
    (declared, current)
}

/// Records `value` as the last upload of every slot named `name`.
fn store_uniform(slots: &mut Vec<UniformSlot>, name: &String, value: &Vec<u32>)
    ensures
        uniforms_view(final(slots)@) == stored(uniforms_view(old(slots)@), name@, value@),
{
    let ghost before = uniforms_view(slots@);
    let mut i: usize = 0;
    while i < slots.len()
        invariant
            i <= slots.len(),
            slots.len() == before.len(),
            forall|k: int| 0 <= k < i ==> slots@[k]@ == stored(before, name@, value@)[k],
            forall|k: int| i <= k < slots.len() ==> slots@[k]@ == before[k],
        decreases slots.len() - i,
    {
        if slots[i].name == *name {
            slots[i].value = Some(value.clone());
        }
        i = i + 1;
    }
    assert(uniforms_view(slots@) =~= stored(before, name@, value@));
}

/// One uniform slot per name, nothing uploaded.
fn fresh_uniform_slots(names: &Vec<String>) -> (slots: Vec<UniformSlot>)
    ensures
        uniforms_view(slots@) == fresh_uniforms(names_view(names@)),
{
    let mut slots: Vec<UniformSlot> = Vec::new();
    let mut i: usize = 0;
    while i < names.len()
        invariant
            i <= names.len(),
            slots.len() == i,
            forall|k: int| 0 <= k < i ==> slots@[k]@ == (UniformView { name: names@[k]@, value: None }),
        decreases names.len() - i,
    {
        slots.push(UniformSlot { name: names[i].clone(), value: None });
        i = i + 1;
    }
    assert(uniforms_view(slots@) =~= fresh_uniforms(names_view(names@)));
    slots
}

/// One attribute slot per name, none bound.
fn fresh_attribute_slots(names: &Vec<String>) -> (slots: Vec<AttributeSlot>)
    ensures
        attributes_view(slots@) == fresh_attributes(names_view(names@)),
{
    let mut slots: Vec<AttributeSlot> = Vec::new();
    let mut i: usize = 0;
    while i < names.len()
        invariant
            i <= names.len(),
            slots.len() == i,
            forall|k: int| 0 <= k < i ==> slots@[k]@ == (AttributeView { name: names@[k]@, binding: None }),
        decreases names.len() - i,
    {
        slots.push(AttributeSlot { name: names[i].clone(), binding: None });
        i = i + 1;
    }
    assert(attributes_view(slots@) =~= fresh_attributes(names_view(names@)));
    slots
}

impl View for Context {
    type V = ContextView;

    closed spec fn view(&self) -> ContextView {
        ContextView {
            pipeline: self.pipeline,
            programs: programs_view(self.programs@),
            buffers: self.buffers@,
            commands: commands_view(self.commands@),
        }
    }
}

impl Context {
    /// A fresh context: initial pipeline, nothing recorded.
    pub fn new() -> (context: Context)
        ensures
            context@ == ContextView::initial(),
    {
        let context = Context {
            pipeline: Pipeline::initial(),
            programs: Vec::new(),
            buffers: Vec::new(),
            commands: Vec::new(),
        };
        assert(context@.commands =~= Seq::empty());
        assert(context@.programs =~= Seq::empty());
        context
    }

    /// Appends `command` to the record.
    fn issue(&mut self, command: Command)
        ensures
            final(self)@ == old(self)@.issue(command@),
    {
        self.commands.push(command);
        assert(self@.commands =~= old(self)@.commands.push(command@));
    }

    /// Brings the pipeline to its initial state and records the driver's
    /// initialisation. The host must have made a graphics context current
    /// before it performs the record.
    pub fn init(&mut self)
        ensures
            final(self)@ == old(self)@.init(),
    {
        self.pipeline = Pipeline::initial();
        self.issue(Command::Init);
    }

    /// Returns the pipeline to its initial state and records the reset.
    pub fn reset(&mut self)
        ensures
            final(self)@ == old(self)@.reset(),
    {
        self.pipeline = Pipeline::initial();
        self.issue(Command::Reset);
    }

    /// Sets the colour that the next clear fills the colour buffer with.
    pub fn set_clear_color(&mut self, color: Rgba)
        ensures
            final(self)@ == old(self)@.set_clear_color(color),
    {
        self.pipeline.clear_color = color;
        self.issue(Command::ClearColor(color));
    }

    /// Records a clear of the buffers whose flag is set.
    pub fn clear(&mut self, color: bool, depth: bool, stencil: bool)
        ensures
            final(self)@ == old(self)@.clear(color, depth, stencil),
    {
        self.issue(Command::Clear { color, depth, stencil });
    }

    /// Sets the rectangle that is drawn to.
    pub fn set_viewport(&mut self, x: usize, y: usize, width: usize, height: usize)
        ensures
            final(self)@ == old(self)@.set_viewport(Viewport { x, y, width, height }),
    {
        let viewport = Viewport { x, y, width, height };
        self.pipeline.viewport = viewport;
        self.issue(Command::Viewport(viewport));
    }

    /// Sets which faces are discarded.
    pub fn set_cull_face(&mut self, mode: CullFace)
        ensures
            final(self)@ == old(self)@.set_cull_face(mode),
    {
        self.pipeline.cull_face = mode;
        self.issue(Command::CullFace(mode));
    }

    /// Sets how fragments are combined with the framebuffer.
    pub fn set_blending(&mut self, mode: Blending)
        ensures
            final(self)@ == old(self)@.set_blending(mode),
    {
        self.pipeline.blending = mode;
        self.issue(Command::Blending(mode));
    }

    /// Sets the width of rasterised lines, a single-precision bit pattern.
    pub fn set_line_width(&mut self, width: u32)
        ensures
            final(self)@ == old(self)@.set_line_width(width),
    {
        self.pipeline.line_width = width;
        self.issue(Command::LineWidth(width));
    }

    /// Creates a program from the two stages of a shader and records its
    /// compilation. Until the host reports the program's interface with
    /// [`Context::link_program`], the program declares nothing.
    pub fn new_program(&mut self, vertex: &String, fragment: &String) -> (program: Program)
        ensures
            program.handle == old(self)@.programs.len(),
            final(self)@ == old(self)@.new_program(vertex@, fragment@),
    {
        let handle = self.programs.len();
        self.programs.push(ProgramState { uniforms: Vec::new(), attributes: Vec::new() });
        assert(self@.programs =~= old(self)@.programs.push(
            ProgramView { uniforms: Seq::empty(), attributes: Seq::empty() },
        )) by {
            assert(self.programs@[handle as int]@.uniforms =~= Seq::empty());
            assert(self.programs@[handle as int]@.attributes =~= Seq::empty());
        }
        self.issue(
            Command::CompileProgram {
                program: handle,
                vertex: vertex.clone(),
                fragment: fragment.clone(),
            },
        );
        Program { handle }
    }

    /// Whether `program` is a handle of this context.
    pub fn has_program(&self, program: &Program) -> (known: bool)
        ensures
            known == self@.has_program(program.handle),
    {
        program.handle < self.programs.len()
    }

    /// Takes the host's report of what the driver found in the linked
    /// program: the names of its active uniforms and, in binding order, of its
    /// active attributes. Whatever was known of the program is forgotten.
    pub fn link_program(&mut self, program: &Program, uniforms: &Vec<String>, attributes: &Vec<String>)
        ensures
            final(self)@ == old(self)@.link_program(
                program.handle,
                names_view(uniforms@),
                names_view(attributes@),
            ),
    {
        let handle = program.handle;
        if handle < self.programs.len() {
            let state = ProgramState {
                uniforms: fresh_uniform_slots(uniforms),
                attributes: fresh_attribute_slots(attributes),
            };
            self.programs[handle] = state;
            assert(self@.programs =~= old(self)@.programs.update(handle as int, state@));
        }
    }

    /// Whether `program` is known to declare the uniform `name`.
    pub fn has_uniform(&self, program: &Program, name: &str) -> (declared: bool)
        ensures
            declared == self@.has_uniform(program.handle, name@),
    {
        let handle = program.handle;
        if handle < self.programs.len() {
            let wanted = name.to_owned();
            let slots = &self.programs[handle].uniforms;
            let ghost views = self@.programs[handle as int].uniforms;
            let mut i: usize = 0;
            while i < slots.len()
                invariant
                    i <= slots.len(),
                    wanted@ == name@,
                    handle == program.handle,
                    self@.has_program(handle),
                    views == self@.programs[handle as int].uniforms,
                    views == uniforms_view(slots@),
                    forall|k: int| 0 <= k < i ==> (#[trigger] views[k]).name != name@,
                decreases slots.len() - i,
            {
                if slots[i].name == wanted {
                    assert(views[i as int].name == name@);
                    return true;
                }
                i = i + 1;
            }
            false
        } else {
            false
        }
    }

    /// Uploads `value` to the uniform `name` of `program`, if the program
    /// declares it and, unless `force` is set, the value differs from the one
    /// uploaded last.
    pub fn set_uniform(&mut self, program: &Program, name: &str, value: &Vec<u32>, force: bool)
        ensures
            final(self)@ == old(self)@.set_uniform(program.handle, name@, value@, force),
    {
        let handle = program.handle;
        if handle < self.programs.len() {
            let name = name.to_owned();
            let found = scan_uniforms(&self.programs[handle].uniforms, &name, value);
            if found.0 && (force || !found.1) {
                store_uniform(&mut self.programs[handle].uniforms, &name, value);
                assert(self@.programs =~= old(self)@.programs.update(
                    handle as int,
                    ProgramView {
                        uniforms: stored(old(self)@.programs[handle as int].uniforms, name@, value@),
                        ..old(self)@.programs[handle as int]
                    },
                ));
                self.issue(Command::Uniform { program: handle, name, value: value.clone() });
            }
        }
    }

    /// Creates a vertex buffer that holds no data yet.
    pub fn new_buffer(&mut self) -> (buffer: VertexBuffer)
        ensures
            buffer.handle == old(self)@.buffers.len(),
            final(self)@ == old(self)@.new_buffer(),
    {
        let handle = self.buffers.len();
        self.buffers.push(false);
        VertexBuffer { handle }
    }

    /// Uploads `data` to `buffer`, if the buffer is known and, unless `force`
    /// is set, holds no data yet.
    pub fn buffer_data(&mut self, buffer: &VertexBuffer, data: &Vec<u32>, force: bool)
        ensures
            final(self)@ == old(self)@.buffer_data(buffer.handle, data@, force),
    {
        let handle = buffer.handle;
        if handle < self.buffers.len() && (force || !self.buffers[handle]) {
            self.buffers[handle] = true;
            self.issue(Command::BufferData { buffer: handle, data: data.clone() });
        }
    }

    /// The number of attributes that `program` is known to declare.
    pub fn attribute_count(&self, program: &Program) -> (count: usize)
        ensures
            count == self@.attributes(program.handle).len(),
    {
        let handle = program.handle;
        if handle < self.programs.len() {
            self.programs[handle].attributes.len()
        } else {
            0
        }
    }

    /// The name of the attribute of `program` at `index`, if there is one.
    pub fn attribute_name(&self, program: &Program, index: usize) -> (name: Option<&String>)
        ensures
            name is Some == (index < self@.attributes(program.handle).len()),
            name is Some ==> name->0@ == self@.attributes(program.handle)[index as int].name,
    {
        let handle = program.handle;
        if handle < self.programs.len() && index < self.programs[handle].attributes.len() {
            Some(&self.programs[handle].attributes[index].name)
        } else {
            None
        }
    }

    /// Points the attribute of `program` at `index` at `binding`, if there is
    /// such an attribute and, unless `force` is set, it is not bound so
    /// already.
    pub fn set_attribute(&mut self, program: &Program, index: usize, binding: Binding, force: bool)
        ensures
            final(self)@ == old(self)@.set_attribute(program.handle, index, binding, force),
    {
        let handle = program.handle;
        if handle < self.programs.len() && index < self.programs[handle].attributes.len() {
            let bound = match self.programs[handle].attributes[index].binding {
                Some(last) => last.buffer == binding.buffer && last.stride == binding.stride
                    && last.offset == binding.offset,
                None => false,
            };
            if force || !bound {
                let name = self.programs[handle].attributes[index].name.clone();
                self.programs[handle].attributes[index].binding = Some(binding);
                let ghost slot = old(self)@.attributes(handle)[index as int];
                assert(self.programs@[handle as int]@.attributes =~= old(self)@.attributes(handle).update(
                    index as int,
                    AttributeView { binding: Some(binding), ..slot },
                ));
                assert(self@.programs =~= old(self)@.programs.update(
                    handle as int,
                    ProgramView {
                        attributes: old(self)@.attributes(handle).update(
                            index as int,
                            AttributeView { binding: Some(binding), ..slot },
                        ),
                        ..old(self)@.programs[handle as int]
                    },
                ));
                self.issue(
                    Command::Attribute {
                        program: handle,
                        name,
                        buffer: binding.buffer,
                        stride: binding.stride,
                        offset: binding.offset,
                    },
                );
            }
        }
    }

    /// The pipeline state that the recorded calls lead to.
    pub fn pipeline(&self) -> (pipeline: Pipeline)
        ensures
            pipeline == self@.pipeline,
    {
        self.pipeline
    }

    /// The calls recorded since the record was last taken, oldest first.
    pub fn commands(&self) -> (commands: &Vec<Command>)
        ensures
            commands_view(commands@) == self@.commands,
    {
        &self.commands
    }

    /// Hands the record to the host and starts an empty one.
    pub fn take_commands(&mut self) -> (commands: Vec<Command>)
        ensures
            commands_view(commands@) == old(self)@.commands,
            final(self)@ == old(self)@.take_commands(),
    {
        let mut commands: Vec<Command> = Vec::new();
        std::mem::swap(&mut self.commands, &mut commands);
        assert(self@.commands =~= Seq::empty());
        commands
    }
}

} // verus!
