//! The binding protocol: what binding a material, a set of matrices or a
//! geometry does to a context.

use vstd::prelude::*;
use crate::command::CommandView;
use crate::context::Context;
use crate::geometry::offset_of;
use crate::gl_geometry::{GLGeometry, GLGeometryView};
use crate::material::MaterialView;
use crate::state::{AttributeView, Binding, ContextView, Program, ProgramView, VertexBuffer};

verus! {

/// The context after a material's pipeline state was set: cull face and
/// blending always, line width only for a wireframe material.
pub open spec fn material_bound(context: ContextView, material: MaterialView) -> ContextView {
    let shaded = context.set_cull_face(material.cull_face).set_blending(material.blending);
    if material.wireframe {
        shaded.set_line_width(material.wireframe_line_width)
    } else {
        shaded
    }
}

/// The context after the four matrices were offered to `program`, in the
/// order projection, model-view, view, normal.
pub open spec fn uniforms_bound(
    context: ContextView,
    program: usize,
    projection: Seq<u32>,
    model_view: Seq<u32>,
    view: Seq<u32>,
    normal: Seq<u32>,
    force: bool,
) -> ContextView {
    context.set_uniform(program, "projection"@, projection, force).set_uniform(
        program,
        "model_view"@,
        model_view,
        force,
    ).set_uniform(program, "view"@, view, force).set_uniform(program, "normal"@, normal, force)
}

/// What the attribute `name` is pointed at when `geometry` is bound, or
/// `None` where the geometry has no such attribute.
pub open spec fn binding_for(geometry: GLGeometryView, name: Seq<char>) -> Option<Binding> {
    match offset_of(geometry.geometry.attributes, name) {
        Some(offset) => Some(
            Binding { buffer: geometry.buffer.handle, stride: geometry.geometry.stride, offset },
        ),
        None => None,
    }
}

/// Whether binding `geometry` leads to a driver call for `slot`: the
/// geometry has the attribute, and the call is forced or the slot is not
/// pointed there already.
pub open spec fn rebinds(slot: AttributeView, geometry: GLGeometryView, force: bool) -> bool {
    match binding_for(geometry, slot.name) {
        Some(binding) => force || slot.binding != Some(binding),
        None => false,
    }
}

/// The slot after `geometry` was bound: pointed at the geometry's data where
/// the geometry has the attribute, untouched where it has not.
pub open spec fn bound_slot(slot: AttributeView, geometry: GLGeometryView) -> AttributeView {
    match binding_for(geometry, slot.name) {
        Some(binding) => AttributeView { binding: Some(binding), ..slot },
        None => slot,
    }
}

/// The driver call that points `slot` at the data of `geometry`.
pub open spec fn attribute_call(program: usize, slot: AttributeView, geometry: GLGeometryView) -> CommandView {
    let binding = binding_for(geometry, slot.name)->0;
    CommandView::Attribute {
        program,
        name: slot.name,
        buffer: binding.buffer,
        stride: binding.stride,
        offset: binding.offset,
    }
}

/// The driver calls for the slots that binding `geometry` rebinds, in slot
/// order.
pub open spec fn attribute_calls(
    program: usize,
    slots: Seq<AttributeView>,
    geometry: GLGeometryView,
    force: bool,
) -> Seq<CommandView>
    decreases slots.len(),
{
    if slots.len() == 0 {
        Seq::empty()
    } else {
        let earlier = attribute_calls(program, slots.drop_last(), geometry, force);
        if rebinds(slots.last(), geometry, force) {
            earlier.push(attribute_call(program, slots.last(), geometry))
        } else {
            earlier
        }
    }
}

/// The context after every attribute slot of `program` was offered the data
/// of `geometry`: each slot whose attribute the geometry has is pointed at
/// it, and the calls for the slots that had to be rebound are recorded in
/// slot order. An unknown program has no slots.
pub open spec fn slots_bound(
    context: ContextView,
    geometry: GLGeometryView,
    program: usize,
    force: bool,
) -> ContextView {
    if context.has_program(program) {
        let state = context.programs[program as int];
        ContextView {
            programs: context.programs.update(
                program as int,
                ProgramView {
                    attributes: state.attributes.map_values(
                        |slot: AttributeView| bound_slot(slot, geometry),
                    ),
                    ..state
                },
            ),
            commands: context.commands + attribute_calls(
                program,
                state.attributes,
                geometry,
                force,
            ),
            ..context
        }
    } else {
        context
    }
}

/// The context after `geometry` was bound to `program`: its vertex data
/// uploaded if forced or new, then every attribute slot of the program
/// offered the data.
pub open spec fn attributes_bound(
    context: ContextView,
    geometry: GLGeometryView,
    program: usize,
    force: bool,
) -> ContextView {
    slots_bound(
        context.buffer_data(geometry.buffer.handle, geometry.geometry.vertices, force),
        geometry,
        program,
        force,
    )
}

/// The context after the first `count` attribute slots of `program` were
/// offered the data of `geometry`.
spec fn slots_bound_through(
    context: ContextView,
    geometry: GLGeometryView,
    program: usize,
    force: bool,
    count: int,
) -> ContextView {
    if context.has_program(program) {
        let state = context.programs[program as int];
        ContextView {
            programs: context.programs.update(
                program as int,
                ProgramView {
                    attributes: Seq::new(
                        state.attributes.len(),
                        |i: int|
                            if i < count {
                                bound_slot(state.attributes[i], geometry)
                            } else {
                                state.attributes[i]
                            },
                    ),
                    ..state
                },
            ),
            commands: context.commands + attribute_calls(
                program,
                state.attributes.take(count),
                geometry,
                force,
            ),
            ..context
        }
    } else {
        context
    }
}

/// Offers every attribute slot of `program` the data of `gl_geometry`, whose
/// vertex buffer is `buffer`.
pub(crate) fn bind_slots(
    context: &mut Context,
    gl_geometry: &GLGeometry,
    buffer: VertexBuffer,
    program: &Program,
    force: bool,
)
    requires
        buffer == gl_geometry@.buffer,
    ensures
        final(context)@ == slots_bound(old(context)@, gl_geometry@, program.handle, force),
{
    let ghost start = context@;
    let ghost slots = start.attributes(program.handle);
    let stride = gl_geometry.get_geometry().stride;
    let count = context.attribute_count(program);
    let mut index: usize = 0;
    proof {
        if start.has_program(program.handle) {
            let through = slots_bound_through(start, gl_geometry@, program.handle, force, 0);
            assert(slots.take(0) =~= Seq::empty());
            assert(through.programs[program.handle as int].attributes =~= slots);
            assert(through.programs =~= start.programs);
            assert(through.commands =~= start.commands);
        }
    }
    while index < count
        invariant
            index <= count,
            count == slots.len(),
            slots == start.attributes(program.handle),
            stride == gl_geometry@.geometry.stride,
            buffer == gl_geometry@.buffer,
            context@ == slots_bound_through(
                start,
                gl_geometry@,
                program.handle,
                force,
                index as int,
            ),
        decreases count - index,
    {
        let ghost slot = slots[index as int];
        let ghost next = slots_bound_through(start, gl_geometry@, program.handle, force, index + 1);
        assert(context@.attributes(program.handle)[index as int] == slot);
        assert(slots.take(index + 1).drop_last() =~= slots.take(index as int));
        assert(slots.take(index + 1).last() == slot);
        let offset = match context.attribute_name(program, index) {
            Some(name) => gl_geometry.get_offset(name),
            None => None,
        };
        if let Some(offset) = offset {
            let binding = Binding { buffer: buffer.handle, stride, offset };
            assert(binding_for(gl_geometry@, slot.name) == Some(binding));
            context.set_attribute(program, index, binding, force);
        }
        assert(context@.programs[program.handle as int].attributes
            =~= next.programs[program.handle as int].attributes);
        assert(context@.programs =~= next.programs);
        assert(context@.commands =~= next.commands);
        index = index + 1;
    }
    proof {
        if start.has_program(program.handle) {
            let all = slots_bound(start, gl_geometry@, program.handle, force);
            assert(slots.take(count as int) =~= slots);
            assert(context@.programs[program.handle as int].attributes
                =~= all.programs[program.handle as int].attributes);
            assert(context@.programs =~= all.programs);
        }
    }
}

} // verus!
