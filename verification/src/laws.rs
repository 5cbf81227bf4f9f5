//! What holds of the plugin over any sequence of calls, stated over the
//! values of its types and proved from the definitions of its operations.

use vstd::prelude::*;
use crate::binding::{attribute_call, attribute_calls, attributes_bound, rebinds, uniforms_bound};
use crate::command::CommandView;
use crate::geometry::{offset_of, GeometryView};
use crate::gl_geometry::GLGeometryView;
use crate::gl_renderer_plugin::PluginView;
use crate::material::MaterialView;
use crate::scene::{active_camera, Scene};
use crate::state::{declares, holds, stored, AttributeView, ContextView, UniformView};
use crate::values::Rgba;

verus! {

/// A material requested again under the same identity is served from the
/// cache: the plugin is left as it was, so nothing is compiled, and the
/// driver-side material of the first request is returned.
pub proof fn law_material_is_memoized(plugin: PluginView, first: MaterialView, again: MaterialView)
    requires
        first.id == again.id,
    ensures
        plugin.get_material(first).get_material(again) == plugin.get_material(first),
        plugin.get_material(first).gl_material(again) == plugin.gl_material(first),
{
}

/// A geometry requested again under the same identity is served from the
/// cache: the plugin is left as it was, so no buffer is reserved, and the
/// driver-side geometry of the first request, with its buffer handle and its
/// offset table, is returned.
pub proof fn law_geometry_is_memoized(plugin: PluginView, first: GeometryView, again: GeometryView)
    requires
        first.id == again.id,
    ensures
        plugin.get_geometry(first).get_geometry(again) == plugin.get_geometry(first),
        plugin.get_geometry(first).gl_geometry(again) == plugin.gl_geometry(first),
        plugin.get_geometry(first).gl_geometry(again).buffer == plugin.gl_geometry(first).buffer,
        forall|name: Seq<char>|
            offset_of(plugin.get_geometry(first).gl_geometry(again).geometry.attributes, name)
                == offset_of(plugin.gl_geometry(first).geometry.attributes, name),
{
}

/// A new plugin files every cache entry under the identity of its
/// descriptor, requests keep it so, and what a request returns carries the
/// identity asked for.
pub proof fn law_caches_are_filed_by_identity(
    plugin: PluginView,
    material: MaterialView,
    geometry: GeometryView,
)
    requires
        plugin.wf(),
    ensures
        PluginView::initial(plugin.uuid).wf(),
        plugin.get_material(material).wf(),
        plugin.get_geometry(geometry).wf(),
        plugin.gl_material(material).material.id == material.id,
        plugin.gl_geometry(geometry).geometry.id == geometry.id,
{
}

/// Lookup goes by identity alone. A descriptor whose identity is not cached
/// gets a resource of its own, whatever descriptors of other identities were
/// requested before and whether or not their contents are the same.
pub proof fn law_lookup_goes_by_identity(
    plugin: PluginView,
    first_material: MaterialView,
    other_material: MaterialView,
    first_geometry: GeometryView,
    other_geometry: GeometryView,
)
    requires
        first_material.id != other_material.id,
        first_geometry.id != other_geometry.id,
        !plugin.materials.contains_key(other_material.id),
        !plugin.geometries.contains_key(other_geometry.id),
    ensures
        !plugin.get_material(first_material).materials.contains_key(other_material.id),
        plugin.get_material(first_material).get_material(other_material).context.programs.len()
            == plugin.get_material(first_material).context.programs.len() + 1,
        !plugin.get_geometry(first_geometry).geometries.contains_key(other_geometry.id),
        plugin.get_geometry(first_geometry).get_geometry(other_geometry).context.buffers.len()
            == plugin.get_geometry(first_geometry).context.buffers.len() + 1,
{
}

/// Nothing is ever evicted: whatever is requested, an entry that is cached
/// stays cached, unchanged, and a request for one kind of resource leaves the
/// cache of the other kind alone.
pub proof fn law_cached_entries_stay(
    plugin: PluginView,
    material: MaterialView,
    geometry: GeometryView,
    id: u128,
)
    ensures
        plugin.materials.contains_key(id) ==> plugin.get_material(material).materials.contains_key(
            id,
        ) && plugin.get_material(material).materials[id] == plugin.materials[id],
        plugin.geometries.contains_key(id) ==> plugin.get_geometry(geometry).geometries.contains_key(
            id,
        ) && plugin.get_geometry(geometry).geometries[id] == plugin.geometries[id],
        plugin.get_material(material).geometries == plugin.geometries,
        plugin.get_geometry(geometry).materials == plugin.materials,
{
}

/// A material that is not cached gets a program of its own: the handle it is
/// given was no program's before the request and is one's after it. The same
/// holds of a geometry and its vertex buffer.
pub proof fn law_new_resources_get_new_handles(
    plugin: PluginView,
    material: MaterialView,
    geometry: GeometryView,
)
    requires
        plugin.context.programs.len() <= usize::MAX,
        plugin.context.buffers.len() <= usize::MAX,
    ensures
        !plugin.materials.contains_key(material.id) ==> {
            let handle = plugin.gl_material(material).program.handle;
            &&& !plugin.context.has_program(handle)
            &&& plugin.get_material(material).context.has_program(handle)
        },
        !plugin.geometries.contains_key(geometry.id) ==> {
            let handle = plugin.gl_geometry(geometry).buffer.handle;
            &&& !(handle < plugin.context.buffers.len())
            &&& handle < plugin.get_geometry(geometry).context.buffers.len()
        },
{
}

/// The frame is cleared to the background of the active 3D camera where
/// there is one, whatever the 2D cameras do; else to that of the active 2D
/// camera; else to opaque black.
pub proof fn law_camera_precedence(scene: Scene)
    ensures
        active_camera(scene.camera3d_manager) matches Some(camera) ==> scene.spec_background()
            == camera.background,
        active_camera(scene.camera3d_manager) is None ==> (active_camera(
            scene.camera2d_manager,
        ) matches Some(camera) ==> scene.spec_background() == camera.background),
        active_camera(scene.camera3d_manager) is None && active_camera(scene.camera2d_manager)
            is None ==> scene.spec_background() == Rgba::spec_opaque_black(),
{
}

/// The four uniform names are pairwise different.
proof fn lemma_uniform_names_differ()
    ensures
        "projection"@ != "model_view"@,
        "projection"@ != "view"@,
        "projection"@ != "normal"@,
        "model_view"@ != "view"@,
        "model_view"@ != "normal"@,
        "view"@ != "normal"@,
{
    reveal_strlit("projection");
    reveal_strlit("model_view");
    reveal_strlit("view");
    reveal_strlit("normal");
    assert("projection"@.len() == 10 && "model_view"@.len() == 10);
    assert("view"@.len() == 4 && "normal"@.len() == 6);
    assert("projection"@[0] == 'p' && "model_view"@[0] == 'm');
}

/// What storing a value under a name does to a program's uniform slots.
proof fn lemma_stored(slots: Seq<UniformView>, name: Seq<char>, value: Seq<u32>)
    ensures
        forall|other: Seq<char>| #[trigger]
            declares(stored(slots, name, value), other) == declares(slots, other),
        holds(stored(slots, name, value), name, value),
        forall|other: Seq<char>, words: Seq<u32>|
            other != name ==> #[trigger] holds(stored(slots, name, value), other, words) == holds(
                slots,
                other,
                words,
            ),
{
    let after = stored(slots, name, value);
    assert forall|other: Seq<char>| #[trigger] declares(after, other) == declares(slots, other) by {
        if declares(slots, other) {
            let i = choose|i: int| 0 <= i < slots.len() && (#[trigger] slots[i]).name == other;
            assert(after[i].name == other);
        }
        if declares(after, other) {
            let i = choose|i: int| 0 <= i < after.len() && (#[trigger] after[i]).name == other;
            assert(slots[i].name == other);
        }
    }
    assert forall|other: Seq<char>, words: Seq<u32>| other != name implies #[trigger] holds(
        after,
        other,
        words,
    ) == holds(slots, other, words) by {
        if holds(after, other, words) {
            assert forall|i: int| 0 <= i < slots.len() && (#[trigger] slots[i]).name
                == other implies slots[i].value == Some(words) by {
                assert(after[i].name == other);
            }
        }
    }
}

/// The upload of `value` to the uniform `name` of `program`, as it is
/// recorded where `context` knows the program to declare that uniform.
pub open spec fn declared_upload(
    context: ContextView,
    program: usize,
    name: Seq<char>,
    value: Seq<u32>,
) -> Seq<CommandView> {
    if context.has_uniform(program, name) {
        seq![CommandView::Uniform { program, name, value }]
    } else {
        Seq::empty()
    }
}

/// The uploads of the four matrices to the uniforms that `program` declares,
/// in the order projection, model-view, view, normal.
pub open spec fn declared_uploads(
    context: ContextView,
    program: usize,
    projection: Seq<u32>,
    model_view: Seq<u32>,
    view: Seq<u32>,
    normal: Seq<u32>,
) -> Seq<CommandView> {
    declared_upload(context, program, "projection"@, projection) + declared_upload(
        context,
        program,
        "model_view"@,
        model_view,
    ) + declared_upload(context, program, "view"@, view) + declared_upload(
        context,
        program,
        "normal"@,
        normal,
    )
}

/// Whether nothing was uploaded yet to any uniform of `program`.
pub open spec fn nothing_uploaded(context: ContextView, program: usize) -> bool {
    context.has_program(program) ==> forall|i: int|
        0 <= i < context.programs[program as int].uniforms.len() ==> (
        #[trigger] context.programs[program as int].uniforms[i]).value is None
}

/// What setting one uniform does to a context.
proof fn lemma_set_uniform(
    context: ContextView,
    program: usize,
    name: Seq<char>,
    value: Seq<u32>,
    force: bool,
)
    ensures
        ({
            let after = context.set_uniform(program, name, value, force);
            &&& after.pipeline == context.pipeline
            &&& after.buffers == context.buffers
            &&& after.programs.len() == context.programs.len()
            &&& after.attributes(program) == context.attributes(program)
            &&& forall|other: int|
                0 <= other < context.programs.len() && other != program
                    ==> #[trigger] after.programs[other] == context.programs[other]
            &&& forall|other: Seq<char>| #[trigger]
                after.has_uniform(program, other) == context.has_uniform(program, other)
            &&& context.has_uniform(program, name) ==> holds(
                after.programs[program as int].uniforms,
                name,
                value,
            )
            &&& forall|other: Seq<char>, words: Seq<u32>|
                other != name && context.has_program(program) ==> #[trigger] holds(
                    after.programs[program as int].uniforms,
                    other,
                    words,
                ) == holds(context.programs[program as int].uniforms, other, words)
            &&& after.commands == if context.uploads_uniform(program, name, value, force) {
                context.commands.push(CommandView::Uniform { program, name, value })
            } else {
                context.commands
            }
            &&& nothing_uploaded(context, program) && context.has_uniform(program, name)
                ==> context.uploads_uniform(program, name, value, force)
            &&& forall|i: int|
                context.has_program(program) && 0 <= i < context.programs[program as int].uniforms.len()
                    && (#[trigger] context.programs[program as int].uniforms[i]).name != name
                    ==> after.programs[program as int].uniforms[i]
                    == context.programs[program as int].uniforms[i]
        }),
{
    if context.has_program(program) {
        lemma_stored(context.programs[program as int].uniforms, name, value);
        if nothing_uploaded(context, program) && context.has_uniform(program, name) {
            let slots = context.programs[program as int].uniforms;
            let i = choose|i: int| 0 <= i < slots.len() && (#[trigger] slots[i]).name == name;
            assert(slots[i].value is None);
        }
    }
}

/// Binding uniforms reaches declared uniforms only. Every command it records
/// is an upload to `program` of one of the four matrices under its own name,
/// and the program declares that name; what was recorded before stays, and
/// nothing of the context changes but the uniform slots of `program`.
pub proof fn law_uniforms_reach_only_declared(
    context: ContextView,
    program: usize,
    projection: Seq<u32>,
    model_view: Seq<u32>,
    view: Seq<u32>,
    normal: Seq<u32>,
    force: bool,
)
    ensures
        ({
            let bound = uniforms_bound(context, program, projection, model_view, view, normal, force);
            &&& bound.pipeline == context.pipeline
            &&& bound.buffers == context.buffers
            &&& bound.programs.len() == context.programs.len()
            &&& bound.attributes(program) == context.attributes(program)
            &&& forall|other: int|
                0 <= other < context.programs.len() && other != program
                    ==> #[trigger] bound.programs[other] == context.programs[other]
            &&& context.commands.len() <= bound.commands.len() <= context.commands.len() + 4
            &&& forall|i: int|
                0 <= i < context.commands.len() ==> #[trigger] bound.commands[i]
                    == context.commands[i]
            &&& forall|i: int|
                context.commands.len() <= i < bound.commands.len() ==> {
                    &&& #[trigger] bound.commands[i] matches CommandView::Uniform {
                        program: target,
                        name,
                        value,
                    }
                    &&& target == program
                    &&& context.has_uniform(program, name)
                    &&& (name == "projection"@ && value == projection || name == "model_view"@
                        && value == model_view || name == "view"@ && value == view || name
                        == "normal"@ && value == normal)
                }
        }),
{
    let first = context.set_uniform(program, "projection"@, projection, force);
    let second = first.set_uniform(program, "model_view"@, model_view, force);
    let third = second.set_uniform(program, "view"@, view, force);
    lemma_set_uniform(context, program, "projection"@, projection, force);
    lemma_set_uniform(first, program, "model_view"@, model_view, force);
    lemma_set_uniform(second, program, "view"@, view, force);
    lemma_set_uniform(third, program, "normal"@, normal, force);
}

/// With `force` set, binding uniforms uploads every one of the four matrices
/// whose uniform the program declares, in order, whatever was uploaded
/// before.
pub proof fn law_forced_uniforms_are_uploaded(
    context: ContextView,
    program: usize,
    projection: Seq<u32>,
    model_view: Seq<u32>,
    view: Seq<u32>,
    normal: Seq<u32>,
)
    ensures
        uniforms_bound(context, program, projection, model_view, view, normal, true).commands
            == context.commands + declared_uploads(
            context,
            program,
            projection,
            model_view,
            view,
            normal,
        ),
{
    let first = context.set_uniform(program, "projection"@, projection, true);
    let second = first.set_uniform(program, "model_view"@, model_view, true);
    let third = second.set_uniform(program, "view"@, view, true);
    let last = third.set_uniform(program, "normal"@, normal, true);
    lemma_set_uniform(context, program, "projection"@, projection, true);
    lemma_set_uniform(first, program, "model_view"@, model_view, true);
    lemma_set_uniform(second, program, "view"@, view, true);
    lemma_set_uniform(third, program, "normal"@, normal, true);
    assert(last.commands =~= context.commands + declared_uploads(
        context,
        program,
        projection,
        model_view,
        view,
        normal,
    ));
}

/// On a program to which nothing was uploaded yet, binding uniforms uploads
/// every one of the four matrices whose uniform the program declares, in
/// order, with or without `force`.
pub proof fn law_first_uniforms_are_uploaded(
    context: ContextView,
    program: usize,
    projection: Seq<u32>,
    model_view: Seq<u32>,
    view: Seq<u32>,
    normal: Seq<u32>,
    force: bool,
)
    requires
        nothing_uploaded(context, program),
    ensures
        uniforms_bound(context, program, projection, model_view, view, normal, force).commands
            == context.commands + declared_uploads(
            context,
            program,
            projection,
            model_view,
            view,
            normal,
        ),
{
    lemma_uniform_names_differ();
    let first = context.set_uniform(program, "projection"@, projection, force);
    let second = first.set_uniform(program, "model_view"@, model_view, force);
    let third = second.set_uniform(program, "view"@, view, force);
    lemma_set_uniform(context, program, "projection"@, projection, force);
    lemma_set_uniform(first, program, "model_view"@, model_view, force);
    lemma_set_uniform(second, program, "view"@, view, force);
    lemma_set_uniform(third, program, "normal"@, normal, force);
    if context.has_program(program) {
        lemma_unset_uniform_uploads(context, first, program, "model_view"@, model_view, force);
        lemma_unset_uniform_uploads(context, second, program, "view"@, view, force);
        lemma_unset_uniform_uploads(context, third, program, "normal"@, normal, force);
    }
    let last = third.set_uniform(program, "normal"@, normal, force);
    assert(last.commands =~= context.commands + declared_uploads(
        context,
        program,
        projection,
        model_view,
        view,
        normal,
    ));
}

/// A declared uniform whose slots still are as in a context where nothing
/// was uploaded is uploaded when set.
proof fn lemma_unset_uniform_uploads(
    fresh: ContextView,
    context: ContextView,
    program: usize,
    name: Seq<char>,
    value: Seq<u32>,
    force: bool,
)
    requires
        nothing_uploaded(fresh, program),
        fresh.has_program(program),
        context.has_program(program),
        context.programs[program as int].uniforms.len() == fresh.programs[program as int].uniforms.len(),
        forall|i: int|
            0 <= i < fresh.programs[program as int].uniforms.len() && (
            #[trigger] fresh.programs[program as int].uniforms[i]).name == name
                ==> context.programs[program as int].uniforms[i]
                == fresh.programs[program as int].uniforms[i],
        forall|i: int|
            0 <= i < fresh.programs[program as int].uniforms.len() ==> (
            #[trigger] context.programs[program as int].uniforms[i]).name
                == fresh.programs[program as int].uniforms[i].name,
    ensures
        context.has_uniform(program, name) ==> context.uploads_uniform(program, name, value, force),
{
    if context.has_uniform(program, name) {
        let slots = context.programs[program as int].uniforms;
        let i = choose|i: int| 0 <= i < slots.len() && (#[trigger] slots[i]).name == name;
        assert(slots[i].value is None);
    }
}

/// Offering `program` the same four matrices again, without `force`,
/// uploads nothing and leaves the context as it was.
pub proof fn law_unforced_uniforms_settle(
    context: ContextView,
    program: usize,
    projection: Seq<u32>,
    model_view: Seq<u32>,
    view: Seq<u32>,
    normal: Seq<u32>,
    force: bool,
)
    ensures
        ({
            let once = uniforms_bound(context, program, projection, model_view, view, normal, force);
            uniforms_bound(once, program, projection, model_view, view, normal, false) == once
        }),
{
    lemma_uniform_names_differ();
    let first = context.set_uniform(program, "projection"@, projection, force);
    let second = first.set_uniform(program, "model_view"@, model_view, force);
    let third = second.set_uniform(program, "view"@, view, force);
    let once = third.set_uniform(program, "normal"@, normal, force);
    lemma_set_uniform(context, program, "projection"@, projection, force);
    lemma_set_uniform(first, program, "model_view"@, model_view, force);
    lemma_set_uniform(second, program, "view"@, view, force);
    lemma_set_uniform(third, program, "normal"@, normal, force);
    // Each matrix is held by the slots of its name from the step that offered
    // it onwards, since the later steps store under other names.
    if context.has_uniform(program, "projection"@) {
        assert(holds(first.programs[program as int].uniforms, "projection"@, projection));
        assert(holds(second.programs[program as int].uniforms, "projection"@, projection));
        assert(holds(third.programs[program as int].uniforms, "projection"@, projection));
        assert(holds(once.programs[program as int].uniforms, "projection"@, projection));
    }
    if context.has_uniform(program, "model_view"@) {
        assert(holds(second.programs[program as int].uniforms, "model_view"@, model_view));
        assert(holds(third.programs[program as int].uniforms, "model_view"@, model_view));
        assert(holds(once.programs[program as int].uniforms, "model_view"@, model_view));
    }
    if context.has_uniform(program, "view"@) {
        assert(holds(third.programs[program as int].uniforms, "view"@, view));
        assert(holds(once.programs[program as int].uniforms, "view"@, view));
    }
    if context.has_uniform(program, "normal"@) {
        assert(holds(once.programs[program as int].uniforms, "normal"@, normal));
    }
    assert(once.set_uniform(program, "projection"@, projection, false) == once);
    assert(once.set_uniform(program, "model_view"@, model_view, false) == once);
    assert(once.set_uniform(program, "view"@, view, false) == once);
    assert(once.set_uniform(program, "normal"@, normal, false) == once);
}

/// Whether `command` points an attribute that is among `slots` and that
/// `geometry` has at the place where `geometry` holds it.
pub open spec fn points_into(
    command: CommandView,
    program: usize,
    slots: Seq<AttributeView>,
    geometry: GLGeometryView,
) -> bool {
    &&& command matches CommandView::Attribute { program: target, name, buffer, stride, offset }
    &&& target == program
    &&& exists|j: int| 0 <= j < slots.len() && (#[trigger] slots[j]).name == name
    &&& offset_of(geometry.geometry.attributes, name) == Some(offset)
    &&& buffer == geometry.buffer.handle
    &&& stride == geometry.geometry.stride
}

/// Every call that binding records points an attribute of the program at the
/// geometry's own data.
proof fn lemma_calls_point_into(
    program: usize,
    slots: Seq<AttributeView>,
    geometry: GLGeometryView,
    force: bool,
)
    ensures
        forall|i: int|
            0 <= i < attribute_calls(program, slots, geometry, force).len() ==> points_into(
                #[trigger] attribute_calls(program, slots, geometry, force)[i],
                program,
                slots,
                geometry,
            ),
    decreases slots.len(),
{
    if slots.len() > 0 {
        let earlier = attribute_calls(program, slots.drop_last(), geometry, force);
        let calls = attribute_calls(program, slots, geometry, force);
        lemma_calls_point_into(program, slots.drop_last(), geometry, force);
        assert forall|i: int| 0 <= i < calls.len() implies points_into(
            #[trigger] calls[i],
            program,
            slots,
            geometry,
        ) by {
            if i < earlier.len() {
                assert(points_into(earlier[i], program, slots.drop_last(), geometry));
                let name = earlier[i]->Attribute_name;
                let j = choose|j: int|
                    0 <= j < slots.drop_last().len() && (#[trigger] slots.drop_last()[j]).name
                        == name;
                assert(slots[j].name == name);
            } else {
                assert(calls[i] == attribute_call(program, slots.last(), geometry));
                assert(slots[slots.len() - 1].name == slots.last().name);
            }
        }
    }
}

/// Slots that are pointed where the geometry holds their attributes lead to
/// no call when the geometry is bound without `force`.
proof fn lemma_settled_slots_call_nothing(
    program: usize,
    slots: Seq<AttributeView>,
    geometry: GLGeometryView,
)
    requires
        forall|i: int| 0 <= i < slots.len() ==> !rebinds(#[trigger] slots[i], geometry, false),
    ensures
        attribute_calls(program, slots, geometry, false) == Seq::<CommandView>::empty(),
    decreases slots.len(),
{
    if slots.len() > 0 {
        assert forall|i: int| 0 <= i < slots.drop_last().len() implies !rebinds(
            #[trigger] slots.drop_last()[i],
            geometry,
            false,
        ) by {
            assert(slots.drop_last()[i] == slots[i]);
        }
        lemma_settled_slots_call_nothing(program, slots.drop_last(), geometry);
        assert(!rebinds(slots[slots.len() - 1], geometry, false));
    }
}

/// Binding the same geometry to the same program again, without `force`,
/// uploads nothing, rebinds nothing and leaves the context as it was.
pub proof fn law_unforced_attributes_settle(
    context: ContextView,
    geometry: GLGeometryView,
    program: usize,
    force: bool,
)
    ensures
        ({
            let once = attributes_bound(context, geometry, program, force);
            attributes_bound(once, geometry, program, false) == once
        }),
{
    let once = attributes_bound(context, geometry, program, force);
    if once.has_program(program) {
        let slots = once.attributes(program);
        let again = attributes_bound(once, geometry, program, false);
        lemma_settled_slots_call_nothing(program, slots, geometry);
        assert(again.programs[program as int].attributes =~= slots);
        assert(again.programs =~= once.programs);
        assert(again.commands =~= once.commands);
    }
}

/// The upload of the geometry's vertex data, as it is recorded where
/// `context` knows the geometry's buffer.
pub open spec fn known_upload(context: ContextView, geometry: GLGeometryView) -> Seq<CommandView> {
    if geometry.buffer.handle < context.buffers.len() {
        seq![
            CommandView::BufferData {
                buffer: geometry.buffer.handle,
                data: geometry.geometry.vertices,
            },
        ]
    } else {
        Seq::empty()
    }
}

/// With `force` set, binding a geometry uploads its vertex data and points
/// every attribute that the program declares and the geometry has at it, in
/// slot order, whatever was uploaded or bound before.
pub proof fn law_forced_attributes_are_rebound(
    context: ContextView,
    geometry: GLGeometryView,
    program: usize,
)
    ensures
        attributes_bound(context, geometry, program, true).commands == context.commands
            + known_upload(context, geometry) + attribute_calls(
            program,
            context.attributes(program),
            geometry,
            true,
        ),
        forall|slot: AttributeView| #[trigger]
            rebinds(slot, geometry, true) == (offset_of(geometry.geometry.attributes, slot.name)
                is Some),
{
    let uploaded = context.buffer_data(geometry.buffer.handle, geometry.geometry.vertices, true);
    assert(uploaded.commands =~= context.commands + known_upload(context, geometry));
    assert(uploaded.attributes(program) == context.attributes(program));
}

/// Binding a geometry reaches only what program and geometry share. After
/// what was recorded before and the upload of the vertex data, if there is
/// one, every command points an attribute that the program declares and the
/// geometry has at the geometry's buffer, with the geometry's stride and the
/// offset the geometry gives for it.
pub proof fn law_attributes_reach_only_shared(
    context: ContextView,
    geometry: GLGeometryView,
    program: usize,
    force: bool,
)
    ensures
        ({
            let uploaded = context.buffer_data(
                geometry.buffer.handle,
                geometry.geometry.vertices,
                force,
            );
            let bound = attributes_bound(context, geometry, program, force);
            &&& uploaded.commands.len() <= bound.commands.len()
            &&& forall|i: int|
                0 <= i < uploaded.commands.len() ==> #[trigger] bound.commands[i]
                    == uploaded.commands[i]
            &&& forall|i: int|
                uploaded.commands.len() <= i < bound.commands.len() ==> points_into(
                    #[trigger] bound.commands[i],
                    program,
                    context.attributes(program),
                    geometry,
                )
        }),
{
    lemma_calls_point_into(program, context.attributes(program), geometry, force);
}

/// An attribute that the program declares and the geometry lacks is passed
/// over: binding succeeds all the same, the slot stays as it was, and no
/// command that binding records names the attribute.
pub proof fn law_missing_attribute_is_passed_over(
    context: ContextView,
    geometry: GLGeometryView,
    program: usize,
    force: bool,
    index: int,
)
    requires
        0 <= index < context.attributes(program).len(),
        offset_of(geometry.geometry.attributes, context.attributes(program)[index].name) is None,
    ensures
        ({
            let bound = attributes_bound(context, geometry, program, force);
            let missing = context.attributes(program)[index].name;
            &&& bound.attributes(program).len() == context.attributes(program).len()
            &&& bound.attributes(program)[index] == context.attributes(program)[index]
            &&& forall|i: int|
                context.commands.len() <= i < bound.commands.len() ==> !(
                #[trigger] bound.commands[i] matches CommandView::Attribute { name, .. } && name
                    == missing)
        }),
{
    let uploaded = context.buffer_data(geometry.buffer.handle, geometry.geometry.vertices, force);
    let bound = attributes_bound(context, geometry, program, force);
    let slots = context.attributes(program);
    law_attributes_reach_only_shared(context, geometry, program, force);
    assert forall|i: int| context.commands.len() <= i < bound.commands.len() implies !(
    #[trigger] bound.commands[i] matches CommandView::Attribute { name, .. } && name
        == slots[index].name) by {
        if i >= uploaded.commands.len() {
            assert(points_into(bound.commands[i], program, slots, geometry));
        } else {
            assert(bound.commands[i] == uploaded.commands[i]);
        }
    }
}

} // verus!
