//! The plugin: two identity-keyed caches of driver resources, the binders
//! that bring a material, its uniforms and a geometry's attributes to the
//! driver, and the frame hooks that the host renderer calls.

use std::collections::HashMap;
use vstd::prelude::*;
use crate::binding::{attributes_bound, bind_slots, material_bound, uniforms_bound};
use crate::context::Context;
use crate::geometry::{Geometry, GeometryView};
use crate::gl_geometry::{GLGeometry, GLGeometryView};
use crate::gl_material::{GLMaterial, GLMaterialView};
use crate::identity::{is_random_identity, random_identity};
use crate::material::{Material, MaterialView};
use crate::scene::SceneRenderer;
use crate::state::{ContextView, Program, VertexBuffer};
use crate::values::words_of;

verus! {

/// The kinds of plugin that a host renderer tells apart.
#[derive(Clone, Copy, Debug, PartialEq, Eq, Structural)]
pub enum PluginKind {
    GLRenderer,
}

/// The two caches: for each identity at most one driver-side resource, filed
/// under the identity of the descriptor it was made for.
struct Caches {
    geometries: HashMap<u128, GLGeometry>,
    materials: HashMap<u128, GLMaterial>,
}

impl Caches {
    /// Caches that hold nothing.
    fn new() -> (caches: Caches)
        ensures
            caches.geometries@ == Map::<u128, GLGeometry>::empty(),
            caches.materials@ == Map::<u128, GLMaterial>::empty(),
    {
        Caches { geometries: HashMap::new(), materials: HashMap::new() }
    }

    #[verifier::type_invariant]
    spec fn filed_by_identity(self) -> bool {
        &&& forall|id: u128| #[trigger]
            self.materials@.contains_key(id) ==> self.materials@[id]@.material.id == id
        &&& forall|id: u128| #[trigger]
            self.geometries@.contains_key(id) ==> self.geometries@[id]@.geometry.id == id
    }
}

/// The plugin. It owns the context and the two caches; descriptors are only
/// read.
pub struct GLRendererPlugin {
    uuid: u128,
    context: Context,
    scene_renderer: Option<SceneRenderer>,
    caches: Caches,
}

/// The mathematical value of a [`GLRendererPlugin`].
pub struct PluginView {
    /// The identity of this plugin instance.
    pub uuid: u128,
    pub context: ContextView,
    pub scene_renderer: Option<SceneRenderer>,
    /// The driver-side geometry cached for each geometry identity.
    pub geometries: Map<u128, GLGeometryView>,
    /// The driver-side material cached for each material identity.
    pub materials: Map<u128, GLMaterialView>,
}

impl PluginView {
    /// A plugin that has cached nothing and recorded nothing.
    pub open spec fn initial(uuid: u128) -> PluginView {
        PluginView {
            uuid,
            context: ContextView::initial(),
            scene_renderer: None,
            geometries: Map::empty(),
            materials: Map::empty(),
        }
    }

    /// Every cache entry is filed under the identity of its descriptor.
    pub open spec fn wf(self) -> bool {
        &&& forall|id: u128| #[trigger]
            self.materials.contains_key(id) ==> self.materials[id].material.id == id
        &&& forall|id: u128| #[trigger]
            self.geometries.contains_key(id) ==> self.geometries[id].geometry.id == id
    }

    /// This plugin with another context.
    pub open spec fn with_context(self, context: ContextView) -> PluginView {
        PluginView { context, ..self }
    }

    /// The plugin after a request for `material`: unchanged where the
    /// identity is cached; else with a program created from the material's
    /// shader and filed under the identity.
    pub open spec fn get_material(self, material: MaterialView) -> PluginView {
        if self.materials.contains_key(material.id) {
            self
        } else {
            PluginView {
                context: self.context.new_program(
                    material.shader->0.vertex,
                    material.shader->0.fragment,
                ),
                materials: self.materials.insert(
                    material.id,
                    GLMaterialView {
                        program: Program { handle: self.context.programs.len() as usize },
                        material,
                    },
                ),
                ..self
            }
        }
    }

    /// The driver-side material that a request for `material` returns.
    pub open spec fn gl_material(self, material: MaterialView) -> GLMaterialView {
        self.get_material(material).materials[material.id]
    }

    /// The driver-side geometry that a request for `geometry` returns.
    pub open spec fn gl_geometry(self, geometry: GeometryView) -> GLGeometryView {
        self.get_geometry(geometry).geometries[geometry.id]
    }

    /// The plugin after a request for `geometry`: unchanged where the
    /// identity is cached; else with a vertex buffer reserved for the
    /// geometry and filed under the identity.
    pub open spec fn get_geometry(self, geometry: GeometryView) -> PluginView {
        if self.geometries.contains_key(geometry.id) {
            self
        } else {
            PluginView {
                context: self.context.new_buffer(),
                geometries: self.geometries.insert(
                    geometry.id,
                    GLGeometryView {
                        buffer: VertexBuffer { handle: self.context.buffers.len() as usize },
                        geometry,
                    },
                ),
                ..self
            }
        }
    }

    /// The plugin after the frame was cleared to the background of the
    /// scene's governing camera.
    pub open spec fn before_render(self) -> PluginView {
        self.with_context(
            self.context.set_clear_color(self.scene_renderer->0.scene.spec_background()).clear(
                true,
                true,
                true,
            ),
        )
    }
}

/// The values of a cache of materials, identity by identity.
pub open spec fn gl_materials_view(materials: Map<u128, GLMaterial>) -> Map<u128, GLMaterialView> {
    Map::new(|id: u128| materials.contains_key(id), |id: u128| materials[id]@)
}

/// The values of a cache of geometries, identity by identity.
pub open spec fn gl_geometries_view(geometries: Map<u128, GLGeometry>) -> Map<u128, GLGeometryView> {
    Map::new(|id: u128| geometries.contains_key(id), |id: u128| geometries[id]@)
}

impl View for GLRendererPlugin {
    type V = PluginView;

    closed spec fn view(&self) -> PluginView {
        PluginView {
            uuid: self.uuid,
            context: self.context@,
            scene_renderer: self.scene_renderer,
            geometries: gl_geometries_view(self.caches.geometries@),
            materials: gl_materials_view(self.caches.materials@),
        }
    }
}

impl GLRendererPlugin {
    /// A plugin with a fresh random identity, a fresh context and empty
    /// caches, not yet attached to a scene renderer.
    pub fn new() -> (plugin: GLRendererPlugin)
        ensures
            plugin@ == PluginView::initial(plugin@.uuid),
            is_random_identity(plugin@.uuid),
    {
        let plugin = GLRendererPlugin {
            uuid: random_identity(),
            context: Context::new(),
            scene_renderer: None,
            caches: Caches::new(),
        };
        assert(plugin@.geometries =~= Map::empty());
        assert(plugin@.materials =~= Map::empty());
        plugin
    }

    /// Takes the caches out of the plugin and leaves empty ones. An entry is
    /// added to the caches while they are out, so that the plugin never holds
    /// caches that are half changed.
    fn take_caches(&mut self) -> (caches: Caches)
        ensures
            caches == old(self).caches,
            final(self).uuid == old(self).uuid,
            final(self).context == old(self).context,
            final(self).scene_renderer == old(self).scene_renderer,
    {
        let mut caches = Caches::new();
        std::mem::swap(&mut self.caches, &mut caches);
        caches
    }

    /// The identity of this plugin instance.
    pub fn get_uuid(&self) -> (uuid: u128)
        ensures
            uuid == self@.uuid,
    {
        self.uuid
    }

    /// The context that every driver call of this plugin is recorded in.
    pub fn get_context(&self) -> (context: &Context)
        ensures
            context@ == self@.context,
    {
        &self.context
    }

    /// The context, for the host to act on directly: to forward a resize, to
    /// report a program's interface, to take the recorded commands.
    pub fn get_context_mut(&mut self) -> (context: &mut Context)
        ensures
            context@ == old(self)@.context,
            final(self)@ == old(self)@.with_context(final(context)@),
    {
        &mut self.context
    }

    /// Whether a material with the identity `uuid` is cached.
    pub fn has_material(&self, uuid: u128) -> (cached: bool)
        ensures
            cached == self@.materials.contains_key(uuid),
    {
        self.caches.materials.contains_key(&uuid)
    }

    /// The driver-side material for `material`, created on the first request
    /// for its identity and returned from the cache on every later one.
    pub fn get_material(&mut self, material: &Material) -> (gl_material: GLMaterial)
        requires
            old(self)@.materials.contains_key(material.id) || material@.shader is Some,
        ensures
            final(self)@ == old(self)@.get_material(material@),
            gl_material@ == old(self)@.gl_material(material@),
            gl_material@.material.id == material.id,
    {
        proof {
            use_type_invariant(&self.caches);
        }
        if !self.has_material(material.id) {
            let program = match &material.shader {
                Some(shader) => self.context.new_program(&shader.vertex, &shader.fragment),
                None => vstd::pervasive::unreached(),
            };
            let gl_material = GLMaterial::new(program, material.clone());
            let Caches { geometries, mut materials } = self.take_caches();
            materials.insert(material.id, gl_material);
            self.caches = Caches { geometries, materials };
            assert(self@.materials =~= old(self)@.materials.insert(
                material.id,
                GLMaterialView { program, material: material@ },
            ));
        }
        match self.caches.materials.get(&material.id) {
            Some(gl_material) => gl_material.clone(),
            None => vstd::pervasive::unreached(),
        }
    }

    /// Whether a geometry with the identity of `geometry` is cached.
    pub fn has_geometry(&self, geometry: &Geometry) -> (cached: bool)
        ensures
            cached == self@.geometries.contains_key(geometry.id),
    {
        self.caches.geometries.contains_key(&geometry.id)
    }

    /// The driver-side geometry for `geometry`, created on the first request
    /// for its identity and returned from the cache on every later one.
    pub fn get_geometry(&mut self, geometry: &Geometry) -> (gl_geometry: GLGeometry)
        ensures
            final(self)@ == old(self)@.get_geometry(geometry@),
            gl_geometry@ == old(self)@.gl_geometry(geometry@),
            gl_geometry@.geometry.id == geometry.id,
    {
        proof {
            use_type_invariant(&self.caches);
        }
        match self.caches.geometries.get(&geometry.id) {
            Some(gl_geometry) => gl_geometry.clone(),
            None => {
                let gl_geometry = GLGeometry::new(&mut self.context, geometry.clone());
                let cached = gl_geometry.clone();
                let Caches { mut geometries, materials } = self.take_caches();
                geometries.insert(geometry.id, cached);
                self.caches = Caches { geometries, materials };
                assert(self@.geometries =~= old(self)@.geometries.insert(geometry.id, gl_geometry@));
                gl_geometry
            },
        }
    }

    /// Sets the pipeline state that the material asks for.
    pub fn bind_material(&mut self, gl_material: &GLMaterial)
        ensures
            final(self)@ == old(self)@.with_context(
                material_bound(old(self)@.context, gl_material@.material),
            ),
    {
        let material = gl_material.get_material();
        self.context.set_cull_face(material.cull_face);
        self.context.set_blending(material.blending);
        if material.wireframe {
            self.context.set_line_width(material.wireframe_line_width);
        }
    }

    /// Offers `program` the four matrices of a draw. Each is uploaded where
    /// the program declares the uniform of that name and, unless `force` is
    /// set, the matrix differs from the one uploaded last.
    pub fn bind_uniforms(
        &mut self,
        program: &Program,
        projection: &[u32; 16],
        model_view: &[u32; 16],
        view: &[u32; 16],
        normal: &[u32; 9],
        force: bool,
    )
        ensures
            final(self)@ == old(self)@.with_context(
                uniforms_bound(
                    old(self)@.context,
                    program.handle,
                    projection@,
                    model_view@,
                    view@,
                    normal@,
                    force,
                ),
            ),
    {
        if self.context.has_uniform(program, "projection") {
            self.context.set_uniform(program, "projection", &words_of(projection), force);
        }
        if self.context.has_uniform(program, "model_view") {
            self.context.set_uniform(program, "model_view", &words_of(model_view), force);
        }
        if self.context.has_uniform(program, "view") {
            self.context.set_uniform(program, "view", &words_of(view), force);
        }
        if self.context.has_uniform(program, "normal") {
            self.context.set_uniform(program, "normal", &words_of(normal), force);
        }
    }

    /// Binds the geometry's vertex data to the attributes of `program`: the
    /// data is uploaded if `force` is set or the buffer is new, and every
    /// attribute that the program declares and the geometry has is pointed at
    /// it. An attribute that the geometry lacks is passed over.
    pub fn bind_attributes(&mut self, gl_geometry: &GLGeometry, program: &Program, force: bool)
        ensures
            final(self)@ == old(self)@.with_context(
                attributes_bound(old(self)@.context, gl_geometry@, program.handle, force),
            ),
    {
        let buffer = gl_geometry.get_vertex_buffer(&mut self.context, force);
        bind_slots(&mut self.context, gl_geometry, buffer, program, force);
    }

    /// The kind under which the host renderer files this plugin.
    pub fn get_id(&self) -> (kind: PluginKind)
        ensures
            kind == PluginKind::GLRenderer,
    {
        PluginKind::GLRenderer
    }

    /// The scene renderer that the plugin is attached to, if any.
    pub fn get_scene_renderer(&self) -> (scene_renderer: Option<SceneRenderer>)
        ensures
            scene_renderer == self@.scene_renderer,
    {
        self.scene_renderer
    }

    /// Attaches the plugin to a scene renderer, or detaches it.
    pub fn set_scene_renderer(&mut self, scene_renderer: Option<SceneRenderer>)
        ensures
            final(self)@ == (PluginView { scene_renderer, ..old(self)@ }),
    {
        self.scene_renderer = scene_renderer;
    }

    /// The position of this plugin among the plugins of a frame: it runs
    /// first.
    pub fn get_order(&self) -> (order: usize)
        ensures
            order == 0,
    {
        0
    }

    /// Returns the context to its initial pipeline state.
    pub fn clear(&mut self)
        ensures
            final(self)@ == old(self)@.with_context(old(self)@.context.reset()),
    {
        self.context.reset();
    }

    /// Initialises the context. The host must have made a graphics context
    /// current before it performs the recorded commands.
    pub fn init(&mut self)
        ensures
            final(self)@ == old(self)@.with_context(old(self)@.context.init()),
    {
        self.context.init();
    }

    /// Clears the frame: the clear colour is the background of the scene's
    /// governing camera, and colour, depth and stencil are all cleared.
    pub fn before_render(&mut self)
        requires
            old(self)@.scene_renderer is Some,
        ensures
            final(self)@ == old(self)@.before_render(),
    {
        let background = match &self.scene_renderer {
            Some(scene_renderer) => scene_renderer.scene.background(),
            None => vstd::pervasive::unreached(),
        };
        self.context.set_clear_color(background);
        self.context.clear(true, true, true);
    }

    /// Nothing is done after a frame.
    pub fn after_render(&mut self)
        ensures
            final(self)@ == old(self)@,
    {
    }
}

} // verus!
