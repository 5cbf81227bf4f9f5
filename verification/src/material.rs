//! Material descriptors: what a drawable looks like, as the scene states it.

use vstd::prelude::*;

verus! {

/// Which faces of a triangle are discarded before rasterisation.
#[derive(Clone, Copy, Debug, PartialEq, Eq, Structural)]
pub enum CullFace {
    Disabled,
    Back,
    Front,
    FrontAndBack,
}

/// How a fragment is combined with what the framebuffer already holds.
#[derive(Clone, Copy, Debug, PartialEq, Eq, Structural)]
pub enum Blending {
    Disabled,
    Normal,
    Additive,
    Subtractive,
    Multiply,
}

/// The two stages of a shader, as source text.
#[derive(Debug)]
pub struct Shader {
    pub vertex: String,
    pub fragment: String,
}

/// The mathematical value of a [`Shader`].
pub struct ShaderView {
    pub vertex: Seq<char>,
    pub fragment: Seq<char>,
}

impl View for Shader {
    type V = ShaderView;

    open spec fn view(&self) -> ShaderView {
        ShaderView { vertex: self.vertex@, fragment: self.fragment@ }
    }
}

impl Clone for Shader {
    fn clone(&self) -> (copy: Self)
        ensures
            copy@ == self@,
    {
        Shader { vertex: self.vertex.clone(), fragment: self.fragment.clone() }
    }
}

/// A material descriptor. Two descriptors are the same resource exactly when
/// their `id`s are equal, whatever else they hold.
#[derive(Debug)]
pub struct Material {
    /// The stable identity of the material.
    pub id: u128,
    /// The shader to compile for it, if one is attached.
    pub shader: Option<Shader>,
    pub cull_face: CullFace,
    pub blending: Blending,
    /// Whether the material is drawn as lines.
    pub wireframe: bool,
    /// The width of those lines, as a single-precision bit pattern.
    pub wireframe_line_width: u32,
}

/// The mathematical value of a [`Material`].
pub struct MaterialView {
    pub id: u128,
    pub shader: Option<ShaderView>,
    pub cull_face: CullFace,
    pub blending: Blending,
    pub wireframe: bool,
    pub wireframe_line_width: u32,
}

impl View for Material {
    type V = MaterialView;

    open spec fn view(&self) -> MaterialView {
        MaterialView {
            id: self.id,
            shader: match self.shader {
                Some(shader) => Some(shader@),
                None => None,
            },
            cull_face: self.cull_face,
            blending: self.blending,
            wireframe: self.wireframe,
            wireframe_line_width: self.wireframe_line_width,
        }
    }
}

impl Clone for Material {
    fn clone(&self) -> (copy: Self)
        ensures
            copy@ == self@,
    {
        let shader = match &self.shader {
            Some(shader) => Some(shader.clone()),
            None => None,
        };
        Material {
            id: self.id,
            shader,
            cull_face: self.cull_face,
            blending: self.blending,
            wireframe: self.wireframe,
            wireframe_line_width: self.wireframe_line_width,
        }
    }
}

} // verus!
