//! A material as the driver holds it: a compiled program and the descriptor
//! it was compiled for.

use vstd::prelude::*;
use crate::state::Program;
use crate::material::{Material, MaterialView};

verus! {

/// A program together with the material it was compiled for.
#[derive(Debug)]
pub struct GLMaterial {
    program: Program,
    material: Material,
}

/// The mathematical value of a [`GLMaterial`].
pub struct GLMaterialView {
    pub program: Program,
    pub material: MaterialView,
}

impl View for GLMaterial {
    type V = GLMaterialView;

    closed spec fn view(&self) -> GLMaterialView {
        GLMaterialView { program: self.program, material: self.material@ }
    }
}

impl Clone for GLMaterial {
    fn clone(&self) -> (copy: Self)
        ensures
            copy@ == self@,
    {
        GLMaterial { program: self.program, material: self.material.clone() }
    }
}

impl GLMaterial {
    /// Pairs a program with the material it was compiled for.
    pub fn new(program: Program, material: Material) -> (gl_material: GLMaterial)
        ensures
            gl_material@ == (GLMaterialView { program, material: material@ }),
    {
        GLMaterial { program, material }
    }

    /// The compiled program.
    pub fn get_program(&self) -> (program: &Program)
        ensures
            *program == self@.program,
    {
        &self.program
    }

    /// The program, for the caller to replace; the material stays.
    pub fn get_program_mut(&mut self) -> (program: &mut Program)
        ensures
            *program == old(self)@.program,
            final(self)@ == (GLMaterialView {
                program: *final(program),
                material: old(self)@.material,
            }),
    {
        &mut self.program
    }

    /// The descriptor that the program was compiled for.
    pub fn get_material(&self) -> (material: &Material)
        ensures
            material@ == self@.material,
    {
        &self.material
    }

    /// The material, for the caller to change; the program stays.
    pub fn get_material_mut(&mut self) -> (material: &mut Material)
        ensures
            material@ == old(self)@.material,
            final(self)@ == (GLMaterialView {
                program: old(self)@.program,
                material: final(material)@,
            }),
    {
        &mut self.material
    }
}

} // verus!
