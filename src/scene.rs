//! Description of a scene: spheres that share materials, and the camera and
//! image settings to render them with. Materials live in an arena and spheres
//! refer to them by index, so that one material serves many spheres.
use vstd::prelude::*;
use crate::params::{CameraParameters, RenderParameters};
use crate::ratio::{Ratio, Triple};

verus! {

/// How a surface scatters the light that reaches it.
#[derive(Clone, Copy, Debug, PartialEq, Eq, Structural)]
pub enum MaterialSpec {
    /// Diffuse: scatters around the normal, attenuated by `albedo`.
    Lambertian { albedo: Triple },
    /// Reflective: mirrors the ray, perturbed by up to `roughness`.
    Metal { albedo: Triple, roughness: Ratio },
    /// Transparent: refracts or reflects, by the ratio of refraction indices.
    Dielectric { refraction_index: Ratio },
}

/// A sphere and the index of its material in the scene.
#[derive(Clone, Copy, Debug, PartialEq, Eq, Structural)]
pub struct SphereSpec {
    pub center: Triple,
    pub radius: Ratio,
    pub material: usize,
}

/// A world of spheres with the camera and image settings to render it.
pub struct Scene {
    materials: Vec<MaterialSpec>,
    spheres: Vec<SphereSpec>,
    camera: CameraParameters,
    render: RenderParameters,
}

/// What a scene holds, as mathematical values.
pub ghost struct SceneView {
    /// The materials, in the order they were added; their indices are the
    /// handles that spheres hold.
    pub materials: Seq<MaterialSpec>,
    /// The spheres, in the order they were added.
    pub spheres: Seq<SphereSpec>,
    pub camera: CameraParameters,
    pub render: RenderParameters,
}

impl View for Scene {
    type V = SceneView;

    closed spec fn view(&self) -> SceneView {
        SceneView {
            materials: self.materials@,
            spheres: self.spheres@,
            camera: self.camera,
            render: self.render,
        }
    }
}

impl MaterialSpec {
    /// Every number in the material is well formed.
    pub open spec fn wf(self) -> bool {
        match self {
            MaterialSpec::Lambertian { albedo } => albedo.wf(),
            MaterialSpec::Metal { albedo, roughness } => albedo.wf() && roughness.wf(),
            MaterialSpec::Dielectric { refraction_index } => refraction_index.wf(),
        }
    }
}

impl SphereSpec {
    /// Well-formed numbers, and a material among the first `n_materials`.
    pub open spec fn wf(self, n_materials: nat) -> bool {
        self.center.wf() && self.radius.wf() && self.material < n_materials
    }
}

impl Scene {
    /// Every sphere refers to a material of the scene, and every number is
    /// well formed.
    pub open spec fn wf(&self) -> bool {
        &&& self@.camera.wf()
        &&& self@.render.wf()
        &&& forall|i: int| 0 <= i < self@.materials.len() ==> #[trigger] self@.materials[i].wf()
        &&& forall|i: int|
            0 <= i < self@.spheres.len() ==> #[trigger] self@.spheres[i].wf(
                self@.materials.len(),
            )
    }

    /// A scene without materials or spheres.
    pub fn new(camera: CameraParameters, render: RenderParameters) -> (s: Scene)
        requires
            camera.wf(),
            render.wf(),
        ensures
            s.wf(),
            s@.materials == Seq::<MaterialSpec>::empty(),
            s@.spheres == Seq::<SphereSpec>::empty(),
            s@.camera == camera,
            s@.render == render,
    {
        Scene { materials: Vec::new(), spheres: Vec::new(), camera, render }
    }

    /// The materials; a sphere's `material` is an index into them.
    pub fn materials(&self) -> (r: &Vec<MaterialSpec>)
        ensures
            r@ == self@.materials,
    {
        &self.materials
    }

    /// The camera settings.
    pub fn camera(&self) -> (r: CameraParameters)
        ensures
            r == self@.camera,
    {
        self.camera
    }

    /// The image settings.
    pub fn render_parameters(&self) -> (r: RenderParameters)
        ensures
            r == self@.render,
    {
        self.render
    }

    /// The spheres.
    pub fn spheres(&self) -> (r: &Vec<SphereSpec>)
        ensures
            r@ == self@.spheres,
    {
        &self.spheres
    }

    /// Adds a material and returns the handle by which spheres refer to it.
    pub fn add_material(&mut self, material: MaterialSpec) -> (handle: usize)
        requires
            old(self).wf(),
            material.wf(),
            old(self)@.materials.len() < usize::MAX,
        ensures
            final(self).wf(),
            handle == old(self)@.materials.len(),
            final(self)@.materials == old(self)@.materials.push(material),
            final(self)@.spheres == old(self)@.spheres,
            final(self)@.camera == old(self)@.camera,
            final(self)@.render == old(self)@.render,
    {
        let handle = self.materials.len();
        self.materials.push(material);
        assert forall|i: int| 0 <= i < self@.spheres.len() implies #[trigger] self@.spheres[i].wf(
            self@.materials.len(),
        ) by {
            assert(old(self)@.spheres[i].wf(old(self)@.materials.len()));
        }
        assert forall|i: int| 0 <= i < self@.materials.len() implies #[trigger] self@.materials[i].wf() by {
            if i < handle {
                assert(old(self)@.materials[i].wf());
            }
        }
        handle
    }

    /// Adds a sphere of the given material handle.
    pub fn add_sphere(&mut self, center: Triple, radius: Ratio, material: usize)
        requires
            old(self).wf(),
            center.wf(),
            radius.wf(),
            material < old(self)@.materials.len(),
        ensures
            final(self).wf(),
            final(self)@.spheres == old(self)@.spheres.push(
                SphereSpec { center, radius, material },
            ),
            final(self)@.materials == old(self)@.materials,
            final(self)@.camera == old(self)@.camera,
            final(self)@.render == old(self)@.render,
    {
        self.spheres.push(SphereSpec { center, radius, material });
        assert forall|i: int| 0 <= i < self@.spheres.len() implies #[trigger] self@.spheres[i].wf(
            self@.materials.len(),
        ) by {
            if i < old(self)@.spheres.len() {
                assert(old(self)@.spheres[i].wf(old(self)@.materials.len()));
            }
        }
    }
}

} // verus!
