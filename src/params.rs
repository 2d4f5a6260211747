//! Configuration of a render: the virtual camera and the image.
use vstd::prelude::*;
use crate::ratio::{Ratio, Triple};

verus! {

/// Width over height of the image, as a ratio of whole numbers.
#[derive(Clone, Copy, Debug, PartialEq, Eq, Structural)]
pub struct AspectRatio {
    pub width: u32,
    pub height: u32,
}

/// How large an image to make and how much work to spend on each pixel.
#[derive(Clone, Copy, Debug, PartialEq, Eq, Structural)]
pub struct RenderParameters {
    /// Pixels per row.
    pub image_width: u32,
    pub aspect_ratio: AspectRatio,
    /// Primary rays averaged for each pixel.
    pub samples_per_pixel: u32,
    /// Largest number of times a path may meet the scene.
    pub max_bounces: u32,
}

/// Where the camera stands and how its lens is shaped. Angles are in degrees.
#[derive(Clone, Copy, Debug, PartialEq, Eq, Structural)]
pub struct CameraParameters {
    pub look_at: Triple,
    pub look_from: Triple,
    /// Vertical field of view.
    pub vfov: Ratio,
    pub focal_length: Ratio,
    /// Distance from `look_from` to the plane that is in perfect focus.
    pub focus_distance: Ratio,
    /// Angle of the cone from the focus plane's points to the lens; zero or
    /// less makes a pinhole camera.
    pub defocus_angle: Ratio,
}

impl AspectRatio {
    /// Both sides are at least one.
    pub open spec fn wf(self) -> bool {
        self.width >= 1 && self.height >= 1
    }
}

impl RenderParameters {
    pub open spec fn wf(self) -> bool {
        self.aspect_ratio.wf()
    }

    /// Rows of the image: the width divided by the aspect ratio, rounded
    /// down, and at least one.
    pub open spec fn spec_image_height(self) -> nat {
        let h = self.image_width as nat * self.aspect_ratio.height as nat
            / self.aspect_ratio.width as nat;
        if h >= 1 {
            h
        } else {
            1
        }
    }

    /// Rows of the image.
    pub fn image_height(&self) -> (h: u64)
        requires
            self.wf(),
        ensures
            h == self.spec_image_height(),
    {
        let w = self.image_width as u64;
        let ah = self.aspect_ratio.height as u64;
        let aw = self.aspect_ratio.width as u64;
        assert(w * ah <= 0xffff_ffff * 0xffff_ffff) by (nonlinear_arith)
            requires
                w <= 0xffff_ffff,
                ah <= 0xffff_ffff,
                w >= 0,
                ah >= 0,
        ;
        let h = w * ah / aw;
        if h >= 1 {
            h
        } else {
            1
        }
    }
}

impl Default for RenderParameters {
    /// 400 pixels wide at 16:9, 100 samples per pixel, up to 50 bounces.
    fn default() -> (r: RenderParameters)
        ensures
            r == (RenderParameters {
                image_width: 400,
                aspect_ratio: AspectRatio { width: 16, height: 9 },
                samples_per_pixel: 100,
                max_bounces: 50,
            }),
    {
        RenderParameters {
            image_width: 400,
            aspect_ratio: AspectRatio { width: 16, height: 9 },
            samples_per_pixel: 100,
            max_bounces: 50,
        }
    }
}

impl CameraParameters {
    pub open spec fn wf(self) -> bool {
        &&& self.look_at.wf()
        &&& self.look_from.wf()
        &&& self.vfov.wf()
        &&& self.focal_length.wf()
        &&& self.focus_distance.wf()
        &&& self.defocus_angle.wf()
    }

    /// Whether primary rays start on the lens disk rather than at
    /// `look_from`: exactly when the defocus angle is positive.
    pub fn uses_defocus(&self) -> (b: bool)
        requires
            self.wf(),
        ensures
            b == (self.defocus_angle.num > 0),
    {
        self.defocus_angle.is_positive()
    }
}

impl Default for CameraParameters {
    /// From `(1, 1, 0)` towards the origin, 90 degrees of vertical field of
    /// view, focus and focal length 1, no defocus.
    fn default() -> (r: CameraParameters)
        ensures
            r == (CameraParameters {
                look_at: Triple {
                    x: Ratio { num: 0, den: 1 },
                    y: Ratio { num: 0, den: 1 },
                    z: Ratio { num: 0, den: 1 },
                },
                look_from: Triple {
                    x: Ratio { num: 1, den: 1 },
                    y: Ratio { num: 1, den: 1 },
                    z: Ratio { num: 0, den: 1 },
                },
                vfov: Ratio { num: 90, den: 1 },
                focal_length: Ratio { num: 1, den: 1 },
                focus_distance: Ratio { num: 1, den: 1 },
                defocus_angle: Ratio { num: 0, den: 1 },
            }),
            r.wf(),
    {
        CameraParameters {
            look_at: Triple::whole(0, 0, 0),
            look_from: Triple::whole(1, 1, 0),
            vfov: Ratio::whole(90),
            focal_length: Ratio::whole(1),
            focus_distance: Ratio::whole(1),
            defocus_angle: Ratio::whole(0),
        }
    }
}

} // verus!
