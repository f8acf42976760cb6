//! Render configuration: image size, sampling, recursion budget and camera
//! placement.

use crate::data::Size;
use crate::fixed::fx_int_s;
use crate::vector::{Point, Vector, V3};
use crate::world::Scene;
use vstd::prelude::*;

verus! {

/// Full configuration of one render. Angles are in degrees, distances in
/// scene units, both as fixed-point values.
#[derive(Clone, Debug)]
pub struct RenderSettings {
    pub size: Size<u32>,
    pub samples: u32,
    pub max_depth: u32,
    pub camera_position: Point,
    pub focus_point: Point,
    pub field_of_view: i64,
    pub defocus_angle: i64,
    pub focus_distance: i64,
    pub scene: Scene,
}

/// The camera placement a scene starts out with.
pub struct CameraSettings {
    pub camera_position: Point,
    pub focus_point: Point,
    pub field_of_view: i64,
}

impl Default for RenderSettings {
    /// Full-HD canvas, 100 samples, depth 50, a 90-degree camera at the
    /// origin focused one unit down the negative z axis.
    fn default() -> (r: Self)
        ensures
            r.size.width == 1920,
            r.size.height == 1080,
            r.samples == 100,
            r.max_depth == 50,
            r.camera_position@ == (V3 { x: 0, y: 0, z: 0 }),
            r.focus_point@ == (V3 { x: 0, y: 0, z: fx_int_s(-1) }),
            r.field_of_view as int == fx_int_s(90),
            r.defocus_angle == 0,
            r.focus_distance as int == fx_int_s(10),
            r.scene == Scene::OneSphere,
    {
        Self {
            size: Size { width: 1920, height: 1080 },
            samples: 100,
            max_depth: 50,
            camera_position: Vector { x: 0, y: 0, z: 0 },
            focus_point: Vector { x: 0, y: 0, z: -4294967296 },
            field_of_view: 386547056640,
            defocus_angle: 0,
            focus_distance: 42949672960,
            scene: Scene::OneSphere,
        }
    }
}

} // verus!
