use crate::frame::Rgb8;
use vstd::prelude::*;

verus! {

/// A point or direction in world space, each coordinate in thousandths of a
/// world unit, so that every scene of the library is written exactly.
#[derive(Clone, Copy, Debug, PartialEq, Eq, Structural)]
pub struct Vector3D {
    pub x: i32,
    pub y: i32,
    pub z: i32,
}

impl Vector3D {
    pub fn new(x: i32, y: i32, z: i32) -> (r: Vector3D)
        ensures
            r == (Vector3D { x, y, z }),
    {
        Vector3D { x, y, z }
    }
}

/// A sphere. Lengths are in thousandths of a world unit and the material
/// coefficients in thousandths.
#[derive(Clone, Copy, Debug, PartialEq, Eq, Structural)]
pub struct Sphere {
    pub position: Vector3D,
    pub radius: u32,
    pub color: Rgb8,
    pub reflection: u32,
    pub diffuse_c: u32,
    pub specular_c: u32,
}

impl Sphere {
    pub fn new(
        position: Vector3D,
        radius: u32,
        color: Rgb8,
        reflection: u32,
        diffuse_c: u32,
        specular_c: u32,
    ) -> (r: Sphere)
        ensures
            r == (Sphere { position, radius, color, reflection, diffuse_c, specular_c }),
    {
        Sphere { position, radius, color, reflection, diffuse_c, specular_c }
    }
}

/// An infinite plane through `position` with unit normal `normal`, tiled in
/// two colours. Coordinates and coefficients are in thousandths.
#[derive(Clone, Copy, Debug, PartialEq, Eq, Structural)]
pub struct Checkerboard {
    pub position: Vector3D,
    pub normal: Vector3D,
    pub reflection: u32,
    pub diffuse_c: u32,
    pub specular_c: u32,
    pub black: Rgb8,
    pub white: Rgb8,
}

impl Checkerboard {
    /// `colors` holds the first ("black") and the second ("white") tile
    /// colour.
    pub fn new(
        position: Vector3D,
        normal: Vector3D,
        reflection: u32,
        diffuse_c: u32,
        specular_c: u32,
        colors: (Rgb8, Rgb8),
    ) -> (r: Checkerboard)
        ensures
            r == (Checkerboard {
                position,
                normal,
                reflection,
                diffuse_c,
                specular_c,
                black: colors.0,
                white: colors.1,
            }),
    {
        Checkerboard {
            position,
            normal,
            reflection,
            diffuse_c,
            specular_c,
            black: colors.0,
            white: colors.1,
        }
    }
}

/// A primitive of a scene.
#[derive(Clone, Copy, Debug, PartialEq, Eq, Structural)]
pub enum Primitive {
    Sphere(Sphere),
    Checkerboard(Checkerboard),
}

/// The primitives of a scene, in the order in which they were added; ties
/// between equal hit distances go to the earlier one.
pub struct Scene {
    pub objects: Vec<Primitive>,
}

impl Scene {
    /// An empty scene.
    pub fn new() -> (r: Scene)
        ensures
            r.objects@ == Seq::<Primitive>::empty(),
    {
        Scene { objects: Vec::new() }
    }

    /// Appends a primitive.
    pub fn add_object(&mut self, object: Primitive)
        ensures
            final(self).objects@ == old(self).objects@.push(object),
    {
        self.objects.push(object);
    }

    pub fn get_objects(&self) -> (r: &Vec<Primitive>)
        ensures
            r@ == self.objects@,
    {
        &self.objects
    }

    pub fn get_object_at_index(&self, index: usize) -> (r: &Primitive)
        requires
            index < self.objects@.len(),
        ensures
            *r == self.objects@[index as int],
    {
        &self.objects[index]
    }
}

/// The viewpoint: primary rays start at `position` and pass through points
/// that take their depth from `pointing_to`.
#[derive(Clone, Copy, Debug, PartialEq, Eq, Structural)]
pub struct Camera {
    pub position: Vector3D,
    pub pointing_to: Vector3D,
}

impl Camera {
    pub fn new(position: Vector3D, direction: Vector3D) -> (r: Camera)
        ensures
            r.position == position,
            r.pointing_to == direction,
    {
        Camera { position, pointing_to: direction }
    }
}

/// The camera at `(0, 0.35, -1)` looking toward the origin.
pub open spec fn default_camera() -> Camera {
    Camera {
        position: Vector3D { x: 0, y: 350, z: -1000i32 },
        pointing_to: Vector3D { x: 0, y: 0, z: 0 },
    }
}

impl Default for Camera {
    fn default() -> (r: Camera)
        ensures
            r == default_camera(),
    {
        Camera { position: Vector3D::new(0, 350, -1000), pointing_to: Vector3D::new(0, 0, 0) }
    }
}

/// The point light: its position and colour.
#[derive(Clone, Copy, Debug, PartialEq, Eq, Structural)]
pub struct Light {
    pub direction: Vector3D,
    pub color: Rgb8,
}

impl Light {
    pub fn new(color: Rgb8, direction: Vector3D) -> (r: Light)
        ensures
            r.color == color,
            r.direction == direction,
    {
        Light { direction, color }
    }
}

/// A white light at `(5, 5, -10)`.
pub open spec fn default_light() -> Light {
    Light {
        direction: Vector3D { x: 5000, y: 5000, z: -10000i32 },
        color: Rgb8 { red: 255, green: 255, blue: 255 },
    }
}

impl Default for Light {
    fn default() -> (r: Light)
        ensures
            r == default_light(),
    {
        Light {
            direction: Vector3D::new(5000, 5000, -10000),
            color: Rgb8 { red: 255, green: 255, blue: 255 },
        }
    }
}

/// The shading constants of a render, coefficients in thousandths.
#[derive(Clone, Copy, Debug, PartialEq, Eq, Structural)]
pub struct RayTracer {
    pub ambient: u32,
    pub def_diffuse_c: u32,
    pub def_specular_c: u32,
    pub specular_phong_exponent: i32,
    pub depth_max: u32,
    pub camera: Camera,
    pub light: Light,
}

/// Ambient 0.05, default coefficients 1, Phong exponent 50, eight bounces,
/// the default camera and light.
pub open spec fn default_tracer() -> RayTracer {
    RayTracer {
        ambient: 50,
        def_diffuse_c: 1000,
        def_specular_c: 1000,
        specular_phong_exponent: 50,
        depth_max: 8,
        camera: default_camera(),
        light: default_light(),
    }
}

impl Default for RayTracer {
    fn default() -> (r: RayTracer)
        ensures
            r == default_tracer(),
    {
        RayTracer {
            ambient: 50,
            def_diffuse_c: 1000,
            def_specular_c: 1000,
            specular_phong_exponent: 50,
            depth_max: 8,
            camera: Camera::default(),
            light: Light::default(),
        }
    }
}

impl RayTracer {
    pub fn new(
        ambient: u32,
        def_diffuse_c: u32,
        def_specular_c: u32,
        specular_phong_exponent: i32,
        depth_max: u32,
        camera: Camera,
        light: Light,
    ) -> (r: RayTracer)
        ensures
            r == (RayTracer {
                ambient,
                def_diffuse_c,
                def_specular_c,
                specular_phong_exponent,
                depth_max,
                camera,
                light,
            }),
    {
        RayTracer {
            ambient,
            def_diffuse_c,
            def_specular_c,
            specular_phong_exponent,
            depth_max,
            camera,
            light,
        }
    }
}

} // verus!
