use crate::frame::Rgb8;
use crate::scene::{
    default_camera, default_tracer, Camera, Checkerboard, Light, Primitive, RayTracer, Scene,
    Sphere, Vector3D,
};
use vstd::prelude::*;

verus! {

/// The number of workers that the example renders use.
pub const CPU_THREADS: usize = 16;

/// Everything a render needs: the shading constants, the scene, the image
/// size in pixels, where the image goes, and how many workers share the work.
pub struct RenderJob {
    pub tracer: RayTracer,
    pub scene: Scene,
    pub width: usize,
    pub height: usize,
    pub path: String,
    pub workers: usize,
}

/// A byte colour.
pub fn rgb(red: u8, green: u8, blue: u8) -> (r: Rgb8)
    ensures
        r == (Rgb8 { red, green, blue }),
{
    Rgb8 { red, green, blue }
}

/// A sphere of radius 0.6 at `(x, y, z)` (thousandths).
pub open spec fn ball(x: i32, y: i32, z: i32, color: Rgb8, reflection: u32, diffuse_c: u32, specular_c: u32) -> Primitive {
    Primitive::Sphere(
        Sphere {
            position: Vector3D { x, y, z },
            radius: 600,
            color,
            reflection,
            diffuse_c,
            specular_c,
        },
    )
}

/// The floor: the plane `y = -0.5`, facing up.
pub open spec fn floor(black: Rgb8, white: Rgb8) -> Primitive {
    Primitive::Checkerboard(
        Checkerboard {
            position: Vector3D { x: 0, y: -500i32, z: 0 },
            normal: Vector3D { x: 0, y: 1000, z: 0 },
            reflection: 250,
            diffuse_c: 750,
            specular_c: 500,
            black,
            white,
        },
    )
}

pub open spec fn rgb_spec(red: u8, green: u8, blue: u8) -> Rgb8 {
    Rgb8 { red, green, blue }
}

/// Four spheres over a black and white floor.
pub open spec fn scene0_objects() -> Seq<Primitive> {
    seq![
        ball(750, 100, 1000, rgb_spec(25, 25, 25), 950, 950, 950),
        ball(-750i32, 100, 2250, rgb_spec(139, 0, 139), 30, 950, 400),
        ball(3750, 100, 4000, rgb_spec(32, 178, 170), 30, 950, 400),
        ball(-2750i32, 100, 3500, rgb_spec(218, 165, 32), 950, 950, 950),
        floor(rgb_spec(0, 0, 0), rgb_spec(255, 255, 255)),
    ]
}

/// The same arrangement in brighter colours, over a magenta and blue floor.
pub open spec fn scene1_objects() -> Seq<Primitive> {
    seq![
        ball(750, 100, 1000, rgb_spec(77, 238, 234), 950, 950, 950),
        ball(-750i32, 100, 2250, rgb_spec(116, 238, 21), 40, 950, 400),
        ball(3750, 100, 4000, rgb_spec(255, 231, 0), 40, 950, 400),
        ball(-2750i32, 100, 3500, rgb_spec(240, 0, 255), 950, 950, 950),
        floor(rgb_spec(240, 0, 255), rgb_spec(0, 30, 255)),
    ]
}

fn add_ball(scene: &mut Scene, x: i32, y: i32, z: i32, color: Rgb8, reflection: u32, diffuse_c: u32, specular_c: u32)
    ensures
        final(scene).objects@ == old(scene).objects@.push(
            ball(x, y, z, color, reflection, diffuse_c, specular_c),
        ),
{
    scene.add_object(
        Primitive::Sphere(
            Sphere::new(Vector3D::new(x, y, z), 600, color, reflection, diffuse_c, specular_c),
        ),
    );
}

fn add_floor(scene: &mut Scene, black: Rgb8, white: Rgb8)
    ensures
        final(scene).objects@ == old(scene).objects@.push(floor(black, white)),
{
    scene.add_object(
        Primitive::Checkerboard(
            Checkerboard::new(
                Vector3D::new(0, -500, 0),
                Vector3D::new(0, 1000, 0),
                250,
                750,
                500,
                (black, white),
            ),
        ),
    );
}

/// The first example: four spheres over a black and white floor, default
/// shading, 7680 by 4320 pixels, written to `scene0.png`.
pub fn render_example_scene0() -> (r: RenderJob)
    ensures
        r.path@ == "scene0.png"@,
        r.width == 7680,
        r.height == 4320,
        r.workers == CPU_THREADS,
        r.tracer == default_tracer(),
        r.scene.objects@ == scene0_objects(),
{
    let mut scene = Scene::new();
    add_ball(&mut scene, 750, 100, 1000, rgb(25, 25, 25), 950, 950, 950);
    add_ball(&mut scene, -750, 100, 2250, rgb(139, 0, 139), 30, 950, 400);
    add_ball(&mut scene, 3750, 100, 4000, rgb(32, 178, 170), 30, 950, 400);
    add_ball(&mut scene, -2750, 100, 3500, rgb(218, 165, 32), 950, 950, 950);
    add_floor(&mut scene, rgb(0, 0, 0), rgb(255, 255, 255));
    assert(scene.objects@ =~= scene0_objects());
    RenderJob {
        tracer: RayTracer::default(),
        scene,
        width: 1920 * 4,
        height: 1080 * 4,
        path: "scene0.png".to_owned(),
        workers: CPU_THREADS,
    }
}

/// The second example: the same arrangement in brighter colours, ambient 0.1
/// and a yellowish light, 7680 by 4320 pixels, written to `scene1.png`.
pub fn render_example_scene1() -> (r: RenderJob)
    ensures
        r.path@ == "scene1.png"@,
        r.width == 7680,
        r.height == 4320,
        r.workers == CPU_THREADS,
        r.tracer == (RayTracer {
            ambient: 100,
            def_diffuse_c: 1000,
            def_specular_c: 1000,
            specular_phong_exponent: 50,
            depth_max: 8,
            camera: default_camera(),
            light: Light {
                direction: Vector3D { x: 5000, y: 5000, z: -10000i32 },
                color: rgb_spec(210, 200, 50),
            },
        }),
        r.scene.objects@ == scene1_objects(),
{
    let mut scene = Scene::new();
    add_ball(&mut scene, 750, 100, 1000, rgb(77, 238, 234), 950, 950, 950);
    add_ball(&mut scene, -750, 100, 2250, rgb(116, 238, 21), 40, 950, 400);
    add_ball(&mut scene, 3750, 100, 4000, rgb(255, 231, 0), 40, 950, 400);
    add_ball(&mut scene, -2750, 100, 3500, rgb(240, 0, 255), 950, 950, 950);
    add_floor(&mut scene, rgb(240, 0, 255), rgb(0, 30, 255));
    assert(scene.objects@ =~= scene1_objects());
    let tracer = RayTracer::new(
        100,
        1000,
        1000,
        50,
        8,
        Camera::default(),
        Light::new(rgb(210, 200, 50), Vector3D::new(5000, 5000, -10000)),
    );
    RenderJob {
        tracer,
        scene,
        width: 1920 * 4,
        height: 1080 * 4,
        path: "scene1.png".to_owned(),
        workers: CPU_THREADS,
    }
}

} // verus!
