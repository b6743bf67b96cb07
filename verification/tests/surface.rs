use bevy_refractive_material::{
    allocate_targets, build_water, find_pending, find_skybox, resize_notificator, resize_textures, AuxiliaryCamera,
    CameraRole, Extent, Image, MainCamera, MirrorError, Plane, Quat, RefractiveMaterial, Scalar,
    SurfaceState, TextureFormat, TextureUsages, Transform, Vec3, Vec4, WaterSurface,
};

fn s(v: f32) -> Scalar {
    Scalar { bits: v.to_bits() }
}

fn v3(x: f32, y: f32, z: f32) -> Vec3 {
    Vec3 { x: s(x), y: s(y), z: s(z) }
}

fn v4(x: f32, y: f32, z: f32, w: f32) -> Vec4 {
    Vec4 { x: s(x), y: s(y), z: s(z), w: s(w) }
}

fn identity() -> Transform {
    Transform {
        translation: v3(0.0, 0.0, 0.0),
        rotation: Quat { x: s(0.0), y: s(0.0), z: s(0.0), w: s(1.0) },
    }
}

fn ground() -> Plane {
    Plane { normal: v3(0.0, 1.0, 0.0), distance: s(0.0) }
}

fn viewer(skybox: Option<u64>) -> MainCamera {
    MainCamera { transform: identity(), skybox }
}

fn target(size: Extent) -> Image {
    Image {
        size,
        format: TextureFormat::Bgra8UnormSrgb,
        usage: TextureUsages { texture_binding: true, copy_dst: true, render_attachment: true },
    }
}

fn plain(size: Extent) -> Image {
    Image {
        size,
        format: TextureFormat::Bgra8UnormSrgb,
        usage: TextureUsages { texture_binding: true, copy_dst: false, render_attachment: false },
    }
}

const SMALL: Extent = Extent { width: 800, height: 600 };
const LARGE: Extent = Extent { width: 1920, height: 1080 };

#[test]
fn build_then_resize_keeps_handles() {
    let mut cameras = Vec::new();
    let mut materials = vec![RefractiveMaterial::new()];
    let mut images = Vec::new();
    let mut surfaces = vec![WaterSurface::new(0, ground())];
    let viewers = vec![viewer(None)];

    let built = build_water(
        &mut cameras,
        &mut materials,
        &mut images,
        &mut surfaces,
        Some(SMALL),
        &viewers,
    );
    assert_eq!(built, Ok(Some(0)));
    assert_eq!(images, vec![target(SMALL), target(SMALL)]);
    let refraction = materials[0].refraction_texture.unwrap();
    let reflection = materials[0].reflection_texture.unwrap();
    assert_eq!((refraction, reflection), (0, 1));
    assert_eq!(images[refraction].size, SMALL);
    assert_eq!(images[reflection].size, SMALL);
    assert_eq!(images[refraction], Image::render_target(SMALL));

    resize_notificator(&vec![LARGE], &mut images, &materials);
    assert_eq!(images, vec![target(LARGE), target(LARGE)]);
    assert_eq!(materials[0].refraction_texture, Some(refraction));
    assert_eq!(materials[0].reflection_texture, Some(reflection));
    assert_eq!(cameras.len(), 2);
    assert_eq!(cameras[0].target, refraction);
    assert_eq!(cameras[1].target, reflection);
}

#[test]
fn build_spawns_both_cameras() {
    let mut cameras = Vec::new();
    let mut materials = vec![RefractiveMaterial::new(), RefractiveMaterial::new()];
    let mut images = vec![plain(Extent { width: 4, height: 4 })];
    let plane = Plane { normal: v3(0.6, 0.0, -0.8), distance: s(2.5) };
    let mut surfaces = vec![WaterSurface::new(1, plane)];
    let viewers = vec![viewer(Some(77))];

    let built = build_water(
        &mut cameras,
        &mut materials,
        &mut images,
        &mut surfaces,
        Some(SMALL),
        &viewers,
    );
    assert_eq!(built, Ok(Some(0)));
    assert_eq!(
        images,
        vec![plain(Extent { width: 4, height: 4 }), target(SMALL), target(SMALL)]
    );
    assert_eq!(materials[0], RefractiveMaterial::new());
    assert_eq!(
        materials[1],
        RefractiveMaterial { refraction_texture: Some(1), reflection_texture: Some(2) }
    );
    assert_eq!(surfaces[0].state, SurfaceState::Built);
    assert_eq!(surfaces[0].plane, plane);
    assert_eq!(
        cameras,
        vec![
            AuxiliaryCamera {
                role: CameraRole::Refraction,
                order: -1,
                target: 1,
                clip_plane: v4(-0.6, -0.0, 0.8, 2.5),
                layer: 1,
                skybox: Some(77),
                transform: identity(),
            },
            AuxiliaryCamera {
                role: CameraRole::Reflection,
                order: -2,
                target: 2,
                clip_plane: v4(0.6, 0.0, -0.8, 2.5),
                layer: 1,
                skybox: Some(77),
                transform: identity(),
            },
        ]
    );
}

#[test]
fn build_waits_for_the_output() {
    let mut cameras = Vec::new();
    let mut materials = vec![RefractiveMaterial::new()];
    let mut images = Vec::new();
    let mut surfaces = vec![WaterSurface::new(0, ground())];
    let viewers = Vec::new();

    let deferred =
        build_water(&mut cameras, &mut materials, &mut images, &mut surfaces, None, &viewers);
    assert_eq!(deferred, Err(MirrorError::OutputNotReady));
    assert!(cameras.is_empty());
    assert!(images.is_empty());
    assert_eq!(materials, vec![RefractiveMaterial::new()]);
    assert_eq!(surfaces[0].state, SurfaceState::Uninitialized);

    let retried = build_water(
        &mut cameras,
        &mut materials,
        &mut images,
        &mut surfaces,
        Some(SMALL),
        &viewers,
    );
    assert_eq!(retried, Ok(Some(0)));
    assert_eq!(images, vec![target(SMALL), target(SMALL)]);
    assert_eq!(cameras[0].skybox, None);
    assert_eq!(cameras[1].skybox, None);
}

#[test]
fn build_is_idle_when_nothing_waits() {
    let mut cameras = Vec::new();
    let mut materials = vec![RefractiveMaterial::new()];
    let mut images = Vec::new();
    let mut surfaces: Vec<WaterSurface> = Vec::new();
    let viewers = Vec::new();
    let idle =
        build_water(&mut cameras, &mut materials, &mut images, &mut surfaces, None, &viewers);
    assert_eq!(idle, Ok(None));

    // A surface whose material is not in the table does not wait either.
    surfaces.push(WaterSurface::new(5, ground()));
    let idle = build_water(
        &mut cameras,
        &mut materials,
        &mut images,
        &mut surfaces,
        Some(SMALL),
        &viewers,
    );
    assert_eq!(idle, Ok(None));
    assert!(cameras.is_empty());
    assert!(images.is_empty());
    assert_eq!(surfaces[0].state, SurfaceState::Uninitialized);
}

#[test]
fn two_changes_take_two_ticks() {
    let mut cameras = Vec::new();
    let mut materials = vec![RefractiveMaterial::new(), RefractiveMaterial::new()];
    let mut images = Vec::new();
    let mut surfaces = vec![WaterSurface::new(0, ground()), WaterSurface::new(1, ground())];
    let viewers = vec![viewer(None)];

    let first = build_water(
        &mut cameras,
        &mut materials,
        &mut images,
        &mut surfaces,
        Some(SMALL),
        &viewers,
    );
    assert_eq!(first, Ok(Some(0)));
    assert_eq!(surfaces[0].state, SurfaceState::Built);
    assert_eq!(surfaces[1].state, SurfaceState::Uninitialized);
    assert_eq!(materials[1], RefractiveMaterial::new());
    assert_eq!(cameras.len(), 2);
    assert_eq!(images.len(), 2);

    let second = build_water(
        &mut cameras,
        &mut materials,
        &mut images,
        &mut surfaces,
        Some(SMALL),
        &viewers,
    );
    assert_eq!(second, Ok(Some(1)));
    assert_eq!(surfaces[1].state, SurfaceState::Built);
    assert_eq!(
        materials[1],
        RefractiveMaterial { refraction_texture: Some(2), reflection_texture: Some(3) }
    );
    assert_eq!(cameras.len(), 4);
    assert_eq!(images.len(), 4);

    let third = build_water(
        &mut cameras,
        &mut materials,
        &mut images,
        &mut surfaces,
        Some(SMALL),
        &viewers,
    );
    assert_eq!(third, Ok(None));
    assert_eq!(cameras.len(), 4);
}

#[test]
fn rebuild_replaces_the_handles() {
    let mut cameras = Vec::new();
    let mut materials = vec![RefractiveMaterial::new()];
    let mut images = Vec::new();
    let mut surfaces = vec![WaterSurface::new(0, ground())];
    let viewers = Vec::new();
    let built = build_water(
        &mut cameras,
        &mut materials,
        &mut images,
        &mut surfaces,
        Some(SMALL),
        &viewers,
    );
    assert_eq!(built, Ok(Some(0)));
    surfaces[0] = WaterSurface::new(0, ground());
    let rebuilt = build_water(
        &mut cameras,
        &mut materials,
        &mut images,
        &mut surfaces,
        Some(LARGE),
        &viewers,
    );
    assert_eq!(rebuilt, Ok(Some(0)));
    assert_eq!(
        materials[0],
        RefractiveMaterial { refraction_texture: Some(2), reflection_texture: Some(3) }
    );
    assert_eq!(images, vec![target(SMALL), target(SMALL), target(LARGE), target(LARGE)]);
}

#[test]
fn pending_surface_is_the_first_that_waits() {
    let built = WaterSurface { material: 0, plane: ground(), state: SurfaceState::Built };
    let dangling = WaterSurface::new(3, ground());
    let waiting = WaterSurface::new(2, ground());
    assert_eq!(find_pending(&vec![built, dangling, waiting, waiting], 3), Some(2));
    assert_eq!(find_pending(&vec![built, dangling], 3), None);
    assert_eq!(find_pending(&vec![dangling], 4), Some(0));
    assert_eq!(find_pending(&Vec::new(), 1), None);
}

#[test]
fn skybox_comes_from_the_one_viewer_that_has_it() {
    assert_eq!(find_skybox(&Vec::new()), None);
    assert_eq!(find_skybox(&vec![viewer(None)]), None);
    assert_eq!(find_skybox(&vec![viewer(Some(9))]), Some(9));
    assert_eq!(find_skybox(&vec![viewer(None), viewer(Some(4))]), Some(4));
    assert_eq!(find_skybox(&vec![viewer(Some(3)), viewer(Some(4))]), None);
}

#[test]
fn resize_touches_only_sampled_textures() {
    let other = Extent { width: 16, height: 16 };
    let mut images = vec![plain(other), target(SMALL), plain(SMALL), target(other)];
    let materials = vec![
        RefractiveMaterial::new(),
        RefractiveMaterial { refraction_texture: Some(1), reflection_texture: Some(2) },
        RefractiveMaterial { refraction_texture: Some(9), reflection_texture: None },
    ];
    resize_textures(&mut images, &materials, LARGE);
    assert_eq!(images, vec![plain(other), target(LARGE), plain(LARGE), target(other)]);
}

#[test]
fn resize_events_apply_in_order() {
    let mut images = vec![target(SMALL), target(SMALL)];
    let materials =
        vec![RefractiveMaterial { refraction_texture: Some(0), reflection_texture: Some(1) }];
    resize_notificator(&Vec::new(), &mut images, &materials);
    assert_eq!(images, vec![target(SMALL), target(SMALL)]);
    let middle = Extent { width: 1024, height: 768 };
    resize_notificator(&vec![LARGE, middle], &mut images, &materials);
    assert_eq!(images, vec![target(middle), target(middle)]);
    resize_notificator(&vec![middle, SMALL, LARGE], &mut images, &materials);
    assert_eq!(images, vec![target(LARGE), target(LARGE)]);
}

#[test]
fn resize_without_materials_changes_nothing() {
    let mut images = vec![target(SMALL)];
    resize_notificator(&vec![LARGE], &mut images, &Vec::new());
    assert_eq!(images, vec![target(SMALL)]);
}

#[test]
fn image_resize_keeps_format_and_usage() {
    let mut image = plain(SMALL);
    image.resize(LARGE);
    assert_eq!(image, plain(LARGE));
    let mut image = Image::render_target(SMALL);
    assert_eq!(image, target(SMALL));
    image.resize(SMALL);
    assert_eq!(image, target(SMALL));
}

#[test]
fn targets_are_allocated_in_pairs() {
    let mut images = vec![plain(SMALL)];
    assert_eq!(allocate_targets(&mut images, LARGE), (1, 2));
    assert_eq!(images, vec![plain(SMALL), target(LARGE), target(LARGE)]);
    assert_eq!(allocate_targets(&mut images, SMALL), (3, 4));
    assert_eq!(images[3], images[4]);
    assert_eq!(images[4].size, SMALL);
}

#[test]
fn build_waits_while_the_output_has_no_area() {
    let viewers = Vec::new();
    for empty in [
        Extent { width: 0, height: 0 },
        Extent { width: 0, height: 600 },
        Extent { width: 800, height: 0 },
    ] {
        let mut cameras = Vec::new();
        let mut materials = vec![RefractiveMaterial::new()];
        let mut images = Vec::new();
        let mut surfaces = vec![WaterSurface::new(0, ground())];
        let deferred = build_water(
            &mut cameras,
            &mut materials,
            &mut images,
            &mut surfaces,
            Some(empty),
            &viewers,
        );
        assert_eq!(deferred, Err(MirrorError::OutputNotReady));
        assert!(cameras.is_empty());
        assert!(images.is_empty());
        assert_eq!(materials, vec![RefractiveMaterial::new()]);
        assert_eq!(surfaces[0].state, SurfaceState::Uninitialized);

        let retried = build_water(
            &mut cameras,
            &mut materials,
            &mut images,
            &mut surfaces,
            Some(Extent { width: 1, height: 1 }),
            &viewers,
        );
        assert_eq!(retried, Ok(Some(0)));
        assert_eq!(images.len(), 2);
        assert_eq!(images[0].size, Extent { width: 1, height: 1 });
    }

    // Without a waiting surface an empty output is no failure.
    let mut surfaces: Vec<WaterSurface> = Vec::new();
    let idle = build_water(
        &mut Vec::new(),
        &mut Vec::new(),
        &mut Vec::new(),
        &mut surfaces,
        Some(Extent { width: 0, height: 0 }),
        &viewers,
    );
    assert_eq!(idle, Ok(None));
}
