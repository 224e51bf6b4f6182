use simple_screen_boxing::{
    adjust_viewport, viewport_update, AspectRatio, AspectRatioError, BoxedCamera, CameraBox,
    PixelVec2, Viewport,
};

const W360P: PixelVec2 = PixelVec2 { x: 640, y: 360 };
const W720P: PixelVec2 = PixelVec2 { x: 1280, y: 720 };
const W180P: PixelVec2 = PixelVec2 { x: 320, y: 180 };

fn px(x: u32, y: u32) -> PixelVec2 {
    PixelVec2::new(x, y)
}

/// One active camera rendering to a target of size `target`, with no viewport yet.
fn setup_app(camera_box: CameraBox, target: PixelVec2) -> Vec<BoxedCamera> {
    vec![BoxedCamera { is_active: true, target_size: Some(target), camera_box, viewport: None }]
}

/// Runs the applier once and returns the camera's viewport.
fn update(camera_box: CameraBox, target: PixelVec2) -> Option<Viewport> {
    let mut cameras = setup_app(camera_box, target);
    adjust_viewport(&mut cameras);
    cameras[0].viewport
}

fn windowbox(left: u32, right: u32, top: u32, bottom: u32, strict: bool) -> CameraBox {
    CameraBox::WindowBox { left, right, top, bottom, strict_windowboxing: strict }
}

fn pillarbox(left: u32, right: u32, strict: bool) -> CameraBox {
    CameraBox::PillarBox { left, right, strict_pillarboxing: strict }
}

fn letterbox(top: u32, bottom: u32, strict: bool) -> CameraBox {
    CameraBox::LetterBox { top, bottom, strict_letterboxing: strict }
}

fn integer_scale(resolution: PixelVec2, imperfect: bool) -> CameraBox {
    CameraBox::ResolutionIntegerScale { resolution, allow_imperfect_downscaled_boxing: imperfect }
}

#[test]
fn test_basic_windowboxing() {
    let viewport = update(windowbox(10, 10, 10, 10, false), W360P).unwrap();
    assert_eq!(viewport.physical_position, px(10, 10));
    assert_eq!(viewport.physical_size, px(620, 340));

    let viewport = update(windowbox(10, 10, 10, 10, true), W360P).unwrap();
    assert_eq!(viewport.physical_position, px(10, 10));
    assert_eq!(viewport.physical_size, px(620, 340));

    let viewport = update(windowbox(650, 0, 370, 0, true), W360P);
    assert!(viewport.is_none());

    let viewport = update(windowbox(650, 0, 370, 0, false), W360P).unwrap();
    assert_eq!(viewport.physical_position, px(322, 182));
    assert_eq!(viewport.physical_size, px(320, 180));
}

#[test]
fn test_basic_pillarboxing() {
    for strict in [false, true] {
        let viewport = update(pillarbox(2, 2, strict), W360P).unwrap();
        assert_eq!(viewport.physical_position, px(2, 0));
        assert_eq!(viewport.physical_size, px(636, 360));

        let viewport = update(pillarbox(5, 0, strict), W360P).unwrap();
        assert_eq!(viewport.physical_position, px(5, 0));
        assert_eq!(viewport.physical_size, px(635, 360));

        let viewport = update(pillarbox(0, 5, strict), W360P).unwrap();
        assert_eq!(viewport.physical_position, px(0, 0));
        assert_eq!(viewport.physical_size, px(635, 360));

        let viewport = update(pillarbox(5, 10, strict), W360P).unwrap();
        assert_eq!(viewport.physical_position, px(5, 0));
        assert_eq!(viewport.physical_size, px(625, 360));

        let viewport = update(pillarbox(10, 5, strict), W360P).unwrap();
        assert_eq!(viewport.physical_position, px(10, 0));
        assert_eq!(viewport.physical_size, px(625, 360));
    }

    let viewport = update(pillarbox(640, 0, false), W360P).unwrap();
    assert_eq!(viewport.physical_position, px(320, 0));
    assert_eq!(viewport.physical_size, px(W180P.x, 360));

    let viewport = update(pillarbox(640, 0, true), W360P);
    assert!(viewport.is_none());
}

#[test]
fn test_basic_letterboxing() {
    for strict in [true, false] {
        let viewport = update(letterbox(2, 2, strict), W360P).unwrap();
        assert_eq!(viewport.physical_position, px(0, 2));
        assert_eq!(viewport.physical_size, px(640, 356));

        let viewport = update(letterbox(5, 0, strict), W360P).unwrap();
        assert_eq!(viewport.physical_position, px(0, 5));
        assert_eq!(viewport.physical_size, px(640, 355));

        let viewport = update(letterbox(0, 5, strict), W360P).unwrap();
        assert_eq!(viewport.physical_position, px(0, 0));
        assert_eq!(viewport.physical_size, px(640, 355));

        let viewport = update(letterbox(10, 5, strict), W360P).unwrap();
        assert_eq!(viewport.physical_position, px(0, 10));
        assert_eq!(viewport.physical_size, px(640, 345));

        let viewport = update(letterbox(5, 10, strict), W360P).unwrap();
        assert_eq!(viewport.physical_position, px(0, 5));
        assert_eq!(viewport.physical_size, px(640, 345));
    }

    let viewport = update(letterbox(360, 0, true), W360P);
    assert!(viewport.is_none());

    let viewport = update(letterbox(360, 0, false), W360P).unwrap();
    assert_eq!(viewport.physical_position, px(0, 180));
    assert_eq!(viewport.physical_size, px(640, 180));
}

#[test]
fn test_basic_resolution() {
    let resolution = |position| CameraBox::StaticResolution { resolution: W360P, position };

    let viewport = update(resolution(None), W360P);
    assert!(viewport.is_none());

    // (1, 0) leaves no room for 640x360: the box falls back to the origin.
    let viewport = update(resolution(Some(px(1, 0))), W360P).unwrap();
    assert_eq!(viewport.physical_position, px(0, 0));
    assert_eq!(viewport.physical_size, W360P);

    let viewport = update(resolution(None), W720P).unwrap();
    assert_eq!(viewport.physical_position, px(320, 180));
    assert_eq!(viewport.physical_size, W360P);

    let viewport = update(resolution(None), W180P).unwrap();
    assert_eq!(viewport.physical_position, px(0, 0));
    assert_eq!(viewport.physical_size, W180P);
}

#[test]
fn test_basic_aspect_ratio() -> Result<(), AspectRatioError> {
    let desired_aspect_ratio = AspectRatio::try_from_size(W720P)?;
    let viewport = update(
        CameraBox::StaticAspectRatio { aspect_ratio: desired_aspect_ratio, position: None },
        W360P,
    );
    assert!(viewport.is_none());

    let desired_aspect_ratio = AspectRatio::try_new(640, 480)?;
    let viewport = update(
        CameraBox::StaticAspectRatio { aspect_ratio: desired_aspect_ratio, position: None },
        W720P,
    )
    .unwrap();
    assert_eq!(viewport.physical_position, px(160, 0));
    assert_eq!(viewport.physical_size, px(960, 720));

    let desired_aspect_ratio = AspectRatio::try_from_size(W720P)?;
    let viewport = update(
        CameraBox::StaticAspectRatio { aspect_ratio: desired_aspect_ratio, position: Some(px(1, 0)) },
        W360P,
    );
    assert!(viewport.is_none());
    Ok(())
}

#[test]
fn test_basic_integer_scaling_imperfect() {
    let viewport = update(integer_scale(W360P, true), W360P);
    assert!(viewport.is_none());

    let viewport = update(integer_scale(px(640, 480), true), W720P).unwrap();
    assert_eq!(viewport.physical_position, px(320, 120));
    assert_eq!(viewport.physical_size, px(640, 480));

    let viewport = update(integer_scale(W360P, true), W720P);
    assert!(viewport.is_none());

    let viewport = update(integer_scale(W360P, true), W180P);
    assert!(viewport.is_none());

    let viewport = update(integer_scale(W360P, true), px(W180P.x + 10, W180P.y + 10)).unwrap();
    assert_eq!(viewport.physical_position, px(0, 2));
    assert_eq!(viewport.physical_size, px(330, 185));
}

#[test]
fn test_basic_integer_scaling_perfect() {
    let viewport = update(integer_scale(W360P, false), W360P);
    assert!(viewport.is_none());

    let viewport = update(integer_scale(px(640, 480), false), W720P).unwrap();
    assert_eq!(viewport.physical_position, px(320, 120));
    assert_eq!(viewport.physical_size, px(640, 480));

    let viewport = update(integer_scale(W360P, false), W720P);
    assert!(viewport.is_none());

    let viewport = update(integer_scale(W360P, false), W180P);
    assert!(viewport.is_none());

    let viewport = update(integer_scale(W360P, false), px(W180P.x + 10, W180P.y + 10)).unwrap();
    assert_eq!(viewport.physical_position, px(5, 5));
    assert_eq!(viewport.physical_size, px(320, 180));
}

#[test]
fn applier_twice_gives_the_same_viewports() {
    let policies = [
        windowbox(650, 0, 370, 0, false),
        letterbox(360, 0, false),
        CameraBox::StaticResolution { resolution: W360P, position: Some(px(700, 0)) },
        integer_scale(W360P, true),
        CameraBox::StaticAspectRatio { aspect_ratio: AspectRatio { width: 4, height: 3 }, position: None },
    ];
    let mut cameras: Vec<BoxedCamera> = policies
        .iter()
        .map(|b| BoxedCamera {
            is_active: true,
            target_size: Some(px(331, 191)),
            camera_box: *b,
            viewport: Some(Viewport { physical_position: px(3, 4), physical_size: px(5, 6) }),
        })
        .collect();
    adjust_viewport(&mut cameras);
    let once = cameras.clone();
    adjust_viewport(&mut cameras);
    assert_eq!(cameras, once);
}

#[test]
fn exact_resolution_without_position_clears_viewport() {
    let mut cameras = vec![BoxedCamera {
        is_active: true,
        target_size: Some(W720P),
        camera_box: CameraBox::StaticResolution { resolution: W720P, position: None },
        viewport: Some(Viewport { physical_position: px(1, 1), physical_size: px(10, 10) }),
    }];
    adjust_viewport(&mut cameras);
    assert_eq!(cameras[0].viewport, None);
}

#[test]
fn letterbox_lenient_fallback_example() {
    let viewport = update(letterbox(360, 0, false), W360P).unwrap();
    assert_eq!(viewport, Viewport { physical_position: px(0, 180), physical_size: px(640, 180) });
}

#[test]
fn pillarbox_strict_reject_example() {
    assert_eq!(viewport_update(&pillarbox(640, 0, true), W360P), None);
}

#[test]
fn skipped_cameras_keep_their_viewport() {
    let old = Some(Viewport { physical_position: px(1, 2), physical_size: px(3, 4) });
    let mut cameras = vec![
        BoxedCamera { is_active: false, target_size: Some(W360P), camera_box: letterbox(10, 10, true), viewport: old },
        BoxedCamera { is_active: true, target_size: None, camera_box: letterbox(10, 10, true), viewport: old },
    ];
    adjust_viewport(&mut cameras);
    assert_eq!(cameras[0].viewport, old);
    assert_eq!(cameras[1].viewport, old);
}

#[test]
fn zero_area_target_clears_viewport() {
    for b in [letterbox(1, 1, false), integer_scale(W360P, true), windowbox(1, 1, 1, 1, false)] {
        assert_eq!(viewport_update(&b, px(0, 360)), None);
        assert_eq!(viewport_update(&b, px(640, 0)), None);
    }
}

#[test]
fn static_resolution_clamps_and_places() {
    // Larger than the target on one axis: clamped, then centered on the other.
    let v = update(CameraBox::StaticResolution { resolution: px(800, 200), position: None }, W360P).unwrap();
    assert_eq!(v, Viewport { physical_position: px(0, 80), physical_size: px(640, 200) });
    // An explicit position that fits is kept.
    let v = update(CameraBox::StaticResolution { resolution: W180P, position: Some(px(100, 50)) }, W360P)
        .unwrap();
    assert_eq!(v, Viewport { physical_position: px(100, 50), physical_size: W180P });
    // One that does not fit falls back to the origin.
    assert_eq!(
        viewport_update(&CameraBox::StaticResolution { resolution: W180P, position: Some(px(500, 0)) }, W360P),
        Some(Viewport { physical_position: px(0, 0), physical_size: W180P })
    );
    // A resolution with a zero side is degenerate.
    assert_eq!(
        viewport_update(&CameraBox::StaticResolution { resolution: px(0, 100), position: None }, W360P),
        None
    );
}

#[test]
fn fallback_replaces_an_old_viewport_that_leaves_the_target() {
    // An earlier full-size viewport at the origin, then a smaller target and a position
    // that leaves no room: the clamped box moves to the origin.
    let mut cameras = vec![BoxedCamera {
        is_active: true,
        target_size: Some(W180P),
        camera_box: CameraBox::StaticResolution { resolution: px(100, 100), position: Some(px(600, 0)) },
        viewport: Some(Viewport { physical_position: px(0, 0), physical_size: W360P }),
    }];
    adjust_viewport(&mut cameras);
    assert_eq!(
        cameras[0].viewport,
        Some(Viewport { physical_position: px(0, 0), physical_size: px(100, 100) })
    );
}

#[test]
fn centered_offsets_round_to_nearest_pixel() {
    // (641 - 640) / 2 = 0.5 rounds up to 1.
    let v = update(CameraBox::StaticResolution { resolution: W360P, position: None }, px(641, 361)).unwrap();
    assert_eq!(v.physical_position, px(1, 1));
    assert_eq!(v.physical_size, W360P);
}

#[test]
fn aspect_ratio_position_outside_falls_back_to_origin() {
    let b = CameraBox::StaticAspectRatio { aspect_ratio: AspectRatio { width: 4, height: 3 }, position: Some(px(400, 0)) };
    assert_eq!(
        viewport_update(&b, W720P),
        Some(Viewport { physical_position: px(0, 0), physical_size: px(960, 720) })
    );
    let b = CameraBox::StaticAspectRatio { aspect_ratio: AspectRatio { width: 4, height: 3 }, position: Some(px(300, 0)) };
    assert_eq!(
        viewport_update(&b, W720P),
        Some(Viewport { physical_position: px(300, 0), physical_size: px(960, 720) })
    );
    let degenerate = CameraBox::StaticAspectRatio { aspect_ratio: AspectRatio { width: 0, height: 3 }, position: None };
    assert_eq!(viewport_update(&degenerate, W720P), None);
}

#[test]
fn viewports_stay_inside_target() {
    let target = px(331, 197);
    let policies = [
        windowbox(300, 40, 100, 100, false),
        letterbox(197, 5, false),
        pillarbox(100, 100, false),
        integer_scale(px(640, 360), false),
        integer_scale(px(640, 360), true),
        integer_scale(px(100, 30), true),
        CameraBox::StaticAspectRatio { aspect_ratio: AspectRatio { width: 16, height: 9 }, position: None },
        CameraBox::StaticResolution { resolution: px(330, 190), position: None },
    ];
    for b in policies {
        if let Some(v) = viewport_update(&b, target) {
            assert!(v.physical_position.x + v.physical_size.x <= target.x, "{:?}", b);
            assert!(v.physical_position.y + v.physical_size.y <= target.y, "{:?}", b);
        }
    }
}
