use maplibre_native::client::{static_call_result, tile_call_result};
use maplibre_native::error::{
    IoError, IoErrorKind, RenderingError, SingleThreadedRenderPoolError, StaticRenderPoolError,
};
use maplibre_native::static_worker::{StaticAction, StaticWorker};
use maplibre_native::tile_worker::{bytes_equal, TileAction, TileWorker};

fn io_error(kind: IoErrorKind, message: &str) -> IoError {
    IoError::new(kind, message.to_string())
}

fn rendering_error(message: &str) -> RenderingError {
    RenderingError::new(message.to_string())
}

#[test]
fn bytes_equal_compares_contents() {
    assert!(bytes_equal(&b"style.json".to_vec(), &b"style.json".to_vec()));
    assert!(!bytes_equal(&b"style.json".to_vec(), &b"style.jsom".to_vec()));
    assert!(!bytes_equal(&b"style".to_vec(), &b"style.json".to_vec()));
    assert!(bytes_equal(&Vec::new(), &Vec::new()));
}

#[test]
fn first_request_loads_its_style() {
    let mut w = TileWorker::new();
    assert!(w.is_idle());
    let a: TileAction<u32> = w.begin(b"a.json".to_vec(), 10, 512, 384);
    assert!(matches!(a, TileAction::LoadStyle));
    assert!(!w.is_idle());
    let a: TileAction<u32> = w.style_loaded(Ok(()));
    assert!(matches!(a, TileAction::RenderTile { z: 10, x: 512, y: 384 }));
    assert!(w.has_loaded(&b"a.json".to_vec()));
    let a = w.tile_rendered(Ok(42u32));
    assert!(matches!(a, TileAction::Reply(Ok(42))));
    assert!(w.is_idle());
}

#[test]
fn same_style_is_not_loaded_again() {
    let mut w = TileWorker::new();
    let _: TileAction<u32> = w.begin(b"a.json".to_vec(), 10, 512, 384);
    let _: TileAction<u32> = w.style_loaded(Ok(()));
    let _ = w.tile_rendered(Ok(1u32));
    let a: TileAction<u32> = w.begin(b"a.json".to_vec(), 10, 513, 384);
    assert!(matches!(a, TileAction::RenderTile { z: 10, x: 513, y: 384 }));
    let a = w.tile_rendered(Ok(2u32));
    assert!(matches!(a, TileAction::Reply(Ok(2))));
    // a third request for the same style renders at once too
    let a: TileAction<u32> = w.begin(b"a.json".to_vec(), 0, 0, 0);
    assert!(matches!(a, TileAction::RenderTile { z: 0, x: 0, y: 0 }));
}

#[test]
fn loaded_style_is_reused_after_a_failed_render() {
    let mut w = TileWorker::new();
    let _: TileAction<u32> = w.begin(b"a.json".to_vec(), 1, 2, 3);
    let _: TileAction<u32> = w.style_loaded(Ok(()));
    let a = w.tile_rendered::<u32>(Err(rendering_error("no tile")));
    match a {
        TileAction::Reply(Err(SingleThreadedRenderPoolError::RenderingError(e))) => {
            assert_eq!(e.message, "no tile")
        }
        _ => panic!("expected a rendering error"),
    }
    let a: TileAction<u32> = w.begin(b"a.json".to_vec(), 1, 2, 4);
    assert!(matches!(a, TileAction::RenderTile { z: 1, x: 2, y: 4 }));
}

#[test]
fn different_style_is_loaded() {
    let mut w = TileWorker::new();
    let _: TileAction<u32> = w.begin(b"a.json".to_vec(), 1, 2, 3);
    let _: TileAction<u32> = w.style_loaded(Ok(()));
    let _ = w.tile_rendered(Ok(1u32));
    let a: TileAction<u32> = w.begin(b"b.json".to_vec(), 1, 2, 3);
    assert!(matches!(a, TileAction::LoadStyle));
    let _: TileAction<u32> = w.style_loaded(Ok(()));
    assert!(w.has_loaded(&b"b.json".to_vec()));
    assert!(!w.has_loaded(&b"a.json".to_vec()));
}

#[test]
fn failed_style_load_answers_with_io_error_and_keeps_cache() {
    let mut w = TileWorker::new();
    let _: TileAction<u32> = w.begin(b"a.json".to_vec(), 1, 2, 3);
    let _: TileAction<u32> = w.style_loaded(Ok(()));
    let _ = w.tile_rendered(Ok(1u32));

    let a: TileAction<u32> = w.begin(b"missing.json".to_vec(), 1, 2, 3);
    assert!(matches!(a, TileAction::LoadStyle));
    let a: TileAction<u32> = w.style_loaded(Err(io_error(IoErrorKind::NotFound, "no such file")));
    match a {
        TileAction::Reply(Err(SingleThreadedRenderPoolError::IOError(e))) => {
            assert_eq!(e.kind, IoErrorKind::NotFound);
            assert_eq!(e.message, "no such file");
        }
        _ => panic!("expected an I/O error"),
    }
    assert!(w.is_idle());
    assert!(w.has_loaded(&b"a.json".to_vec()));
    assert!(!w.has_loaded(&b"missing.json".to_vec()));
    // the failed style is tried again on the next request
    let a: TileAction<u32> = w.begin(b"missing.json".to_vec(), 1, 2, 3);
    assert!(matches!(a, TileAction::LoadStyle));
}

#[test]
fn series_loads_style_once() {
    let mut w = TileWorker::new();
    let mut loads = 0;
    for i in 0..5u32 {
        let a: TileAction<u32> = w.begin(b"s.json".to_vec(), 3, i, i);
        let a = match a {
            TileAction::LoadStyle => {
                loads += 1;
                w.style_loaded(Ok(()))
            }
            other => other,
        };
        assert!(matches!(a, TileAction::RenderTile { .. }));
        let a = w.tile_rendered(Ok(i));
        assert!(matches!(a, TileAction::Reply(Ok(v)) if v == i));
    }
    assert_eq!(loads, 1);
}

fn ready_worker() -> StaticWorker<(i32, i32)> {
    let (mut w, a) = StaticWorker::<(i32, i32)>::start::<u32>((0, 1));
    assert!(matches!(a, StaticAction::LoadBaseStyle));
    let a: StaticAction<u32, (i32, i32)> = w.base_loaded(Ok(()));
    assert!(matches!(a, StaticAction::Warmup { camera: (0, 1) }));
    let a: StaticAction<u32, (i32, i32)> = w.warmed_up::<u32, u32>(Ok(0));
    assert!(matches!(a, StaticAction::AwaitRequest));
    w
}

#[test]
fn static_start_warms_up_then_waits() {
    let w = ready_worker();
    assert!(w.awaits_request());
}

#[test]
fn warmup_failure_is_ignored() {
    let (mut w, _) = StaticWorker::<(i32, i32)>::start::<u32>((0, 1));
    let _: StaticAction<u32, (i32, i32)> = w.base_loaded(Ok(()));
    let a: StaticAction<u32, (i32, i32)> = w.warmed_up::<u32, u32>(Err(rendering_error("warmup")));
    assert!(matches!(a, StaticAction::AwaitRequest));
    assert!(w.awaits_request());
}

#[test]
fn static_request_sets_source_then_renders_camera() {
    let mut w = ready_worker();
    let a: StaticAction<u32, (i32, i32)> =
        w.begin("overlay".to_string(), "{\"type\":\"FeatureCollection\"}".to_string(), (5, 7));
    match a {
        StaticAction::SetSource { source_id, geojson } => {
            assert_eq!(source_id, "overlay");
            assert_eq!(geojson, "{\"type\":\"FeatureCollection\"}");
        }
        _ => panic!("expected SetSource"),
    }
    assert!(!w.awaits_request());
    let a: StaticAction<u32, (i32, i32)> = w.source_set(Ok(()));
    assert!(matches!(a, StaticAction::Render { camera: (5, 7) }));
    let a = w.rendered(Ok(9u32));
    assert!(matches!(a, StaticAction::Reply(Ok(9))));
    assert!(w.awaits_request());
    // the next request does not load any style either
    let a: StaticAction<u32, (i32, i32)> = w.begin("overlay".to_string(), "{}".to_string(), (1, 1));
    assert!(matches!(a, StaticAction::SetSource { .. }));
}

#[test]
fn static_source_failure_answers_rendering_error() {
    let mut w = ready_worker();
    let _: StaticAction<u32, (i32, i32)> = w.begin("overlay".to_string(), "bad".to_string(), (5, 7));
    let a: StaticAction<u32, (i32, i32)> = w.source_set(Err(rendering_error("invalid geojson")));
    match a {
        StaticAction::Reply(Err(StaticRenderPoolError::RenderingError(e))) => {
            assert_eq!(e.message, "invalid geojson")
        }
        _ => panic!("expected a rendering error"),
    }
    assert!(w.awaits_request());
}

#[test]
fn static_render_failure_answers_rendering_error() {
    let mut w = ready_worker();
    let _: StaticAction<u32, (i32, i32)> = w.begin("overlay".to_string(), "{}".to_string(), (5, 7));
    let _: StaticAction<u32, (i32, i32)> = w.source_set(Ok(()));
    let a = w.rendered::<u32>(Err(rendering_error("render failed")));
    assert!(matches!(a, StaticAction::Reply(Err(StaticRenderPoolError::RenderingError(_)))));
    assert!(w.awaits_request());
}

#[test]
fn failed_base_style_refuses_every_request() {
    let (mut w, _) = StaticWorker::<(i32, i32)>::start::<u32>((0, 1));
    let a: StaticAction<u32, (i32, i32)> =
        w.base_loaded(Err(io_error(IoErrorKind::PermissionDenied, "permission denied")));
    assert!(matches!(a, StaticAction::AwaitRequest));
    assert!(w.awaits_request());
    for _ in 0..3 {
        let a: StaticAction<u32, (i32, i32)> = w.begin("overlay".to_string(), "{}".to_string(), (5, 7));
        match a {
            StaticAction::Reply(Err(StaticRenderPoolError::IOError(e))) => {
                assert_eq!(e.kind, IoErrorKind::NotFound);
                assert_eq!(e.message, "Base style not loaded: permission denied");
            }
            _ => panic!("expected an I/O error"),
        }
        assert!(w.awaits_request());
    }
}

#[test]
fn tile_call_results() {
    let r = tile_call_result::<u32>(false, None);
    assert!(matches!(r, Err(SingleThreadedRenderPoolError::FailedToSendRequest)));
    let r = tile_call_result::<u32>(false, Some(Ok(3)));
    assert!(matches!(r, Err(SingleThreadedRenderPoolError::FailedToSendRequest)));
    let r = tile_call_result::<u32>(true, None);
    assert!(matches!(r, Err(SingleThreadedRenderPoolError::FailedToReceiveResponse)));
    let r = tile_call_result::<u32>(true, Some(Ok(3)));
    assert!(matches!(r, Ok(3)));
    let r = tile_call_result::<u32>(
        true,
        Some(Err(SingleThreadedRenderPoolError::RenderingError(rendering_error("x")))),
    );
    assert!(matches!(r, Err(SingleThreadedRenderPoolError::RenderingError(_))));
}

#[test]
fn static_call_results() {
    let r = static_call_result::<u32>(false, None);
    assert!(matches!(r, Err(StaticRenderPoolError::FailedToSendRequest)));
    let r = static_call_result::<u32>(true, None);
    assert!(matches!(r, Err(StaticRenderPoolError::FailedToReceiveResponse)));
    let r = static_call_result::<u32>(true, Some(Ok(8)));
    assert!(matches!(r, Ok(8)));
    let r = static_call_result::<u32>(
        true,
        Some(Err(StaticRenderPoolError::IOError(io_error(IoErrorKind::NotFound, "gone")))),
    );
    assert!(matches!(r, Err(StaticRenderPoolError::IOError(_))));
}

#[test]
fn error_texts() {
    assert_eq!(
        SingleThreadedRenderPoolError::FailedToSendRequest.to_string(),
        "Failed to send request to rendering thread"
    );
    assert_eq!(
        SingleThreadedRenderPoolError::FailedToReceiveResponse.to_string(),
        "Failed to receive response from rendering thread"
    );
    assert_eq!(
        StaticRenderPoolError::FailedToSendRequest.to_string(),
        "Failed to send request to rendering thread"
    );
    assert_eq!(
        StaticRenderPoolError::FailedToReceiveResponse.to_string(),
        "Failed to receive response from rendering thread"
    );
    assert_eq!(
        SingleThreadedRenderPoolError::IOError(io_error(IoErrorKind::Other, "disk")).to_string(),
        "disk"
    );
    assert_eq!(
        StaticRenderPoolError::RenderingError(rendering_error("gpu")).to_string(),
        "gpu"
    );
}

#[test]
fn error_conversions() {
    let e: SingleThreadedRenderPoolError = io_error(IoErrorKind::NotFound, "a").into();
    assert!(matches!(e, SingleThreadedRenderPoolError::IOError(_)));
    let e: SingleThreadedRenderPoolError = rendering_error("b").into();
    assert!(matches!(e, SingleThreadedRenderPoolError::RenderingError(_)));
    let e: StaticRenderPoolError = io_error(IoErrorKind::NotFound, "a").into();
    assert!(matches!(e, StaticRenderPoolError::IOError(_)));
    let e: StaticRenderPoolError = rendering_error("b").into();
    assert!(matches!(e, StaticRenderPoolError::RenderingError(_)));
}
