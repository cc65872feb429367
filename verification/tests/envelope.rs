use yasc_core::environment::update_routine::{
    receive_response, run_update_tick, EnvelopeSink, RequestError, UpdateEnvelope, UpdateQueue,
    WindowContext, WindowRequest, WindowResponse,
};
use yasc_core::song_player::governor::LGInitRequest;
use yasc_core::song_player::lanes::Lanes;

struct MockCtx {
    lanes_served: u32,
    window_size: Option<(u32, u32)>,
}

impl MockCtx {
    fn new() -> MockCtx {
        MockCtx {
            lanes_served: 0,
            window_size: Some((640, 480)),
        }
    }
}

impl WindowContext for MockCtx {
    fn dispatch(&mut self, req: WindowRequest) -> WindowResponse {
        match req {
            WindowRequest::CreateLanes => {
                self.lanes_served += 1;
                WindowResponse::LanesCreated(Lanes {
                    texture_width: 640,
                    texture_height: 480,
                })
            }
            WindowRequest::CreateLaneGovernor(r) => {
                WindowResponse::LaneGovernorCreated(r.handle(self.window_size))
            }
        }
    }
}

/// A sink that handles every envelope immediately against a mock context,
/// standing in for the resource-owning thread.
struct ImmediateSink {
    ctx: MockCtx,
}

impl EnvelopeSink for ImmediateSink {
    fn deliver(&mut self, env: UpdateEnvelope) {
        let mut env = env;
        env.handle(&mut self.ctx);
    }
}

#[test]
fn envelope_single_consumption() {
    let (mut env, rx) = WindowRequest::CreateLanes.wrap();
    let mut ctx = MockCtx::new();
    let first = env.handle(&mut ctx);
    let second = env.handle(&mut ctx);
    assert!(first);
    assert!(!second);
    assert_eq!(ctx.lanes_served, 1);
    let response = receive_response(rx).unwrap();
    assert_eq!(
        response,
        WindowResponse::LanesCreated(Lanes {
            texture_width: 640,
            texture_height: 480
        })
    );
}

#[test]
fn round_trip_returns_exact_token() {
    let mut sink = ImmediateSink {
        ctx: MockCtx::new(),
    };
    let response = WindowRequest::CreateLanes.send_then_receive(&mut sink).unwrap();
    assert_eq!(
        response,
        WindowResponse::LanesCreated(Lanes {
            texture_width: 640,
            texture_height: 480
        })
    );

    let req = LGInitRequest {
        rotation_events: vec![],
        slant_events: vec![],
        zoom_events: vec![],
        lanes: Lanes {
            texture_width: 7,
            texture_height: 9,
        },
    };
    let response = WindowRequest::CreateLaneGovernor(req)
        .send_then_receive(&mut sink)
        .unwrap();
    match response {
        WindowResponse::LaneGovernorCreated(Some(gov)) => {
            assert_eq!(gov.lanes.texture_width, 7);
            assert_eq!(gov.lanes.texture_height, 9);
            assert!(gov.current_spin.is_none());
        }
        other => panic!("wrong response kind: {:?}", other),
    }
}

#[test]
fn round_trip_canceled_when_envelope_dropped() {
    struct DropSink;
    impl EnvelopeSink for DropSink {
        fn deliver(&mut self, env: UpdateEnvelope) {
            drop(env);
        }
    }
    let mut sink = DropSink;
    let r = WindowRequest::CreateLanes.send_then_receive(&mut sink);
    assert_eq!(r, Err(RequestError::Canceled));
}

#[test]
fn update_tick_serves_all_queued_envelopes_once() {
    let (tx, mut rx) = UpdateEnvelope::unbounded();
    let mut queue = UpdateQueue::new(tx);
    let mut receivers = Vec::new();
    for _ in 0..5 {
        let (env, response_rx) = WindowRequest::CreateLanes.wrap();
        queue.deliver(env);
        receivers.push(response_rx);
    }
    let mut ctx = MockCtx::new();
    let n = run_update_tick(&mut rx, &mut ctx);
    assert_eq!(n, 5);
    assert_eq!(ctx.lanes_served, 5);
    for response_rx in receivers {
        let response = receive_response(response_rx).unwrap();
        assert!(matches!(response, WindowResponse::LanesCreated(_)));
    }
    // nothing queued any more: a second tick dispatches nothing
    let n = run_update_tick(&mut rx, &mut ctx);
    assert_eq!(n, 0);
    assert_eq!(ctx.lanes_served, 5);
}

#[test]
fn governor_creation_fails_without_window_size() {
    let mut sink = ImmediateSink {
        ctx: MockCtx::new(),
    };
    sink.ctx.window_size = None;
    let req = LGInitRequest {
        rotation_events: vec![],
        slant_events: vec![],
        zoom_events: vec![],
        lanes: Lanes {
            texture_width: 1,
            texture_height: 1,
        },
    };
    let response = WindowRequest::CreateLaneGovernor(req)
        .send_then_receive(&mut sink)
        .unwrap();
    assert_eq!(response, WindowResponse::LaneGovernorCreated(None));
}
