use yasc_core::environment::actor_wrapper::{DrawCommand, RenderDetails, RenderTarget};
use yasc_core::environment::state::GameStateRenderDetails;
use yasc_core::song_player::governor::{LGRenderDetails, Transform};
use yasc_core::song_player::lanes::LanesRenderDetails;

#[test]
fn cancelled_child_layer_is_skipped() {
    // the lane child's response sender is dropped before responding: the
    // governor still renders its composite, without the lane layer
    let (tx, rx) = futures::sync::oneshot::channel::<LanesRenderDetails>();
    drop(tx);
    let details = LGRenderDetails {
        transform: Transform {
            rotation: 1,
            slant: 2,
            zoom: 3,
        },
        lanes: rx,
        color_target: RenderTarget::Screen,
    };
    let cmds = details.render();
    assert_eq!(cmds.len(), 1);
    assert_eq!(
        cmds[0],
        DrawCommand::LaneComposite {
            target: RenderTarget::Screen,
            transform: Transform {
                rotation: 1,
                slant: 2,
                zoom: 3,
            },
        }
    );
}

#[test]
fn cancelled_song_render_draws_nothing() {
    let (tx, rx) = futures::sync::oneshot::channel::<LGRenderDetails>();
    drop(tx);
    let details = GameStateRenderDetails::Song(rx);
    assert_eq!(details.render(), vec![]);
}

#[test]
fn delivered_child_layer_is_drawn() {
    let (tx, rx) = futures::sync::oneshot::channel::<LanesRenderDetails>();
    tx.send(LanesRenderDetails {
        color_target: RenderTarget::LanesTexture,
    })
    .unwrap();
    let details = LGRenderDetails {
        transform: Transform {
            rotation: 0,
            slant: 0,
            zoom: 0,
        },
        lanes: rx,
        color_target: RenderTarget::Screen,
    };
    let cmds = details.render();
    assert_eq!(cmds.len(), 2);
    assert!(matches!(
        cmds[0],
        DrawCommand::Lanes {
            target: RenderTarget::LanesTexture
        }
    ));
}
