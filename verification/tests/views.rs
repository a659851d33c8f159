use arcaders::geometry::Rectangle;
use arcaders::phi::events::{Key, RawEvent};
use arcaders::phi::{apply_action, Color, DrawCommand, FrameOutcome, Phi, Screen, ViewAction};
use arcaders::views::{AnyScreen, DefaultView, Ship, ShipView, ViewA, ViewB};

const TICK: u64 = 10;

fn fresh_phi() -> Phi {
    Phi::new(800, 600)
}

fn pump(phi: &mut Phi, batch: Vec<RawEvent>) {
    phi.events.pump(&batch);
}

#[test]
fn ship_view_starts_at_its_fixed_spot() {
    let mut phi = fresh_phi();
    let v = ShipView::new(&mut phi);
    assert_eq!(
        v.player.rect,
        Rectangle { x: 64_000, y: 64_000, w: 32_000, h: 32_000 }
    );
}

#[test]
fn ship_moves_left_by_speed_times_elapsed() {
    let mut phi = fresh_phi();
    let mut v = ShipView::new(&mut phi);
    pump(&mut phi, vec![RawEvent::KeyDown(Key::Left)]);
    let action = v.render(&mut phi, TICK);
    assert_eq!(action, ViewAction::Continue);
    // 180_000 subunits/s * 10 ms / 1000 = 1_800 subunits.
    assert_eq!(v.player.rect.x, 64_000 - 1_800);
    assert_eq!(v.player.rect.y, 64_000);
}

#[test]
fn diagonal_movement_is_normalized() {
    let mut phi = fresh_phi();
    let mut v = ShipView::new(&mut phi);
    pump(
        &mut phi,
        vec![RawEvent::KeyDown(Key::Up), RawEvent::KeyDown(Key::Left)],
    );
    v.render(&mut phi, TICK);
    // 180_000 * 10 * 70_711 / 100_000_000 = 1_272 subunits on each axis,
    // not the full 1_800 an axis-aligned move would give.
    assert_eq!(v.player.rect.x, 64_000 - 1_272);
    assert_eq!(v.player.rect.y, 64_000 - 1_272);
}

#[test]
fn opposing_keys_cancel() {
    let mut phi = fresh_phi();
    let mut v = ShipView::new(&mut phi);
    pump(
        &mut phi,
        vec![
            RawEvent::KeyDown(Key::Left),
            RawEvent::KeyDown(Key::Right),
            RawEvent::KeyDown(Key::Up),
        ],
    );
    v.render(&mut phi, TICK);
    // Zero net horizontal displacement; vertical movement is axis-aligned
    // (only one vertical key is held, so no diagonal normalization).
    assert_eq!(v.player.rect.x, 64_000);
    assert_eq!(v.player.rect.y, 64_000 - 1_800);
}

#[test]
fn ship_is_clamped_inside_the_movement_region() {
    let mut phi = fresh_phi();
    // Region: 70% of 800 px = 560_000 subunits wide, 600_000 tall.
    let mut v = ShipView {
        player: Ship { rect: Rectangle { x: 600_000, y: -5_000, w: 32_000, h: 32_000 } },
    };
    v.render(&mut phi, TICK);
    assert_eq!(v.player.rect.x, 560_000 - 32_000);
    assert_eq!(v.player.rect.y, 0);
}

#[test]
fn ship_quits_on_escape_edge_before_anything_else() {
    let mut phi = fresh_phi();
    let mut v = ShipView::new(&mut phi);
    pump(
        &mut phi,
        vec![RawEvent::KeyDown(Key::Escape), RawEvent::KeyDown(Key::Left)],
    );
    let action = v.render(&mut phi, TICK);
    assert_eq!(action, ViewAction::Quit);
    // Nothing moved and nothing was drawn.
    assert_eq!(v.player.rect.x, 64_000);
    assert!(phi.draws.is_empty());
}

#[test]
fn ship_render_queues_clear_then_fill() {
    let mut phi = fresh_phi();
    let mut v = ShipView::new(&mut phi);
    v.render(&mut phi, TICK);
    assert_eq!(phi.draws.len(), 2);
    assert_eq!(phi.draws[0], DrawCommand::Clear(Color { r: 0, g: 0, b: 0 }));
    match phi.draws[1] {
        DrawCommand::FillRect(color, dr) => {
            assert_eq!(color, Color { r: 200, g: 200, b: 50 });
            // The ship is drawn at its position before this frame's movement.
            assert_eq!((dr.x, dr.y, dr.w, dr.h), (64, 64, 32, 32));
        }
        other => panic!("expected a fill, got {:?}", other),
    }
}

#[test]
fn default_view_clears_to_black_and_continues() {
    let mut phi = fresh_phi();
    let mut v = DefaultView;
    let action = v.render(&mut phi, TICK);
    assert_eq!(action, ViewAction::Continue);
    assert_eq!(phi.draws.len(), 1);
    assert_eq!(phi.draws[0], DrawCommand::Clear(Color { r: 0, g: 0, b: 0 }));
}

#[test]
fn confirm_key_ping_pongs_between_the_two_screens() {
    let mut phi = fresh_phi();
    let mut screen = AnyScreen::A(ViewA);
    pump(&mut phi, vec![RawEvent::KeyDown(Key::Space)]);
    let action = screen.render(&mut phi, TICK);
    assert_eq!(action, ViewAction::ChangeView(AnyScreen::B(ViewB)));
    assert_eq!(apply_action(&mut screen, action), FrameOutcome::Swap);
    assert_eq!(screen, AnyScreen::B(ViewB));

    // Release and press again next frames; the reverse transition holds.
    pump(&mut phi, vec![RawEvent::KeyUp(Key::Space)]);
    pump(&mut phi, vec![RawEvent::KeyDown(Key::Space)]);
    let action = screen.render(&mut phi, TICK);
    assert_eq!(action, ViewAction::ChangeView(AnyScreen::A(ViewA)));
    assert_eq!(apply_action(&mut screen, action), FrameOutcome::Swap);
    assert_eq!(screen, AnyScreen::A(ViewA));
}

#[test]
fn held_confirm_key_does_not_keep_swapping() {
    let mut phi = fresh_phi();
    let mut screen = AnyScreen::A(ViewA);
    pump(&mut phi, vec![RawEvent::KeyDown(Key::Space)]);
    let action = screen.render(&mut phi, TICK);
    apply_action(&mut screen, action);
    assert_eq!(screen, AnyScreen::B(ViewB));
    // Key still held, but no new edge: the next frame continues.
    pump(&mut phi, vec![]);
    let action = screen.render(&mut phi, TICK);
    assert_eq!(action, ViewAction::Continue);
}

#[test]
fn quit_request_terminates_from_any_screen() {
    let mut ship_phi = fresh_phi();
    let ship = ShipView::new(&mut ship_phi);
    let screens = vec![
        AnyScreen::Default(DefaultView),
        AnyScreen::A(ViewA),
        AnyScreen::B(ViewB),
        AnyScreen::Ship(ship),
    ];
    for mut screen in screens {
        let mut phi = fresh_phi();
        // Other input state present too: quit wins regardless.
        pump(
            &mut phi,
            vec![RawEvent::KeyDown(Key::Space), RawEvent::Quit, RawEvent::KeyDown(Key::Left)],
        );
        let action = screen.render(&mut phi, TICK);
        assert_eq!(action, ViewAction::Quit);
        assert_eq!(apply_action(&mut screen, action), FrameOutcome::Stop);
    }
}

#[test]
fn continue_presents_and_keeps_the_screen() {
    let mut screen = AnyScreen::Default(DefaultView);
    assert_eq!(
        apply_action(&mut screen, ViewAction::Continue),
        FrameOutcome::Present
    );
    assert_eq!(screen, AnyScreen::Default(DefaultView));
}
