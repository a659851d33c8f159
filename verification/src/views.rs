//! The concrete screens: a static screen, two cross-linking screens, and a
//! movable-entity screen, together with the tagged variant over all of them
//! that the loop owns.

use crate::geometry::Rectangle;
use crate::phi::{exit_requested, Color, DrawCommand, Phi, Screen, ViewAction};
use vstd::prelude::*;

verus! {

/// The movable entity's speed, in subunits per second (180 pixels/s).
pub const PLAYER_SPEED: u64 = 180_000;

/// Rational approximation of 1 / sqrt(2), used to normalize diagonal
/// movement so it is not faster than axis-aligned movement.
pub const INV_SQRT2_NUM: u64 = 70_711;

pub const INV_SQRT2_DEN: u64 = 100_000;

/// Upper bound on the elapsed time handed to a screen, in milliseconds (one
/// hour; the loop passes a 10 ms tick). A machine limit: it keeps one
/// frame's displacement arithmetic inside `i64`.
pub const MAX_ELAPSED_MS: u64 = 3_600_000;

/// Bound on the ship rectangle's coordinates and extents between frames;
/// anything clamped inside the movement region is far within it, and it
/// keeps the per-frame movement sums inside `i64`.
pub const SHIP_COORD_LIMIT: i64 = 2_000_000_000;

/// Displacement of one frame of axis-aligned movement, in subunits.
pub open spec fn spec_axis_step(elapsed_ms: int) -> int {
    (PLAYER_SPEED as int) * elapsed_ms / 1000
}

/// Displacement of one frame of diagonal movement on each axis, in subunits:
/// the axis-aligned displacement scaled by 1 / sqrt(2).
pub open spec fn spec_diag_step(elapsed_ms: int) -> int {
    (PLAYER_SPEED as int) * elapsed_ms * (INV_SQRT2_NUM as int) / (1000 * (INV_SQRT2_DEN as int))
}

/// The per-axis displacement magnitude for one frame, given which direction
/// keys are held: normalized when both axes are simultaneously active.
pub open spec fn spec_step(up: bool, down: bool, left: bool, right: bool, elapsed_ms: int) -> int {
    if (up != down) && (left != right) {
        spec_diag_step(elapsed_ms)
    } else {
        spec_axis_step(elapsed_ms)
    }
}

/// Signed velocity of one axis from its two opposing keys: opposing keys
/// cancel to zero net movement on that axis.
pub open spec fn spec_axis_vel(neg: bool, pos: bool, step: int) -> int {
    if neg == pos {
        0
    } else if neg {
        -step
    } else {
        step
    }
}

/// The movement boundary: 70% of the output width and the full output
/// height, in subunits.
pub open spec fn ship_region(phi: Phi) -> Rectangle {
    Rectangle {
        x: 0,
        y: 0,
        w: ((phi.out_w as int) * 700) as i64,
        h: ((phi.out_h as int) * 1000) as i64,
    }
}

/// The movable entity: one rectangle, owned exclusively by its screen.
#[derive(Clone, Copy, Debug, PartialEq, Eq, Structural)]
pub struct Ship {
    pub rect: Rectangle,
}

/// The movable-entity screen.
#[derive(Clone, Copy, Debug, PartialEq, Eq, Structural)]
pub struct ShipView {
    pub player: Ship,
}

/// A static screen that only clears the frame to black.
#[derive(Clone, Copy, Debug, PartialEq, Eq, Structural)]
pub struct DefaultView;

/// One half of the two-screen ping-pong: clears to red, swaps to `ViewB` on
/// the confirm key's just-pressed edge.
#[derive(Clone, Copy, Debug, PartialEq, Eq, Structural)]
pub struct ViewA;

/// The other half of the ping-pong: clears to blue, swaps back to `ViewA`.
#[derive(Clone, Copy, Debug, PartialEq, Eq, Structural)]
pub struct ViewB;

/// The tagged variant over every known screen kind. The loop owns exactly
/// one; replacing it drops the previous screen's state at the transition.
#[derive(Clone, Copy, Debug, PartialEq, Eq, Structural)]
pub enum AnyScreen {
    Default(DefaultView),
    A(ViewA),
    B(ViewB),
    Ship(ShipView),
}

impl ShipView {
    /// The ship's rectangle is well formed and bounded.
    pub open spec fn wf(self) -> bool {
        &&& self.player.rect.well_formed()
        &&& -SHIP_COORD_LIMIT <= self.player.rect.x <= SHIP_COORD_LIMIT
        &&& -SHIP_COORD_LIMIT <= self.player.rect.y <= SHIP_COORD_LIMIT
        &&& self.player.rect.w <= SHIP_COORD_LIMIT
        &&& self.player.rect.h <= SHIP_COORD_LIMIT
    }

    /// The ship's rectangle after one frame's movement, before boundary
    /// clamping: each axis moves by the signed velocity its held keys give.
    pub open spec fn moved_rect(self, phi: Phi, elapsed_ms: u64) -> Rectangle {
        let e = phi.events;
        let step = spec_step(e.key_up, e.key_down, e.key_left, e.key_right, elapsed_ms as int);
        Rectangle {
            x: (self.player.rect.x + spec_axis_vel(e.key_left, e.key_right, step)) as i64,
            y: (self.player.rect.y + spec_axis_vel(e.key_up, e.key_down, step)) as i64,
            w: self.player.rect.w,
            h: self.player.rect.h,
        }
    }

    /// The ship's rectangle after movement and boundary clamping. When the
    /// region cannot hold the ship at all (output narrower than the ship),
    /// the ship deliberately keeps its previous position for the frame
    /// instead of failing: boundary misconfiguration is recoverable here.
    pub open spec fn next_rect(self, phi: Phi, elapsed_ms: u64) -> Rectangle {
        let m = self.moved_rect(phi, elapsed_ms);
        let region = ship_region(phi);
        if m.fits_within(region) {
            m.clamped_inside(region)
        } else {
            self.player.rect
        }
    }

    pub fn new(phi: &mut Phi) -> (v: ShipView)
        ensures
            v.player.rect == (Rectangle { x: 64_000, y: 64_000, w: 32_000, h: 32_000 }),
            v.wf(),
            *final(phi) == *old(phi),
    {
        ShipView { player: Ship { rect: Rectangle { x: 64_000, y: 64_000, w: 32_000, h: 32_000 } } }
    }
}

impl Screen for DefaultView {
    open spec fn req(self, phi: Phi, elapsed_ms: u64) -> bool {
        true
    }

    open spec fn next(self, phi: Phi, elapsed_ms: u64) -> DefaultView {
        self
    }

    open spec fn directive(self, phi: Phi, elapsed_ms: u64) -> ViewAction {
        if exit_requested(phi) {
            ViewAction::Quit
        } else {
            ViewAction::Continue
        }
    }

    open spec fn drawn(self, phi: Phi, elapsed_ms: u64) -> Seq<DrawCommand> {
        if exit_requested(phi) {
            Seq::empty()
        } else {
            seq![DrawCommand::Clear(Color { r: 0, g: 0, b: 0 })]
        }
    }

    fn render(&mut self, phi: &mut Phi, elapsed_ms: u64) -> (action: ViewAction) {
        let escape_pressed = match phi.events.now.key_escape {
            Some(true) => true,
            _ => false,
        };
        if phi.events.now.quit || escape_pressed {
            proof {
                assert(old(phi).draws@ + Seq::<DrawCommand>::empty() =~= old(phi).draws@);
            }
            return ViewAction::Quit;
        }
        phi.draws.push(DrawCommand::Clear(Color { r: 0, g: 0, b: 0 }));
        proof {
            assert(phi.draws@ =~= old(phi).draws@ + old(self).drawn(*old(phi), elapsed_ms));
        }
        ViewAction::Continue
    }
}

impl Screen for ViewA {
    open spec fn req(self, phi: Phi, elapsed_ms: u64) -> bool {
        true
    }

    open spec fn next(self, phi: Phi, elapsed_ms: u64) -> ViewA {
        self
    }

    open spec fn directive(self, phi: Phi, elapsed_ms: u64) -> ViewAction {
        if exit_requested(phi) {
            ViewAction::Quit
        } else if phi.events.now.key_space == Some(true) {
            ViewAction::ChangeView(AnyScreen::B(ViewB))
        } else {
            ViewAction::Continue
        }
    }

    open spec fn drawn(self, phi: Phi, elapsed_ms: u64) -> Seq<DrawCommand> {
        if exit_requested(phi) || phi.events.now.key_space == Some(true) {
            Seq::empty()
        } else {
            seq![DrawCommand::Clear(Color { r: 255, g: 0, b: 0 })]
        }
    }

    fn render(&mut self, phi: &mut Phi, elapsed_ms: u64) -> (action: ViewAction) {
        let escape_pressed = match phi.events.now.key_escape {
            Some(true) => true,
            _ => false,
        };
        if phi.events.now.quit || escape_pressed {
            proof {
                assert(old(phi).draws@ + Seq::<DrawCommand>::empty() =~= old(phi).draws@);
            }
            return ViewAction::Quit;
        }
        let space_pressed = match phi.events.now.key_space {
            Some(true) => true,
            _ => false,
        };
        if space_pressed {
            proof {
                assert(old(phi).draws@ + Seq::<DrawCommand>::empty() =~= old(phi).draws@);
            }
            return ViewAction::ChangeView(AnyScreen::B(ViewB));
        }
        phi.draws.push(DrawCommand::Clear(Color { r: 255, g: 0, b: 0 }));
        proof {
            assert(phi.draws@ =~= old(phi).draws@ + old(self).drawn(*old(phi), elapsed_ms));
        }
        ViewAction::Continue
    }
}

impl Screen for ViewB {
    open spec fn req(self, phi: Phi, elapsed_ms: u64) -> bool {
        true
    }

    open spec fn next(self, phi: Phi, elapsed_ms: u64) -> ViewB {
        self
    }

    open spec fn directive(self, phi: Phi, elapsed_ms: u64) -> ViewAction {
        if exit_requested(phi) {
            ViewAction::Quit
        } else if phi.events.now.key_space == Some(true) {
            ViewAction::ChangeView(AnyScreen::A(ViewA))
        } else {
            ViewAction::Continue
        }
    }

    open spec fn drawn(self, phi: Phi, elapsed_ms: u64) -> Seq<DrawCommand> {
        if exit_requested(phi) || phi.events.now.key_space == Some(true) {
            Seq::empty()
        } else {
            seq![DrawCommand::Clear(Color { r: 0, g: 0, b: 255 })]
        }
    }

    fn render(&mut self, phi: &mut Phi, elapsed_ms: u64) -> (action: ViewAction) {
        let escape_pressed = match phi.events.now.key_escape {
            Some(true) => true,
            _ => false,
        };
        if phi.events.now.quit || escape_pressed {
            proof {
                assert(old(phi).draws@ + Seq::<DrawCommand>::empty() =~= old(phi).draws@);
            }
            return ViewAction::Quit;
        }
        let space_pressed = match phi.events.now.key_space {
            Some(true) => true,
            _ => false,
        };
        if space_pressed {
            proof {
                assert(old(phi).draws@ + Seq::<DrawCommand>::empty() =~= old(phi).draws@);
            }
            return ViewAction::ChangeView(AnyScreen::A(ViewA));
        }
        phi.draws.push(DrawCommand::Clear(Color { r: 0, g: 0, b: 255 }));
        proof {
            assert(phi.draws@ =~= old(phi).draws@ + old(self).drawn(*old(phi), elapsed_ms));
        }
        ViewAction::Continue
    }
}

impl Screen for ShipView {
    open spec fn req(self, phi: Phi, elapsed_ms: u64) -> bool {
        self.wf() && phi.wf() && elapsed_ms <= MAX_ELAPSED_MS
    }

    open spec fn next(self, phi: Phi, elapsed_ms: u64) -> ShipView {
        if exit_requested(phi) {
            self
        } else {
            ShipView { player: Ship { rect: self.next_rect(phi, elapsed_ms) } }
        }
    }

    open spec fn directive(self, phi: Phi, elapsed_ms: u64) -> ViewAction {
        if exit_requested(phi) {
            ViewAction::Quit
        } else {
            ViewAction::Continue
        }
    }

    open spec fn drawn(self, phi: Phi, elapsed_ms: u64) -> Seq<DrawCommand> {
        if exit_requested(phi) {
            Seq::empty()
        } else {
            seq![
                DrawCommand::Clear(Color { r: 0, g: 0, b: 0 }),
                DrawCommand::FillRect(
                    Color { r: 200, g: 200, b: 50 },
                    self.player.rect.to_draw_rect(),
                ),
            ]
        }
    }

    #[verifier::rlimit(50)]
    fn render(&mut self, phi: &mut Phi, elapsed_ms: u64) -> (action: ViewAction) {
        let escape_pressed = match phi.events.now.key_escape {
            Some(true) => true,
            _ => false,
        };
        if phi.events.now.quit || escape_pressed {
            proof {
                assert(old(phi).draws@ + Seq::<DrawCommand>::empty() =~= old(phi).draws@);
            }
            return ViewAction::Quit;
        }

        phi.draws.push(DrawCommand::Clear(Color { r: 0, g: 0, b: 0 }));
        let dr = self.player.rect.to_sdl();
        phi.draws.push(DrawCommand::FillRect(Color { r: 200, g: 200, b: 50 }, dr));

        let up = phi.events.key_up;
        let down = phi.events.key_down;
        let left = phi.events.key_left;
        let right = phi.events.key_right;
        let diagonal = (up != down) && (left != right);
        let step: u64 = if diagonal {
            PLAYER_SPEED * elapsed_ms * INV_SQRT2_NUM / (1000 * INV_SQRT2_DEN)
        } else {
            PLAYER_SPEED * elapsed_ms / 1000
        };
        proof {
            let p = (PLAYER_SPEED as int) * (elapsed_ms as int);
            assert(0 <= p <= 648_000_000_000);
            vstd::arithmetic::div_mod::lemma_div_is_ordered(p, 648_000_000_000, 1000);
            let q = p * (INV_SQRT2_NUM as int);
            assert(0 <= q <= 45_820_728_000_000_000);
            vstd::arithmetic::div_mod::lemma_div_is_ordered(
                q,
                45_820_728_000_000_000,
                100_000_000,
            );
            assert(step <= 648_000_000);
        }
        let dx: i64 = if left == right {
            0
        } else if left {
            -(step as i64)
        } else {
            step as i64
        };
        let dy: i64 = if up == down {
            0
        } else if up {
            -(step as i64)
        } else {
            step as i64
        };

        let moved = Rectangle {
            x: self.player.rect.x + dx,
            y: self.player.rect.y + dy,
            w: self.player.rect.w,
            h: self.player.rect.h,
        };
        let region = Rectangle {
            x: 0,
            y: 0,
            w: (phi.out_w as i64) * 700,
            h: (phi.out_h as i64) * 1000,
        };
        proof {
            assert(moved.in_coord_range());
            assert(region.in_coord_range());
        }
        match moved.move_inside(region) {
            Some(r) => {
                self.player.rect = r;
            },
            None => {},
        }
        proof {
            assert(phi.draws@ =~= old(phi).draws@ + old(self).drawn(*old(phi), elapsed_ms));
        }
        ViewAction::Continue
    }
}

impl Screen for AnyScreen {
    open spec fn req(self, phi: Phi, elapsed_ms: u64) -> bool {
        match self {
            AnyScreen::Default(v) => v.req(phi, elapsed_ms),
            AnyScreen::A(v) => v.req(phi, elapsed_ms),
            AnyScreen::B(v) => v.req(phi, elapsed_ms),
            AnyScreen::Ship(v) => v.req(phi, elapsed_ms),
        }
    }

    open spec fn next(self, phi: Phi, elapsed_ms: u64) -> AnyScreen {
        match self {
            AnyScreen::Default(v) => AnyScreen::Default(v.next(phi, elapsed_ms)),
            AnyScreen::A(v) => AnyScreen::A(v.next(phi, elapsed_ms)),
            AnyScreen::B(v) => AnyScreen::B(v.next(phi, elapsed_ms)),
            AnyScreen::Ship(v) => AnyScreen::Ship(v.next(phi, elapsed_ms)),
        }
    }

    open spec fn directive(self, phi: Phi, elapsed_ms: u64) -> ViewAction {
        match self {
            AnyScreen::Default(v) => v.directive(phi, elapsed_ms),
            AnyScreen::A(v) => v.directive(phi, elapsed_ms),
            AnyScreen::B(v) => v.directive(phi, elapsed_ms),
            AnyScreen::Ship(v) => v.directive(phi, elapsed_ms),
        }
    }

    open spec fn drawn(self, phi: Phi, elapsed_ms: u64) -> Seq<DrawCommand> {
        match self {
            AnyScreen::Default(v) => v.drawn(phi, elapsed_ms),
            AnyScreen::A(v) => v.drawn(phi, elapsed_ms),
            AnyScreen::B(v) => v.drawn(phi, elapsed_ms),
            AnyScreen::Ship(v) => v.drawn(phi, elapsed_ms),
        }
    }

    fn render(&mut self, phi: &mut Phi, elapsed_ms: u64) -> (action: ViewAction) {
        match *self {
            AnyScreen::Default(mut v) => {
                let action = v.render(phi, elapsed_ms);
                *self = AnyScreen::Default(v);
                action
            },
            AnyScreen::A(mut v) => {
                let action = v.render(phi, elapsed_ms);
                *self = AnyScreen::A(v);
                action
            },
            AnyScreen::B(mut v) => {
                let action = v.render(phi, elapsed_ms);
                *self = AnyScreen::B(v);
                action
            },
            AnyScreen::Ship(mut v) => {
                let action = v.render(phi, elapsed_ms);
                *self = AnyScreen::Ship(v);
                action
            },
        }
    }
}

/// One frame's displacement magnitude never exceeds the distance the entity
/// covers in `MAX_ELAPSED_MS` of axis-aligned movement.
proof fn lemma_step_bounds(elapsed_ms: u64)
    requires
        elapsed_ms <= MAX_ELAPSED_MS,
    ensures
        0 <= spec_axis_step(elapsed_ms as int) <= 648_000_000,
        0 <= spec_diag_step(elapsed_ms as int) <= 648_000_000,
{
    let p = (PLAYER_SPEED as int) * (elapsed_ms as int);
    assert(0 <= p <= 648_000_000_000);
    vstd::arithmetic::div_mod::lemma_div_is_ordered(0, p, 1000);
    vstd::arithmetic::div_mod::lemma_div_is_ordered(p, 648_000_000_000, 1000);
    let q = p * (INV_SQRT2_NUM as int);
    assert(0 <= q <= 45_820_728_000_000_000);
    vstd::arithmetic::div_mod::lemma_div_is_ordered(0, q, 100_000_000);
    vstd::arithmetic::div_mod::lemma_div_is_ordered(q, 45_820_728_000_000_000, 100_000_000);
}

/// Diagonal movement is normalized: holding up and left together moves the
/// entity by the 1 / sqrt(2)-scaled step on each axis (before boundary
/// clamping), not by the full axis-aligned step on both.
pub proof fn lemma_diagonal_movement_normalized(s: ShipView, phi: Phi, elapsed_ms: u64)
    requires
        s.wf(),
        elapsed_ms <= MAX_ELAPSED_MS,
        phi.events.key_up,
        phi.events.key_left,
        !phi.events.key_down,
        !phi.events.key_right,
    ensures
        s.moved_rect(phi, elapsed_ms).x == s.player.rect.x - spec_diag_step(elapsed_ms as int),
        s.moved_rect(phi, elapsed_ms).y == s.player.rect.y - spec_diag_step(elapsed_ms as int),
{
    lemma_step_bounds(elapsed_ms);
}

/// Opposing keys cancel: while left and right are both held, the frame's
/// horizontal displacement is zero, whatever the vertical keys do.
pub proof fn lemma_opposing_keys_cancel(s: ShipView, phi: Phi, elapsed_ms: u64)
    requires
        s.wf(),
        elapsed_ms <= MAX_ELAPSED_MS,
        phi.events.key_left,
        phi.events.key_right,
    ensures
        s.moved_rect(phi, elapsed_ms).x == s.player.rect.x,
{
    lemma_step_bounds(elapsed_ms);
}

/// One frame of the movable-entity screen preserves its well-formedness, so
/// the loop may keep rendering it forever.
pub proof fn lemma_render_preserves_wf(s: ShipView, phi: Phi, elapsed_ms: u64)
    requires
        s.wf(),
        phi.wf(),
        elapsed_ms <= MAX_ELAPSED_MS,
    ensures
        s.next(phi, elapsed_ms).wf(),
{
    lemma_step_bounds(elapsed_ms);
}

/// The two-screen ping-pong: on the confirm key's just-pressed edge (and no
/// exit request) each of the two linked screens directs the loop to replace
/// it with the other.
pub proof fn lemma_confirm_swaps_screens(phi: Phi, elapsed_ms: u64)
    requires
        !exit_requested(phi),
        phi.events.now.key_space == Some(true),
    ensures
        ViewA.directive(phi, elapsed_ms) == ViewAction::ChangeView(AnyScreen::B(ViewB)),
        ViewB.directive(phi, elapsed_ms) == ViewAction::ChangeView(AnyScreen::A(ViewA)),
{
}

/// A quit request terminates from any screen, regardless of all other input
/// state.
pub proof fn lemma_quit_requested_terminates(s: AnyScreen, phi: Phi, elapsed_ms: u64)
    requires
        phi.events.now.quit,
    ensures
        s.directive(phi, elapsed_ms) == ViewAction::Quit,
{
}

} // verus!
