//! The immediate-mode widget interaction protocol: per-frame hot,
//! active and next-hot widget-id tracking that turns raw pointer
//! press/release flags into discrete click signals.

use vstd::prelude::*;

use crate::geometry::Point;
use crate::geometry::inside_rect;
use crate::geometry::inside_rect_spec;

verus! {

/// A widget identifier; small positive integers, with 0 meaning
/// "none".
pub type UiId = i32;

/// Per-session widget interaction state.
#[derive(Debug, Copy, Clone, PartialEq, Eq, Structural)]
pub struct UIContext {
    /// The widget the pointer overlapped in the previous frame.
    pub hot: UiId,
    /// The widget armed by a press-and-hold, if any.
    pub active: UiId,
    /// Staging value for `hot`, written during this frame's widget
    /// evaluation pass.
    pub next_hot: UiId,
}

/// The context at the start of a frame: `hot` is committed from
/// `next_hot` unless some widget is armed, and the staging value is
/// cleared.
pub open spec fn frame_init_spec(ctx: UIContext) -> UIContext {
    UIContext {
        hot: if ctx.active == 0 {
            ctx.next_hot
        } else {
            ctx.hot
        },
        active: ctx.active,
        next_hot: 0,
    }
}

/// Whether evaluating the widget `id` fires a click this frame.
pub open spec fn button_fires(ctx: UIContext, id: UiId, inside: bool, released: bool) -> bool {
    ctx.active == id && released && ctx.hot == id && inside
}

/// The context after evaluating the widget `id` with this frame's
/// pointer-inside, pressed and released flags: a release disarms the
/// widget, a press on the hot widget arms it, and pointer overlap
/// stages the widget as next hot.
pub open spec fn button_step_ctx(
    ctx: UIContext,
    id: UiId,
    inside: bool,
    pressed: bool,
    released: bool,
) -> UIContext {
    let active2 = if ctx.active == id {
        if released {
            0
        } else {
            ctx.active
        }
    } else if ctx.hot == id && pressed {
        id
    } else {
        ctx.active
    };
    UIContext {
        hot: ctx.hot,
        active: active2,
        next_hot: if inside {
            id
        } else {
            ctx.next_hot
        },
    }
}

impl UIContext {
    /// A fresh context with no hot, active or staged widget.
    pub fn new() -> (r: Self)
        ensures
            r == (UIContext { hot: 0, active: 0, next_hot: 0 }),
    {
        UIContext { hot: 0, active: 0, next_hot: 0 }
    }

    /// Disarm whatever widget was active.
    pub fn set_not_active(&mut self)
        ensures
            *final(self) == (UIContext { active: 0, ..*old(self) }),
    {
        self.active = 0;
    }

    /// Arm the widget `id`.
    pub fn set_active(&mut self, id: UiId)
        ensures
            *final(self) == (UIContext { active: id, ..*old(self) }),
    {
        self.active = id;
    }

    /// Stage the widget `id` as next frame's hot widget.
    pub fn set_next_hot(&mut self, id: UiId)
        ensures
            *final(self) == (UIContext { next_hot: id, ..*old(self) }),
    {
        self.next_hot = id;
    }

    /// Forget the hot widget.
    pub fn set_not_hot(&mut self)
        ensures
            *final(self) == (UIContext { hot: 0, ..*old(self) }),
    {
        self.hot = 0;
    }

    /// Frame-start bookkeeping: commit the staged hot widget unless a
    /// widget is armed, and clear the staging value.
    pub fn frame_init(&mut self)
        ensures
            *final(self) == frame_init_spec(*old(self)),
    {
        if self.active == 0 {
            self.hot = self.next_hot;
        }
        self.next_hot = 0;
    }
}

/// Placement and identity of a button without a caption.
#[derive(Debug, Copy, Clone, PartialEq, Eq, Structural)]
pub struct BlankButtonSpec {
    pub x: i32,
    pub y: i32,
    pub w: i32,
    pub h: i32,
    pub id: UiId,
}

/// A captioned button.
#[derive(Debug)]
pub struct ButtonSpec {
    pub base: BlankButtonSpec,
    pub text: String,
}

/// Evaluate the button `spec` against this frame's pointer position
/// and press/release flags, returning whether it was clicked.
///
/// Calling this once per frame swallows multiple clicks on the button:
/// a single release edge fires at most one click, and a caller that
/// needs several must evaluate the button several times.
pub fn do_blank_button(
    context: &mut UIContext,
    spec: &BlankButtonSpec,
    mouse_pos: Point,
    left_mouse_pressed: bool,
    left_mouse_released: bool,
) -> (r: bool)
    requires
        i32::MIN <= spec.x + spec.w <= i32::MAX,
        i32::MIN <= spec.y + spec.h <= i32::MAX,
    ensures
        ({
            let inside = inside_rect_spec(mouse_pos, spec.x, spec.y, spec.w, spec.h);
            &&& r == button_fires(*old(context), spec.id, inside, left_mouse_released)
            &&& *final(context) == button_step_ctx(
                *old(context),
                spec.id,
                inside,
                left_mouse_pressed,
                left_mouse_released,
            )
        }),
{
    let mut result = false;

    let inside = inside_rect(mouse_pos, spec.x, spec.y, spec.w, spec.h);
    let id = spec.id;

    if context.active == id {
        if left_mouse_released {
            result = context.hot == id && inside;
            context.set_not_active();
        }
    } else if context.hot == id {
        if left_mouse_pressed {
            context.set_active(id);
        }
    }

    if inside {
        context.set_next_hot(id);
    }

    result
}

/// Evaluate a captioned button; the caption plays no part in the
/// protocol.
pub fn do_button(
    context: &mut UIContext,
    spec: &ButtonSpec,
    mouse_pos: Point,
    left_mouse_pressed: bool,
    left_mouse_released: bool,
) -> (r: bool)
    requires
        i32::MIN <= spec.base.x + spec.base.w <= i32::MAX,
        i32::MIN <= spec.base.y + spec.base.h <= i32::MAX,
    ensures
        ({
            let inside = inside_rect_spec(
                mouse_pos,
                spec.base.x,
                spec.base.y,
                spec.base.w,
                spec.base.h,
            );
            &&& r == button_fires(*old(context), spec.base.id, inside, left_mouse_released)
            &&& *final(context) == button_step_ctx(
                *old(context),
                spec.base.id,
                inside,
                left_mouse_pressed,
                left_mouse_released,
            )
        }),
{
    do_blank_button(context, &spec.base, mouse_pos, left_mouse_pressed, left_mouse_released)
}

/// Width of a card button, in cells.
pub const CARD_WIDTH: i32 = 32;

/// Height of a card button, in cells.
pub const CARD_HEIGHT: i32 = 8;

/// Width of a piece button, in cells.
pub const PIECE_BUTTON_WIDTH: i32 = 9;

/// Height of a piece button, in cells.
pub const PIECE_BUTTON_HEIGHT: i32 = 5;

/// Evaluate the card button anchored at `(x, y)`, returning whether it
/// was clicked this frame.
pub fn do_card_button(
    context: &mut UIContext,
    x: i32,
    y: i32,
    id: UiId,
    mouse_pos: Point,
    left_mouse_pressed: bool,
    left_mouse_released: bool,
) -> (r: bool)
    requires
        i32::MIN <= x + CARD_WIDTH <= i32::MAX,
        i32::MIN <= y + CARD_HEIGHT <= i32::MAX,
    ensures
        ({
            let inside = inside_rect_spec(mouse_pos, x, y, 32, 8);
            &&& r == button_fires(*old(context), id, inside, left_mouse_released)
            &&& *final(context) == button_step_ctx(
                *old(context),
                id,
                inside,
                left_mouse_pressed,
                left_mouse_released,
            )
        }),
{
    do_blank_button(
        context,
        &BlankButtonSpec { x, y, w: CARD_WIDTH, h: CARD_HEIGHT, id },
        mouse_pos,
        left_mouse_pressed,
        left_mouse_released,
    )
}

/// Evaluate the button over the piece at board cell `(x, y)`,
/// returning whether it was clicked this frame.
pub fn do_piece_button(
    context: &mut UIContext,
    x: i32,
    y: i32,
    id: UiId,
    mouse_pos: Point,
    left_mouse_pressed: bool,
    left_mouse_released: bool,
) -> (r: bool)
    requires
        0 <= x < 5,
        0 <= y < 5,
    ensures
        ({
            let inside = inside_rect_spec(
                mouse_pos,
                (40 + x * 8 - 4) as i32,
                (12 + y * 4 - 2) as i32,
                9,
                5,
            );
            &&& r == button_fires(*old(context), id, inside, left_mouse_released)
            &&& *final(context) == button_step_ctx(
                *old(context),
                id,
                inside,
                left_mouse_pressed,
                left_mouse_released,
            )
        }),
{
    let bx = crate::geometry::piece_x(x) - 4;
    let by = crate::geometry::piece_y(y) - 2;
    do_blank_button(
        context,
        &BlankButtonSpec { x: bx, y: by, w: PIECE_BUTTON_WIDTH, h: PIECE_BUTTON_HEIGHT, id },
        mouse_pos,
        left_mouse_pressed,
        left_mouse_released,
    )
}

/// Click law of one press-then-release cycle: starting at a frame
/// boundary where no widget is armed and the pointer has come to rest
/// on widget `id`, pressing in one frame and releasing in the next
/// fires exactly one click when the pointer is still inside on
/// release, and none when it is outside; the widget is disarmed either
/// way.
pub proof fn lemma_press_release_cycle(ctx: UIContext, id: UiId, inside_on_release: bool)
    requires
        id != 0,
        ctx.active == 0,
        ctx.next_hot == id,
    ensures
        ({
            let c1 = frame_init_spec(ctx);
            let c2 = button_step_ctx(c1, id, true, true, false);
            let c3 = frame_init_spec(c2);
            let c4 = button_step_ctx(c3, id, inside_on_release, false, true);
            &&& !button_fires(c1, id, true, false)
            &&& button_fires(c3, id, inside_on_release, true) == inside_on_release
            &&& c4.active == 0
        }),
{
}

/// Click-swallowing law: once a widget's click has fired on a release
/// edge, evaluating the same widget again in the same frame cannot
/// fire a second click.
pub proof fn lemma_click_swallowed(ctx: UIContext, id: UiId, inside: bool, second_inside: bool)
    requires
        id != 0,
        button_fires(ctx, id, inside, true),
    ensures
        !button_fires(button_step_ctx(ctx, id, inside, false, true), id, second_inside, true),
{
}

} // verus!
