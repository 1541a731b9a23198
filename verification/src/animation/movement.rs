//! The animated movement of a window.
//!
//! The window itself moves, or it is cloaked while a ghost, a thumbnail of it, moves in
//! its place.

use vstd::prelude::*;

use crate::animation::settings::AnimationPrefix;
use crate::animation::settings::AnimationStyle;
use crate::geometry::Rect;
use crate::plan::Call;
use crate::plan::Plan;
use crate::plan::Signal;
use crate::plan::Step;
use crate::plan::StepView;
use crate::text;

verus! {

/// In how many steps a ghost fades out.
pub const FADE_STEPS: u32 = 8;

#[derive(Clone, Copy, Debug, PartialEq, Eq, Structural)]
pub struct MovementRenderDispatcher {
    pub hwnd: isize,
    pub start_rect: Rect,
    pub target_rect: Rect,
    pub top: bool,
    pub style: AnimationStyle,
    /// A ghost moves in the place of the window.
    pub has_ghost: bool,
    /// The window is cloaked.
    pub cloaked: bool,
    /// Where the window or the ghost was drawn last.
    pub last_animated_rect: Rect,
    /// The window is at its target already.
    pub pre_painted: bool,
}

/// What an animation does with its ghost when it ends.
#[derive(Clone, Copy, Debug, PartialEq, Eq, Structural)]
pub struct GhostEnd {
    /// Draw it here before it fades.
    pub final_rect: Option<Rect>,
    /// Let it fade out.
    pub fades: bool,
    /// Take it away.
    pub disposes: bool,
}

/// What follows for the other parts of the window manager when the last movement ends:
/// the cursor follows the window in the foreground to where it was sent, and stackbars and
/// dimming come back.
pub open spec fn final_steps(
    hwnd: isize,
    sent_to: Rect,
    in_progress: int,
    foreground: Option<isize>,
) -> Seq<StepView> {
    let focus = if (match foreground {
        Some(foreground) => foreground,
        None => 0,
    }) == hwnd {
        seq![StepView::Send(Signal::FollowFocus(hwnd, Some(sent_to)))]
    } else {
        Seq::empty()
    };
    if in_progress == 0 {
        focus + seq![
            StepView::Send(Signal::EnableStackbars),
            StepView::Send(Signal::UpdateStackbars),
            StepView::Send(Signal::UpdateTransparency),
        ]
    } else {
        Seq::empty()
    }
}

/// Whether a class is that of a Chromium window, which stops painting while it is
/// cloaked.
pub open spec fn is_chromium(class: Option<String>) -> bool {
    class matches Some(class) && "Chrome_WidgetWin_"@.is_prefix_of(class@)
}

impl MovementRenderDispatcher {
    /// Whether the size of the window changes.
    pub open spec fn resizes(self) -> bool {
        self.start_rect.right != self.target_rect.right || self.start_rect.bottom
            != self.target_rect.bottom
    }

    /// Whether the window is moved to its target before the ghost is made, so that the
    /// ghost shows it as it will look.
    pub open spec fn prepaints(self, class: Option<String>) -> bool {
        !is_chromium(class) && !self.resizes()
    }

    /// The dispatcher without its ghost.
    pub open spec fn without_ghost(self) -> MovementRenderDispatcher {
        MovementRenderDispatcher { has_ghost: false, ..self }
    }

    /// The dispatcher with its window uncloaked and without its ghost.
    pub open spec fn ended(self) -> MovementRenderDispatcher {
        MovementRenderDispatcher { has_ghost: false, cloaked: false, ..self }
    }

    pub fn new(
        hwnd: isize,
        start_rect: Rect,
        target_rect: Rect,
        top: bool,
        style: AnimationStyle,
    ) -> (r: Self)
        ensures
            r == (MovementRenderDispatcher {
                hwnd,
                start_rect,
                target_rect,
                top,
                style,
                has_ghost: false,
                cloaked: false,
                last_animated_rect: start_rect,
                pre_painted: false,
            }),
    {
        MovementRenderDispatcher {
            hwnd,
            start_rect,
            target_rect,
            top,
            style,
            has_ghost: false,
            cloaked: false,
            last_animated_rect: start_rect,
            pre_painted: false,
        }
    }

    /// The kind of animation.
    pub fn prefix() -> (r: AnimationPrefix)
        ensures
            r == AnimationPrefix::Movement,
    {
        AnimationPrefix::Movement
    }

    fn size_changes_during_animation(&self) -> (r: bool)
        ensures
            r == self.resizes(),
    {
        !self.start_rect.is_same_size_as(&self.target_rect)
    }

    /// Where a frame is drawn, from the rectangle between start and target at that time. A
    /// window whose size changes keeps the size with which it started.
    pub fn animated_rect(&self, between: Rect) -> (r: Rect)
        ensures
            r == (if self.resizes() {
                Rect {
                    left: between.left,
                    top: between.top,
                    right: self.start_rect.right,
                    bottom: self.start_rect.bottom,
                }
            } else {
                between
            }),
    {
        if self.size_changes_during_animation() {
            Rect {
                left: between.left,
                top: between.top,
                right: self.start_rect.right,
                bottom: self.start_rect.bottom,
            }
        } else {
            between
        }
    }

    /// Prepare the first frame. Where a ghost is used, the window is cloaked, and is moved
    /// to its target where the result says so.
    pub fn pre_render(&mut self, use_ghost: bool, class: Option<String>, plan: &mut Plan) -> (r: Option<
        Rect,
    >)
        ensures
            *final(self) == (if use_ghost {
                MovementRenderDispatcher { cloaked: true, ..*old(self) }
            } else {
                *old(self)
            }),
            final(plan)@ == (if use_ghost {
                old(plan)@.push(StepView::Send(Signal::DisableStackbars)).push(
                    StepView::Send(Signal::UpdateStackbars),
                ).push(StepView::Do(Call::CloakWindow(old(self).hwnd)))
            } else {
                old(plan)@.push(StepView::Send(Signal::DisableStackbars)).push(
                    StepView::Send(Signal::UpdateStackbars),
                )
            }),
            r == (if use_ghost && old(self).prepaints(class) {
                Some(old(self).target_rect)
            } else {
                None
            }),
    {
        plan.send(Signal::DisableStackbars);
        plan.send(Signal::UpdateStackbars);
        if !use_ghost {
            return None;
        }
        plan.call(Call::CloakWindow(self.hwnd));
        self.cloaked = true;
        let is_chromium = match &class {
            Some(class) => text::starts_with(class.as_str(), "Chrome_WidgetWin_"),
            None => false,
        };
        if !is_chromium && !self.size_changes_during_animation() {
            Some(self.target_rect)
        } else {
            None
        }
    }

    /// Note whether the window could be moved to its target before the ghost was made.
    pub fn note_prepainted(&mut self, positioned: bool)
        ensures
            *final(self) == (if positioned {
                MovementRenderDispatcher { pre_painted: true, ..*old(self) }
            } else {
                *old(self)
            }),
    {
        if positioned {
            self.pre_painted = true;
        }
    }

    /// Note whether the ghost could be made. Where it could not, the window moves itself.
    pub fn note_ghost(&mut self, created: bool, plan: &mut Plan)
        ensures
            *final(self) == (if created {
                MovementRenderDispatcher { has_ghost: true, ..*old(self) }
            } else {
                MovementRenderDispatcher { cloaked: false, ..*old(self) }
            }),
            final(plan)@ == (if created {
                old(plan)@
            } else {
                old(plan)@.push(StepView::Do(Call::UncloakWindow(old(self).hwnd)))
            }),
    {
        if created {
            self.has_ghost = true;
        } else {
            plan.call(Call::UncloakWindow(self.hwnd));
            self.cloaked = false;
        }
    }

    /// Draw a frame. Where a ghost is used, the result says where it and the border go;
    /// otherwise the window moves.
    pub fn render(&mut self, between: Rect, plan: &mut Plan) -> (r: Option<Rect>)
        ensures
            ({
                let logical = if old(self).resizes() {
                    Rect {
                        left: between.left,
                        top: between.top,
                        right: old(self).start_rect.right,
                        bottom: old(self).start_rect.bottom,
                    }
                } else {
                    between
                };
                &&& *final(self) == (MovementRenderDispatcher {
                    last_animated_rect: logical,
                    ..*old(self)
                })
                &&& r == (if old(self).has_ghost {
                    Some(logical)
                } else {
                    None
                })
                &&& final(plan)@ == (if old(self).has_ghost {
                    old(plan)@
                } else {
                    old(plan)@.push(
                        StepView::Do(
                            Call::PositionWindowAsync {
                                hwnd: old(self).hwnd,
                                rect: logical,
                                top: false,
                                send_changing: true,
                            },
                        ),
                    ).push(StepView::Do(Call::InvalidateRect(old(self).hwnd)))
                })
            }),
    {
        let logical = self.animated_rect(between);
        self.last_animated_rect = logical;
        if self.has_ghost {
            Some(logical)
        } else {
            plan.call(
                Call::PositionWindowAsync {
                    hwnd: self.hwnd,
                    rect: logical,
                    top: false,
                    send_changing: true,
                },
            );
            plan.call(Call::InvalidateRect(self.hwnd));
            None
        }
    }

    /// End after the last frame. One that has lost the slot leaves the window alone.
    pub fn post_render(&mut self, is_current: bool, plan: &mut Plan) -> (r: GhostEnd)
        ensures
            is_current ==> {
                &&& *final(self) == old(self).ended()
                &&& final(plan)@ == old(plan)@ + old(self).end_steps()
                &&& r == (GhostEnd {
                    final_rect: if old(self).has_ghost && old(self).resizes() {
                        Some(old(self).target_rect)
                    } else {
                        None
                    },
                    fades: old(self).has_ghost,
                    disposes: old(self).has_ghost,
                })
            },
            !is_current ==> {
                &&& *final(self) == old(self).without_ghost()
                &&& final(plan)@ == old(plan)@
                &&& r == (GhostEnd {
                    final_rect: None,
                    fades: false,
                    disposes: old(self).has_ghost,
                })
            },
    {
        let had_ghost = self.has_ghost;
        self.has_ghost = false;
        if !is_current {
            return GhostEnd { final_rect: None, fades: false, disposes: had_ghost };
        }
        if !self.pre_painted {
            plan.call(
                Call::PositionWindowAsync {
                    hwnd: self.hwnd,
                    rect: self.target_rect,
                    top: self.top,
                    send_changing: false,
                },
            );
        }
        if self.cloaked {
            self.cloaked = false;
            plan.call(Call::UncloakWindow(self.hwnd));
        }
        assert(plan@ =~= old(plan)@ + old(self).end_steps());
        GhostEnd {
            final_rect: if had_ghost && self.size_changes_during_animation() {
                Some(self.target_rect)
            } else {
                None
            },
            fades: had_ghost,
            disposes: had_ghost,
        }
    }

    /// The calls that leave the window at its target and visible.
    pub open spec fn end_steps(self) -> Seq<StepView> {
        let position = if self.pre_painted {
            Seq::empty()
        } else {
            seq![
                StepView::Do(
                    Call::PositionWindowAsync {
                        hwnd: self.hwnd,
                        rect: self.target_rect,
                        top: self.top,
                        send_changing: false,
                    },
                ),
            ]
        };
        if self.cloaked {
            position.push(StepView::Do(Call::UncloakWindow(self.hwnd)))
        } else {
            position
        }
    }

    /// The calls that leave the window where it was drawn last and visible.
    pub open spec fn cancel_steps(self) -> Seq<StepView> {
        let position = seq![
            StepView::Try(
                Call::PositionWindowAsync {
                    hwnd: self.hwnd,
                    rect: self.last_animated_rect,
                    top: false,
                    send_changing: false,
                },
                None,
            ),
        ];
        if self.cloaked {
            position.push(StepView::Do(Call::UncloakWindow(self.hwnd)))
        } else {
            position
        }
    }

    /// End before the last frame, while the slot is still the own one. The window goes to
    /// where it was drawn last, so that the next animation starts from there. Tells whether
    /// a ghost is to be taken away.
    pub fn cleanup_on_cancel(&mut self, plan: &mut Plan) -> (r: bool)
        ensures
            *final(self) == old(self).ended(),
            final(plan)@ == old(plan)@ + old(self).cancel_steps(),
            r == old(self).has_ghost,
    {
        plan.push(
            Step::Try(
                Call::PositionWindowAsync {
                    hwnd: self.hwnd,
                    rect: self.last_animated_rect,
                    top: false,
                    send_changing: false,
                },
                None,
            ),
        );
        if self.cloaked {
            self.cloaked = false;
            plan.call(Call::UncloakWindow(self.hwnd));
        }
        let had_ghost = self.has_ghost;
        self.has_ghost = false;
        assert(plan@ =~= old(plan)@ + old(self).cancel_steps());
        had_ghost
    }

    /// End after the slot has been taken away. Only the own ghost is taken away, where the
    /// result says that there is one.
    pub fn on_superseded(&mut self) -> (r: bool)
        ensures
            *final(self) == old(self).without_ghost(),
            r == old(self).has_ghost,
    {
        let had_ghost = self.has_ghost;
        self.has_ghost = false;
        had_ghost
    }

    /// Tell the other parts of the window manager of the end, where no movement is in
    /// progress any more.
    pub fn finalise_managers(
        &self,
        sent_to: Rect,
        in_progress: usize,
        foreground: Option<isize>,
        plan: &mut Plan,
    )
        ensures
            final(plan)@ == old(plan)@ + final_steps(
                self.hwnd,
                sent_to,
                in_progress as int,
                foreground,
            ),
    {
        if in_progress == 0 {
            let foreground: isize = match foreground {
                Some(foreground) => foreground,
                None => 0,
            };
            if foreground == self.hwnd {
                plan.send(Signal::FollowFocus(self.hwnd, Some(sent_to)));
            }
            plan.send(Signal::EnableStackbars);
            plan.send(Signal::UpdateStackbars);
            plan.send(Signal::UpdateTransparency);
        }
        assert(plan@ =~= old(plan)@ + final_steps(
            self.hwnd,
            sent_to,
            in_progress as int,
            foreground,
        ));
    }
}

/// The opacity of a ghost that fades out, from the first step to the last. It stays high
/// for most of the steps and drops at the end: one minus the cube of how far it has come,
/// rounded.
pub fn fade_opacity(step: u32) -> (r: u8)
    requires
        step <= FADE_STEPS,
    ensures
        r == ((512 - step * step * step) * 255 * 2 + 512) / 1024,
{
    assert(step * step * step <= 512) by (nonlinear_arith)
        requires
            step <= 8,
    ;
    assert(step * step <= 64) by (nonlinear_arith)
        requires
            step <= 8,
    ;
    let cube: u32 = step * step * step;
    (((512 - cube) * 255 * 2 + 512) / 1024) as u8
}

/// A window is never left cloaked where its animation ends while it holds the slot.
pub proof fn windows_do_not_stay_cloaked(dispatcher: MovementRenderDispatcher)
    ensures
        !dispatcher.ended().cloaked,
        dispatcher.cloaked ==> dispatcher.end_steps().last() == StepView::Do(
            Call::UncloakWindow(dispatcher.hwnd),
        ),
        dispatcher.cloaked ==> dispatcher.cancel_steps().last() == StepView::Do(
            Call::UncloakWindow(dispatcher.hwnd),
        ),
{
}

} // verus!
