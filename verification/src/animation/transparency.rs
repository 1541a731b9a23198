//! The animated transparency of a window.

use vstd::prelude::*;

use crate::animation::settings::AnimationPrefix;
use crate::animation::settings::AnimationStyle;
use crate::desktop::Desktop;
use crate::desktop::DesktopView;
use crate::error::Error;
use crate::plan::Call;
use crate::plan::Plan;
use crate::plan::StepView;
use crate::styles;
use crate::window;
use crate::window::Window;

verus! {

#[derive(Clone, Copy, Debug, PartialEq, Eq, Structural)]
pub struct TransparencyRenderDispatcher {
    pub hwnd: isize,
    pub start_opacity: u8,
    pub target_opacity: u8,
    pub style: AnimationStyle,
    pub is_opaque: bool,
}

/// The call that makes a window layered or not, where its style is known.
pub open spec fn layering(hwnd: isize, layered: bool, d: DesktopView) -> Result<StepView, Error> {
    match window::extended_style(d.at(hwnd).ex_style) {
        None => Err(window::style_error(d.at(hwnd).ex_style)),
        Some(bits) => {
            let changed = if layered {
                bits | styles::LAYERED
            } else {
                bits & !styles::LAYERED
            };
            if window::style_fits(changed) {
                Ok(StepView::Do(Call::UpdateExStyle(hwnd, changed)))
            } else {
                Err(Error::OutOfRange)
            }
        },
    }
}

impl TransparencyRenderDispatcher {
    pub fn new(
        hwnd: isize,
        is_opaque: bool,
        start_opacity: u8,
        target_opacity: u8,
        style: AnimationStyle,
    ) -> (r: Self)
        ensures
            r == (TransparencyRenderDispatcher {
                hwnd,
                start_opacity,
                target_opacity,
                style,
                is_opaque,
            }),
    {
        TransparencyRenderDispatcher { hwnd, start_opacity, target_opacity, style, is_opaque }
    }

    /// The kind of animation.
    pub fn prefix() -> (r: AnimationPrefix)
        ensures
            r == AnimationPrefix::Transparency,
    {
        AnimationPrefix::Transparency
    }

    fn set_layered(&self, layered: bool, desktop: &Desktop, plan: &mut Plan) -> (r: Result<
        (),
        Error,
    >)
        ensures
            match layering(self.hwnd, layered, desktop@) {
                Ok(step) => r is Ok && final(plan)@ == old(plan)@.push(step),
                Err(error) => r == Err::<(), Error>(error) && final(plan)@ == old(plan)@,
            },
    {
        let window = Window { hwnd: self.hwnd };
        let mut ex_style = match window.ex_style(desktop) {
            Ok(ex_style) => ex_style,
            Err(error) => {
                return Err(error);
            },
        };
        if layered {
            ex_style.insert(styles::LAYERED);
        } else {
            ex_style.remove(styles::LAYERED);
        }
        window.update_ex_style(&ex_style, plan)
    }

    /// Prepare the first frame: a window that becomes transparent is layered.
    pub fn pre_render(&self, desktop: &Desktop, plan: &mut Plan) -> (r: Result<(), Error>)
        ensures
            if self.is_opaque {
                r is Ok && final(plan)@ == old(plan)@
            } else {
                match layering(self.hwnd, true, desktop@) {
                    Ok(step) => r is Ok && final(plan)@ == old(plan)@.push(step),
                    Err(error) => r == Err::<(), Error>(error) && final(plan)@ == old(plan)@,
                }
            },
    {
        if self.is_opaque {
            Ok(())
        } else {
            self.set_layered(true, desktop, plan)
        }
    }

    /// Draw a frame with the opacity between start and target at that time.
    pub fn render(&self, between: u8, plan: &mut Plan)
        ensures
            final(plan)@ == old(plan)@.push(StepView::Do(Call::SetTransparent(self.hwnd, between))),
    {
        plan.call(Call::SetTransparent(self.hwnd, between));
    }

    /// End after the last frame: a window that has become opaque is not layered any more.
    /// One that has lost the slot leaves the window alone.
    pub fn post_render(&self, is_current: bool, desktop: &Desktop, plan: &mut Plan) -> (r: Result<
        (),
        Error,
    >)
        ensures
            if !is_current || !self.is_opaque {
                r is Ok && final(plan)@ == old(plan)@
            } else {
                match layering(self.hwnd, false, desktop@) {
                    Ok(step) => r is Ok && final(plan)@ == old(plan)@.push(step),
                    Err(error) => r == Err::<(), Error>(error) && final(plan)@ == old(plan)@,
                }
            },
    {
        if is_current && self.is_opaque {
            self.set_layered(false, desktop, plan)
        } else {
            Ok(())
        }
    }
}

} // verus!
