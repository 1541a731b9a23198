//! Which animations run, for how long and along which curve.

use vstd::prelude::*;

verus! {

/// An easing curve, known to the renderer by its number.
#[derive(Clone, Copy, Debug, PartialEq, Eq, Structural)]
pub struct AnimationStyle {
    pub curve: u32,
}

/// What is animated.
#[derive(Clone, Copy, Debug, PartialEq, Eq, Structural)]
pub enum AnimationPrefix {
    Movement,
    Transparency,
}

/// The settings of one kind of animation. What is not set falls back to the settings
/// for all animations.
#[derive(Clone, Copy, Debug, PartialEq, Eq, Structural)]
pub struct AnimationOverrides {
    pub enabled: Option<bool>,
    pub duration_ms: Option<u64>,
    pub style: Option<AnimationStyle>,
}

#[derive(Clone, Copy, Debug, PartialEq, Eq, Structural)]
pub struct AnimationSettings {
    pub enabled: bool,
    pub duration_ms: u64,
    pub style: AnimationStyle,
    pub fps: u64,
    pub movement: AnimationOverrides,
    pub transparency: AnimationOverrides,
    /// Move a thumbnail of the window in the place of the window.
    pub ghost_movement: bool,
}

impl AnimationSettings {
    pub open spec fn overrides_of(self, prefix: AnimationPrefix) -> AnimationOverrides {
        match prefix {
            AnimationPrefix::Movement => self.movement,
            AnimationPrefix::Transparency => self.transparency,
        }
    }

    /// A kind of animation runs when it is enabled itself or all animations are.
    pub open spec fn enables(self, prefix: AnimationPrefix) -> bool {
        self.overrides_of(prefix).enabled == Some(true) || self.enabled
    }

    pub open spec fn duration_of(self, prefix: AnimationPrefix) -> u64 {
        match self.overrides_of(prefix).duration_ms {
            Some(duration_ms) => duration_ms,
            None => self.duration_ms,
        }
    }

    pub open spec fn style_of(self, prefix: AnimationPrefix) -> AnimationStyle {
        match self.overrides_of(prefix).style {
            Some(style) => style,
            None => self.style,
        }
    }

    fn overrides(&self, prefix: AnimationPrefix) -> (r: AnimationOverrides)
        ensures
            r == self.overrides_of(prefix),
    {
        match prefix {
            AnimationPrefix::Movement => self.movement,
            AnimationPrefix::Transparency => self.transparency,
        }
    }

    pub fn is_enabled(&self, prefix: AnimationPrefix) -> (r: bool)
        ensures
            r == self.enables(prefix),
    {
        match self.overrides(prefix).enabled {
            Some(true) => true,
            _ => self.enabled,
        }
    }

    pub fn duration(&self, prefix: AnimationPrefix) -> (r: u64)
        ensures
            r == self.duration_of(prefix),
    {
        match self.overrides(prefix).duration_ms {
            Some(duration_ms) => duration_ms,
            None => self.duration_ms,
        }
    }

    pub fn curve(&self, prefix: AnimationPrefix) -> (r: AnimationStyle)
        ensures
            r == self.style_of(prefix),
    {
        match self.overrides(prefix).style {
            Some(style) => style,
            None => self.style,
        }
    }
}

} // verus!
