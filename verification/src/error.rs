//! Why an operation could not be carried out.

use vstd::prelude::*;

verus! {

#[derive(Clone, Copy, Debug, PartialEq, Eq, Structural)]
pub enum Error {
    /// The window system did not answer.
    WindowSystem,
    /// A coordinate or a style does not fit the numbers of the window system.
    OutOfRange,
    /// The aspect ratio of floating windows has no height.
    NoAspectRatio,
    /// There is no monitor.
    NoMonitor,
    /// There is no monitor at the index.
    NoMonitorAt(usize),
    /// There is no workspace.
    NoWorkspace,
    /// There is no workspace at the index.
    NoWorkspaceAt(usize),
    /// There is no container.
    NoContainer,
    /// There is no window.
    NoWindow,
    /// There is no index to which the monocle container could return.
    NoMonocleRestoreIndex,
    /// A natively maximized window cannot move to another monitor or workspace.
    MaximizedWindow,
    /// The cursor is not on any monitor.
    NoMonitorAtCursor,
}

} // verus!
