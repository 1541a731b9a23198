//! How lists with a focus change, and with them containers and workspaces.

use vstd::prelude::*;

use crate::desktop::DesktopView;
use crate::geometry::DefaultLayout;
use crate::geometry::Layout;
use crate::geometry::OperationDirection;
use crate::laws::dimming;
use crate::ring::RingView;
use crate::transparency_manager;
use crate::transparency_manager::Job;
use crate::workspace::WorkspaceView;

verus! {

/// An element that is added gets the focus, and the others stay in their order around it. Where
/// one is taken out, the others stay, and the focus goes to the position before its own.
pub proof fn elements_stay_in_their_order<T>(ring: RingView<T>, idx: int, element: T, i: int)
    requires
        0 <= idx <= ring.elements.len() < usize::MAX,
        0 <= i < ring.elements.len(),
    ensures
        ring.inserted(idx, element).focused == idx,
        ring.inserted(idx, element).focused_element() == Some(element),
        ring.inserted(idx, element).elements[if i < idx {
            i
        } else {
            i + 1
        }] == ring.elements[i],
        idx < ring.elements.len() ==> ring.removed(idx).elements.len() == ring.elements.len() - 1,
        idx < ring.elements.len() && i < idx ==> ring.removed(idx).elements[i] == ring.elements[i],
        idx < ring.elements.len() && i > idx ==> ring.removed(idx).elements[i - 1]
            == ring.elements[i],
        ring.focused > 0 ==> ring.removed(idx).focused == ring.focused - 1,
        ring.focused == 0 ==> ring.removed(idx).focused == 0,
{
}

/// The window that a stack shows gets a container of its own right behind the stack, which keeps
/// the others, and has the focus there.
pub proof fn stacks_are_split(workspace: WorkspaceView)
    requires
        workspace.containers.focused < workspace.containers.elements.len() < usize::MAX,
        ({
            let stack = workspace.containers.elements[workspace.containers.focused as int].windows;
            stack.focused < stack.elements.len()
        }),
    ensures
        ({
            let focused = workspace.containers.focused as int;
            let stack = workspace.containers.elements[focused].windows;
            let shown = stack.elements[stack.focused as int];
            let after = workspace.splitting_stack().containers;
            &&& after.elements.len() == workspace.containers.elements.len() + 1
            &&& after.focused == focused + 1
            &&& after.elements[focused + 1].windows.elements == seq![shown]
            &&& dimming::shows(after.elements[focused + 1], shown.hwnd)
            &&& after.elements[focused].windows.elements == stack.elements.remove(
                stack.focused as int,
            )
            &&& forall|i: int|
                0 <= i < focused ==> #[trigger] after.elements[i]
                    == workspace.containers.elements[i]
            &&& workspace.splitting_stack().floating_windows == workspace.floating_windows
        }),
{
}

/// The monocle container goes back to the index from which it came, or to the back where there
/// are fewer containers by now, and has the focus there.
pub proof fn monocle_containers_go_back(workspace: WorkspaceView)
    requires
        workspace.monocle_container is Some,
        workspace.monocle_container_restore_idx is Some,
        workspace.containers.elements.len() < usize::MAX,
    ensures
        ({
            let before = workspace.containers.elements;
            let after = workspace.returning_monocle();
            let at = after.containers.focused as int;
            let from = workspace.monocle_container_restore_idx->0 as int;
            &&& after.monocle_container is None
            &&& after.monocle_container_restore_idx is None
            &&& from <= before.len() ==> at == from
            &&& from > before.len() ==> at == before.len()
            &&& after.containers.elements == before.insert(at, workspace.monocle_container->0)
            &&& after.floating_windows == workspace.floating_windows
            &&& after.layer == workspace.layer
        }),
{
}

/// A container that moves to the left comes in at the right end of most layouts, and one that
/// moves to the right at the left end. One that moves up or down comes in where the focus is, and
/// one from nowhere at the back.
pub proof fn containers_come_in_from_their_side(workspace: WorkspaceView)
    ensures
        ({
            let len = workspace.containers.elements.len() as int;
            let focused = workspace.containers.focused as int;
            let left = workspace.entry(Some(OperationDirection::Left));
            let right = workspace.entry(Some(OperationDirection::Right));
            let up = workspace.entry(Some(OperationDirection::Up));
            let is_mirrored = workspace.layout == Layout::Default(
                DefaultLayout::RightMainVerticalStack,
            );
            let is_ultrawide = workspace.layout == Layout::Default(
                DefaultLayout::UltrawideVerticalStack,
            );
            &&& workspace.entry(None) == len
            &&& 0 <= left <= len && 0 <= right <= len && 0 <= up <= len
            &&& !is_mirrored && !is_ultrawide ==> left == len && right == 0
            &&& is_mirrored ==> left == 0 && right == (if len > 0 {
                1int
            } else {
                0
            })
            &&& is_ultrawide && len == 1 ==> left == 0 && right == 1
            &&& is_ultrawide && len != 1 ==> left == len && right == (if len > 1 {
                1int
            } else {
                0
            })
            &&& focused <= len ==> up == focused
            &&& workspace.entry(Some(OperationDirection::Down)) == up
        }),
{
}

/// A window is restored where it is there and answers, or where all are restored, and dimmed
/// where it is there, answers and can be seen.
pub proof fn windows_are_painted_where_they_can_be(hwnd: isize, restores_all: bool, d: DesktopView)
    ensures
        ({
            let facts = d.at(hwnd);
            let answers = facts.is_window && facts.is_responding;
            &&& transparency_manager::doable(Job::MakeOpaque(hwnd), restores_all, d) == (answers
                || (facts.is_window && restores_all))
            &&& transparency_manager::doable(Job::MakeTransparent(hwnd), restores_all, d) == (
            answers && facts.is_visible && !facts.is_minimized)
        }),
{
}

/// Every window of a list has its own job, in the order of the list.
pub proof fn windows_have_their_jobs(hwnds: Seq<isize>, i: int)
    requires
        0 <= i < hwnds.len(),
    ensures
        transparency_manager::opaque_jobs(hwnds).len() == hwnds.len(),
        transparency_manager::opaque_jobs(hwnds)[i] == Job::MakeOpaque(hwnds[i]),
        transparency_manager::transparent_jobs(hwnds).len() == hwnds.len(),
        transparency_manager::transparent_jobs(hwnds)[i] == Job::MakeTransparent(hwnds[i]),
{
}

} // verus!
