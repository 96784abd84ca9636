//! Desktop-shell protocol: shell status, applications, windows and window
//! actions, notifications, workspaces, opening paths and forwarded input.
use vstd::prelude::*;
use vstd::string::StringSliceAdditionalSpecFns;

use crate::abi::{DesktopAppId, DesktopInputAction, DesktopStatus, DesktopTag, DesktopWindowAction, DesktopWorkspaceAction};
use crate::decode::{
    desktop_app_id_from_word, desktop_app_id_of, desktop_drag_mode_from_word, desktop_status_error,
    desktop_status_from_word, i32_pair_of, unpack_i32_pair, unpack_u32_pair,
};
use crate::error::{Error, Result};
use crate::message::{
    has_shape, is_request, message_bytes, packed_words, reply_shape, reply_wf, request1, request2,
    request4, request_with_bytes, sends, unpack_from, unpack_outcome, Exchange, PageCursor, RawMessage,
};
use crate::types::{DesktopAppInfo, DesktopNotificationInfo, DesktopShellStatusInfo, DesktopWindowInfo, DesktopWorkspaceInfo};

verus! {

/// What a desktop reply decodes to when its body is `value`.
pub open spec fn desktop_result<T>(r: RawMessage, tag: u32, min: u32, value: T) -> Result<T> {
    if !reply_shape(r, tag, min) {
        Err(Error::InvalidArgument)
    } else if desktop_status_from_word(r.words[0]) == DesktopStatus::Success {
        Ok(value)
    } else {
        Err(desktop_status_error(desktop_status_from_word(r.words[0])))
    }
}

fn desktop_check(r: &RawMessage, tag: u32, min: u32) -> (res: Result<()>)
    ensures
        res == desktop_result(*r, tag, min, ()),
{
    if !has_shape(r, tag, min) {
        return Err(Error::InvalidArgument);
    }
    let status = desktop_status_from_word(r.words[0]);
    if status == DesktopStatus::Success {
        Ok(())
    } else {
        Err(desktop_status_error(status))
    }
}

/// The shell status a status reply carries. Words 4 to 9 are read whatever
/// the word count says (the envelope always holds them): focused surface,
/// drag mode, pointer position (two halves of word 6), active workspace,
/// workspace count and notification count.
pub open spec fn shell_status_of(r: RawMessage) -> DesktopShellStatusInfo {
    DesktopShellStatusInfo {
        session_id: r.words[1] as u32,
        focused_app: desktop_app_id_of(r.words[2]),
        running_apps: r.words[3] as u32,
        focused_surface: r.words[4] as u32,
        drag_mode: desktop_drag_mode_from_word(r.words[5]),
        pointer_x: i32_pair_of(r.words[6]).0,
        pointer_y: i32_pair_of(r.words[6]).1,
        active_workspace: r.words[7] as u32,
        workspace_count: r.words[8] as u32,
        notification_count: r.words[9] as u32,
    }
}

/// Step of reading the desktop shell's status.
pub fn desktop_status(reply: Option<&RawMessage>) -> (step: Exchange<DesktopShellStatusInfo>)
    ensures
        reply is None ==> sends(step, DesktopTag::StatusRequest.spec_code(), Seq::empty()),
        reply matches Some(r) ==> step == Exchange::Done(desktop_result(*r, DesktopTag::StatusReply.spec_code(), 4, shell_status_of(*r))),
{
    match reply {
        None => Exchange::Send(RawMessage::empty(DesktopTag::StatusRequest.code())),
        Some(r) => {
            match desktop_check(r, DesktopTag::StatusReply.code(), 4) {
                Ok(()) => {},
                Err(e) => return Exchange::Done(Err(e)),
            }
            let (px, py) = unpack_i32_pair(r.words[6]);
            Exchange::Done(Ok(DesktopShellStatusInfo {
                session_id: r.words[1] as u32,
                focused_app: desktop_app_id_from_word(r.words[2]),
                running_apps: r.words[3] as u32,
                focused_surface: r.words[4] as u32,
                drag_mode: desktop_drag_mode_from_word(r.words[5]),
                pointer_x: px,
                pointer_y: py,
                active_workspace: r.words[7] as u32,
                workspace_count: r.words[8] as u32,
                notification_count: r.words[9] as u32,
            }))
        },
    }
}

/// Application entry `i` of a listing page names a known application.
pub open spec fn app_ok(r: RawMessage, i: int) -> bool {
    desktop_app_id_of(r.words[3 + 4 * i]) is Some
}

/// Every application entry up to and including `i` names a known
/// application.
pub open spec fn apps_ok_upto(r: RawMessage, i: int) -> bool {
    forall|j: int| 0 <= j <= i ==> #[trigger] app_ok(r, j)
}

/// The application record carried in the four words at `b`.
pub open spec fn app_at(r: RawMessage, b: int) -> DesktopAppInfo {
    DesktopAppInfo {
        app_id: desktop_app_id_of(r.words[b]).unwrap(),
        running: r.words[b + 1] != 0,
        focused: r.words[b + 2] != 0,
        surface_id: r.words[b + 3] as u32,
    }
}

/// The entries an application page carries, when they fit after `filled`
/// entries in room for `cap`.
pub open spec fn apps_page(r: RawMessage, filled: nat, cap: nat) -> Result<nat> {
    let count = (r.words[1] as usize) as nat;
    match desktop_result(r, DesktopTag::ListAppsReply.spec_code(), 3, ()) {
        Err(e) => Err(e),
        Ok(_) => if filled + count > cap || r.word_count != 3 + count * 4 { Err(Error::BufferTooSmall) } else { Ok(count) },
    }
}

/// Step of listing the desktop's applications into `apps`, one page at a
/// time. Called without a reply it restarts at cursor zero; each page's
/// entries follow those already filled. An entry naming an unknown
/// application stops the listing with `InvalidArgument` (the entries before
/// it stay written); otherwise the listing ends with the total when a page
/// is empty or its next cursor does not advance.
pub fn desktop_list_apps(apps: &mut [DesktopAppInfo], cursor: &mut PageCursor, reply: Option<&RawMessage>) -> (step: Exchange<usize>)
    requires
        reply_wf(reply),
        reply is Some ==> old(cursor).filled <= old(apps)@.len(),
    ensures
        final(apps)@.len() == old(apps)@.len(),
        reply is None ==> *final(cursor) == (PageCursor { start: 0, filled: 0 }) && final(apps)@ == old(apps)@
            && sends(step, DesktopTag::ListAppsRequest.spec_code(), seq![0u64]),
        reply matches Some(r) ==> apps_page(*r, old(cursor).filled as nat, old(apps)@.len()) matches Err(e)
            ==> step == Exchange::<usize>::Done(Err(e)) && final(apps)@ == old(apps)@,
        reply matches Some(r) ==> (apps_page(*r, old(cursor).filled as nat, old(apps)@.len()) matches Ok(count) ==> {
            let f = old(cursor).filled as int;
            &&& forall|k: int| f <= k < f + count && apps_ok_upto(*r, k - f) ==> #[trigger] final(apps)@[k] == app_at(*r, 3 + 4 * (k - f))
            &&& forall|k: int| 0 <= k < old(apps)@.len() && !(f <= k < f + count && apps_ok_upto(*r, k - f)) ==> #[trigger] final(apps)@[k] == old(apps)@[k]
            &&& !apps_ok_upto(*r, count - 1) ==> step == Exchange::<usize>::Done(Err(Error::InvalidArgument))
            &&& apps_ok_upto(*r, count - 1) ==> {
                let next = r.words[2] as usize;
                &&& final(cursor).filled == f + count
                &&& (count == 0 || next <= old(cursor).start) ==> step == Exchange::<usize>::Done(Ok((f + count) as usize))
                &&& !(count == 0 || next <= old(cursor).start) ==> final(cursor).start == next
                    && sends(step, DesktopTag::ListAppsRequest.spec_code(), seq![next as u64])
            }
        }),
{
    let r = match reply {
        None => {
            *cursor = PageCursor { start: 0, filled: 0 };
            return Exchange::Send(request1(DesktopTag::ListAppsRequest.code(), 0));
        },
        Some(r) => r,
    };
    match desktop_check(r, DesktopTag::ListAppsReply.code(), 3) {
        Ok(()) => {},
        Err(e) => return Exchange::Done(Err(e)),
    }
    let count = r.words[1] as usize;
    let filled = cursor.filled;
    if count > apps.len() - filled || count > 4 || r.word_count as usize != 3 + count * 4 {
        return Exchange::Done(Err(Error::BufferTooSmall));
    }
    let ghost before = apps@;
    let mut i: usize = 0;
    while i < count
        invariant
            r.wf(),
            reply == Some(r),
            *cursor == *old(cursor),
            count <= 4,
            3 + count * 4 == r.word_count,
            filled + count <= apps@.len(),
            apps@.len() == before.len(),
            before.len() <= usize::MAX,
            before == old(apps)@,
            filled == old(cursor).filled,
            apps_page(*r, filled as nat, before.len()) == Ok::<nat, Error>(count as nat),
            i <= count,
            apps_ok_upto(*r, i - 1),
            forall|k: int| filled <= k < filled + i ==> #[trigger] apps@[k] == app_at(*r, 3 + 4 * (k - filled)),
            forall|k: int| 0 <= k < apps@.len() && !(filled <= k < filled + i) ==> #[trigger] apps@[k] == before[k],
        decreases count - i,
    {
        let base = 3 + i * 4;
        let id = match desktop_app_id_from_word(r.words[base]) {
            Some(id) => id,
            None => {
                proof {
                    assert(!app_ok(*r, i as int));
                    assert forall|k: int| 0 <= k < i implies apps_ok_upto(*r, k) by {
                        assert forall|j: int| 0 <= j <= k implies #[trigger] app_ok(*r, j) by {
                            assert(apps_ok_upto(*r, i - 1));
                        }
                    }
                    assert forall|k: int| i <= k < count implies !apps_ok_upto(*r, k) by {
                        assert(!app_ok(*r, i as int));
                    }
                }
                return Exchange::Done(Err(Error::InvalidArgument));
            },
        };
        let slot = filled + i;
        apps[slot] = DesktopAppInfo {
            app_id: id,
            running: r.words[base + 1] != 0,
            focused: r.words[base + 2] != 0,
            surface_id: r.words[base + 3] as u32,
        };
        proof {
            assert(app_ok(*r, i as int));
        }
        i = i + 1;
    }
    let next = r.words[2] as usize;
    let start = cursor.start;
    cursor.filled = filled + count;
    if count == 0 || next <= start {
        return Exchange::Done(Ok(filled + count));
    }
    cursor.start = next;
    Exchange::Send(request1(DesktopTag::ListAppsRequest.code(), next as u64))
}

/// Step of launching application `app_id`; the outcome is its surface.
pub fn desktop_launch_app(app_id: DesktopAppId, reply: Option<&RawMessage>) -> (step: Exchange<u32>)
    ensures
        reply is None ==> sends(step, DesktopTag::LaunchAppRequest.spec_code(), seq![app_id.spec_code() as u64]),
        reply matches Some(r) ==> step == Exchange::Done(desktop_result(*r, DesktopTag::LaunchAppReply.spec_code(), 2, r.words[1] as u32)),
{
    match reply {
        None => Exchange::Send(request1(DesktopTag::LaunchAppRequest.code(), app_id.code() as u64)),
        Some(r) => Exchange::Done(
            match desktop_check(r, DesktopTag::LaunchAppReply.code(), 2) {
                Ok(()) => Ok(r.words[1] as u32),
                Err(e) => Err(e),
            },
        ),
    }
}

/// Step of focusing application `app_id`; the outcome is its surface.
pub fn desktop_focus_app(app_id: DesktopAppId, reply: Option<&RawMessage>) -> (step: Exchange<u32>)
    ensures
        reply is None ==> sends(step, DesktopTag::FocusAppRequest.spec_code(), seq![app_id.spec_code() as u64]),
        reply matches Some(r) ==> step == Exchange::Done(desktop_result(*r, DesktopTag::FocusAppReply.spec_code(), 2, r.words[1] as u32)),
{
    match reply {
        None => Exchange::Send(request1(DesktopTag::FocusAppRequest.code(), app_id.code() as u64)),
        Some(r) => Exchange::Done(
            match desktop_check(r, DesktopTag::FocusAppReply.code(), 2) {
                Ok(()) => Ok(r.words[1] as u32),
                Err(e) => Err(e),
            },
        ),
    }
}


/// Window entry `i` of a listing page names a known application.
pub open spec fn window_ok(r: RawMessage, i: int) -> bool {
    desktop_app_id_of(r.words[3 + 5 * i]) is Some
}

/// Every window entry up to and including `i` names a known application.
pub open spec fn windows_ok_upto(r: RawMessage, i: int) -> bool {
    forall|j: int| 0 <= j <= i ==> #[trigger] window_ok(r, j)
}

/// The window record carried in the five words at `b`: application,
/// surface, flags (z-order in the high half; focused, minimized and visible
/// in bits 0 to 2), position (two signed halves) and size (two halves).
pub open spec fn window_at(r: RawMessage, b: int) -> DesktopWindowInfo {
    let flags = r.words[b + 2];
    DesktopWindowInfo {
        app_id: desktop_app_id_of(r.words[b]).unwrap(),
        surface_id: r.words[b + 1] as u32,
        x: i32_pair_of(r.words[b + 3]).0,
        y: i32_pair_of(r.words[b + 3]).1,
        width: r.words[b + 4] as u32,
        height: (r.words[b + 4] >> 32) as u32,
        z_order: (flags >> 32) as u32,
        focused: flags & 1 != 0,
        minimized: flags & 2 != 0,
        visible: flags & 4 != 0,
    }
}

/// The entries a window page carries, when the page is well formed and they
/// fit after `filled` entries in room for `cap`.
pub open spec fn windows_page(r: RawMessage, filled: nat, cap: nat) -> Result<nat> {
    let count = (r.words[1] as usize) as nat;
    match desktop_result(r, DesktopTag::ListWindowsReply.spec_code(), 3, ()) {
        Err(e) => Err(e),
        Ok(_) => if r.word_count != 3 + count * 5 {
            Err(Error::InvalidArgument)
        } else if filled + count > cap {
            Err(Error::BufferTooSmall)
        } else {
            Ok(count)
        },
    }
}

/// Step of listing the desktop's windows into `windows`, one page at a
/// time. Called without a reply it restarts at cursor zero; each page's
/// entries follow those already filled. An entry naming an unknown
/// application stops the listing with `InvalidArgument` (the entries before
/// it stay written); otherwise the listing ends with the total when the
/// page's next cursor is `u32::MAX`, and asks for the next page from that
/// cursor otherwise.
pub fn desktop_list_windows(windows: &mut [DesktopWindowInfo], cursor: &mut PageCursor, reply: Option<&RawMessage>) -> (step: Exchange<usize>)
    requires
        reply_wf(reply),
        reply is Some ==> old(cursor).filled <= old(windows)@.len(),
    ensures
        final(windows)@.len() == old(windows)@.len(),
        reply is None ==> *final(cursor) == (PageCursor { start: 0, filled: 0 }) && final(windows)@ == old(windows)@
            && sends(step, DesktopTag::ListWindowsRequest.spec_code(), seq![0u64]),
        reply matches Some(r) ==> windows_page(*r, old(cursor).filled as nat, old(windows)@.len()) matches Err(e)
            ==> step == Exchange::<usize>::Done(Err(e)) && final(windows)@ == old(windows)@,
        reply matches Some(r) ==> (windows_page(*r, old(cursor).filled as nat, old(windows)@.len()) matches Ok(count) ==> {
            let f = old(cursor).filled as int;
            &&& forall|k: int| f <= k < f + count && windows_ok_upto(*r, k - f) ==> #[trigger] final(windows)@[k] == window_at(*r, 3 + 5 * (k - f))
            &&& forall|k: int| 0 <= k < old(windows)@.len() && !(f <= k < f + count && windows_ok_upto(*r, k - f)) ==> #[trigger] final(windows)@[k] == old(windows)@[k]
            &&& !windows_ok_upto(*r, count - 1) ==> step == Exchange::<usize>::Done(Err(Error::InvalidArgument))
            &&& windows_ok_upto(*r, count - 1) ==> {
                let next = r.words[2] as u32;
                &&& final(cursor).filled == f + count
                &&& next == u32::MAX ==> step == Exchange::<usize>::Done(Ok((f + count) as usize))
                &&& next != u32::MAX ==> final(cursor).start == next as usize
                    && sends(step, DesktopTag::ListWindowsRequest.spec_code(), seq![next as u64])
            }
        }),
{
    let r = match reply {
        None => {
            *cursor = PageCursor { start: 0, filled: 0 };
            return Exchange::Send(request1(DesktopTag::ListWindowsRequest.code(), 0));
        },
        Some(r) => r,
    };
    match desktop_check(r, DesktopTag::ListWindowsReply.code(), 3) {
        Ok(()) => {},
        Err(e) => return Exchange::Done(Err(e)),
    }
    let count = r.words[1] as usize;
    let filled = cursor.filled;
    if count > 3 || r.word_count as usize != 3 + count * 5 {
        return Exchange::Done(Err(Error::InvalidArgument));
    }
    if count > windows.len() - filled {
        return Exchange::Done(Err(Error::BufferTooSmall));
    }
    let ghost before = windows@;
    let mut i: usize = 0;
    while i < count
        invariant
            r.wf(),
            reply == Some(r),
            *cursor == *old(cursor),
            count <= 3,
            3 + count * 5 == r.word_count,
            filled + count <= windows@.len(),
            windows@.len() == before.len(),
            before.len() <= usize::MAX,
            before == old(windows)@,
            filled == old(cursor).filled,
            windows_page(*r, filled as nat, before.len()) == Ok::<nat, Error>(count as nat),
            i <= count,
            windows_ok_upto(*r, i - 1),
            forall|k: int| filled <= k < filled + i ==> #[trigger] windows@[k] == window_at(*r, 3 + 5 * (k - filled)),
            forall|k: int| 0 <= k < windows@.len() && !(filled <= k < filled + i) ==> #[trigger] windows@[k] == before[k],
        decreases count - i,
    {
        let base = 3 + i * 5;
        let id = match desktop_app_id_from_word(r.words[base]) {
            Some(id) => id,
            None => {
                proof {
                    assert(!window_ok(*r, i as int));
                    assert forall|k: int| 0 <= k < i implies windows_ok_upto(*r, k) by {
                        assert forall|j: int| 0 <= j <= k implies #[trigger] window_ok(*r, j) by {
                            assert(windows_ok_upto(*r, i - 1));
                        }
                    }
                    assert forall|k: int| i <= k < count implies !windows_ok_upto(*r, k) by {
                        assert(!window_ok(*r, i as int));
                    }
                }
                return Exchange::Done(Err(Error::InvalidArgument));
            },
        };
        let flags = r.words[base + 2];
        let (x, y) = unpack_i32_pair(r.words[base + 3]);
        let (width, height) = unpack_u32_pair(r.words[base + 4]);
        let slot = filled + i;
        windows[slot] = DesktopWindowInfo {
            app_id: id,
            surface_id: r.words[base + 1] as u32,
            x,
            y,
            width,
            height,
            z_order: (flags >> 32) as u32,
            focused: flags & 1 != 0,
            minimized: flags & 2 != 0,
            visible: flags & 4 != 0,
        };
        proof {
            assert(window_ok(*r, i as int));
        }
        i = i + 1;
    }
    let next = r.words[2] as u32;
    cursor.filled = filled + count;
    if next == u32::MAX {
        return Exchange::Done(Ok(filled + count));
    }
    cursor.start = next as usize;
    Exchange::Send(request1(DesktopTag::ListWindowsRequest.code(), next as u64))
}

/// The word that names an optional application: its code, or zero.
pub open spec fn app_word(app_id: Option<DesktopAppId>) -> u64 {
    match app_id {
        Some(a) => a.spec_code() as u64,
        None => 0,
    }
}

/// The words of a window-action request.
pub open spec fn window_action_words(action: DesktopWindowAction, app_id: Option<DesktopAppId>, arg0: u64, arg1: u64) -> Seq<u64> {
    seq![action.spec_code() as u64, app_word(app_id), arg0, arg1]
}

/// What a window-action reply decodes to: the affected surface.
pub open spec fn window_action_result(r: RawMessage) -> Result<u32> {
    desktop_result(r, DesktopTag::WindowActionReply.spec_code(), 2, r.words[1] as u32)
}

/// Step of applying window action `action` to application `app_id` (none
/// for actions on the focused window) with two arguments; the outcome is
/// the affected surface.
pub fn desktop_window_action(action: DesktopWindowAction, app_id: Option<DesktopAppId>, arg0: u64, arg1: u64, reply: Option<&RawMessage>) -> (step: Exchange<u32>)
    ensures
        reply is None ==> sends(step, DesktopTag::WindowActionRequest.spec_code(), window_action_words(action, app_id, arg0, arg1)),
        reply matches Some(r) ==> step == Exchange::Done(window_action_result(*r)),
{
    match reply {
        None => {
            let app = match app_id {
                Some(a) => a.code() as u64,
                None => 0,
            };
            Exchange::Send(request4(DesktopTag::WindowActionRequest.code(), action.code() as u64, app, arg0, arg1))
        },
        Some(r) => Exchange::Done(
            match desktop_check(r, DesktopTag::WindowActionReply.code(), 2) {
                Ok(()) => Ok(r.words[1] as u32),
                Err(e) => Err(e),
            },
        ),
    }
}

/// Step of moving the focus to the next window.
pub fn desktop_focus_next(reply: Option<&RawMessage>) -> (step: Exchange<u32>)
    ensures
        reply is None ==> sends(step, DesktopTag::WindowActionRequest.spec_code(), window_action_words(DesktopWindowAction::FocusNext, None, 0, 0)),
        reply matches Some(r) ==> step == Exchange::Done(window_action_result(*r)),
{
    desktop_window_action(DesktopWindowAction::FocusNext, None, 0, 0, reply)
}

/// Step of closing application `app_id`.
pub fn desktop_close_app(app_id: DesktopAppId, reply: Option<&RawMessage>) -> (step: Exchange<()>)
    ensures
        reply is None ==> sends(step, DesktopTag::WindowActionRequest.spec_code(), window_action_words(DesktopWindowAction::Close, Some(app_id), 0, 0)),
        reply matches Some(r) ==> step == Exchange::Done(match window_action_result(*r) {
            Ok(_) => Ok::<(), Error>(()),
            Err(e) => Err(e),
        }),
{
    match desktop_window_action(DesktopWindowAction::Close, Some(app_id), 0, 0, reply) {
        Exchange::Send(m) => Exchange::Send(m),
        Exchange::Done(Ok(_)) => Exchange::Done(Ok(())),
        Exchange::Done(Err(e)) => Exchange::Done(Err(e)),
    }
}

/// Step of minimizing application `app_id`; the outcome is its surface.
pub fn desktop_minimize_app(app_id: DesktopAppId, reply: Option<&RawMessage>) -> (step: Exchange<u32>)
    ensures
        reply is None ==> sends(step, DesktopTag::WindowActionRequest.spec_code(), window_action_words(DesktopWindowAction::Minimize, Some(app_id), 0, 0)),
        reply matches Some(r) ==> step == Exchange::Done(window_action_result(*r)),
{
    desktop_window_action(DesktopWindowAction::Minimize, Some(app_id), 0, 0, reply)
}

/// Step of restoring application `app_id`; the outcome is its surface.
pub fn desktop_restore_app(app_id: DesktopAppId, reply: Option<&RawMessage>) -> (step: Exchange<u32>)
    ensures
        reply is None ==> sends(step, DesktopTag::WindowActionRequest.spec_code(), window_action_words(DesktopWindowAction::Restore, Some(app_id), 0, 0)),
        reply matches Some(r) ==> step == Exchange::Done(window_action_result(*r)),
{
    desktop_window_action(DesktopWindowAction::Restore, Some(app_id), 0, 0, reply)
}

/// Step of maximizing application `app_id`; the outcome is its surface.
pub fn desktop_maximize_app(app_id: DesktopAppId, reply: Option<&RawMessage>) -> (step: Exchange<u32>)
    ensures
        reply is None ==> sends(step, DesktopTag::WindowActionRequest.spec_code(), window_action_words(DesktopWindowAction::Maximize, Some(app_id), 0, 0)),
        reply matches Some(r) ==> step == Exchange::Done(window_action_result(*r)),
{
    desktop_window_action(DesktopWindowAction::Maximize, Some(app_id), 0, 0, reply)
}

/// The word that carries a signed coordinate: sign-extended to 64 bits.
pub open spec fn signed_word(v: i32) -> u64 {
    (v as i64) as u64
}

/// Step of moving application `app_id`'s window to `(x, y)`; each
/// coordinate travels sign-extended. The outcome is its surface.
pub fn desktop_move_app(app_id: DesktopAppId, x: i32, y: i32, reply: Option<&RawMessage>) -> (step: Exchange<u32>)
    ensures
        reply is None ==> sends(step, DesktopTag::WindowActionRequest.spec_code(), window_action_words(DesktopWindowAction::Move, Some(app_id), signed_word(x), signed_word(y))),
        reply matches Some(r) ==> step == Exchange::Done(window_action_result(*r)),
{
    desktop_window_action(DesktopWindowAction::Move, Some(app_id), x as i64 as u64, y as i64 as u64, reply)
}

/// Step of resizing application `app_id`'s window; the outcome is its
/// surface.
pub fn desktop_resize_app(app_id: DesktopAppId, width: u32, height: u32, reply: Option<&RawMessage>) -> (step: Exchange<u32>)
    ensures
        reply is None ==> sends(step, DesktopTag::WindowActionRequest.spec_code(), window_action_words(DesktopWindowAction::Resize, Some(app_id), width as u64, height as u64)),
        reply matches Some(r) ==> step == Exchange::Done(window_action_result(*r)),
{
    desktop_window_action(DesktopWindowAction::Resize, Some(app_id), width as u64, height as u64, reply)
}

/// The words of a request that carries a byte count and then the bytes.
pub open spec fn counted_words(bytes: Seq<u8>) -> Seq<u64> {
    seq![bytes.len() as u64] + packed_words(bytes)
}

/// Step of posting notification `text`; `BufferTooSmall` for a text over
/// 120 bytes (what one message carries after its count word).
pub fn desktop_notify(text: &str, reply: Option<&RawMessage>) -> (step: Exchange<()>)
    ensures
        reply is None && text.spec_bytes().len() > 120 ==> step == Exchange::<()>::Done(Err(Error::BufferTooSmall)),
        reply is None && text.spec_bytes().len() <= 120 ==> sends(step, DesktopTag::NotifyRequest.spec_code(), counted_words(text.spec_bytes())),
        reply matches Some(r) ==> step == Exchange::Done(desktop_result(*r, DesktopTag::NotifyReply.spec_code(), 1, ())),
{
    match reply {
        None => {
            let bytes = text.as_bytes();
            if bytes.len() > 120 {
                return Exchange::Done(Err(Error::BufferTooSmall));
            }
            let head: [u64; 1] = [bytes.len() as u64];
            assert(head@ =~= seq![bytes@.len() as u64]);
            Exchange::Send(request_with_bytes(DesktopTag::NotifyRequest.code(), head.as_slice(), bytes))
        },
        Some(r) => Exchange::Done(desktop_check(r, DesktopTag::NotifyReply.code(), 1)),
    }
}

/// What a notification-history reply decodes to: its sequence number,
/// source application (none when word 2 names no known application),
/// whether it is actionable, and its text length; the text itself is
/// carried from word 5 on and fills a 64-byte field.
pub open spec fn notification_result(r: RawMessage) -> Result<(u32, Option<DesktopAppId>, bool, u32)> {
    let n = (r.words[4] as usize) as nat;
    match desktop_result(r, DesktopTag::NotificationHistoryReply.spec_code(), 1, ()) {
        Err(e) => Err(e),
        Ok(_) => if r.word_count < 5 {
            Err(Error::InvalidArgument)
        } else {
            match unpack_outcome(r, 5, n, 64) {
                Err(e) => Err(e),
                Ok(_) => Ok((r.words[1] as u32, desktop_app_id_of(r.words[2]), r.words[3] != 0, n as u32)),
            }
        },
    }
}

/// Step of reading notification `index` of the history.
pub fn desktop_notification_history(index: u32, reply: Option<&RawMessage>) -> (step: Exchange<DesktopNotificationInfo>)
    requires
        reply_wf(reply),
    ensures
        reply is None ==> sends(step, DesktopTag::NotificationHistoryRequest.spec_code(), seq![index as u64]),
        reply matches Some(r) ==> step matches Exchange::Done(res) && {
            &&& notification_result(*r) matches Err(e) ==> res == Err::<DesktopNotificationInfo, Error>(e)
            &&& notification_result(*r) matches Ok(d) ==> (res matches Ok(info) && {
                &&& info.sequence == d.0
                &&& info.source_app == d.1
                &&& info.actionable == d.2
                &&& info.text_len == d.3
                &&& info.text@.take(d.3 as int) == message_bytes(*r, 5, d.3 as nat)
                &&& forall|k: int| d.3 <= k < 64 ==> info.text@[k] == 0u8
            })
        },
{
    let r = match reply {
        None => return Exchange::Send(request1(DesktopTag::NotificationHistoryRequest.code(), index as u64)),
        Some(r) => r,
    };
    match desktop_check(r, DesktopTag::NotificationHistoryReply.code(), 1) {
        Ok(()) => {},
        Err(e) => return Exchange::Done(Err(e)),
    }
    if r.word_count < 5 {
        return Exchange::Done(Err(Error::InvalidArgument));
    }
    let n = r.words[4] as usize;
    let mut text = [0u8; 64];
    let ghost zero = text@;
    match unpack_from(r, 5, n, &mut text) {
        Ok(()) => {},
        Err(e) => return Exchange::Done(Err(e)),
    }
    proof {
        assert forall|k: int| n <= k < 64 implies text@[k] == 0u8 by {
            assert(text@.subrange(n as int, 64)[k - n] == zero.subrange(n as int, 64)[k - n]);
        }
        assert(text@.take(n as int) =~= text@.subrange(0, n as int));
    }
    Exchange::Done(Ok(DesktopNotificationInfo {
        sequence: r.words[1] as u32,
        source_app: desktop_app_id_from_word(r.words[2]),
        actionable: r.words[3] != 0,
        text_len: n as u32,
        text,
    }))
}

/// The workspace state a workspace reply carries.
pub open spec fn workspace_of(r: RawMessage) -> DesktopWorkspaceInfo {
    DesktopWorkspaceInfo {
        active_workspace: r.words[1] as u32,
        workspace_count: r.words[2] as u32,
        focused_surface: r.words[3] as u32,
    }
}

/// Step of applying workspace action `action` (with workspace
/// `workspace_id` where the action names one).
pub fn desktop_workspace_action(action: DesktopWorkspaceAction, workspace_id: u32, reply: Option<&RawMessage>) -> (step: Exchange<DesktopWorkspaceInfo>)
    ensures
        reply is None ==> sends(step, DesktopTag::WorkspaceRequest.spec_code(), seq![action.spec_code() as u64, workspace_id as u64]),
        reply matches Some(r) ==> step == Exchange::Done(desktop_result(*r, DesktopTag::WorkspaceReply.spec_code(), 4, workspace_of(*r))),
{
    match reply {
        None => Exchange::Send(request2(DesktopTag::WorkspaceRequest.code(), action.code() as u64, workspace_id as u64)),
        Some(r) => Exchange::Done(
            match desktop_check(r, DesktopTag::WorkspaceReply.code(), 4) {
                Ok(()) => Ok(DesktopWorkspaceInfo {
                    active_workspace: r.words[1] as u32,
                    workspace_count: r.words[2] as u32,
                    focused_surface: r.words[3] as u32,
                }),
                Err(e) => Err(e),
            },
        ),
    }
}

/// Step of opening `path` in the application that handles it; the outcome
/// is that application's surface. `BufferTooSmall` for a path over 120
/// bytes.
pub fn desktop_open_path(path: &str, reply: Option<&RawMessage>) -> (step: Exchange<u32>)
    ensures
        reply is None && path.spec_bytes().len() > 120 ==> step == Exchange::<u32>::Done(Err(Error::BufferTooSmall)),
        reply is None && path.spec_bytes().len() <= 120 ==> sends(step, DesktopTag::OpenPathRequest.spec_code(), counted_words(path.spec_bytes())),
        reply matches Some(r) ==> step == Exchange::Done(desktop_result(*r, DesktopTag::OpenPathReply.spec_code(), 2, r.words[1] as u32)),
{
    match reply {
        None => {
            let bytes = path.as_bytes();
            if bytes.len() > 120 {
                return Exchange::Done(Err(Error::BufferTooSmall));
            }
            let head: [u64; 1] = [bytes.len() as u64];
            assert(head@ =~= seq![bytes@.len() as u64]);
            Exchange::Send(request_with_bytes(DesktopTag::OpenPathRequest.code(), head.as_slice(), bytes))
        },
        Some(r) => Exchange::Done(
            match desktop_check(r, DesktopTag::OpenPathReply.code(), 2) {
                Ok(()) => Ok(r.words[1] as u32),
                Err(e) => Err(e),
            },
        ),
    }
}

/// The words of an input request: the action, then `x`, `y` and `detail`,
/// each sign-extended.
pub open spec fn input_words(action: DesktopInputAction, x: i32, y: i32, detail: i32) -> Seq<u64> {
    seq![action.spec_code() as u64, signed_word(x), signed_word(y), signed_word(detail)]
}

fn desktop_input_request(action: DesktopInputAction, x: i32, y: i32, detail: i32) -> (m: RawMessage)
    ensures
        is_request(m, DesktopTag::InputRequest.spec_code(), input_words(action, x, y, detail)),
{
    request4(DesktopTag::InputRequest.code(), action.code() as u64, x as i64 as u64, y as i64 as u64, detail as i64 as u64)
}

/// What an input reply decodes to: the surface the input reached.
pub open spec fn input_result(r: RawMessage) -> Result<u32> {
    desktop_result(r, DesktopTag::InputReply.spec_code(), 2, r.words[1] as u32)
}

/// Step of forwarding pointer input `action` at `(x, y)` and waiting for
/// the shell's answer (the request goes out with a reply channel attached
/// by the caller); the outcome is the surface the input reached.
pub fn desktop_pointer_input(action: DesktopInputAction, x: i32, y: i32, reply: Option<&RawMessage>) -> (step: Exchange<u32>)
    ensures
        reply is None ==> sends(step, DesktopTag::InputRequest.spec_code(), input_words(action, x, y, 0)),
        reply matches Some(r) ==> step == Exchange::Done(input_result(*r)),
{
    match reply {
        None => Exchange::Send(desktop_input_request(action, x, y, 0)),
        Some(r) => Exchange::Done(
            match desktop_check(r, DesktopTag::InputReply.code(), 2) {
                Ok(()) => Ok(r.words[1] as u32),
                Err(e) => Err(e),
            },
        ),
    }
}

/// The request that forwards pointer input `action` at `(x, y)` without
/// waiting for an answer.
pub fn desktop_pointer_input_async(action: DesktopInputAction, x: i32, y: i32) -> (m: RawMessage)
    ensures
        is_request(m, DesktopTag::InputRequest.spec_code(), input_words(action, x, y, 0)),
{
    desktop_input_request(action, x, y, 0)
}

/// The request that forwards a scroll by `delta_y` at `(x, y)` without
/// waiting for an answer.
pub fn desktop_pointer_scroll_input_async(x: i32, y: i32, delta_y: i32) -> (m: RawMessage)
    ensures
        is_request(m, DesktopTag::InputRequest.spec_code(), input_words(DesktopInputAction::PointerScroll, x, y, delta_y)),
{
    desktop_input_request(DesktopInputAction::PointerScroll, x, y, delta_y)
}

/// Step of clicking at `(x, y)`; the outcome is the surface clicked.
pub fn desktop_pointer_click(x: i32, y: i32, reply: Option<&RawMessage>) -> (step: Exchange<u32>)
    ensures
        reply is None ==> sends(step, DesktopTag::InputRequest.spec_code(), input_words(DesktopInputAction::Click, x, y, 0)),
        reply matches Some(r) ==> step == Exchange::Done(input_result(*r)),
{
    desktop_pointer_input(DesktopInputAction::Click, x, y, reply)
}

/// Step of forwarding key input `action` for `key_code` with `value`; both
/// travel as the pointer coordinates do, reinterpreted as signed. The
/// outcome is the surface the input reached.
pub fn desktop_key_input(action: DesktopInputAction, key_code: u32, value: u32, reply: Option<&RawMessage>) -> (step: Exchange<u32>)
    ensures
        reply is None ==> sends(step, DesktopTag::InputRequest.spec_code(), input_words(action, key_code as i32, value as i32, 0)),
        reply matches Some(r) ==> step == Exchange::Done(input_result(*r)),
{
    desktop_pointer_input(action, key_code as i32, value as i32, reply)
}

/// The request that forwards key input `action` for `key_code` with
/// `value` without waiting for an answer.
pub fn desktop_key_input_async(action: DesktopInputAction, key_code: u32, value: u32) -> (m: RawMessage)
    ensures
        is_request(m, DesktopTag::InputRequest.spec_code(), input_words(action, key_code as i32, value as i32, 0)),
{
    desktop_pointer_input_async(action, key_code as i32, value as i32)
}

} // verus!
