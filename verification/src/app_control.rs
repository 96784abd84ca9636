//! Control messages the desktop sends to an application: focus, size,
//! close, pointer, key, text and open-path events. Each call builds the
//! message; the caller sends it on the application's control channel.
use vstd::prelude::*;
use vstd::string::StringSliceAdditionalSpecFns;

use crate::abi::{AppControlTag, AppKeyAction, AppPointerAction};
use crate::error::{Error, Result};
use crate::message::{is_request, packed_words, request1, request2, request3, request5, request_with_bytes, RawMessage};

verus! {

/// The focus event: one word, one when the application gained focus.
pub fn app_control_focus(focused: bool) -> (m: RawMessage)
    ensures
        is_request(m, AppControlTag::FocusChanged.spec_code(), seq![if focused { 1u64 } else { 0u64 }]),
{
    request1(AppControlTag::FocusChanged.code(), if focused { 1 } else { 0 })
}

/// The resize event: the new width and height.
pub fn app_control_resize(width: u32, height: u32) -> (m: RawMessage)
    ensures
        is_request(m, AppControlTag::Resize.spec_code(), seq![width as u64, height as u64]),
{
    request2(AppControlTag::Resize.code(), width as u64, height as u64)
}

/// The close event.
pub fn app_control_close() -> (m: RawMessage)
    ensures
        is_request(m, AppControlTag::Close.spec_code(), Seq::empty()),
{
    RawMessage::empty(AppControlTag::Close.code())
}

/// The pointer event: the action, the position and the detail as
/// sign-extended words, and the button.
pub fn app_control_pointer(action: AppPointerAction, x: i32, y: i32, button: u32, detail: i32) -> (m: RawMessage)
    ensures
        is_request(m, AppControlTag::Pointer.spec_code(),
            seq![action.spec_code() as u64, (x as i64) as u64, (y as i64) as u64, button as u64, (detail as i64) as u64]),
{
    request5(AppControlTag::Pointer.code(), action.code() as u64, x as i64 as u64, y as i64 as u64, button as u64, detail as i64 as u64)
}

/// The key event: the action, the key code and the modifiers.
pub fn app_control_key(action: AppKeyAction, key_code: u32, modifiers: u32) -> (m: RawMessage)
    ensures
        is_request(m, AppControlTag::Key.spec_code(), seq![action.spec_code() as u64, key_code as u64, modifiers as u64]),
{
    request3(AppControlTag::Key.code(), action.code() as u64, key_code as u64, modifiers as u64)
}

/// The text event: one Unicode scalar value.
pub fn app_control_text(scalar: char) -> (m: RawMessage)
    ensures
        is_request(m, AppControlTag::Text.spec_code(), seq![(scalar as u32) as u64]),
{
    request1(AppControlTag::Text.code(), scalar as u32 as u64)
}

/// The open-path event: the path's length, then its bytes;
/// `BufferTooSmall` when the path does not fit one message.
pub fn app_control_open_path(path: &str) -> (res: Result<RawMessage>)
    ensures
        path.spec_bytes().len() > 120 ==> res == Err::<RawMessage, Error>(Error::BufferTooSmall),
        path.spec_bytes().len() <= 120 ==> (res matches Ok(m)
            && is_request(m, AppControlTag::OpenPath.spec_code(), seq![path.spec_bytes().len() as u64] + packed_words(path.spec_bytes()))),
{
    let bytes = path.as_bytes();
    if bytes.len() > 120 {
        return Err(Error::BufferTooSmall);
    }
    let head: [u64; 1] = [bytes.len() as u64];
    assert(head@ =~= seq![bytes@.len() as u64]);
    Ok(request_with_bytes(AppControlTag::OpenPath.code(), head.as_slice(), bytes))
}

} // verus!
