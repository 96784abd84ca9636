//! Graphics protocol: display outputs and surfaces of the graphics service,
//! and the requests a surface's owner sends to its surface.
//!
//! Every request here travels with a reply endpoint that the caller
//! attaches in handle slot zero; the steps below leave that slot to it.
use vstd::prelude::*;
use vstd::string::StringSliceAdditionalSpecFns;

use crate::abi::{GraphicsStatus, GraphicsTag, SurfaceTag};
use crate::decode::{
    display_backend_from_word, display_pixel_format_from_word, display_state_from_word, graphics_status_error,
    graphics_status_from_word,
};
use crate::error::{Error, Result};
use crate::message::{
    has_shape, is_request, packed_words, reply_shape, reply_wf, request1, request_with_bytes, request_words, sends,
    words_for, Exchange, Handle, RawMessage, INVALID_HANDLE,
};
use crate::rights;
use crate::types::{GraphicsOutputStatusInfo, GraphicsSurfaceStatusInfo};

verus! {

/// What a graphics reply decodes to when its body is `value`:
/// `InvalidArgument` for a reply of the wrong tag or too few words, the
/// error of a status other than success, else `value`.
pub open spec fn graphics_result<T>(r: RawMessage, tag: u32, min: u32, value: T) -> Result<T> {
    if !reply_shape(r, tag, min) {
        Err(Error::InvalidArgument)
    } else if graphics_status_from_word(r.words[0]) == GraphicsStatus::Success {
        Ok(value)
    } else {
        Err(graphics_status_error(graphics_status_from_word(r.words[0])))
    }
}

fn graphics_check(r: &RawMessage, tag: u32, min: u32) -> (res: Result<()>)
    ensures
        res == graphics_result(*r, tag, min, ()),
{
    if !has_shape(r, tag, min) {
        return Err(Error::InvalidArgument);
    }
    let status = graphics_status_from_word(r.words[0]);
    if status == GraphicsStatus::Success {
        Ok(())
    } else {
        Err(graphics_status_error(status))
    }
}

/// The word that carries a signed coordinate: sign-extended to 64 bits.
pub open spec fn coordinate_word(v: i32) -> u64 {
    (v as i64) as u64
}

/// The word that carries a flag.
pub open spec fn flag_word(b: bool) -> u64 {
    if b { 1 } else { 0 }
}

/// Step of asking the graphics service how many outputs it drives.
pub fn graphics_output_count(reply: Option<&RawMessage>) -> (step: Exchange<usize>)
    ensures
        reply is None ==> sends(step, GraphicsTag::OutputListRequest.spec_code(), Seq::empty()),
        reply matches Some(r) ==> step == Exchange::Done(graphics_result(*r, GraphicsTag::OutputListReply.spec_code(), 2, r.words[1] as usize)),
{
    match reply {
        None => Exchange::Send(RawMessage::empty(GraphicsTag::OutputListRequest.code())),
        Some(r) => Exchange::Done(
            match graphics_check(r, GraphicsTag::OutputListReply.code(), 2) {
                Ok(()) => Ok(r.words[1] as usize),
                Err(e) => Err(e),
            },
        ),
    }
}

/// The output status an output-status reply carries in words 1 to 11.
pub open spec fn output_status_of(r: RawMessage) -> GraphicsOutputStatusInfo {
    GraphicsOutputStatusInfo {
        index: r.words[1] as u32,
        backend: display_backend_from_word(r.words[2]),
        state: display_state_from_word(r.words[3]),
        pixel_format: display_pixel_format_from_word(r.words[4]),
        width: r.words[5] as u32,
        height: r.words[6] as u32,
        stride: r.words[7] as u32,
        bytes_per_pixel: r.words[8] as u32,
        byte_len: r.words[9],
        present_count: r.words[10],
        surface_count: r.words[11] as u32,
    }
}

/// What an output-status reply decodes to: `None` when there is no output
/// at that index.
pub open spec fn output_status_result(r: RawMessage) -> Result<Option<GraphicsOutputStatusInfo>> {
    let status = graphics_status_from_word(r.words[0]);
    if !reply_shape(r, GraphicsTag::OutputStatusReply.spec_code(), 12) {
        Err(Error::InvalidArgument)
    } else if status == GraphicsStatus::NotFound {
        Ok(None)
    } else if status != GraphicsStatus::Success {
        Err(graphics_status_error(status))
    } else {
        Ok(Some(output_status_of(r)))
    }
}

/// Step of reading the status of output `index`.
pub fn graphics_output_status(index: usize, reply: Option<&RawMessage>) -> (step: Exchange<Option<GraphicsOutputStatusInfo>>)
    ensures
        reply is None ==> sends(step, GraphicsTag::OutputStatusRequest.spec_code(), seq![index as u64]),
        reply matches Some(r) ==> step == Exchange::Done(output_status_result(*r)),
{
    let r = match reply {
        None => return Exchange::Send(request1(GraphicsTag::OutputStatusRequest.code(), index as u64)),
        Some(r) => r,
    };
    if !has_shape(r, GraphicsTag::OutputStatusReply.code(), 12) {
        return Exchange::Done(Err(Error::InvalidArgument));
    }
    let status = graphics_status_from_word(r.words[0]);
    if status == GraphicsStatus::NotFound {
        return Exchange::Done(Ok(None));
    }
    if status != GraphicsStatus::Success {
        return Exchange::Done(Err(graphics_status_error(status)));
    }
    Exchange::Done(Ok(Some(GraphicsOutputStatusInfo {
        index: r.words[1] as u32,
        backend: display_backend_from_word(r.words[2]),
        state: display_state_from_word(r.words[3]),
        pixel_format: display_pixel_format_from_word(r.words[4]),
        width: r.words[5] as u32,
        height: r.words[6] as u32,
        stride: r.words[7] as u32,
        bytes_per_pixel: r.words[8] as u32,
        byte_len: r.words[9],
        present_count: r.words[10],
        surface_count: r.words[11] as u32,
    })))
}

/// The words of a surface-create request.
pub open spec fn surface_create_words(owner_session: u32, x: i32, y: i32, width: u32, height: u32, z_order: u32, fill_rgb: u32, visible: bool) -> Seq<u64> {
    seq![owner_session as u64, coordinate_word(x), coordinate_word(y), width as u64, height as u64, z_order as u64, fill_rgb as u64, flag_word(visible)]
}

/// What a surface-create reply decodes to: the new surface's id and the
/// handle to it (the first the reply carries).
pub open spec fn surface_create_result(r: RawMessage) -> Result<(u32, Handle)> {
    if !reply_shape(r, GraphicsTag::SurfaceCreateReply.spec_code(), 2) || r.handle_count < 1 {
        Err(Error::InvalidArgument)
    } else if graphics_status_from_word(r.words[0]) == GraphicsStatus::Success {
        Ok((r.words[1] as u32, r.handles[0]))
    } else {
        Err(graphics_status_error(graphics_status_from_word(r.words[0])))
    }
}

/// Step of creating a surface for session `owner_session` at `(x, y)` with
/// the given size, stacking order, fill colour and visibility.
pub fn graphics_surface_create(
    owner_session: u32,
    x: i32,
    y: i32,
    width: u32,
    height: u32,
    z_order: u32,
    fill_rgb: u32,
    visible: bool,
    reply: Option<&RawMessage>,
) -> (step: Exchange<(u32, Handle)>)
    ensures
        reply is None ==> sends(step, GraphicsTag::SurfaceCreateRequest.spec_code(), surface_create_words(owner_session, x, y, width, height, z_order, fill_rgb, visible)),
        reply matches Some(r) ==> step == Exchange::Done(surface_create_result(*r)),
{
    let r = match reply {
        None => {
            let ws: [u64; 8] = [
                owner_session as u64,
                x as i64 as u64,
                y as i64 as u64,
                width as u64,
                height as u64,
                z_order as u64,
                fill_rgb as u64,
                if visible { 1 } else { 0 },
            ];
            assert(ws@ =~= surface_create_words(owner_session, x, y, width, height, z_order, fill_rgb, visible));
            return Exchange::Send(request_words(GraphicsTag::SurfaceCreateRequest.code(), ws.as_slice()));
        },
        Some(r) => r,
    };
    if !has_shape(r, GraphicsTag::SurfaceCreateReply.code(), 2) || r.handle_count < 1 {
        return Exchange::Done(Err(Error::InvalidArgument));
    }
    let status = graphics_status_from_word(r.words[0]);
    if status == GraphicsStatus::Success {
        Exchange::Done(Ok((r.words[1] as u32, r.handles[0])))
    } else {
        Exchange::Done(Err(graphics_status_error(status)))
    }
}

/// How many surface ids a surface-list reply carries, when they fit in room
/// for `cap` ids and in the reply's words.
pub open spec fn surface_list_result(r: RawMessage, cap: nat) -> Result<nat> {
    let count = (r.words[1] as usize) as nat;
    match graphics_result(r, GraphicsTag::SurfaceListReply.spec_code(), 2, ()) {
        Err(e) => Err(e),
        Ok(_) => if count > cap || r.word_count < 2 + count { Err(Error::BufferTooSmall) } else { Ok(count) },
    }
}

/// Step of listing the ids of the graphics service's surfaces into `ids`;
/// the outcome is how many were written, at the front of `ids`.
pub fn graphics_surface_list(ids: &mut [u32], reply: Option<&RawMessage>) -> (step: Exchange<usize>)
    requires
        reply_wf(reply),
    ensures
        final(ids)@.len() == old(ids)@.len(),
        reply is None ==> sends(step, GraphicsTag::SurfaceListRequest.spec_code(), Seq::empty()) && final(ids)@ == old(ids)@,
        reply matches Some(r) ==> surface_list_result(*r, old(ids)@.len()) matches Err(e)
            ==> step == Exchange::<usize>::Done(Err(e)) && final(ids)@ == old(ids)@,
        reply matches Some(r) ==> (surface_list_result(*r, old(ids)@.len()) matches Ok(count) ==> {
            &&& step == Exchange::<usize>::Done(Ok(count as usize))
            &&& forall|k: int| 0 <= k < count ==> #[trigger] final(ids)@[k] == r.words[2 + k] as u32
            &&& forall|k: int| count <= k < old(ids)@.len() ==> #[trigger] final(ids)@[k] == old(ids)@[k]
        }),
{
    let r = match reply {
        None => return Exchange::Send(RawMessage::empty(GraphicsTag::SurfaceListRequest.code())),
        Some(r) => r,
    };
    match graphics_check(r, GraphicsTag::SurfaceListReply.code(), 2) {
        Ok(()) => {},
        Err(e) => return Exchange::Done(Err(e)),
    }
    let count = r.words[1] as usize;
    if count > ids.len() || count > 14 || (r.word_count as usize) < 2 + count {
        return Exchange::Done(Err(Error::BufferTooSmall));
    }
    let ghost before = ids@;
    let mut i: usize = 0;
    while i < count
        invariant
            r.wf(),
            count <= 14,
            2 + count <= r.word_count,
            count <= ids@.len(),
            ids@.len() == before.len(),
            i <= count,
            forall|k: int| 0 <= k < i ==> #[trigger] ids@[k] == r.words[2 + k] as u32,
            forall|k: int| i <= k < ids@.len() ==> #[trigger] ids@[k] == before[k],
        decreases count - i,
    {
        ids[i] = r.words[2 + i] as u32;
        i = i + 1;
    }
    Exchange::Done(Ok(count))
}

/// The surface status a surface-status reply carries in words 1 to 10; the
/// reply carries nothing of the surface's buffers, so those fields are zero
/// and no buffer is active.
pub open spec fn surface_status_of(r: RawMessage) -> GraphicsSurfaceStatusInfo {
    GraphicsSurfaceStatusInfo {
        surface_id: r.words[1] as u32,
        output_index: r.words[2] as u32,
        owner_session: r.words[3] as u32,
        x: (r.words[4] as i64) as i32,
        y: (r.words[5] as i64) as i32,
        width: r.words[6] as u32,
        height: r.words[7] as u32,
        z_order: r.words[8] as u32,
        fill_rgb: r.words[9] as u32,
        visible: r.words[10] != 0,
        attached_buffer_count: 0,
        active_buffer_slot: None,
        active_buffer_width: 0,
        active_buffer_height: 0,
        active_buffer_stride_pixels: 0,
    }
}

/// What a surface-status reply decodes to: `None` when there is no such
/// surface.
pub open spec fn surface_status_result(r: RawMessage) -> Result<Option<GraphicsSurfaceStatusInfo>> {
    let status = graphics_status_from_word(r.words[0]);
    if !reply_shape(r, GraphicsTag::SurfaceStatusReply.spec_code(), 11) {
        Err(Error::InvalidArgument)
    } else if status == GraphicsStatus::NotFound {
        Ok(None)
    } else if status != GraphicsStatus::Success {
        Err(graphics_status_error(status))
    } else {
        Ok(Some(surface_status_of(r)))
    }
}

/// Step of reading the status of surface `surface_id`.
pub fn graphics_surface_status(surface_id: u32, reply: Option<&RawMessage>) -> (step: Exchange<Option<GraphicsSurfaceStatusInfo>>)
    ensures
        reply is None ==> sends(step, GraphicsTag::SurfaceStatusRequest.spec_code(), seq![surface_id as u64]),
        reply matches Some(r) ==> step == Exchange::Done(surface_status_result(*r)),
{
    let r = match reply {
        None => return Exchange::Send(request1(GraphicsTag::SurfaceStatusRequest.code(), surface_id as u64)),
        Some(r) => r,
    };
    if !has_shape(r, GraphicsTag::SurfaceStatusReply.code(), 11) {
        return Exchange::Done(Err(Error::InvalidArgument));
    }
    let status = graphics_status_from_word(r.words[0]);
    if status == GraphicsStatus::NotFound {
        return Exchange::Done(Ok(None));
    }
    if status != GraphicsStatus::Success {
        return Exchange::Done(Err(graphics_status_error(status)));
    }
    Exchange::Done(Ok(Some(GraphicsSurfaceStatusInfo {
        surface_id: r.words[1] as u32,
        output_index: r.words[2] as u32,
        owner_session: r.words[3] as u32,
        x: r.words[4] as i64 as i32,
        y: r.words[5] as i64 as i32,
        width: r.words[6] as u32,
        height: r.words[7] as u32,
        z_order: r.words[8] as u32,
        fill_rgb: r.words[9] as u32,
        visible: r.words[10] != 0,
        attached_buffer_count: 0,
        active_buffer_slot: None,
        active_buffer_width: 0,
        active_buffer_height: 0,
        active_buffer_stride_pixels: 0,
    })))
}

/// The words of a set-geometry request.
pub open spec fn geometry_words(x: i32, y: i32, width: u32, height: u32, z_order: u32) -> Seq<u64> {
    seq![coordinate_word(x), coordinate_word(y), width as u64, height as u64, z_order as u64]
}

fn geometry_request(x: i32, y: i32, width: u32, height: u32, z_order: u32) -> (m: RawMessage)
    ensures
        is_request(m, SurfaceTag::SetGeometryRequest.spec_code(), geometry_words(x, y, width, height, z_order)),
{
    let ws: [u64; 5] = [x as i64 as u64, y as i64 as u64, width as u64, height as u64, z_order as u64];
    assert(ws@ =~= geometry_words(x, y, width, height, z_order));
    request_words(SurfaceTag::SetGeometryRequest.code(), ws.as_slice())
}

/// Step of moving and resizing a surface and setting its stacking order.
pub fn surface_set_geometry(x: i32, y: i32, width: u32, height: u32, z_order: u32, reply: Option<&RawMessage>) -> (step: Exchange<()>)
    ensures
        reply is None ==> sends(step, SurfaceTag::SetGeometryRequest.spec_code(), geometry_words(x, y, width, height, z_order)),
        reply matches Some(r) ==> step == Exchange::Done(graphics_result(*r, SurfaceTag::SetGeometryReply.spec_code(), 1, ())),
{
    match reply {
        None => Exchange::Send(geometry_request(x, y, width, height, z_order)),
        Some(r) => Exchange::Done(graphics_check(r, SurfaceTag::SetGeometryReply.code(), 1)),
    }
}

/// The set-geometry request sent without waiting for an answer.
pub fn surface_set_geometry_async(x: i32, y: i32, width: u32, height: u32, z_order: u32) -> (m: RawMessage)
    ensures
        is_request(m, SurfaceTag::SetGeometryRequest.spec_code(), geometry_words(x, y, width, height, z_order)),
{
    geometry_request(x, y, width, height, z_order)
}

/// Step of setting a surface's fill colour.
pub fn surface_set_fill(fill_rgb: u32, reply: Option<&RawMessage>) -> (step: Exchange<()>)
    ensures
        reply is None ==> sends(step, SurfaceTag::SetFillRequest.spec_code(), seq![fill_rgb as u64]),
        reply matches Some(r) ==> step == Exchange::Done(graphics_result(*r, SurfaceTag::SetFillReply.spec_code(), 1, ())),
{
    match reply {
        None => Exchange::Send(request1(SurfaceTag::SetFillRequest.code(), fill_rgb as u64)),
        Some(r) => Exchange::Done(graphics_check(r, SurfaceTag::SetFillReply.code(), 1)),
    }
}

/// Step of showing or hiding a surface.
pub fn surface_set_visibility(visible: bool, reply: Option<&RawMessage>) -> (step: Exchange<()>)
    ensures
        reply is None ==> sends(step, SurfaceTag::SetVisibilityRequest.spec_code(), seq![flag_word(visible)]),
        reply matches Some(r) ==> step == Exchange::Done(graphics_result(*r, SurfaceTag::SetVisibilityReply.spec_code(), 1, ())),
{
    match reply {
        None => Exchange::Send(request1(SurfaceTag::SetVisibilityRequest.code(), if visible { 1 } else { 0 })),
        Some(r) => Exchange::Done(graphics_check(r, SurfaceTag::SetVisibilityReply.code(), 1)),
    }
}

/// Step of clearing a surface's scene of rectangles and labels.
pub fn surface_clear_scene(reply: Option<&RawMessage>) -> (step: Exchange<()>)
    ensures
        reply is None ==> sends(step, SurfaceTag::ClearSceneRequest.spec_code(), Seq::empty()),
        reply matches Some(r) ==> step == Exchange::Done(graphics_result(*r, SurfaceTag::ClearSceneReply.spec_code(), 1, ())),
{
    match reply {
        None => Exchange::Send(RawMessage::empty(SurfaceTag::ClearSceneRequest.code())),
        Some(r) => Exchange::Done(graphics_check(r, SurfaceTag::ClearSceneReply.code(), 1)),
    }
}

/// The words of a set-rectangle request.
pub open spec fn rect_words(slot: u32, x: i32, y: i32, width: u32, height: u32, color_rgb: u32, visible: bool) -> Seq<u64> {
    seq![slot as u64, coordinate_word(x), coordinate_word(y), width as u64, height as u64, color_rgb as u64, flag_word(visible)]
}

/// Step of setting rectangle `slot` of a surface's scene.
pub fn surface_set_rect(slot: u32, x: i32, y: i32, width: u32, height: u32, color_rgb: u32, visible: bool, reply: Option<&RawMessage>) -> (step: Exchange<()>)
    ensures
        reply is None ==> sends(step, SurfaceTag::SetRectRequest.spec_code(), rect_words(slot, x, y, width, height, color_rgb, visible)),
        reply matches Some(r) ==> step == Exchange::Done(graphics_result(*r, SurfaceTag::SetRectReply.spec_code(), 1, ())),
{
    match reply {
        None => {
            let ws: [u64; 7] = [
                slot as u64,
                x as i64 as u64,
                y as i64 as u64,
                width as u64,
                height as u64,
                color_rgb as u64,
                if visible { 1 } else { 0 },
            ];
            assert(ws@ =~= rect_words(slot, x, y, width, height, color_rgb, visible));
            Exchange::Send(request_words(SurfaceTag::SetRectRequest.code(), ws.as_slice()))
        },
        Some(r) => Exchange::Done(graphics_check(r, SurfaceTag::SetRectReply.code(), 1)),
    }
}

/// The words of a set-label request: slot, position, colour and the text's
/// length, then the text's bytes.
pub open spec fn label_words(slot: u32, x: i32, y: i32, color_rgb: u32, text: Seq<u8>) -> Seq<u64> {
    seq![slot as u64, coordinate_word(x), coordinate_word(y), color_rgb as u64, text.len() as u64] + packed_words(text)
}

/// Step of setting label `slot` of a surface's scene to `text` at
/// `(x, y)`; `BufferTooSmall` when the text does not fit the message after
/// its five header words.
pub fn surface_set_label(slot: u32, x: i32, y: i32, color_rgb: u32, text: &str, reply: Option<&RawMessage>) -> (step: Exchange<()>)
    ensures
        reply is None && 5 + words_for(text.spec_bytes().len()) > 16 ==> step == Exchange::<()>::Done(Err(Error::BufferTooSmall)),
        reply is None && 5 + words_for(text.spec_bytes().len()) <= 16 ==> sends(step, SurfaceTag::SetLabelRequest.spec_code(), label_words(slot, x, y, color_rgb, text.spec_bytes())),
        reply matches Some(r) ==> step == Exchange::Done(graphics_result(*r, SurfaceTag::SetLabelReply.spec_code(), 1, ())),
{
    match reply {
        None => {
            let bytes = text.as_bytes();
            if bytes.len() > 88 {
                return Exchange::Done(Err(Error::BufferTooSmall));
            }
            let head: [u64; 5] = [slot as u64, x as i64 as u64, y as i64 as u64, color_rgb as u64, bytes.len() as u64];
            assert(head@ =~= seq![slot as u64, coordinate_word(x), coordinate_word(y), color_rgb as u64, bytes@.len() as u64]);
            Exchange::Send(request_with_bytes(SurfaceTag::SetLabelRequest.code(), head.as_slice(), bytes))
        },
        Some(r) => Exchange::Done(graphics_check(r, SurfaceTag::SetLabelReply.code(), 1)),
    }
}

/// The request that closes a surface (no answer comes back).
pub fn surface_close() -> (m: RawMessage)
    ensures
        is_request(m, SurfaceTag::CloseRequest.spec_code(), Seq::empty()),
{
    RawMessage::empty(SurfaceTag::CloseRequest.code())
}

/// Step of attaching pixel buffer `buffer_handle` to a surface. The request
/// carries the buffer's size and stride, and two handles: slot zero for the
/// reply endpoint the caller attaches, slot one the buffer, with read
/// rights.
pub fn surface_attach_buffer(buffer_handle: Handle, width: u32, height: u32, stride_pixels: u32, reply: Option<&RawMessage>) -> (step: Exchange<()>)
    ensures
        reply is None ==> (step matches Exchange::Send(m) && {
            &&& m.tag == SurfaceTag::AttachBufferRequest.spec_code()
            &&& m.flags == 0
            &&& m.word_count == 3
            &&& m.words[0] == width as u64
            &&& m.words[1] == height as u64
            &&& m.words[2] == stride_pixels as u64
            &&& m.handle_count == 2
            &&& m.handles[0] == INVALID_HANDLE
            &&& m.handles[1] == buffer_handle
            &&& m.handle_rights[1] == rights::READ
        }),
        reply matches Some(r) ==> step == Exchange::Done(graphics_result(*r, SurfaceTag::AttachBufferReply.spec_code(), 1, ())),
{
    match reply {
        None => {
            let mut m = RawMessage::empty(SurfaceTag::AttachBufferRequest.code());
            m.word_count = 3;
            m.words[0] = width as u64;
            m.words[1] = height as u64;
            m.words[2] = stride_pixels as u64;
            m.handle_count = 2;
            m.handles[0] = INVALID_HANDLE;
            m.handles[1] = buffer_handle;
            m.handle_rights[1] = rights::READ;
            Exchange::Send(m)
        },
        Some(r) => Exchange::Done(graphics_check(r, SurfaceTag::AttachBufferReply.code(), 1)),
    }
}

} // verus!
