//! Browser Lifecycle Facade: the rules for creating, resizing, focusing,
//! loading, closing and releasing an engine-owned browser.
//!
//! The engine owns the browser object; the bridge only borrows an opaque
//! handle. Each operation here either interprets what the engine handed
//! back or plans what the shell must ask the engine or the window system to
//! do, as a plain-value request record. The release capability is modelled
//! with an explicit consumed flag, so a second release is rejected before
//! it can reach the engine.

use vstd::prelude::*;

use crate::BridgeError;
use crate::Platform;
use crate::paths::append_bytes;

verus! {

/// A borrowed, engine-owned browser handle: the engine's non-zero opaque
/// token plus the one-shot release capability.
pub struct BrowserHandle {
    /// The engine's token for the browser; never zero.
    pub id: u64,
    /// Whether the release capability has been used.
    pub released: bool,
}

impl BrowserHandle {
    /// A handle is valid while its token is non-zero.
    pub open spec fn wf(&self) -> bool {
        self.id != 0
    }

    /// Interprets the token the engine returned from browser creation: a
    /// zero token means creation failed (an invalid window at the platform
    /// level), any other token is a live handle with its release capability
    /// unused.
    pub fn adopt(raw: u64) -> (r: Option<BrowserHandle>)
        ensures
            raw == 0 ==> r is None,
            raw != 0 ==> (r matches Some(h) && h.id == raw && !h.released && h.wf()),
    {
        if raw == 0 {
            None
        } else {
            Some(BrowserHandle { id: raw, released: false })
        }
    }

    /// Uses the release capability: at most once per handle. The first call
    /// yields the request the shell passes to the engine; any further call
    /// is rejected before it can reach the engine, with the handle
    /// unchanged.
    pub fn release(&mut self) -> (r: Result<ReleaseRequest, BridgeError>)
        ensures
            old(self).released ==> r == Err::<ReleaseRequest, BridgeError>(
                BridgeError::HandleAlreadyReleased,
            ) && *final(self) == *old(self),
            !old(self).released ==> (r matches Ok(q) && q.id == old(self).id
                && final(self).released && final(self).id == old(self).id),
    {
        if self.released {
            Err(BridgeError::HandleAlreadyReleased)
        } else {
            self.released = true;
            Ok(ReleaseRequest { id: self.id })
        }
    }
}

/// Judges the reference count the engine reported after a release: exactly
/// the engine-internal minimum of one remaining reference is sound; any
/// other count is a lifecycle bug that must be surfaced, never ignored.
pub fn confirm_release(refs_remaining: u64) -> (r: Result<(), BridgeError>)
    ensures
        r is Ok <==> refs_remaining == 1,
        r is Err ==> r == Err::<(), BridgeError>(BridgeError::RefCountMismatch),
{
    if refs_remaining == 1 {
        Ok(())
    } else {
        Err(BridgeError::RefCountMismatch)
    }
}

/// The request handed to the engine's release entry.
#[derive(Debug)]
pub struct ReleaseRequest {
    /// The engine token to release.
    pub id: u64,
}

/// The request handed to the browser-creation collaborator.
#[derive(Debug)]
pub struct CreateRequest {
    /// The native window to embed into.
    pub window: u64,
    /// The initial URL.
    pub url: Vec<u8>,
    /// Initial width in pixels.
    pub width: i32,
    /// Initial height in pixels.
    pub height: i32,
}

/// Plans a browser creation: screens the client capability record by the size
/// the engine ABI declares for it, and fixes the embedding arguments.
/// Succeeds exactly when the sizes agree; a mismatch is the fatal ABI-skew
/// condition.
pub fn plan_create(
    window: u64,
    url: &Vec<u8>,
    width: i32,
    height: i32,
    client_record_size: usize,
    expected_client_size: usize,
) -> (r: Result<CreateRequest, BridgeError>)
    ensures
        r is Ok <==> client_record_size == expected_client_size,
        r matches Ok(q) ==> q.window == window && q.url@ == url@ && q.width == width && q.height
            == height,
        r is Err ==> r == Err::<CreateRequest, BridgeError>(BridgeError::AbiMismatch),
{
    if client_record_size != expected_client_size {
        return Err(BridgeError::AbiMismatch);
    }
    let mut url_copy: Vec<u8> = Vec::new();
    append_bytes(&mut url_copy, url);
    Ok(CreateRequest { window, url: url_copy, width, height })
}

/// The request handed to the engine to close a browser. Closing is
/// asynchronous: completion is observed through a collaborator callback,
/// not through this request.
#[derive(Debug)]
pub struct CloseRequest {
    /// The engine token of the browser to close.
    pub id: u64,
    /// Whether the close is forced, skipping unload handlers; the bridge
    /// always requests a graceful close.
    pub force: bool,
}

/// Plans a graceful close of a live browser — the request is never forced —
/// and rejects a released handle.
pub fn plan_close(h: &BrowserHandle) -> (r: Result<CloseRequest, BridgeError>)
    ensures
        h.released ==> r == Err::<CloseRequest, BridgeError>(BridgeError::HandleAlreadyReleased),
        !h.released ==> (r matches Ok(q) && q.id == h.id && !q.force),
{
    if h.released {
        Err(BridgeError::HandleAlreadyReleased)
    } else {
        Ok(CloseRequest { id: h.id, force: false })
    }
}

/// The request handed to the browser's primary content frame.
#[derive(Debug)]
pub struct LoadUrlRequest {
    /// The engine token of the browser whose frame loads the URL.
    pub id: u64,
    /// The URL to load.
    pub url: Vec<u8>,
}

/// Plans loading a URL in the browser's primary content frame; a released
/// handle is rejected.
pub fn plan_load_url(h: &BrowserHandle, url: &Vec<u8>) -> (r: Result<LoadUrlRequest, BridgeError>)
    ensures
        h.released ==> r == Err::<LoadUrlRequest, BridgeError>(BridgeError::HandleAlreadyReleased),
        !h.released ==> (r matches Ok(q) && q.id == h.id && q.url@ == url@),
{
    if h.released {
        Err(BridgeError::HandleAlreadyReleased)
    } else {
        let mut url_copy: Vec<u8> = Vec::new();
        append_bytes(&mut url_copy, url);
        Ok(LoadUrlRequest { id: h.id, url: url_copy })
    }
}

/// The URL the facade reports for a browser: the primary frame's URL where
/// one exists, the empty result — not an error — where no frame has loaded
/// yet or the frame reports no URL.
pub fn url_from_frame(frame_url: Option<Vec<u8>>) -> (r: Vec<u8>)
    ensures
        frame_url is None ==> r@ == Seq::<u8>::empty(),
        frame_url matches Some(u) ==> r@ == u@,
{
    match frame_url {
        None => Vec::new(),
        Some(u) => u,
    }
}

/// The window-geometry work one resize needs on each platform.
#[derive(Debug, PartialEq, Eq, Structural)]
pub enum ResizeAction {
    /// Nothing to do: the native windowing system tracks the parent.
    NoAction,
    /// Issue an X window-configure request with this geometry.
    ConfigureWindow {
        /// Horizontal position.
        x: i32,
        /// Vertical position.
        y: i32,
        /// New width.
        width: i32,
        /// New height.
        height: i32,
    },
    /// Issue a Win32 set-window-position call with this geometry, keeping
    /// the stacking order.
    SetWindowPosition {
        /// Horizontal position.
        x: i32,
        /// Vertical position.
        y: i32,
        /// New width.
        width: i32,
        /// New height.
        height: i32,
    },
}

/// Plans a resize: Cocoa needs no explicit update, X11 and Win32 get an
/// explicit geometry update at the origin with the new extent.
pub fn resize_action(p: Platform, width: i32, height: i32) -> (r: ResizeAction)
    ensures
        p is Cocoa ==> r is NoAction,
        p is X11 ==> (r matches ResizeAction::ConfigureWindow { x, y, width: w, height: h } && x
            == 0 && y == 0 && w == width && h == height),
        p is Win32 ==> (r matches ResizeAction::SetWindowPosition { x, y, width: w, height: h }
            && x == 0 && y == 0 && w == width && h == height),
{
    match p {
        Platform::Cocoa => ResizeAction::NoAction,
        Platform::X11 => ResizeAction::ConfigureWindow { x: 0, y: 0, width, height },
        Platform::Win32 => ResizeAction::SetWindowPosition { x: 0, y: 0, width, height },
    }
}

/// The focus work one focus change needs: what the engine is told, and
/// whether the window system must additionally present a fallback window.
pub struct FocusPlan {
    /// Whether the engine's browser host is told to take focus.
    pub engine_focus: bool,
    /// The fallback window whose toplevel the window system must present,
    /// where the defocus workaround applies; at most one present call.
    pub present_fallback: Option<u64>,
}

/// Plans a focus change. The engine is always told the new focus state.
/// When focus leaves the browser and a fallback window is supplied, on the
/// platform where focus does not visually release from the embedded view
/// (X11) the plan additionally presents the fallback's toplevel — exactly
/// once. The other platforms release focus themselves; the Win32 side of
/// the workaround is a known gap, deliberately not planned here.
pub fn focus_plan(p: Platform, focused: bool, fallback_window: u64) -> (r: FocusPlan)
    ensures
        r.engine_focus == focused,
        r.present_fallback == (if p is X11 && !focused && fallback_window != 0 {
            Some(fallback_window)
        } else {
            None::<u64>
        }),
{
    let present = match p {
        Platform::X11 => {
            if !focused && fallback_window != 0 {
                Some(fallback_window)
            } else {
                None
            }
        },
        _ => None,
    };
    FocusPlan { engine_focus: focused, present_fallback: present }
}

} // verus!
