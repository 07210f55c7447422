use vstd::prelude::*;

use crate::errors::BlurErrorCode;
use crate::handles::BlurSystemHandle;
use crate::protocol::BlurRect;
use crate::protocol::BlurSystemOptions;
use crate::protocol::BlurWindowOptionsC;
use crate::protocol::NativeCall;
use crate::protocol::spec_bool_flag;

verus! {

/// The system context: the owner of the single native system handle,
/// together with the configuration snapshot it was initialized with.
///
/// A non-null handle means the native system is initialized and may
/// accept window-creation calls. A context is initialized exactly once —
/// a caller needing a new context constructs a new value — and released
/// exactly once through [`BlurSystem::close`], which is idempotent.
#[derive(Clone, Debug, PartialEq)]
pub struct BlurSystem {
    pub handle: BlurSystemHandle,
    pub options: BlurSystemOptions,
}

impl BlurSystem {
    /// A context able to accept window-creation calls.
    pub open spec fn is_initialized(self) -> bool {
        !self.handle.spec_is_null()
    }

    /// True exactly when the context holds a live system handle.
    pub fn initialized(&self) -> (r: bool)
        ensures
            r == self.is_initialized(),
    {
        !self.handle.is_null()
    }

    /// The one native initialization call for a configuration, with the
    /// configuration already flattened to the primitive shape the native
    /// layer takes. Fails only when the configuration itself cannot
    /// cross the boundary (a log path with an embedded terminator byte).
    pub fn init_call(options: &BlurSystemOptions) -> (r: Result<NativeCall, BlurErrorCode>)
        ensures
            crate::protocol::system_options_rejected(*options) ==> r == Err::<
                NativeCall,
                BlurErrorCode,
            >(BlurErrorCode::InvalidParameter),
            !crate::protocol::system_options_rejected(*options) ==> (r matches Ok(c) && (
            c matches NativeCall::Init { opts } && crate::protocol::system_options_flattened(
                *options,
                opts,
            ))),
    {
        let opts = options.to_c()?;
        Ok(NativeCall::Init { opts })
    }

    /// Adopt the outcome of the initialization call: a non-null handle
    /// yields the owning context; a null handle is an initialization
    /// failure carrying the engine's last-error detail when one was
    /// available, and the generic message otherwise.
    pub fn new(options: BlurSystemOptions, raw: BlurSystemHandle, detail: Option<String>) -> (r:
        Result<BlurSystem, String>)
        ensures
            !raw.spec_is_null() ==> r == Ok::<BlurSystem, String>(
                BlurSystem { handle: raw, options },
            ),
            raw.spec_is_null() ==> (r matches Err(m) && (match detail {
                Some(d) => m == d,
                None => m@ == "Failed to initialize blur system"@,
            })),
    {
        if raw.is_null() {
            match detail {
                Some(d) => Err(d),
                None => Err("Failed to initialize blur system".to_owned()),
            }
        } else {
            Ok(BlurSystem { handle: raw, options })
        }
    }

    /// The native call that creates a window session against this
    /// context, for an owner window identity (`0` = none), a position,
    /// a size and the two overlay flags — or `NotInitialized`, with no
    /// call at all, when the context's handle is null.
    pub fn create_window(
        &self,
        owner: u64,
        x: i32,
        y: i32,
        w: i32,
        h: i32,
        top_most: bool,
        click_through: bool,
    ) -> (r: Result<NativeCall, BlurErrorCode>)
        requires
            i32::MIN <= x + w <= i32::MAX,
            i32::MIN <= y + h <= i32::MAX,
        ensures
            !self.is_initialized() ==> r == Err::<NativeCall, BlurErrorCode>(
                BlurErrorCode::NotInitialized,
            ),
            self.is_initialized() ==> r == Ok::<NativeCall, BlurErrorCode>(
                NativeCall::CreateWindow {
                    sys: self.handle,
                    owner,
                    opts: BlurWindowOptionsC {
                        owner,
                        bounds: BlurRect {
                            left: x,
                            top: y,
                            right: (x + w) as i32,
                            bottom: (y + h) as i32,
                        },
                        top_most: spec_bool_flag(top_most),
                        click_through: spec_bool_flag(click_through),
                    },
                },
            ),
    {
        if self.handle.is_null() {
            return Err(BlurErrorCode::NotInitialized);
        }
        Ok(
            NativeCall::CreateWindow {
                sys: self.handle,
                owner,
                opts: BlurWindowOptionsC {
                    owner,
                    bounds: BlurRect { left: x, top: y, right: x + w, bottom: y + h },
                    top_most: crate::protocol::bool_flag(top_most),
                    click_through: crate::protocol::bool_flag(click_through),
                },
            },
        )
    }

    /// The closed (released) context: null handle, configuration kept.
    pub open spec fn spec_closed(self) -> BlurSystem {
        BlurSystem { handle: BlurSystemHandle(0), ..self }
    }

    /// The native call closing requires: one shutdown call for a live
    /// handle, none for a context already closed or never initialized.
    pub open spec fn spec_close_call(self) -> Option<NativeCall> {
        if self.is_initialized() {
            Some(NativeCall::Shutdown { sys: self.handle })
        } else {
            None
        }
    }

    /// Release the system handle and mark it null. Idempotent: closing
    /// an already-closed context changes nothing and requires no native
    /// call.
    pub fn close(&mut self) -> (r: Option<NativeCall>)
        ensures
            *final(self) == old(self).spec_closed(),
            r == old(self).spec_close_call(),
    {
        let r = if self.handle.is_null() {
            None
        } else {
            Some(NativeCall::Shutdown { sys: self.handle })
        };
        self.handle = BlurSystemHandle::null();
        r
    }
}

} // verus!
