//! AuthVital SDK for Rust.
//!
//! The SDK for the AuthVital Identity Platform is not implemented yet. Until
//! it is, no client can be constructed: the construction entry point admits
//! no call, and one made all the same is answered by raising the signal that
//! says where to follow the project.

use vstd::prelude::*;

pub mod signal;

pub use signal::Unimplemented;

verus! {

/// Whether the SDK is implemented, so that a client can be constructed. It is
/// not yet.
pub open spec fn implemented() -> bool {
    false
}

/// The AuthVital client.
///
/// No client can be obtained from [`AuthVital::new`] yet.
pub struct AuthVital;

impl AuthVital {
    /// Creates a new AuthVital client.
    ///
    /// Construction asks that the SDK is implemented, which no caller can
    /// show yet: verified code cannot call this function.
    ///
    /// # Panics
    ///
    /// A call from code that is not verified never returns: it is answered by
    /// raising [`Unimplemented`], as a panic whose text is exactly
    /// [`signal_text`](Unimplemented::signal_text).
    pub fn new() -> (client: AuthVital)
        requires
            implemented(),
    {
        let absent: Option<AuthVital> = None;
        absent.expect(Unimplemented.signal_text())
    }
}

} // verus!
