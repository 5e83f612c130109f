//! Target-session identifiers. The surface syntax of the identifier is
//! the only signal available for choosing connection parameters: an
//! X11-style display name contains a colon, a Wayland-compatible socket
//! name carries the `wayland-` prefix.

use vstd::prelude::*;

use crate::strings::contains_char;
use crate::strings::is_prefix_of;
use crate::strings::starts_with_str;
use crate::types::Backend;
use crate::types::ClientError;

verus! {

/// What kind of session an identifier names.
#[derive(Clone, Copy, PartialEq, Eq, Structural, Debug)]
pub enum SessionKind {
    /// An X11-style display name, such as `:30`.
    X11,
    /// An XWayland-compatible socket name, such as `wayland-2`.
    Wayland,
    /// Neither syntax: the engine cannot pick connection parameters.
    Unspecified,
}

/// The session kind an identifier's syntax reveals.
pub open spec fn spec_session_kind(s: Seq<char>) -> SessionKind {
    if s.contains(':') {
        SessionKind::X11
    } else if is_prefix_of("wayland-"@, s) {
        SessionKind::Wayland
    } else {
        SessionKind::Unspecified
    }
}

/// Decide connection parameters from a session identifier's syntax.
pub fn session_kind(display: &str) -> (k: SessionKind)
    ensures
        k == spec_session_kind(display@),
{
    if contains_char(display, ':') {
        SessionKind::X11
    } else if starts_with_str(display, "wayland-") {
        SessionKind::Wayland
    } else {
        SessionKind::Unspecified
    }
}

/// Whether the chosen backend can serve the named session: the native
/// backend speaks the X protocol only, so a socket-style name (one with a
/// dash) is rejected.
pub fn check_display(display: &str, backend: Backend) -> (r: Result<(), ClientError>)
    ensures
        r is Err <==> display@.contains('-') && backend is Native,
        r matches Err(e) ==> e is UnsupportedError,
{
    if contains_char(display, '-') && matches!(backend, Backend::Native) {
        Err(ClientError::UnsupportedError)
    } else {
        Ok(())
    }
}

} // verus!
