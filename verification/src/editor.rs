//! What the editor asks of the session.

pub mod io;
pub mod tabs;
