//! The decisions of the request middleware; the shell performs the
//! cookie and header work around them.

pub mod auth_mw;
