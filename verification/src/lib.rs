//! Verified core of a dear imgui binding: flag sets, the IO block, font atlas
//! bookkeeping and clipboard text conversion, over a plain-value model of the
//! C structures they wrap.

pub mod flags;
pub mod fonts;
pub mod io;
pub mod raw;
pub mod clipboard;
