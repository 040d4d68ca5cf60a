//! Fixed-layout building blocks for values that cross the module boundary:
//! an owning dynamic array, a borrowed string view, and a foreign-owned
//! string handle.

mod array;
mod csstring;
mod ruststring;

pub use array::RawArray;
pub use csstring::CsString;
pub use ruststring::RustStr;
