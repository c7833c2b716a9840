//! Recognises supported software-defined radio dongles among attached USB
//! devices and decides, step by step, how one of them is acquired for
//! exclusive use.

pub mod acquisition;
pub mod enumerator;
pub mod error;
pub mod first;
pub mod matcher;
pub mod registry;
pub mod runs;
