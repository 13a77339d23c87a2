//! Dynamic object storage for a bytecode-interpreted scripting runtime:
//! named properties, fixed slots, prototype links and the arena that owns
//! every object.

pub mod names;
pub mod object;
pub mod function;
pub mod value;
pub mod property;
pub mod model;
pub mod storage;
pub mod heap;
pub mod laws;
