//! Smart-pointer ownership concepts, stated and proved: recursive boxed
//! chains, a user-defined box that dereferences to its contents, the
//! bookkeeping of reference-counted handles with weak references, the leak
//! that a cycle of strong handles causes, the flag of a runtime-checked
//! borrow cell, and the order in which a scope releases what it acquired.
pub mod borrow_flag;
pub mod chain;
pub mod custom_box;
pub mod cycle;
pub mod scope;
pub mod shared;
