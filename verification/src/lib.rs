//! Callable values with explicitly declared, statically typed captured state.
//!
//! Each callable bundles two things: a captured-environment value of a fixed
//! type `C`, and a plain, non-capturing function that receives access to that
//! environment together with the call arguments and produces a result. The
//! captured state is carried entirely in the `captured` field, never inside
//! the function slot, so equality, cloning and copying of a callable are
//! decided by its two fields alone.
//!
//! Three kinds differ only in how the environment is exposed to the function:
//! [`Func`] passes a shared reference and may be called any number of times;
//! [`FuncMut`] threads the environment value through each call, so state
//! changes persist across calls on the same entity; [`FuncOnce`] passes the
//! environment by value and is therefore callable exactly once — the call
//! consumes the entity, and a second call is rejected by the type system.
//!
//! Arity is encoded in the parameter-tuple type `P`: a concrete
//! specialization of each kind exists for every parameter count from zero
//! through eight, and a call site must know the arity of its callable.

mod func;
mod func_mut;
mod func_once;

pub use func::Func;
pub use func::lemma_func_eq_characterization;
pub use func_mut::FuncMut;
pub use func_mut::lemma_func_mut_eq_characterization;
pub use func_once::FuncOnce;
pub use func_once::lemma_func_once_eq_characterization;
