//! Generator core for cross-language bindings: classifies the types in an
//! exported function signature, rewrites the function into an ABI-stable
//! stub, and emits the foreign-side glue that calls the stub.

pub mod analyze;
pub mod canon;
pub mod classify;
pub mod emit;
pub mod javagen;
pub mod model;
pub mod state;
pub mod strutil;
pub mod stub;

pub use model::ArgKind;
pub use model::BindError;
pub use model::FnItem;
pub use model::FnParam;
pub use model::ParamPat;
pub use model::RustFnArg;
pub use model::RustType;
