//! Resolved types of a compiler's type system, the context-bound structural
//! equivalence between them, and the classification predicates that later
//! passes use.

pub mod compile_wrapper;
pub mod ident;
pub mod laws;
pub mod resolved_type;

pub use compile_wrapper::{CompileWrapper, DeclarationEngine, ToCompileWrapper};
pub use ident::{CallPath, Ident};
pub use resolved_type::{IntegerBits, ResolvedType, TypedExpression, TypedStructField};
