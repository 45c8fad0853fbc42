//! Front end of a dependently typed language: scope resolution, lowering of
//! syntax to a high-level representation, a registry of primitive types, and
//! bidirectional elaboration into a core calculus with evaluation by NbE.
pub mod hir;
pub mod scope;
pub mod db;
pub mod primitives;
pub mod value;
pub mod meta;
pub mod context;
pub mod elab;
pub mod syntax;
pub mod lowering;
pub mod walking;
pub mod lowered;
