//! Value domains, call resolution and interpreter bookkeeping for a small
//! language with two stages: `source`, with structured control flow and
//! lexical lambdas, and `lowered`, with unstructured control flow and lifted
//! functions. A call made at one stage runs the callee's body at that stage
//! when it has one, and otherwise crosses to the other stage.
//!
//! - `domains`: the type lattice and the constant-propagation lattice, with
//!   the abstract transfer function of every operation; `laws` proves them
//!   lattices and the transfer functions sound and monotone.
//! - `values`: the value interfaces the interpreters are generic over.
//! - `pipeline`, `dispatch`: the program's stages, functions and symbol
//!   tables, and the resolution of calls within and across stages.
//! - `machine`: the stepping of the concrete interpreters.
//! - `fixpoint`: the summaries and worklists of interprocedural abstract
//!   interpretation.
//! - `liveness`: backward liveness and free variables over the IR.

pub mod assoc;
pub mod cursors;
pub mod dispatch;
pub mod domains;
pub mod error;
pub mod fixpoint;
pub mod laws;
pub mod liveness;
pub mod machine;
pub mod pipeline;
pub mod profile;
pub mod values;
