pub mod graph_model;
pub mod cycles;
pub mod condition;
pub mod dag;
pub mod topological_sort;
pub mod chain;

pub use chain::DependencyChain;
pub use condition::{ConditionBuilder, ConditionFn};
pub use dag::{DependencyGraph, DependencyInfo, StepId};
