//! Semantic analysis.

pub mod rules;
pub mod analyzer;
pub mod laws;

pub use analyzer::SemanticAnalyzer;
