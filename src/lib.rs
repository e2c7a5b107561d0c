pub mod handler;
pub mod llm;
pub mod python_invoker;
pub mod text;
pub mod websearch;
pub mod laws;
