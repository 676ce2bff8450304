pub mod lb;
pub mod parser;
pub mod pmd;
pub mod queue;
pub mod rewrite;
pub mod tx;
pub mod worker;
