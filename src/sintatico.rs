pub mod arvore_sintatica;
pub mod parser;
