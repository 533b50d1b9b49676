//! Compilador da linguagem LA (pseudocodigo com palavras-chave em portugues) para C.
//!
//! As etapas, das folhas para a raiz:
//! - `lexico`: leitor de caracteres com retrocesso e analisador lexico por reconhecedores em
//!   ordem fixa, cada token especificado por `proximo_token`;
//! - `sintatico`: arvore sintatica com consultas derivadas (tipo, texto, identificadores) e
//!   analisador descendente que devolve a arvore ou uma unica folha de erro;
//! - `semantico`: tabelas de simbolos, pilha de escopos e o analisador que acumula
//!   diagnosticos;
//! - `gerador`: geracao de codigo C pela mesma disciplina de escopos.
pub mod gerador;
pub mod lexico;
pub mod semantico;
pub mod sintatico;
pub mod texto;
