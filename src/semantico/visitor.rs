use vstd::prelude::*;
use crate::sintatico::arvore_sintatica::{bem_formado, NoAST};

verus! {

/// Percurso de uma arvore sintatica bem formada.
pub trait Visitor {
    /// Invariante do visitante.
    spec fn inv(&self) -> bool;

    /// O que tratar o no `no` faz do estado `antes`.
    spec fn visitou(&self, antes: &Self, no: NoAST) -> bool;

    /// O que percorrer a arvore `no` faz do estado `antes`.
    spec fn percorreu(&self, antes: &Self, no: NoAST) -> bool;

    /// Trata um no.
    fn visit(&mut self, no: &NoAST)
        requires
            old(self).inv(),
            bem_formado(*no),
        ensures
            final(self).inv(),
            final(self).visitou(old(self), *no),
    ;

    /// Trata o no e depois, recursivamente, os seus filhos.
    fn traverse(&mut self, no: &NoAST)
        requires
            old(self).inv(),
            bem_formado(*no),
        ensures
            final(self).inv(),
            final(self).percorreu(old(self), *no),
    ;
}

} // verus!
