use vstd::prelude::*;
use crate::semantico::tabela_de_simbolos::{Simbolo, TabelaDeSimbolos, TipoSimbolo};

verus! {

/// Tipo de `nome` na pilha de escopos `ts`, do mais interno (indice 0) ao mais externo.
pub open spec fn resolve(ts: Seq<TabelaDeSimbolos>, nome: Seq<char>) -> Option<TipoSimbolo>
    decreases ts.len(),
{
    if ts.len() == 0 {
        None
    } else if ts[0].consulta(nome) is Some {
        ts[0].consulta(nome)
    } else {
        resolve(ts.drop_first(), nome)
    }
}

/// Pilha de escopos, o mais interno primeiro; nunca vazia.
#[derive(Debug)]
pub struct Escopos {
    tabelas: Vec<TabelaDeSimbolos>,
}

impl Escopos {
    /// Tabelas da pilha, a mais interna primeiro.
    pub closed spec fn pilha(&self) -> Seq<TabelaDeSimbolos> {
        self.tabelas@
    }

    /// Tipo de `nome` no escopo mais interno que o declara.
    pub open spec fn resolve(&self, nome: Seq<char>) -> Option<TipoSimbolo> {
        resolve(self.pilha(), nome)
    }

    pub open spec fn wf(&self) -> bool {
        self.pilha().len() >= 1
    }

    /// Pilha com um escopo vazio, com tipo de retorno `retorno`.
    pub fn new(retorno: TipoSimbolo) -> (r: Self)
        ensures
            r.wf(),
            r.pilha().len() == 1,
            r.pilha()[0].retorno_spec() == retorno,
            forall|n: Seq<char>| r.pilha()[0].consulta(n) is None,
            forall|n: Seq<char>| r.resolve(n) is None,
    {
        let mut escopos = Escopos { tabelas: Vec::new() };
        escopos.novo_escopo(retorno);
        proof {
            assert forall|n: Seq<char>| escopos.resolve(n) is None by {
                assert(escopos.pilha().drop_first().len() == 0);
            }
        }
        escopos
    }

    /// Empilha um escopo vazio com tipo de retorno `retorno`.
    pub fn novo_escopo(&mut self, retorno: TipoSimbolo)
        ensures
            final(self).pilha().len() == old(self).pilha().len() + 1,
            final(self).pilha().drop_first() == old(self).pilha(),
            final(self).pilha()[0].retorno_spec() == retorno,
            forall|n: Seq<char>| final(self).pilha()[0].consulta(n) is None,
            forall|n: Seq<char>| final(self).resolve(n) == old(self).resolve(n),
    {
        self.tabelas.insert(0, TabelaDeSimbolos::new(retorno));
        proof {
            assert(self.pilha().drop_first() =~= old(self).pilha());
        }
    }

    /// Escopo mais interno, para consulta e insercao.
    pub fn escopo_atual(&mut self) -> (r: &mut TabelaDeSimbolos)
        requires
            old(self).wf(),
        ensures
            *r == old(self).pilha()[0],
            final(self).pilha() == old(self).pilha().update(0, *final(r)),
    {
        &mut self.tabelas[0]
    }

    /// Copia das tabelas, a mais interna primeiro.
    pub fn tabelas(&self) -> (r: Vec<TabelaDeSimbolos>)
        ensures
            r@.len() == self.pilha().len(),
            forall|i: int| 0 <= i < r@.len() ==> r@[i].simbolos() == self.pilha()[i].simbolos()
                && r@[i].retorno_spec() == self.pilha()[i].retorno_spec(),
    {
        let mut v: Vec<TabelaDeSimbolos> = Vec::new();
        let mut i: usize = 0;
        while i < self.tabelas.len()
            invariant
                i <= self.tabelas@.len(),
                v@.len() == i,
                forall|k: int| 0 <= k < i ==> v@[k].simbolos() == self.tabelas@[k].simbolos()
                    && v@[k].retorno_spec() == self.tabelas@[k].retorno_spec(),
            decreases self.tabelas@.len() - i,
        {
            v.push(self.tabelas[i].copia());
            i = i + 1;
        }
        v
    }

    /// Desempilha o escopo mais interno; o escopo mais externo nunca e removido.
    pub fn abandonar_escopo(&mut self)
        requires
            old(self).wf(),
        ensures
            final(self).wf(),
            old(self).pilha().len() > 1 ==> final(self).pilha() == old(self).pilha().drop_first(),
            old(self).pilha().len() == 1 ==> final(self).pilha() == old(self).pilha(),
    {
        if self.tabelas.len() > 1 {
            self.tabelas.remove(0);
            proof {
                assert(self.pilha() =~= old(self).pilha().drop_first());
            }
        }
    }

    /// Simbolo `nome` do escopo mais interno que o declara.
    pub fn verificar(&self, nome: &str) -> (r: Option<Simbolo>)
        ensures
            r is Some <==> self.resolve(nome@) is Some,
            r is Some ==> r->0.nome@ == nome@ && Some(r->0.tipo) == self.resolve(nome@),
    {
        let mut i: usize = 0;
        proof {
            assert(self.tabelas@.subrange(0, self.tabelas@.len() as int) =~= self.tabelas@);
        }
        while i < self.tabelas.len()
            invariant
                i <= self.tabelas@.len(),
                resolve(self.tabelas@, nome@) == resolve(self.tabelas@.subrange(i as int, self.tabelas@.len() as int), nome@),
            decreases self.tabelas@.len() - i,
        {
            proof {
                let s = self.tabelas@.subrange(i as int, self.tabelas@.len() as int);
                assert(s.drop_first() =~= self.tabelas@.subrange(i + 1, self.tabelas@.len() as int));
            }
            let r = self.tabelas[i].verificar(nome);
            if r.is_some() {
                return r;
            }
            i = i + 1;
        }
        None
    }

    /// Verifica se `nome` esta declarado em algum escopo.
    pub fn existe(&self, nome: &str) -> (r: bool)
        ensures
            r == self.resolve(nome@) is Some,
    {
        self.verificar(nome).is_some()
    }

    /// Tipo de `nome` no escopo mais interno que o declara, ou Invalido.
    pub fn tipo_de(&self, nome: &str) -> (r: TipoSimbolo)
        ensures
            self.resolve(nome@) is Some ==> r == self.resolve(nome@)->0,
            self.resolve(nome@) is None ==> r == TipoSimbolo::Invalido,
    {
        match self.verificar(nome) {
            Some(s) => s.tipo,
            None => TipoSimbolo::Invalido,
        }
    }

    /// Verifica se `nome` esta declarado no escopo mais interno.
    pub fn existe_no_atual(&self, nome: &str) -> (r: bool)
        requires
            self.wf(),
        ensures
            r == self.pilha()[0].consulta(nome@) is Some,
    {
        self.tabelas[0].existe(nome)
    }

    /// Associa `nome` a `tipo` no escopo mais interno.
    pub fn inserir(&mut self, nome: &str, tipo: &TipoSimbolo)
        requires
            old(self).wf(),
        ensures
            final(self).wf(),
            final(self).pilha().len() == old(self).pilha().len(),
            final(self).pilha().drop_first() == old(self).pilha().drop_first(),
            final(self).pilha()[0].retorno_spec() == old(self).pilha()[0].retorno_spec(),
            final(self).pilha()[0].consulta(nome@) == Some(*tipo),
            forall|n: Seq<char>| n != nome@ ==> final(self).pilha()[0].consulta(n) == old(
                self,
            ).pilha()[0].consulta(n),
            final(self).resolve(nome@) == Some(*tipo),
    {
        let t = self.escopo_atual();
        t.inserir(nome, tipo);
        proof {
            assert(self.pilha().drop_first() =~= old(self).pilha().drop_first());
        }
    }

    /// Tipo de retorno permitido no escopo mais interno.
    pub fn retorno_atual(&self) -> (r: TipoSimbolo)
        requires
            self.wf(),
        ensures
            r == self.pilha()[0].retorno_spec(),
    {
        self.tabelas[0].tipo_retorno()
    }
}

} // verus!
