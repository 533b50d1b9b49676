use vstd::prelude::*;

verus! {

/// Tipo de um simbolo da linguagem LA.
#[derive(Debug)]
pub enum TipoSimbolo {
    Cadeia,
    Real,
    Inteiro,
    Logico,
    /// Registro com seus campos, em ordem de declaracao.
    Registro(Box<Membros>),
    /// Funcao com seus parametros e tipo de retorno.
    Funcao(Box<Membros>, Box<TipoSimbolo>),
    /// Procedimento com seus parametros.
    Procedimento(Box<Membros>),
    Ponteiro(Box<TipoSimbolo>),
    Vazio,
    Invalido,
}

/// Lista de membros (campos de registro ou parametros), cada um com nome e tipo.
#[derive(Debug)]
pub enum Membros {
    Fim,
    Membro(String, Box<TipoSimbolo>, Box<Membros>),
}

/// Numero de membros.
pub open spec fn num_membros(m: Membros) -> nat
    decreases m,
{
    match m {
        Membros::Fim => 0,
        Membros::Membro(_, _, resto) => 1 + num_membros(*resto),
    }
}

/// Membros de `a` seguidos dos de `b`.
pub open spec fn concatena(a: Membros, b: Membros) -> Membros
    decreases a,
{
    match a {
        Membros::Fim => b,
        Membros::Membro(n, t, resto) => Membros::Membro(n, t, Box::new(concatena(*resto, b))),
    }
}

/// Igualdade estrutural de tipos: registros, funcoes e procedimentos comparam os tipos dos
/// membros, na ordem, e nao os nomes.
pub open spec fn mesmo_tipo(a: TipoSimbolo, b: TipoSimbolo) -> bool
    decreases a,
{
    match a {
        TipoSimbolo::Cadeia => b is Cadeia,
        TipoSimbolo::Real => b is Real,
        TipoSimbolo::Inteiro => b is Inteiro,
        TipoSimbolo::Logico => b is Logico,
        TipoSimbolo::Vazio => b is Vazio,
        TipoSimbolo::Invalido => b is Invalido,
        TipoSimbolo::Registro(x) => match b {
            TipoSimbolo::Registro(y) => mesmos_membros(*x, *y),
            _ => false,
        },
        TipoSimbolo::Procedimento(x) => match b {
            TipoSimbolo::Procedimento(y) => mesmos_membros(*x, *y),
            _ => false,
        },
        TipoSimbolo::Funcao(x, rx) => match b {
            TipoSimbolo::Funcao(y, ry) => mesmos_membros(*x, *y) && mesmo_tipo(*rx, *ry),
            _ => false,
        },
        TipoSimbolo::Ponteiro(x) => match b {
            TipoSimbolo::Ponteiro(y) => mesmo_tipo(*x, *y),
            _ => false,
        },
    }
}

/// Listas de membros com o mesmo numero de membros e tipos iguais, posicao a posicao.
pub open spec fn mesmos_membros(a: Membros, b: Membros) -> bool
    decreases a,
{
    match a {
        Membros::Fim => b is Fim,
        Membros::Membro(_, ta, ra) => match b {
            Membros::Membro(_, tb, rb) => mesmo_tipo(*ta, *tb) && mesmos_membros(*ra, *rb),
            Membros::Fim => false,
        },
    }
}

/// Tipo numerico: inteiro ou real.
pub open spec fn numerico(t: TipoSimbolo) -> bool {
    t is Inteiro || t is Real
}

impl TipoSimbolo {
    /// Copia exata do tipo.
    pub fn copia(&self) -> (r: TipoSimbolo)
        ensures
            r == *self,
        decreases self,
    {
        match self {
            TipoSimbolo::Cadeia => TipoSimbolo::Cadeia,
            TipoSimbolo::Real => TipoSimbolo::Real,
            TipoSimbolo::Inteiro => TipoSimbolo::Inteiro,
            TipoSimbolo::Logico => TipoSimbolo::Logico,
            TipoSimbolo::Vazio => TipoSimbolo::Vazio,
            TipoSimbolo::Invalido => TipoSimbolo::Invalido,
            TipoSimbolo::Registro(m) => TipoSimbolo::Registro(Box::new(m.copia())),
            TipoSimbolo::Procedimento(m) => TipoSimbolo::Procedimento(Box::new(m.copia())),
            TipoSimbolo::Funcao(m, r) => TipoSimbolo::Funcao(
                Box::new(m.copia()),
                Box::new(r.copia()),
            ),
            TipoSimbolo::Ponteiro(t) => TipoSimbolo::Ponteiro(Box::new(t.copia())),
        }
    }

    /// Compara `self` e `outro` estruturalmente.
    pub fn igual(&self, outro: &TipoSimbolo) -> (r: bool)
        ensures
            r == mesmo_tipo(*self, *outro),
        decreases self,
    {
        match self {
            TipoSimbolo::Cadeia => matches!(outro, TipoSimbolo::Cadeia),
            TipoSimbolo::Real => matches!(outro, TipoSimbolo::Real),
            TipoSimbolo::Inteiro => matches!(outro, TipoSimbolo::Inteiro),
            TipoSimbolo::Logico => matches!(outro, TipoSimbolo::Logico),
            TipoSimbolo::Vazio => matches!(outro, TipoSimbolo::Vazio),
            TipoSimbolo::Invalido => matches!(outro, TipoSimbolo::Invalido),
            TipoSimbolo::Registro(x) => match outro {
                TipoSimbolo::Registro(y) => x.iguais(y),
                _ => false,
            },
            TipoSimbolo::Procedimento(x) => match outro {
                TipoSimbolo::Procedimento(y) => x.iguais(y),
                _ => false,
            },
            TipoSimbolo::Funcao(x, rx) => match outro {
                TipoSimbolo::Funcao(y, ry) => x.iguais(y) && rx.igual(ry),
                _ => false,
            },
            TipoSimbolo::Ponteiro(x) => match outro {
                TipoSimbolo::Ponteiro(y) => x.igual(y),
                _ => false,
            },
        }
    }

    /// Verifica se o tipo e inteiro ou real.
    pub fn e_numerico(&self) -> (r: bool)
        ensures
            r == numerico(*self),
    {
        match self {
            TipoSimbolo::Inteiro | TipoSimbolo::Real => true,
            _ => false,
        }
    }
}

impl Membros {
    /// Copia exata da lista.
    pub fn copia(&self) -> (r: Membros)
        ensures
            r == *self,
        decreases self,
    {
        match self {
            Membros::Fim => Membros::Fim,
            Membros::Membro(n, t, resto) => Membros::Membro(
                n.clone(),
                Box::new(t.copia()),
                Box::new(resto.copia()),
            ),
        }
    }

    /// Compara os tipos dos membros, posicao a posicao.
    pub fn iguais(&self, outro: &Membros) -> (r: bool)
        ensures
            r == mesmos_membros(*self, *outro),
        decreases self,
    {
        match self {
            Membros::Fim => matches!(outro, Membros::Fim),
            Membros::Membro(_, ta, ra) => match outro {
                Membros::Membro(_, tb, rb) => ta.igual(tb) && ra.iguais(rb),
                Membros::Fim => false,
            },
        }
    }

    /// Numero de membros.
    pub fn len(&self) -> (r: usize)
        requires
            num_membros(*self) <= usize::MAX,
        ensures
            r == num_membros(*self),
        decreases self,
    {
        match self {
            Membros::Fim => 0,
            Membros::Membro(_, _, resto) => 1 + resto.len(),
        }
    }

    /// Lista com os membros de `self` seguidos dos de `outro`.
    pub fn concatenar(self, outro: Membros) -> (r: Membros)
        ensures
            r == concatena(self, outro),
        decreases self,
    {
        match self {
            Membros::Fim => outro,
            Membros::Membro(n, t, resto) => Membros::Membro(n, t, Box::new(resto.concatenar(outro))),
        }
    }
}

/// Simbolo: nome e tipo.
#[derive(Debug)]
pub struct Simbolo {
    pub nome: String,
    pub tipo: TipoSimbolo,
}

impl Simbolo {
    /// Cria um simbolo.
    pub fn new(nome: String, tipo: TipoSimbolo) -> (r: Self)
        ensures
            r.nome == nome,
            r.tipo == tipo,
    {
        Simbolo { nome, tipo }
    }

    /// Nome do simbolo.
    pub fn nome(&self) -> (r: String)
        ensures
            r == self.nome,
    {
        self.nome.clone()
    }

    /// Tipo do simbolo.
    pub fn tipo(&self) -> (r: TipoSimbolo)
        ensures
            r == self.tipo,
    {
        self.tipo.copia()
    }
}

/// Tipo associado a `nome` numa sequencia de simbolos; o mais recente prevalece.
pub open spec fn busca(s: Seq<Simbolo>, nome: Seq<char>) -> Option<TipoSimbolo>
    decreases s.len(),
{
    if s.len() == 0 {
        None
    } else if s.last().nome@ == nome {
        Some(s.last().tipo)
    } else {
        busca(s.drop_last(), nome)
    }
}

/// Tabela de simbolos de um escopo, com o tipo de retorno permitido nele.
#[derive(Debug)]
pub struct TabelaDeSimbolos {
    retorno: TipoSimbolo,
    tabela: Vec<Simbolo>,
}

impl TabelaDeSimbolos {
    /// Tipo de retorno permitido no escopo.
    pub closed spec fn retorno_spec(&self) -> TipoSimbolo {
        self.retorno
    }

    /// Tipo de cada nome declarado no escopo.
    pub closed spec fn simbolos(&self) -> Seq<Simbolo> {
        self.tabela@
    }

    /// Tipo associado a `nome` neste escopo.
    pub open spec fn consulta(&self, nome: Seq<char>) -> Option<TipoSimbolo> {
        busca(self.simbolos(), nome)
    }

    /// Tabela vazia com o tipo de retorno `retorno`.
    pub fn new(retorno: TipoSimbolo) -> (r: Self)
        ensures
            r.retorno_spec() == retorno,
            forall|n: Seq<char>| r.consulta(n) is None,
    {
        TabelaDeSimbolos { retorno, tabela: Vec::new() }
    }

    /// Copia exata da tabela.
    pub fn copia(&self) -> (r: TabelaDeSimbolos)
        ensures
            r.retorno_spec() == self.retorno_spec(),
            r.simbolos() == self.simbolos(),
    {
        let mut tabela: Vec<Simbolo> = Vec::new();
        let mut i: usize = 0;
        while i < self.tabela.len()
            invariant
                i <= self.tabela@.len(),
                tabela@ == self.tabela@.subrange(0, i as int),
            decreases self.tabela@.len() - i,
        {
            tabela.push(self.tabela[i].clone_simbolo());
            proof {
                assert(tabela@ =~= self.tabela@.subrange(0, i + 1));
            }
            i = i + 1;
        }
        proof {
            assert(tabela@ =~= self.tabela@);
        }
        TabelaDeSimbolos { retorno: self.retorno.copia(), tabela }
    }

    /// Tipo de retorno permitido no escopo.
    pub fn tipo_retorno(&self) -> (r: TipoSimbolo)
        ensures
            r == self.retorno_spec(),
    {
        self.retorno.copia()
    }

    /// Associa `nome` a `tipo` neste escopo, substituindo uma associacao anterior.
    pub fn inserir(&mut self, nome: &str, tipo: &TipoSimbolo)
        ensures
            final(self).retorno_spec() == old(self).retorno_spec(),
            final(self).consulta(nome@) == Some(*tipo),
            forall|n: Seq<char>| n != nome@ ==> final(self).consulta(n) == old(self).consulta(n),
    {
        let s = Simbolo::new(nome.to_string(), tipo.copia());
        self.tabela.push(s);
        proof {
            assert(self.tabela@.drop_last() =~= old(self).tabela@);
        }
    }

    /// Tipo de `nome`, se declarado neste escopo.
    pub fn verificar(&self, nome: &str) -> (r: Option<Simbolo>)
        ensures
            r is Some <==> self.consulta(nome@) is Some,
            r is Some ==> r->0.nome@ == nome@ && Some(r->0.tipo) == self.consulta(nome@),
    {
        let alvo = nome.to_string();
        let mut i: usize = self.tabela.len();
        proof {
            assert(self.tabela@.subrange(0, i as int) =~= self.tabela@);
        }
        while i > 0
            invariant
                i <= self.tabela@.len(),
                alvo@ == nome@,
                busca(self.tabela@, nome@) == busca(self.tabela@.subrange(0, i as int), nome@),
            decreases i,
        {
            proof {
                let s = self.tabela@.subrange(0, i as int);
                assert(s.drop_last() =~= self.tabela@.subrange(0, i - 1));
            }
            if self.tabela[i - 1].nome == alvo {
                return Some(self.tabela[i - 1].clone_simbolo());
            }
            i = i - 1;
        }
        None
    }

    /// Verifica se `nome` esta declarado neste escopo.
    pub fn existe(&self, nome: &str) -> (r: bool)
        ensures
            r == self.consulta(nome@) is Some,
    {
        self.verificar(nome).is_some()
    }
}

impl Simbolo {
    /// Copia exata do simbolo.
    pub fn clone_simbolo(&self) -> (r: Simbolo)
        ensures
            r == *self,
    {
        Simbolo { nome: self.nome.clone(), tipo: self.tipo.copia() }
    }
}

} // verus!
