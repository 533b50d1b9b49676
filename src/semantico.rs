pub mod escopos;
pub mod tabela_de_simbolos;
pub mod visitor;

use vstd::prelude::*;
use crate::semantico::escopos::Escopos;
use crate::semantico::tabela_de_simbolos::{mesmo_tipo, numerico, Membros, TabelaDeSimbolos, TipoSimbolo};
use crate::semantico::visitor::Visitor;
use crate::lexico::token::Token;
use crate::sintatico::arvore_sintatica::{
    bem_formado, idents_desde, lema_filhos_bem_formados, linha_desde, membros_spec, retorno_se_funcao, sem_funcao, texto_de,
    tipo_spec, NoAST, RegraAST,
};
use crate::texto::{anexar, mensagem_linha, prefixo_linha};

verus! {

/// "identificador X ja declarado anteriormente"
pub open spec fn msg_ja_declarado(linha: u32, nome: Seq<char>) -> Seq<char> {
    prefixo_linha(linha) + "identificador "@ + nome + " ja declarado anteriormente\n"@
}

/// "identificador X nao declarado"
pub open spec fn msg_nao_declarado(linha: u32, nome: Seq<char>) -> Seq<char> {
    prefixo_linha(linha) + "identificador "@ + nome + " nao declarado\n"@
}

/// "tipo X nao declarado"
pub open spec fn msg_tipo_nao_declarado(linha: u32, nome: Seq<char>) -> Seq<char> {
    prefixo_linha(linha) + "tipo "@ + nome + " nao declarado\n"@
}

/// "atribuicao nao compativel para X"
pub open spec fn msg_atribuicao(linha: u32, nome: Seq<char>) -> Seq<char> {
    prefixo_linha(linha) + "atribuicao nao compativel para "@ + nome + "\n"@
}

/// "comando retorne nao permitido nesse escopo"
pub open spec fn msg_retorne(linha: u32) -> Seq<char> {
    prefixo_linha(linha) + "comando retorne nao permitido nesse escopo\n"@
}

/// "incompatibilidade de parametros na chamada de X"
pub open spec fn msg_parametros(linha: u32, nome: Seq<char>) -> Seq<char> {
    prefixo_linha(linha) + "incompatibilidade de parametros na chamada de "@ + nome + "\n"@
}

/// Atribuicao de um valor de tipo `exp` a um alvo de tipo `alvo` que e diagnosticada: tipos
/// diferentes que nao sao ambos numericos, com alvo valido.
pub open spec fn atribuicao_incompativel(alvo: TipoSimbolo, exp: TipoSimbolo) -> bool {
    !(numerico(exp) && numerico(alvo)) && !mesmo_tipo(exp, alvo) && !(alvo is Invalido)
}

/// Argumentos compativeis com os parametros: mesmo numero e mesmos tipos, na ordem.
pub open spec fn chamada_compativel(args: Seq<TipoSimbolo>, params: Membros) -> bool
    decreases params,
{
    match params {
        Membros::Fim => args.len() == 0,
        Membros::Membro(_, t, resto) => args.len() > 0 && mesmo_tipo(args[0], *t)
            && chamada_compativel(args.drop_first(), *resto),
    }
}

/// `a` e prefixo de `b`.
pub open spec fn prefixo<T>(a: Seq<T>, b: Seq<T>) -> bool {
    a.len() <= b.len() && b.subrange(0, a.len() as int) == a
}

/// Acrescentar ao fim preserva prefixos.
pub proof fn lema_prefixo_push<T>(a: Seq<T>, b: Seq<T>, x: T)
    requires
        prefixo(a, b),
    ensures
        prefixo(a, b.push(x)),
{
    assert(b.push(x).subrange(0, a.len() as int) =~= b.subrange(0, a.len() as int));
}

/// Toda sequencia e prefixo de si mesma.
pub proof fn lema_prefixo_refl<T>(a: Seq<T>)
    ensures
        prefixo(a, a),
{
    assert(a.subrange(0, a.len() as int) =~= a);
}

/// Prefixo de prefixo e prefixo.
pub broadcast proof fn lema_prefixo_trans<T>(a: Seq<T>, b: Seq<T>, c: Seq<T>)
    requires
        #[trigger] prefixo(a, b),
        #[trigger] prefixo(b, c),
    ensures
        prefixo(a, c),
{
    assert(c.subrange(0, a.len() as int) =~= b.subrange(0, a.len() as int));
}

/// Tipos dos argumentos de uma lista `expressoes`, com funcoes valendo o seu retorno.
pub open spec fn argumentos_spec(no: NoAST, p: Seq<TabelaDeSimbolos>) -> Seq<TipoSimbolo>
    decreases no,
{
    if no.regra is Expressoes && no.filhos@.len() == 2 {
        seq![sem_funcao(tipo_spec(no.filhos@[0], p))] + argumentos_spec(no.filhos@[1], p)
    } else {
        Seq::empty()
    }
}

/// Parametros da rotina de tipo `t`, se for uma rotina.
pub open spec fn parametros_de(t: TipoSimbolo) -> Option<Membros> {
    match t {
        TipoSimbolo::Funcao(p, _) => Some(*p),
        TipoSimbolo::Procedimento(p) => Some(*p),
        _ => None,
    }
}

/// Tipo dado a `n` pela insercao dos campos `campos` com os nomes `base.campo`: o do ultimo
/// campo com esse nome, se houver.
pub open spec fn campo_de(base: Seq<char>, campos: Membros, n: Seq<char>) -> Option<TipoSimbolo>
    decreases campos,
{
    match campos {
        Membros::Fim => None,
        Membros::Membro(nome, t, resto) => match campo_de(base, *resto, n) {
            Some(x) => Some(x),
            None => if n == base + "."@ + nome@ {
                Some(*t)
            } else {
                None
            },
        },
    }
}

/// Tipo dado a `n` pela insercao dos membros `membros`, cada um com o seu nome e, se for um
/// registro, com os nomes `membro.campo`: o da ultima insercao desse nome, se houver.
pub open spec fn membro_de(membros: Membros, n: Seq<char>) -> Option<TipoSimbolo>
    decreases membros,
{
    match membros {
        Membros::Fim => None,
        Membros::Membro(nome, t, resto) => match membro_de(*resto, n) {
            Some(x) => Some(x),
            None => if n == nome@ {
                Some(*t)
            } else {
                match *t {
                    TipoSimbolo::Registro(cs) => campo_de(nome@, *cs, n),
                    _ => None,
                }
            },
        },
    }
}

/// Tipo dado a `n` pela insercao dos membros `membros`, cada um so com o seu nome: o do ultimo
/// membro com esse nome, se houver.
pub open spec fn simples_de(membros: Membros, n: Seq<char>) -> Option<TipoSimbolo>
    decreases membros,
{
    match membros {
        Membros::Fim => None,
        Membros::Membro(nome, t, resto) => match simples_de(*resto, n) {
            Some(x) => Some(x),
            None => if n == nome@ {
                Some(*t)
            } else {
                None
            },
        },
    }
}

/// Campos de `t`, se for um registro.
pub open spec fn campos_de(t: TipoSimbolo) -> Membros {
    match t {
        TipoSimbolo::Registro(cs) => *cs,
        _ => Membros::Fim,
    }
}

/// Analisador semantico: percorre a arvore com uma pilha de escopos e acumula diagnosticos.
pub struct Semantico {
    escopos: Escopos,
    erros: Vec<String>,
}

impl Semantico {
    /// Diagnosticos acumulados, em ordem.
    pub closed spec fn diagnosticos(&self) -> Seq<Seq<char>> {
        self.erros@.map_values(|s: String| s@)
    }

    /// Pilha de escopos atual.
    pub closed spec fn escopos_spec(&self) -> Escopos {
        self.escopos
    }

    pub open spec fn wf(&self) -> bool {
        self.escopos_spec().wf()
    }

    /// `self` resulta de declarar `nome` com tipo `tipo` no escopo atual de `antes`: um
    /// diagnostico se o nome ja esta nesse escopo, senao a insercao.
    pub open spec fn declarou(
        &self,
        antes: &Self,
        nome: Seq<char>,
        linha: u32,
        tipo: TipoSimbolo,
    ) -> bool {
        &&& self.wf()
        &&& if antes.escopos_spec().pilha()[0].consulta(nome) is Some {
            &&& self.diagnosticos() == antes.diagnosticos().push(msg_ja_declarado(linha, nome))
            &&& self.escopos_spec() == antes.escopos_spec()
        } else {
            &&& self.diagnosticos() == antes.diagnosticos()
            &&& self.escopos_spec().pilha().len() == antes.escopos_spec().pilha().len()
            &&& self.escopos_spec().pilha().drop_first() == antes.escopos_spec().pilha().drop_first()
            &&& self.escopos_spec().pilha()[0].consulta(nome) == Some(tipo)
            &&& self.escopos_spec().pilha()[0].retorno_spec() == antes.escopos_spec().pilha()[0].retorno_spec()
            &&& forall|n: Seq<char>|
                n != nome ==> self.escopos_spec().pilha()[0].consulta(n)
                    == antes.escopos_spec().pilha()[0].consulta(n)
            &&& self.escopos_spec().resolve(nome) == Some(tipo)
        }
    }

    /// `self` resulta de verificar um uso de `nome`: um diagnostico se nenhum escopo o declara.
    pub open spec fn usou(&self, antes: &Self, nome: Seq<char>, linha: u32) -> bool {
        &&& self.escopos_spec() == antes.escopos_spec()
        &&& self.diagnosticos() == if antes.escopos_spec().resolve(nome) is None {
            antes.diagnosticos().push(msg_nao_declarado(linha, nome))
        } else {
            antes.diagnosticos()
        }
    }

    /// `self` resulta de verificar uma atribuicao de um valor de tipo `exp` a um alvo de tipo
    /// `alvo`, escrito `nome`.
    pub open spec fn atribuiu(
        &self,
        antes: &Self,
        alvo: TipoSimbolo,
        exp: TipoSimbolo,
        nome: Seq<char>,
        linha: u32,
    ) -> bool {
        &&& self.escopos_spec() == antes.escopos_spec()
        &&& self.diagnosticos() == if atribuicao_incompativel(alvo, exp) {
            antes.diagnosticos().push(msg_atribuicao(linha, nome))
        } else {
            antes.diagnosticos()
        }
    }

    /// `self` resulta de verificar uma chamada de `nome` com argumentos de tipos `args` a uma
    /// rotina com parametros `params`.
    pub open spec fn chamou(
        &self,
        antes: &Self,
        args: Seq<TipoSimbolo>,
        params: Membros,
        nome: Seq<char>,
        linha: u32,
    ) -> bool {
        &&& self.escopos_spec() == antes.escopos_spec()
        &&& self.diagnosticos() == if chamada_compativel(args, params) {
            antes.diagnosticos()
        } else {
            antes.diagnosticos().push(msg_parametros(linha, nome))
        }
    }

    /// Analisador com um escopo global vazio, sem diagnosticos.
    pub fn new() -> (r: Self)
        ensures
            r.wf(),
            r.diagnosticos() == Seq::<Seq<char>>::empty(),
            r.escopos_spec().pilha().len() == 1,
            forall|n: Seq<char>| r.escopos_spec().resolve(n) is None,
    {
        let r = Semantico { escopos: Escopos::new(TipoSimbolo::Vazio), erros: Vec::new() };
        proof {
            assert(r.diagnosticos() =~= Seq::<Seq<char>>::empty());
        }
        r
    }

    /// Diagnosticos acumulados, em ordem.
    pub fn get_erros(&self) -> (r: Vec<String>)
        ensures
            r@.map_values(|s: String| s@) == self.diagnosticos(),
    {
        let mut v: Vec<String> = Vec::new();
        let mut i: usize = 0;
        while i < self.erros.len()
            invariant
                i <= self.erros@.len(),
                v@ == self.erros@.subrange(0, i as int),
            decreases self.erros@.len() - i,
        {
            v.push(self.erros[i].clone());
            proof {
                assert(v@ =~= self.erros@.subrange(0, i + 1));
            }
            i = i + 1;
        }
        proof {
            assert(v@ =~= self.erros@);
        }
        v
    }

    /// Pilha de escopos atual.
    pub fn escopos(&self) -> (r: &Escopos)
        ensures
            *r == self.escopos_spec(),
    {
        &self.escopos
    }

    fn diagnosticar(&mut self, m: String)
        ensures
            final(self).diagnosticos() == old(self).diagnosticos().push(m@),
            final(self).escopos == old(self).escopos,
            prefixo(old(self).diagnosticos(), final(self).diagnosticos()),
    {
        self.erros.push(m);
        proof {
            assert(self.diagnosticos() =~= old(self).diagnosticos().push(m@));
            lema_prefixo_refl(old(self).diagnosticos());
            lema_prefixo_push(old(self).diagnosticos(), old(self).diagnosticos(), m@);
        }
    }

    /// `self` resulta de verificar a chamada `no`, da forma IDENT '(' expressao expressoes ')',
    /// contra os parametros da rotina chamada, se o nome for de uma rotina.
    pub open spec fn verificou_chamada(&self, antes: &Self, no: NoAST) -> bool {
        let p = antes.escopos_spec().pilha();
        match no.filhos@[0].regra {
            RegraAST::Ident(t) => match parametros_de(tipo_spec(no.filhos@[0], p)) {
                Some(params) => self.chamou(
                    antes,
                    seq![sem_funcao(tipo_spec(no.filhos@[1], p))] + argumentos_spec(no.filhos@[2], p),
                    params,
                    t.lexema@,
                    linha_desde(no, 0),
                ),
                None => *self == *antes,
            },
            _ => *self == *antes,
        }
    }

    /// `self` resulta de percorrer `no` a partir de `antes`: tratar `no` e depois percorrer cada
    /// filho, em ordem.
    pub open spec fn percorreu_no(&self, antes: &Self, no: NoAST) -> bool
        decreases no, no.filhos@.len() + 1,
    {
        exists|m: Semantico|
            m.wf() && #[trigger] m.tratou(antes, no) && self.percorreu_filhos(&m, no, no.filhos@.len() as int)
    }

    /// `self` resulta de percorrer, em ordem, os primeiros `i` filhos de `no` a partir de `antes`.
    pub open spec fn percorreu_filhos(&self, antes: &Self, no: NoAST, i: int) -> bool
        decreases no, i,
    {
        if i <= 0 || i > no.filhos@.len() {
            *self == *antes
        } else {
            exists|m: Semantico|
                #[trigger] m.wf() && m.percorreu_filhos(antes, no, i - 1) && self.percorreu_no(
                    &m,
                    no.filhos@[i - 1],
                )
        }
    }

    /// `self` resulta de declarar a variavel `tok` com tipo `tipo` no escopo atual de `antes`:
    /// um diagnostico se o nome ja esta nesse escopo; senao o nome e, para um registro, os nomes
    /// `nome.campo` passam a valer nesse escopo, e nada mais muda.
    pub open spec fn declarou_variavel(&self, antes: &Self, tok: Token, tipo: TipoSimbolo) -> bool {
        let p = antes.escopos_spec().pilha();
        let q = self.escopos_spec().pilha();
        let nome = tok.lexema@;
        &&& self.wf()
        &&& if p[0].consulta(nome) is Some {
            &&& self.diagnosticos() == antes.diagnosticos().push(msg_ja_declarado(tok.linha, nome))
            &&& self.escopos_spec() == antes.escopos_spec()
        } else {
            &&& self.diagnosticos() == antes.diagnosticos()
            &&& q.len() == p.len()
            &&& q.drop_first() == p.drop_first()
            &&& q[0].retorno_spec() == p[0].retorno_spec()
            &&& forall|n: Seq<char>| #[trigger] q[0].consulta(n) == match campo_de(nome, campos_de(tipo), n) {
                Some(t) => Some(t),
                None => if n == nome {
                    Some(tipo)
                } else {
                    p[0].consulta(n)
                },
            }
        }
    }

    /// `self` resulta de declarar, em ordem, as variaveis `nomes` com tipo `tipo`.
    pub open spec fn declarou_variaveis(&self, antes: &Self, nomes: Seq<Token>, tipo: TipoSimbolo) -> bool
        decreases nomes.len(),
    {
        if nomes.len() == 0 {
            *self == *antes
        } else {
            exists|m: Semantico|
                m.declarou_variaveis(antes, nomes.drop_last(), tipo) && #[trigger] self.declarou_variavel(
                    &m,
                    nomes.last(),
                    tipo,
                )
        }
    }

    /// `self` resulta de declarar a rotina `no` com tipo de retorno `retorno`: um diagnostico
    /// se o nome ja esta no escopo atual; senao a assinatura fica nesse escopo e um novo escopo,
    /// com o tipo de retorno, e empilhado.
    pub open spec fn declarou_rotina(&self, antes: &Self, no: NoAST, retorno: TipoSimbolo) -> bool {
        let p = antes.escopos_spec().pilha();
        match no.filhos@[0].regra {
            RegraAST::Ident(t) => if p[0].consulta(t.lexema@) is Some {
                &&& self.diagnosticos() == antes.diagnosticos().push(msg_ja_declarado(t.linha, t.lexema@))
                &&& self.escopos_spec() == antes.escopos_spec()
            } else {
                &&& self.diagnosticos() == antes.diagnosticos()
                &&& self.escopos_spec().pilha().len() == p.len() + 1
                &&& self.escopos_spec().pilha()[0].retorno_spec() == retorno
                &&& self.escopos_spec().pilha()[1].consulta(t.lexema@) == Some(tipo_spec(no, p))
                &&& self.escopos_spec().pilha().drop_first().drop_first() == p.drop_first()
                &&& forall|n: Seq<char>| #[trigger] self.escopos_spec().pilha()[0].consulta(n) == membro_de(
                    membros_spec(no.filhos@[1], p),
                    n,
                )
            },
            _ => *self == *antes,
        }
    }

    /// `self` resulta de tratar o no `no` a partir de `antes`: a verificacao propria da regra
    /// do no; os nos sem verificacao nao mudam nada.
    pub open spec fn tratou(&self, antes: &Self, no: NoAST) -> bool {
        let p = antes.escopos_spec().pilha();
        let f = no.filhos@;
        match no.regra {
            RegraAST::DeclaracaoTipo => match f[0].regra {
                RegraAST::Ident(t) => self.declarou(antes, t.lexema@, t.linha, tipo_spec(f[1], p)),
                _ => *self == *antes,
            },
            RegraAST::DeclaracaoConstante => match f[0].regra {
                RegraAST::Ident(t) => self.declarou(
                    antes,
                    t.lexema@,
                    t.linha,
                    if tipo_spec(f[1], p) is Vazio {
                        TipoSimbolo::Inteiro
                    } else {
                        tipo_spec(f[1], p)
                    },
                ),
                _ => *self == *antes,
            },
            RegraAST::Identificador => match f[0].regra {
                RegraAST::Ident(t) => self.usou(antes, texto_de(f[0]) + texto_de(f[1]), t.linha),
                _ => *self == *antes,
            },
            RegraAST::TipoExtendido => match f[1].regra {
                RegraAST::Ident(t) => {
                    &&& self.escopos_spec() == antes.escopos_spec()
                    &&& self.diagnosticos() == if antes.escopos_spec().resolve(t.lexema@) is None {
                        antes.diagnosticos().push(msg_tipo_nao_declarado(t.linha, t.lexema@))
                    } else {
                        antes.diagnosticos()
                    }
                },
                _ => *self == *antes,
            },
            RegraAST::CMDAtribuicao => self.atribuiu(
                antes,
                tipo_spec(f[1], p),
                tipo_spec(f[2], p),
                texto_de(f[0]) + texto_de(f[1]),
                linha_desde(no, 0),
            ),
            RegraAST::CMDRetorne => {
                &&& self.escopos_spec() == antes.escopos_spec()
                &&& self.diagnosticos() == if p[0].retorno_spec() is Vazio {
                    antes.diagnosticos().push(msg_retorne(linha_desde(no, 0)))
                } else {
                    antes.diagnosticos()
                }
            },
            RegraAST::ParcelaUnario2 | RegraAST::CMDChamada => self.verificou_chamada(antes, no),
            RegraAST::FechaEscopo => {
                &&& self.diagnosticos() == antes.diagnosticos()
                &&& self.escopos_spec().pilha() == if p.len() > 1 {
                    p.drop_first()
                } else {
                    p
                }
            },
            RegraAST::DeclaracaoProcedimento => self.declarou_rotina(antes, no, TipoSimbolo::Vazio),
            RegraAST::DeclaracaoFuncao => self.declarou_rotina(antes, no, tipo_spec(f[2], p)),
            RegraAST::Registro => {
                &&& self.diagnosticos() == antes.diagnosticos()
                &&& self.escopos_spec().pilha().len() == p.len() + 1
                &&& self.escopos_spec().pilha().drop_first() == p
                &&& self.escopos_spec().pilha()[0].retorno_spec() is Vazio
                &&& forall|n: Seq<char>| #[trigger] self.escopos_spec().pilha()[0].consulta(n)
                    == simples_de(membros_spec(f[0], p), n)
            },
            RegraAST::DeclaracaoVariavel => self.declarou_variaveis(
                antes,
                idents_desde(f[0], 0),
                tipo_spec(f[0], p),
            ),
            _ => *self == *antes,
        }
    }

    /// Declara `nome`, lido na linha `linha`, com o tipo `tipo` no escopo atual; diagnostica
    /// uma declaracao repetida no mesmo escopo. Retorna se declarou.
    pub fn declarar(&mut self, nome: &str, linha: u32, tipo: &TipoSimbolo) -> (r: bool)
        requires
            old(self).wf(),
        ensures
            prefixo(old(self).diagnosticos(), final(self).diagnosticos()),
            final(self).declarou(old(self), nome@, linha, *tipo),
            r == (old(self).escopos_spec().pilha()[0].consulta(nome@) is None),
    {
        proof {
            lema_prefixo_refl(self.diagnosticos());
        }
        if self.escopos.existe_no_atual(nome) {
            let mut m = mensagem_linha(linha);
            anexar(&mut m, "identificador ");
            anexar(&mut m, nome);
            anexar(&mut m, " ja declarado anteriormente\n");
            self.diagnosticar(m);
            false
        } else {
            self.escopos.inserir(nome, tipo);
            true
        }
    }

    /// Verifica o uso de `nome` na linha `linha`: diagnostica se nenhum escopo o declara.
    pub fn verificar_uso(&mut self, nome: &str, linha: u32)
        ensures
            prefixo(old(self).diagnosticos(), final(self).diagnosticos()),
            final(self).usou(old(self), nome@, linha),
    {
        proof {
            lema_prefixo_refl(self.diagnosticos());
        }
        if !self.escopos.existe(nome) {
            let mut m = mensagem_linha(linha);
            anexar(&mut m, "identificador ");
            anexar(&mut m, nome);
            anexar(&mut m, " nao declarado\n");
            self.diagnosticar(m);
        }
    }

    /// Verifica que o tipo nomeado `nome`, na linha `linha`, foi declarado.
    pub fn verificar_tipo(&mut self, nome: &str, linha: u32)
        ensures
            prefixo(old(self).diagnosticos(), final(self).diagnosticos()),
            final(self).escopos_spec() == old(self).escopos_spec(),
            final(self).diagnosticos() == if old(self).escopos_spec().resolve(nome@) is None {
                old(self).diagnosticos().push(msg_tipo_nao_declarado(linha, nome@))
            } else {
                old(self).diagnosticos()
            },
    {
        proof {
            lema_prefixo_refl(self.diagnosticos());
        }
        if !self.escopos.existe(nome) {
            let mut m = mensagem_linha(linha);
            anexar(&mut m, "tipo ");
            anexar(&mut m, nome);
            anexar(&mut m, " nao declarado\n");
            self.diagnosticar(m);
        }
    }

    /// Verifica a atribuicao de um valor de tipo `exp` ao alvo `nome`, de tipo `alvo`.
    pub fn verificar_atribuicao(
        &mut self,
        alvo: &TipoSimbolo,
        exp: &TipoSimbolo,
        nome: &str,
        linha: u32,
    )
        ensures
            prefixo(old(self).diagnosticos(), final(self).diagnosticos()),
            final(self).atribuiu(old(self), *alvo, *exp, nome@, linha),
    {
        proof {
            lema_prefixo_refl(self.diagnosticos());
        }
        if exp.e_numerico() && alvo.e_numerico() {
        } else if !exp.igual(alvo) && !matches!(alvo, TipoSimbolo::Invalido) {
            let mut m = mensagem_linha(linha);
            anexar(&mut m, "atribuicao nao compativel para ");
            anexar(&mut m, nome);
            anexar(&mut m, "\n");
            self.diagnosticar(m);
        }
    }

    /// Verifica um `retorne` na linha `linha`: diagnostica se o escopo atual nao tem tipo de
    /// retorno.
    pub fn verificar_retorne(&mut self, linha: u32)
        requires
            old(self).wf(),
        ensures
            prefixo(old(self).diagnosticos(), final(self).diagnosticos()),
            final(self).escopos_spec() == old(self).escopos_spec(),
            final(self).diagnosticos() == if old(self).escopos_spec().pilha()[0].retorno_spec() is Vazio {
                old(self).diagnosticos().push(msg_retorne(linha))
            } else {
                old(self).diagnosticos()
            },
    {
        proof {
            lema_prefixo_refl(self.diagnosticos());
        }
        let r = self.escopos.retorno_atual();
        if matches!(r, TipoSimbolo::Vazio) {
            let mut m = mensagem_linha(linha);
            anexar(&mut m, "comando retorne nao permitido nesse escopo\n");
            self.diagnosticar(m);
        }
    }

    /// Verifica uma chamada de `nome` com argumentos de tipos `args` a uma rotina com
    /// parametros `params`: no maximo um diagnostico.
    pub fn verificar_chamada(&mut self, args: &Vec<TipoSimbolo>, params: &Membros, nome: &str, linha: u32)
        ensures
            prefixo(old(self).diagnosticos(), final(self).diagnosticos()),
            final(self).chamou(old(self), args@, *params, nome@, linha),
    {
        proof {
            lema_prefixo_refl(self.diagnosticos());
        }
        proof {
            assert(args@.subrange(0, args@.len() as int) =~= args@);
        }
        if !compativel(args, 0, params) {
            let mut m = mensagem_linha(linha);
            anexar(&mut m, "incompatibilidade de parametros na chamada de ");
            anexar(&mut m, nome);
            anexar(&mut m, "\n");
            self.diagnosticar(m);
        }
    }
}

/// Compara os argumentos a partir de `i` com os parametros `params`.
fn compativel(args: &Vec<TipoSimbolo>, i: usize, params: &Membros) -> (r: bool)
    requires
        i <= args@.len(),
    ensures
        r == chamada_compativel(args@.subrange(i as int, args@.len() as int), *params),
    decreases params,
{
    match params {
        Membros::Fim => i == args.len(),
        Membros::Membro(_, t, resto) => {
            if i == args.len() {
                return false;
            }
            proof {
                let s = args@.subrange(i as int, args@.len() as int);
                assert(s.drop_first() =~= args@.subrange(i + 1, args@.len() as int));
            }
            args[i].igual(t) && compativel(args, i + 1, resto)
        },
    }
}

impl Semantico {
    /// Insere `base.campo` no escopo atual para cada campo de `campos`.
    fn inserir_campos(&mut self, base: &str, campos: &Membros)
        requires
            old(self).wf(),
        ensures
            final(self).wf(),
            final(self).escopos_spec().pilha().len() == old(self).escopos_spec().pilha().len(),
            final(self).escopos_spec().pilha().drop_first() == old(self).escopos_spec().pilha().drop_first(),
            final(self).escopos_spec().pilha()[0].retorno_spec() == old(self).escopos_spec().pilha()[0].retorno_spec(),
            final(self).diagnosticos() == old(self).diagnosticos(),
            forall|n: Seq<char>| #[trigger] final(self).escopos_spec().pilha()[0].consulta(n) == match campo_de(
                base@,
                *campos,
                n,
            ) {
                Some(t) => Some(t),
                None => old(self).escopos_spec().pilha()[0].consulta(n),
            },
        decreases campos,
    {
        match campos {
            Membros::Fim => {},
            Membros::Membro(nome, tipo, resto) => {
                let mut n = base.to_string();
                anexar(&mut n, ".");
                anexar(&mut n, nome.as_str());
                self.escopos.inserir(n.as_str(), tipo);
                self.inserir_campos(base, resto);
            },
        }
    }

    /// Insere no escopo atual cada membro de `membros`; os de tipo registro tambem com os
    /// nomes `membro.campo`.
    fn inserir_membros(&mut self, membros: &Membros)
        requires
            old(self).wf(),
        ensures
            final(self).wf(),
            final(self).escopos_spec().pilha().len() == old(self).escopos_spec().pilha().len(),
            final(self).escopos_spec().pilha().drop_first() == old(self).escopos_spec().pilha().drop_first(),
            final(self).escopos_spec().pilha()[0].retorno_spec() == old(self).escopos_spec().pilha()[0].retorno_spec(),
            final(self).diagnosticos() == old(self).diagnosticos(),
            forall|n: Seq<char>| #[trigger] final(self).escopos_spec().pilha()[0].consulta(n) == match membro_de(
                *membros,
                n,
            ) {
                Some(t) => Some(t),
                None => old(self).escopos_spec().pilha()[0].consulta(n),
            },
        decreases membros,
    {
        match membros {
            Membros::Fim => {},
            Membros::Membro(nome, tipo, resto) => {
                if let TipoSimbolo::Registro(campos) = &**tipo {
                    self.inserir_campos(nome.as_str(), campos);
                }
                self.escopos.inserir(nome.as_str(), tipo);
                self.inserir_membros(resto);
            },
        }
    }

    /// Declara cada nome da `variavel`, com o tipo dela, e os campos dos registros.
    fn declarar_variaveis(&mut self, variavel: &NoAST)
        requires
            old(self).wf(),
            bem_formado(*variavel),
        ensures
            final(self).wf(),
            prefixo(old(self).diagnosticos(), final(self).diagnosticos()),
            final(self).declarou_variaveis(
                old(self),
                idents_desde(*variavel, 0),
                tipo_spec(*variavel, old(self).escopos_spec().pilha()),
            ),
    {
        let ghost s0 = *self;
        proof {
            lema_prefixo_refl(self.diagnosticos());
        }
        let tipo = variavel.tipo(&self.escopos);
        let nomes = variavel.idents();
        let mut i: usize = 0;
        proof {
            assert(nomes@.subrange(0, 0) =~= Seq::<Token>::empty());
        }
        while i < nomes.len()
            invariant
                self.wf(),
                i <= nomes@.len(),
                prefixo(s0.diagnosticos(), self.diagnosticos()),
                self.declarou_variaveis(&s0, nomes@.subrange(0, i as int), tipo),
            decreases nomes@.len() - i,
        {
            let nome = &nomes[i];
            let ghost m = *self;
            let declarou = self.declarar(nome.lexema.as_str(), nome.linha, &tipo);
            proof {
                lema_prefixo_trans(s0.diagnosticos(), m.diagnosticos(), self.diagnosticos());
            }
            let ghost mid = *self;
            if declarou {
                if let TipoSimbolo::Registro(campos) = &tipo {
                    self.inserir_campos(nome.lexema.as_str(), campos);
                }
            }
            proof {
                let p = m.escopos_spec().pilha();
                let lex = nomes@[i as int].lexema@;
                if p[0].consulta(lex) is None {
                    assert forall|n: Seq<char>| #[trigger] self.escopos_spec().pilha()[0].consulta(n)
                        == match campo_de(lex, campos_de(tipo), n) {
                        Some(t) => Some(t),
                        None => if n == lex {
                            Some(tipo)
                        } else {
                            p[0].consulta(n)
                        },
                    } by {
                        assert(mid.escopos_spec().pilha()[0].consulta(n) == if n == lex {
                            Some(tipo)
                        } else {
                            p[0].consulta(n)
                        });
                        match tipo {
                            TipoSimbolo::Registro(cs) => {},
                            _ => {
                                assert(campo_de(lex, campos_de(tipo), n) is None);
                            },
                        }
                    }
                }
                assert(self.declarou_variavel(&m, nomes@[i as int], tipo));
                assert(nomes@.subrange(0, i + 1).drop_last() =~= nomes@.subrange(0, i as int));
                assert(nomes@.subrange(0, i + 1).last() == nomes@[i as int]);
                assert(self.declarou_variaveis(&s0, nomes@.subrange(0, i + 1), tipo));
            }
            i = i + 1;
        }
        proof {
            assert(nomes@.subrange(0, nomes@.len() as int) =~= nomes@);
        }
    }

    /// Declaracao de procedimento ou funcao: a assinatura no escopo externo e um novo escopo
    /// com os parametros.
    fn declarar_rotina(&mut self, no: &NoAST, retorno: TipoSimbolo)
        requires
            old(self).wf(),
            bem_formado(*no),
            no.regra is DeclaracaoProcedimento || no.regra is DeclaracaoFuncao,
        ensures
            final(self).wf(),
            prefixo(old(self).diagnosticos(), final(self).diagnosticos()),
            final(self).declarou_rotina(old(self), *no, retorno),
    {
        proof {
            lema_prefixo_refl(self.diagnosticos());
        }
        proof {
            lema_filhos_bem_formados(*no);
        }
        if let RegraAST::Ident(t) = &no.filhos[0].regra {
            let assinatura = no.tipo(&self.escopos);
            let parametros = no.filhos[1].membros(&self.escopos);
            if self.declarar(t.lexema.as_str(), t.linha, &assinatura) {
                self.escopos.novo_escopo(retorno);
                self.inserir_membros(&parametros);
            }
        }
    }

    /// Verifica os argumentos de uma chamada `ident(expressao expressoes)` contra a rotina
    /// chamada, se for uma rotina.
    fn checar_chamada(&mut self, no: &NoAST)
        requires
            old(self).wf(),
            bem_formado(*no),
            no.regra is ParcelaUnario2 || no.regra is CMDChamada,
        ensures
            final(self).wf(),
            final(self).verificou_chamada(old(self), *no),
            prefixo(old(self).diagnosticos(), final(self).diagnosticos()),
    {
        proof {
            lema_prefixo_refl(self.diagnosticos());
        }
        proof {
            lema_filhos_bem_formados(*no);
        }
        if let RegraAST::Ident(t) = &no.filhos[0].regra {
            let alvo = no.filhos[0].tipo(&self.escopos);
            let params = match alvo {
                TipoSimbolo::Funcao(p, _) => p,
                TipoSimbolo::Procedimento(p) => p,
                _ => return,
            };
            let mut args: Vec<TipoSimbolo> = Vec::new();
            args.push(retorno_se_funcao(no.filhos[1].tipo(&self.escopos)));
            coletar_argumentos(&no.filhos[2], &self.escopos, &mut args);
            let linha = no.linha();
            self.verificar_chamada(&args, &params, t.lexema.as_str(), linha);
        }
    }
}

/// Acrescenta a `args` o tipo de cada expressao de uma lista `expressoes`.
fn coletar_argumentos(no: &NoAST, escopos: &Escopos, args: &mut Vec<TipoSimbolo>)
    requires
        bem_formado(*no),
    ensures
        final(args)@ == old(args)@ + argumentos_spec(*no, escopos.pilha()),
    decreases no,
{
    proof {
        lema_filhos_bem_formados(*no);
    }
    if let RegraAST::Expressoes = no.regra {
        args.push(retorno_se_funcao(no.filhos[0].tipo(escopos)));
        coletar_argumentos(&no.filhos[1], escopos, args);
        proof {
            assert(args@ =~= old(args)@ + argumentos_spec(*no, escopos.pilha()));
        }
    } else {
        proof {
            assert(args@ =~= old(args)@ + argumentos_spec(*no, escopos.pilha()));
        }
    }
}

impl Visitor for Semantico {
    open spec fn inv(&self) -> bool {
        self.wf()
    }

    /// Os diagnosticos so crescem, e cada regra faz a sua verificacao.
    open spec fn visitou(&self, antes: &Self, no: NoAST) -> bool {
        &&& self.wf()
        &&& prefixo(antes.diagnosticos(), self.diagnosticos())
        &&& self.tratou(antes, no)
    }

    /// Os diagnosticos so crescem, e o resultado e o de tratar cada no da arvore em pre-ordem.
    open spec fn percorreu(&self, antes: &Self, no: NoAST) -> bool {
        &&& self.wf()
        &&& prefixo(antes.diagnosticos(), self.diagnosticos())
        &&& self.percorreu_no(antes, no)
    }

    /// Verifica um no segundo as regras semanticas da sua regra.
    #[verifier::rlimit(30)]
    fn visit(&mut self, no: &NoAST) {
        proof {
            lema_filhos_bem_formados(*no);
            lema_prefixo_refl(self.diagnosticos());
        }
        let ghost inicio = self.diagnosticos();
        match &no.regra {
            RegraAST::DeclaracaoVariavel => {
                self.declarar_variaveis(&no.filhos[0]);
            },
            RegraAST::DeclaracaoTipo => {
                if let RegraAST::Ident(t) = &no.filhos[0].regra {
                    let tipo = no.filhos[1].tipo(&self.escopos);
                    self.declarar(t.lexema.as_str(), t.linha, &tipo);
                }
            },
            RegraAST::DeclaracaoConstante => {
                if let RegraAST::Ident(t) = &no.filhos[0].regra {
                    let mut tipo = no.filhos[1].tipo(&self.escopos);
                    if matches!(tipo, TipoSimbolo::Vazio) {
                        tipo = TipoSimbolo::Inteiro;
                    }
                    self.declarar(t.lexema.as_str(), t.linha, &tipo);
                }
            },
            RegraAST::Identificador => {
                if let RegraAST::Ident(t) = &no.filhos[0].regra {
                    let mut nome = no.filhos[0].texto();
                    anexar(&mut nome, no.filhos[1].texto().as_str());
                    self.verificar_uso(nome.as_str(), t.linha);
                }
            },
            RegraAST::TipoExtendido => {
                if let RegraAST::Ident(t) = &no.filhos[1].regra {
                    self.verificar_tipo(t.lexema.as_str(), t.linha);
                }
            },
            RegraAST::Registro => {
                let campos = no.filhos[0].membros(&self.escopos);
                self.escopos.novo_escopo(TipoSimbolo::Vazio);
                self.inserir_membros_simples(&campos);
            },
            RegraAST::DeclaracaoProcedimento => {
                self.declarar_rotina(no, TipoSimbolo::Vazio);
            },
            RegraAST::DeclaracaoFuncao => {
                let retorno = no.filhos[2].tipo(&self.escopos);
                self.declarar_rotina(no, retorno);
            },
            RegraAST::CMDAtribuicao => {
                let alvo = no.filhos[1].tipo(&self.escopos);
                let exp = no.filhos[2].tipo(&self.escopos);
                let mut nome = no.filhos[0].texto();
                anexar(&mut nome, no.filhos[1].texto().as_str());
                let linha = no.linha();
                self.verificar_atribuicao(&alvo, &exp, nome.as_str(), linha);
            },
            RegraAST::CMDRetorne => {
                let linha = no.linha();
                self.verificar_retorne(linha);
            },
            RegraAST::ParcelaUnario2 | RegraAST::CMDChamada => {
                self.checar_chamada(no);
            },
            RegraAST::FechaEscopo => {
                self.escopos.abandonar_escopo();
            },
            _ => {},
        }
    }

    /// Verifica o no e depois, recursivamente, os filhos, em ordem.
    fn traverse(&mut self, no: &NoAST)
        decreases no,
    {
        proof {
            lema_filhos_bem_formados(*no);
        }
        let ghost inicio = self.diagnosticos();
        let ghost s0 = *self;
        self.visit(no);
        let ghost s1 = *self;
        let mut i: usize = 0;
        while i < no.filhos.len()
            invariant
                self.inv(),
                bem_formado(*no),
                forall|k: int| 0 <= k < no.filhos@.len() ==> bem_formado(#[trigger] no.filhos@[k]),
                prefixo(inicio, self.diagnosticos()),
                i <= no.filhos@.len(),
                self.percorreu_filhos(&s1, *no, i as int),
            decreases no.filhos@.len() - i,
        {
            let ghost antes = self.diagnosticos();
            let ghost m = *self;
            self.traverse(&no.filhos[i]);
            proof {
                lema_prefixo_trans(inicio, antes, self.diagnosticos());
                assert(m.percorreu_filhos(&s1, *no, i as int));
                assert(self.percorreu_no(&m, no.filhos@[i as int]));
                lema_passo_filhos(s1, m, *self, *no, i as int);
            }
            i = i + 1;
        }
        proof {
            assert(s1.wf() && s1.tratou(&s0, *no));
            assert(self.percorreu_filhos(&s1, *no, no.filhos@.len() as int));
            assert(self.percorreu_no(&s0, *no));
        }
    }
}

impl Semantico {
    /// Insere no escopo atual cada membro de `membros` com o seu tipo.
    fn inserir_membros_simples(&mut self, membros: &Membros)
        requires
            old(self).wf(),
        ensures
            final(self).wf(),
            final(self).escopos_spec().pilha().len() == old(self).escopos_spec().pilha().len(),
            final(self).escopos_spec().pilha().drop_first() == old(self).escopos_spec().pilha().drop_first(),
            final(self).escopos_spec().pilha()[0].retorno_spec() == old(self).escopos_spec().pilha()[0].retorno_spec(),
            final(self).diagnosticos() == old(self).diagnosticos(),
            forall|n: Seq<char>| #[trigger] final(self).escopos_spec().pilha()[0].consulta(n) == match simples_de(
                *membros,
                n,
            ) {
                Some(t) => Some(t),
                None => old(self).escopos_spec().pilha()[0].consulta(n),
            },
        decreases membros,
    {
        match membros {
            Membros::Fim => {},
            Membros::Membro(nome, tipo, resto) => {
                self.escopos.inserir(nome.as_str(), tipo);
                self.inserir_membros_simples(resto);
            },
        }
    }
}

/// Declarar um nome ausente do escopo atual nao gera diagnostico e torna o nome resolvivel,
/// com o tipo declarado, nesse escopo e na pilha.
pub proof fn lema_declaracao_unica(
    antes: Semantico,
    depois: Semantico,
    nome: Seq<char>,
    linha: u32,
    tipo: TipoSimbolo,
)
    requires
        antes.wf(),
        antes.escopos_spec().pilha()[0].consulta(nome) is None,
        depois.declarou(&antes, nome, linha, tipo),
    ensures
        depois.diagnosticos() == antes.diagnosticos(),
        depois.escopos_spec().pilha()[0].consulta(nome) == Some(tipo),
        depois.escopos_spec().resolve(nome) == Some(tipo),
{
}

/// Declarar o mesmo nome duas vezes no mesmo escopo gera exatamente um diagnostico, o de
/// nome ja declarado, na linha da segunda declaracao.
pub proof fn lema_declaracao_repetida(
    s0: Semantico,
    s1: Semantico,
    s2: Semantico,
    nome: Seq<char>,
    linha1: u32,
    linha2: u32,
    tipo1: TipoSimbolo,
    tipo2: TipoSimbolo,
)
    requires
        s0.wf(),
        s0.escopos_spec().pilha()[0].consulta(nome) is None,
        s1.declarou(&s0, nome, linha1, tipo1),
        s2.declarou(&s1, nome, linha2, tipo2),
    ensures
        s2.diagnosticos() == s0.diagnosticos().push(msg_ja_declarado(linha2, nome)),
{
}

/// Usar um nome que nenhum escopo visivel declara gera exatamente um diagnostico, o de nome
/// nao declarado, na linha do uso.
pub proof fn lema_uso_sem_declaracao(antes: Semantico, depois: Semantico, nome: Seq<char>, linha: u32)
    requires
        antes.escopos_spec().resolve(nome) is None,
        depois.usou(&antes, nome, linha),
    ensures
        depois.diagnosticos() == antes.diagnosticos().push(msg_nao_declarado(linha, nome)),
{
}

/// Atribuir um valor real a um alvo inteiro nao gera diagnostico; atribuir uma cadeia a um
/// alvo inteiro gera exatamente um, o de atribuicao incompativel.
pub proof fn lema_atribuicao_a_inteiro(
    antes: Semantico,
    depois_real: Semantico,
    depois_cadeia: Semantico,
    nome: Seq<char>,
    linha: u32,
)
    requires
        depois_real.atribuiu(&antes, TipoSimbolo::Inteiro, TipoSimbolo::Real, nome, linha),
        depois_cadeia.atribuiu(&antes, TipoSimbolo::Inteiro, TipoSimbolo::Cadeia, nome, linha),
    ensures
        depois_real.diagnosticos() == antes.diagnosticos(),
        depois_cadeia.diagnosticos() == antes.diagnosticos().push(msg_atribuicao(linha, nome)),
{
}

/// Os nomes `base.campo` sao mais longos que `base`, logo nunca iguais a ele.
pub proof fn lema_campo_nao_e_base(base: Seq<char>, campos: Membros)
    ensures
        campo_de(base, campos, base) is None,
    decreases campos,
{
    match campos {
        Membros::Fim => {},
        Membros::Membro(nome, t, resto) => {
            lema_campo_nao_e_base(base, *resto);
            assert((base + "."@ + nome@).len() > base.len()) by {
                reveal_strlit(".");
            }
        },
    }
}

/// Uma declaracao de variavel de um nome ausente do escopo atual nao gera diagnostico e liga
/// o nome ao tipo declarado nesse escopo.
pub proof fn lema_variavel_unica(antes: Semantico, depois: Semantico, tok: Token, tipo: TipoSimbolo)
    requires
        antes.wf(),
        antes.escopos_spec().pilha()[0].consulta(tok.lexema@) is None,
        depois.declarou_variaveis(&antes, seq![tok], tipo),
    ensures
        depois.diagnosticos() == antes.diagnosticos(),
        depois.escopos_spec().pilha()[0].consulta(tok.lexema@) == Some(tipo),
{
    let m = choose|m: Semantico|
        m.declarou_variaveis(&antes, seq![tok].drop_last(), tipo) && #[trigger] depois.declarou_variavel(
            &m,
            seq![tok].last(),
            tipo,
        );
    assert(seq![tok].drop_last().len() == 0);
    assert(m == antes);
    lema_campo_nao_e_base(tok.lexema@, campos_de(tipo));
}

/// Declarar duas vezes a mesma variavel no mesmo escopo gera exatamente um diagnostico, na
/// linha da segunda declaracao, e mantem a ligacao da primeira.
pub proof fn lema_variavel_repetida(
    s0: Semantico,
    s1: Semantico,
    s2: Semantico,
    t1: Token,
    t2: Token,
    tipo1: TipoSimbolo,
    tipo2: TipoSimbolo,
)
    requires
        s0.wf(),
        t1.lexema@ == t2.lexema@,
        s0.escopos_spec().pilha()[0].consulta(t1.lexema@) is None,
        s1.declarou_variavel(&s0, t1, tipo1),
        s2.declarou_variavel(&s1, t2, tipo2),
    ensures
        s2.diagnosticos() == s0.diagnosticos().push(msg_ja_declarado(t2.linha, t2.lexema@)),
        s2.escopos_spec().pilha()[0].consulta(t2.lexema@) == Some(tipo1),
{
    lema_campo_nao_e_base(t1.lexema@, campos_de(tipo1));
}

/// Percorrer mais um filho estende o percurso dos filhos anteriores.
proof fn lema_passo_filhos(a: Semantico, m: Semantico, s: Semantico, no: NoAST, i: int)
    requires
        0 <= i < no.filhos@.len(),
        m.wf(),
        m.percorreu_filhos(&a, no, i),
        s.percorreu_no(&m, no.filhos@[i]),
    ensures
        s.percorreu_filhos(&a, no, i + 1),
{
    let j = i + 1;
    assert(j - 1 == i);
    assert(m.percorreu_filhos(&a, no, j - 1));
}

} // verus!
