use vstd::prelude::*;
use crate::lexico::Lexico;
use crate::lexico::token::{TipoToken, Token};
use crate::gerador::so_comando;
use crate::sintatico::arvore_sintatica::{
    abre_escopo, aridade, bem_formado, regra_de_expressao, so_expressao, NoAST, RegraAST,
};
use crate::texto::{anexar, mensagem_linha, prefixo_linha, texto};

verus! {

/// Capacidade do buffer de tokens a frente.
pub const BUFFER_SIZE: usize = 10;

/// Resultado de uma regra: uma folha de erro com a mensagem de um erro diante de algum token,
/// ou uma arvore bem formada sem erros.
pub open spec fn resultado(r: NoAST) -> bool {
    if r.regra is Erro {
        &&& r.filhos@.len() == 0
        &&& exists|t: Token| r.regra->mensagem@ == mensagem_erro(t)
    } else {
        bem_formado(r)
    }
}

/// Filho aceitavel: bem formado e sem erro.
pub open spec fn filho_ok(r: NoAST) -> bool {
    !(r.regra is Erro) && bem_formado(r)
}

/// Mensagem de um erro sintatico diante do token `t`: a do proprio token, se for um erro
/// lexico.
pub open spec fn mensagem_erro(t: Token) -> Seq<char> {
    if t.tipo == TipoToken::Erro {
        t.lexema@
    } else {
        prefixo_linha(t.linha) + "erro sintatico proximo a "@ + t.lexema@ + "\n"@
    }
}

fn no1(regra: RegraAST, a: NoAST) -> (r: NoAST)
    requires
        aridade(regra) == 1,
        filho_ok(a),
        (a.regra is FechaEscopo) == (abre_escopo(regra) && 0 == 0),
    ensures
        r.regra == regra,
        r.filhos@ == seq![a],
        filho_ok(r),
        regra_de_expressao(regra) && so_expressao(a) ==> so_expressao(r),
{
    let mut v = Vec::new();
    v.push(a);
    proof {
        assert(v@ =~= seq![a]);
    }
    NoAST::new(regra, v)
}

fn no2(regra: RegraAST, a: NoAST, b: NoAST) -> (r: NoAST)
    requires
        aridade(regra) == 2,
        filho_ok(a),
        filho_ok(b),
        (a.regra is FechaEscopo) == (abre_escopo(regra) && 0 == 1),
        (b.regra is FechaEscopo) == (abre_escopo(regra) && 1 == 1),
    ensures
        r.regra == regra,
        r.filhos@ == seq![a, b],
        filho_ok(r),
        regra_de_expressao(regra) && so_expressao(a) && so_expressao(b) ==> so_expressao(r),
{
    let mut v = Vec::new();
    v.push(a);
    v.push(b);
    proof {
        assert(v@ =~= seq![a, b]);
    }
    NoAST::new(regra, v)
}

fn no3(regra: RegraAST, a: NoAST, b: NoAST, c: NoAST) -> (r: NoAST)
    requires
        aridade(regra) == 3,
        filho_ok(a),
        filho_ok(b),
        filho_ok(c),
        (a.regra is FechaEscopo) == (abre_escopo(regra) && 0 == 2),
        (b.regra is FechaEscopo) == (abre_escopo(regra) && 1 == 2),
        (c.regra is FechaEscopo) == (abre_escopo(regra) && 2 == 2),
    ensures
        r.regra == regra,
        r.filhos@ == seq![a, b, c],
        filho_ok(r),
        regra_de_expressao(regra) && so_expressao(a) && so_expressao(b) && so_expressao(c) ==> so_expressao(r),
        regra is Identificador ==> so_expressao(r),
{
    let mut v = Vec::new();
    v.push(a);
    v.push(b);
    v.push(c);
    proof {
        assert(v@ =~= seq![a, b, c]);
    }
    NoAST::new(regra, v)
}

fn no4(regra: RegraAST, a: NoAST, b: NoAST, c: NoAST, d: NoAST) -> (r: NoAST)
    requires
        aridade(regra) == 4,
        filho_ok(a),
        filho_ok(b),
        filho_ok(c),
        filho_ok(d),
        (a.regra is FechaEscopo) == (abre_escopo(regra) && 0 == 3),
        (b.regra is FechaEscopo) == (abre_escopo(regra) && 1 == 3),
        (c.regra is FechaEscopo) == (abre_escopo(regra) && 2 == 3),
        (d.regra is FechaEscopo) == (abre_escopo(regra) && 3 == 3),
    ensures
        r.regra == regra,
        r.filhos@ == seq![a, b, c, d],
        filho_ok(r),
        regra_de_expressao(regra) && so_expressao(a) && so_expressao(b) && so_expressao(c) && so_expressao(d) ==> so_expressao(r),
{
    let mut v = Vec::new();
    v.push(a);
    v.push(b);
    v.push(c);
    v.push(d);
    proof {
        assert(v@ =~= seq![a, b, c, d]);
    }
    NoAST::new(regra, v)
}

fn no5(regra: RegraAST, a: NoAST, b: NoAST, c: NoAST, d: NoAST, e: NoAST) -> (r: NoAST)
    requires
        aridade(regra) == 5,
        filho_ok(a),
        filho_ok(b),
        filho_ok(c),
        filho_ok(d),
        filho_ok(e),
        (a.regra is FechaEscopo) == (abre_escopo(regra) && 0 == 4),
        (b.regra is FechaEscopo) == (abre_escopo(regra) && 1 == 4),
        (c.regra is FechaEscopo) == (abre_escopo(regra) && 2 == 4),
        (d.regra is FechaEscopo) == (abre_escopo(regra) && 3 == 4),
        (e.regra is FechaEscopo) == (abre_escopo(regra) && 4 == 4),
    ensures
        r.regra == regra,
        r.filhos@ == seq![a, b, c, d, e],
        filho_ok(r),
        regra_de_expressao(regra) && so_expressao(a) && so_expressao(b) && so_expressao(c) && so_expressao(d) && so_expressao(e) ==> so_expressao(r),
{
    let mut v = Vec::new();
    v.push(a);
    v.push(b);
    v.push(c);
    v.push(d);
    v.push(e);
    proof {
        assert(v@ =~= seq![a, b, c, d, e]);
    }
    NoAST::new(regra, v)
}

fn no6(regra: RegraAST, a: NoAST, b: NoAST, c: NoAST, d: NoAST, e: NoAST, f: NoAST) -> (r: NoAST)
    requires
        aridade(regra) == 6,
        filho_ok(a),
        filho_ok(b),
        filho_ok(c),
        filho_ok(d),
        filho_ok(e),
        filho_ok(f),
        (a.regra is FechaEscopo) == (abre_escopo(regra) && 0 == 5),
        (b.regra is FechaEscopo) == (abre_escopo(regra) && 1 == 5),
        (c.regra is FechaEscopo) == (abre_escopo(regra) && 2 == 5),
        (d.regra is FechaEscopo) == (abre_escopo(regra) && 3 == 5),
        (e.regra is FechaEscopo) == (abre_escopo(regra) && 4 == 5),
        (f.regra is FechaEscopo) == (abre_escopo(regra) && 5 == 5),
    ensures
        r.regra == regra,
        r.filhos@ == seq![a, b, c, d, e, f],
        filho_ok(r),
        regra_de_expressao(regra) && so_expressao(a) && so_expressao(b) && so_expressao(c) && so_expressao(d) && so_expressao(e) && so_expressao(f) ==> so_expressao(r),
{
    let mut v = Vec::new();
    v.push(a);
    v.push(b);
    v.push(c);
    v.push(d);
    v.push(e);
    v.push(f);
    proof {
        assert(v@ =~= seq![a, b, c, d, e, f]);
    }
    NoAST::new(regra, v)
}

fn folha(regra: RegraAST) -> (r: NoAST)
    requires
        aridade(regra) == 0,
        !(regra is Erro),
    ensures
        r.regra == regra,
        filho_ok(r),
        regra_de_expressao(regra) ==> so_expressao(r),
{
    NoAST::new_folha(regra)
}

fn vazio() -> (r: NoAST)
    ensures
        r.regra is Vazio,
        filho_ok(r),
        so_expressao(r),
{
    NoAST::vazio()
}

/// Analisador sintatico descendente: transforma os tokens do analisador lexico numa arvore
/// sintatica, ou numa unica folha de erro com o primeiro erro encontrado.
pub struct Parser {
    buffer_tokens: Vec<Token>,
    lex: Lexico,
    end: bool,
}

impl Parser {
    pub closed spec fn inv(&self) -> bool {
        &&& self.lex.wf()
        &&& self.lex.posicao() <= self.lex.fonte().len()
        &&& self.buffer_tokens@.len() <= BUFFER_SIZE
    }

    /// Quantidade que diminui a cada token consumido: texto por ler (em dobro), tokens no
    /// buffer, e um enquanto o fim nao foi lido.
    pub closed spec fn medida(&self) -> nat {
        (2 * (self.lex.fonte().len() - self.lex.posicao()) + self.buffer_tokens@.len() + if self.end {
            0int
        } else {
            1int
        }) as nat
    }

    /// Classe do proximo token, ou Vazio se nao ha mais tokens.
    pub closed spec fn proximo(&self) -> TipoToken {
        if self.buffer_tokens@.len() > 0 {
            self.buffer_tokens@[0].tipo
        } else {
            TipoToken::Vazio
        }
    }

    /// Analisador sobre os tokens de `lex`, com o buffer de tokens a frente carregado.
    pub fn new(lex: Lexico) -> (r: Self)
        requires
            lex.wf(),
            lex.posicao() <= lex.fonte().len(),
        ensures
            r.inv(),
    {
        let mut parser = Parser { buffer_tokens: Vec::new(), lex, end: false };
        parser.read_token();
        parser
    }

    /// Consome o proximo token e recarrega o buffer ate a sua capacidade ou o fim do texto.
    fn read_token(&mut self) -> (r: Token)
        requires
            old(self).inv(),
        ensures
            final(self).inv(),
            final(self).medida() <= old(self).medida(),
            old(self).buffer_tokens@.len() > 0 ==> final(self).medida() < old(self).medida()
                && r == old(self).buffer_tokens@[0],
    {
        let anterior = if self.buffer_tokens.len() > 0 {
            self.buffer_tokens.remove(0)
        } else {
            Token::new(TipoToken::Vazio, String::new(), self.lex.line())
        };
        let ghost m0 = self.medida();
        let ghost f0 = self.lex.fonte();
        while self.buffer_tokens.len() < BUFFER_SIZE && !self.end
            invariant
                self.inv(),
                self.lex.fonte() == f0,
                self.medida() <= m0,
            decreases 2 * (self.lex.fonte().len() - self.lex.posicao()) + (if self.end {
                0int
            } else {
                1int
            }) + (BUFFER_SIZE - self.buffer_tokens@.len()),
        {
            let next = self.lex.next_token();
            if next.tipo() == TipoToken::Fim {
                self.end = true;
            }
            self.buffer_tokens.push(next);
        }
        anterior
    }

    /// Copia do `k`-esimo token a frente (a partir de 1); o ultimo do buffer se `k` passa do
    /// buffer, e um token Vazio se o buffer esta vazio.
    fn lookahead(&self, k: usize) -> (r: Token)
        requires
            k >= 1,
        ensures
            k == 1 ==> r.tipo == self.proximo(),
            self.buffer_tokens@.len() > 0 && k == 1 ==> r == self.buffer_tokens@[0],
    {
        let len = self.buffer_tokens.len();
        if len == 0 {
            return Token::new(TipoToken::Vazio, String::new(), self.lex.line());
        }
        if k - 1 >= len {
            return self.buffer_tokens[len - 1].copy();
        }
        self.buffer_tokens[k - 1].copy()
    }

    /// Classe do proximo token.
    fn la(&self) -> (r: TipoToken)
        ensures
            r == self.proximo(),
    {
        self.lookahead(1).tipo
    }

    /// Consome o proximo token se for da classe `tipo`; senao, erro sintatico.
    fn match_(&mut self, tipo: TipoToken) -> (r: Result<Token, NoAST>)
        requires
            old(self).inv(),
        ensures
            final(self).inv(),
            r is Ok ==> final(self).medida() < old(self).medida() && old(self).proximo() == tipo,
            r is Err ==> *final(self) == *old(self) && resultado(r->Err_0) && r->Err_0.regra is Erro,
    {
        if self.buffer_tokens.len() > 0 && self.la() == tipo {
            Ok(self.read_token())
        } else {
            Err(self.erro_sintatico())
        }
    }

    /// Erro sintatico diante do proximo token.
    fn erro_sintatico(&self) -> (r: NoAST)
        ensures
            r.regra is Erro,
            resultado(r),
            self.buffer_tokens@.len() > 0 ==> r.regra->mensagem@ == mensagem_erro(
                self.buffer_tokens@[0],
            ),
    {
        let t = self.lookahead(1);
        let mensagem = if t.tipo == TipoToken::Erro {
            t.lexema
        } else {
            let mut m = mensagem_linha(t.linha);
            anexar(&mut m, "erro sintatico proximo a ");
            anexar(&mut m, t.lexema.as_str());
            anexar(&mut m, "\n");
            m
        };
        let r = NoAST::new_folha(RegraAST::Erro { mensagem });
        proof {
            assert(r.regra->mensagem@ == mensagem_erro(t));
        }
        r
    }
}

impl Parser {
    /// Passo de uma regra: o invariante se mantem, a medida nao cresce e o resultado e um
    /// erro ou uma arvore bem formada.
    pub open spec fn passo(&self, antes: &Self, r: NoAST) -> bool {
        &&& self.inv()
        &&& self.medida() <= antes.medida()
        &&& resultado(r)
        &&& !(r.regra is FechaEscopo)
    }

    /// Uma regra sem producao vazia consome ao menos um token quando tem sucesso.
    pub open spec fn consumiu(&self, antes: &Self, r: NoAST) -> bool {
        !(r.regra is Erro) ==> self.medida() < antes.medida()
    }

    /// Analisa um programa inteiro:
    /// programa : declaracoes 'algoritmo' corpo 'fim_algoritmo' EOF
    pub fn programa(&mut self) -> (r: NoAST)
        requires
            old(self).inv(),
        ensures
            final(self).passo(old(self), r),
            final(self).consumiu(old(self), r),
            bem_formado(r),
            r.regra is Erro ==> r.filhos@.len() == 0,
            !(r.regra is Erro) ==> r.regra is Programa && r.filhos@[1].regra is Corpo && so_comando(
                r.filhos@[1].filhos@[1],
            ),
        decreases old(self).medida(), 3nat,
    {
        let declaracoes = self.declaracoes();
        if declaracoes.is_erro() {
            return declaracoes;
        }
        match self.match_(TipoToken::PCalgoritmo) {
            Ok(_) => {},
            Err(e) => return e,
        }
        let corpo = self.corpo();
        if corpo.is_erro() {
            return corpo;
        }
        match self.match_(TipoToken::PCfimAlgoritmo) {
            Ok(_) => {},
            Err(e) => return e,
        }
        match self.match_(TipoToken::Fim) {
            Ok(_) => {},
            Err(e) => return e,
        }
        no2(RegraAST::Programa, declaracoes, corpo)
    }

    /// declaracoes : declaracao declaracoes | <<vazio>>
    fn declaracoes(&mut self) -> (r: NoAST)
        requires
            old(self).inv(),
        ensures
            final(self).passo(old(self), r),
        decreases old(self).medida(), 2nat,
    {
        match self.la() {
            TipoToken::PCdeclare | TipoToken::PCconstante | TipoToken::PCtipo
            | TipoToken::PCprocedimento | TipoToken::PCfuncao => {
                let declaracao = self.declaracao();
                if declaracao.is_erro() {
                    return declaracao;
                }
                let declaracoes = self.declaracoes();
                if declaracoes.is_erro() {
                    return declaracoes;
                }
                no2(RegraAST::Declaracoes, declaracao, declaracoes)
            },
            _ => vazio(),
        }
    }

    /// declaracao : declaracao_local | declaracao_global
    fn declaracao(&mut self) -> (r: NoAST)
        requires
            old(self).inv(),
        ensures
            final(self).passo(old(self), r),
            final(self).consumiu(old(self), r),
        decreases old(self).medida(), 1nat,
    {
        match self.la() {
            TipoToken::PCdeclare | TipoToken::PCconstante | TipoToken::PCtipo => self.declaracao_local(),
            TipoToken::PCprocedimento | TipoToken::PCfuncao => self.declaracao_global(),
            _ => self.erro_sintatico(),
        }
    }

    /// declaracao_local : 'declare' variavel
    ///     | 'tipo' IDENT ':' tipo
    ///     | 'constante' IDENT ':' tipo_basico '=' valor_constante
    #[verifier::rlimit(30)]
    fn declaracao_local(&mut self) -> (r: NoAST)
        requires
            old(self).inv(),
        ensures
            final(self).passo(old(self), r),
            final(self).consumiu(old(self), r),
        decreases old(self).medida(), 0nat,
    {
        match self.la() {
            TipoToken::PCdeclare => {
                match self.match_(TipoToken::PCdeclare) {
                    Ok(_) => {},
                    Err(e) => return e,
                }
                let variavel = self.variavel();
                if variavel.is_erro() {
                    return variavel;
                }
                no1(RegraAST::DeclaracaoVariavel, variavel)
            },
            TipoToken::PCtipo => {
                match self.match_(TipoToken::PCtipo) {
                    Ok(_) => {},
                    Err(e) => return e,
                }
                let ident = match self.match_(TipoToken::Ident) {
                    Ok(t) => folha(RegraAST::Ident(t)),
                    Err(e) => return e,
                };
                match self.match_(TipoToken::Delim) {
                    Ok(_) => {},
                    Err(e) => return e,
                }
                let tipo = self.tipo();
                if tipo.is_erro() {
                    return tipo;
                }
                no2(RegraAST::DeclaracaoTipo, ident, tipo)
            },
            TipoToken::PCconstante => {
                match self.match_(TipoToken::PCconstante) {
                    Ok(_) => {},
                    Err(e) => return e,
                }
                let ident = match self.match_(TipoToken::Ident) {
                    Ok(t) => folha(RegraAST::Ident(t)),
                    Err(e) => return e,
                };
                match self.match_(TipoToken::Delim) {
                    Ok(_) => {},
                    Err(e) => return e,
                }
                let tipo_basico = self.tipo_basico();
                if tipo_basico.is_erro() {
                    return tipo_basico;
                }
                match self.match_(TipoToken::OpRelIgual) {
                    Ok(_) => {},
                    Err(e) => return e,
                }
                let valor = self.valor_constante();
                if valor.is_erro() {
                    return valor;
                }
                no3(RegraAST::DeclaracaoConstante, ident, tipo_basico, valor)
            },
            _ => self.erro_sintatico(),
        }
    }

    /// variavel : identificador identificadores ':' tipo
    fn variavel(&mut self) -> (r: NoAST)
        requires
            old(self).inv(),
        ensures
            final(self).passo(old(self), r),
            final(self).consumiu(old(self), r),
            !(r.regra is Erro) ==> r.regra is Variavel,
        decreases old(self).medida(), 1nat,
    {
        let identificador = self.identificador();
        if identificador.is_erro() {
            return identificador;
        }
        let identificadores = self.identificadores();
        if identificadores.is_erro() {
            return identificadores;
        }
        match self.match_(TipoToken::Delim) {
            Ok(_) => {},
            Err(e) => return e,
        }
        let tipo = self.tipo();
        if tipo.is_erro() {
            return tipo;
        }
        no3(RegraAST::Variavel, identificador, identificadores, tipo)
    }

    /// identificador : IDENT identificador2 dimensao
    fn identificador(&mut self) -> (r: NoAST)
        requires
            old(self).inv(),
        ensures
            final(self).passo(old(self), r),
            !(r.regra is Erro) ==> so_expressao(r),
            final(self).consumiu(old(self), r),
        decreases old(self).medida(), 0nat,
    {
        let ident = match self.match_(TipoToken::Ident) {
            Ok(t) => folha(RegraAST::Ident(t)),
            Err(e) => return e,
        };
        let identificador2 = self.identificador2();
        if identificador2.is_erro() {
            return identificador2;
        }
        let dimensao = self.dimensao();
        if dimensao.is_erro() {
            return dimensao;
        }
        no3(RegraAST::Identificador, ident, identificador2, dimensao)
    }

    /// identificador2 : '.' IDENT identificador2 | <<vazio>>
    fn identificador2(&mut self) -> (r: NoAST)
        requires
            old(self).inv(),
        ensures
            final(self).passo(old(self), r),
        decreases old(self).medida(), 0nat,
    {
        match self.la() {
            TipoToken::Ponto => {
                match self.match_(TipoToken::Ponto) {
                    Ok(_) => {},
                    Err(e) => return e,
                }
                let ident = match self.match_(TipoToken::Ident) {
                    Ok(t) => folha(RegraAST::Ident(t)),
                    Err(e) => return e,
                };
                let identificador2 = self.identificador2();
                if identificador2.is_erro() {
                    return identificador2;
                }
                no2(RegraAST::Identificador2, ident, identificador2)
            },
            _ => vazio(),
        }
    }

    /// identificadores : ',' identificador identificadores | <<vazio>>
    fn identificadores(&mut self) -> (r: NoAST)
        requires
            old(self).inv(),
        ensures
            final(self).passo(old(self), r),
        decreases old(self).medida(), 0nat,
    {
        match self.la() {
            TipoToken::Virgula => {
                match self.match_(TipoToken::Virgula) {
                    Ok(_) => {},
                    Err(e) => return e,
                }
                let identificador = self.identificador();
                if identificador.is_erro() {
                    return identificador;
                }
                let identificadores = self.identificadores();
                if identificadores.is_erro() {
                    return identificadores;
                }
                no2(RegraAST::Identificadores, identificador, identificadores)
            },
            _ => vazio(),
        }
    }

    /// dimensao : '[' exp_aritmetica ']' dimensao | <<vazio>>
    fn dimensao(&mut self) -> (r: NoAST)
        requires
            old(self).inv(),
        ensures
            final(self).passo(old(self), r),
        decreases old(self).medida(), 0nat,
    {
        match self.la() {
            TipoToken::AbreCol => {
                match self.match_(TipoToken::AbreCol) {
                    Ok(_) => {},
                    Err(e) => return e,
                }
                let exp = self.exp_aritmetica();
                if exp.is_erro() {
                    return exp;
                }
                match self.match_(TipoToken::FechaCol) {
                    Ok(_) => {},
                    Err(e) => return e,
                }
                let dimensao = self.dimensao();
                if dimensao.is_erro() {
                    return dimensao;
                }
                no2(RegraAST::Dimensao, exp, dimensao)
            },
            _ => vazio(),
        }
    }

    /// tipo : registro | tipo_estendido
    fn tipo(&mut self) -> (r: NoAST)
        requires
            old(self).inv(),
        ensures
            final(self).passo(old(self), r),
            final(self).consumiu(old(self), r),
        decreases old(self).medida(), 3nat,
    {
        match self.la() {
            TipoToken::PCregistro => self.registro(),
            TipoToken::Circunflexo | TipoToken::PCliteral | TipoToken::PCinteiro | TipoToken::PCreal
            | TipoToken::PClogico | TipoToken::Ident => self.tipo_estendido(),
            _ => self.erro_sintatico(),
        }
    }

    /// tipo_basico : 'literal' | 'inteiro' | 'real' | 'logico'
    fn tipo_basico(&mut self) -> (r: NoAST)
        requires
            old(self).inv(),
        ensures
            final(self).passo(old(self), r),
            final(self).consumiu(old(self), r),
        decreases old(self).medida(), 0nat,
    {
        let t = self.la();
        match t {
            TipoToken::PCliteral | TipoToken::PCinteiro | TipoToken::PCreal | TipoToken::PClogico => {
                match self.match_(t) {
                    Ok(tok) => folha(RegraAST::TipoBasico(tok)),
                    Err(e) => e,
                }
            },
            _ => self.erro_sintatico(),
        }
    }

    /// tipo_basico_ident : tipo_basico | IDENT
    fn tipo_basico_ident(&mut self) -> (r: NoAST)
        requires
            old(self).inv(),
        ensures
            final(self).passo(old(self), r),
            final(self).consumiu(old(self), r),
        decreases old(self).medida(), 1nat,
    {
        match self.la() {
            TipoToken::PCliteral | TipoToken::PCinteiro | TipoToken::PCreal | TipoToken::PClogico => self.tipo_basico(),
            TipoToken::Ident => match self.match_(TipoToken::Ident) {
                Ok(tok) => folha(RegraAST::Ident(tok)),
                Err(e) => e,
            },
            _ => self.erro_sintatico(),
        }
    }

    /// tipo_estendido : circunflexo tipo_basico_ident
    fn tipo_estendido(&mut self) -> (r: NoAST)
        requires
            old(self).inv(),
        ensures
            final(self).passo(old(self), r),
            final(self).consumiu(old(self), r),
            !(r.regra is Erro) ==> r.regra is TipoExtendido,
        decreases old(self).medida(), 2nat,
    {
        let circunflexo = self.circunflexo();
        if circunflexo.is_erro() {
            return circunflexo;
        }
        let tbi = self.tipo_basico_ident();
        if tbi.is_erro() {
            return tbi;
        }
        no2(RegraAST::TipoExtendido, circunflexo, tbi)
    }

    /// circunflexo : '^' | <<vazio>>
    fn circunflexo(&mut self) -> (r: NoAST)
        requires
            old(self).inv(),
        ensures
            final(self).passo(old(self), r),
            !(r.regra is Erro) ==> so_expressao(r),
        decreases old(self).medida(), 0nat,
    {
        match self.la() {
            TipoToken::Circunflexo => match self.match_(TipoToken::Circunflexo) {
                Ok(_) => folha(RegraAST::Circunflexo),
                Err(e) => e,
            },
            _ => vazio(),
        }
    }

    /// valor_constante : CADEIA | NUM_INT | NUM_REAL | 'verdadeiro' | 'falso'
    fn valor_constante(&mut self) -> (r: NoAST)
        requires
            old(self).inv(),
        ensures
            final(self).passo(old(self), r),
            final(self).consumiu(old(self), r),
        decreases old(self).medida(), 0nat,
    {
        let t = self.la();
        match t {
            TipoToken::Cadeia | TipoToken::NumInt | TipoToken::NumReal | TipoToken::PCverdadeiro
            | TipoToken::PCfalso => match self.match_(t) {
                Ok(tok) => folha(RegraAST::ValorConstante(tok)),
                Err(e) => e,
            },
            _ => self.erro_sintatico(),
        }
    }

    /// registro : 'registro' variaveis 'fim_registro' fecha_escopo
    fn registro(&mut self) -> (r: NoAST)
        requires
            old(self).inv(),
        ensures
            final(self).passo(old(self), r),
            final(self).consumiu(old(self), r),
        decreases old(self).medida(), 0nat,
    {
        match self.match_(TipoToken::PCregistro) {
            Ok(_) => {},
            Err(e) => return e,
        }
        let variaveis = self.variaveis();
        if variaveis.is_erro() {
            return variaveis;
        }
        match self.match_(TipoToken::PCfimRegistro) {
            Ok(_) => {},
            Err(e) => return e,
        }
        no2(RegraAST::Registro, variaveis, folha(RegraAST::FechaEscopo))
    }

    /// variaveis : variavel variaveis | <<vazio>>
    fn variaveis(&mut self) -> (r: NoAST)
        requires
            old(self).inv(),
        ensures
            final(self).passo(old(self), r),
        decreases old(self).medida(), 2nat,
    {
        match self.la() {
            TipoToken::Ident => {
                let variavel = self.variavel();
                if variavel.is_erro() {
                    return variavel;
                }
                let variaveis = self.variaveis();
                if variaveis.is_erro() {
                    return variaveis;
                }
                no2(RegraAST::Variaveis, variavel, variaveis)
            },
            _ => vazio(),
        }
    }

    /// declaracao_global : 'procedimento' IDENT '(' parametros ')' declaracoes_locais cmds
    ///     'fim_procedimento' | 'funcao' IDENT '(' parametros ')' ':' tipo_estendido
    ///     declaracoes_locais cmds 'fim_funcao'; o ultimo filho fecha o escopo aberto.
    #[verifier::rlimit(30)]
    fn declaracao_global(&mut self) -> (r: NoAST)
        requires
            old(self).inv(),
        ensures
            final(self).passo(old(self), r),
            final(self).consumiu(old(self), r),
        decreases old(self).medida(), 0nat,
    {
        match self.la() {
            TipoToken::PCprocedimento => {
                match self.match_(TipoToken::PCprocedimento) {
                    Ok(_) => {},
                    Err(e) => return e,
                }
                let ident = match self.match_(TipoToken::Ident) {
                    Ok(t) => folha(RegraAST::Ident(t)),
                    Err(e) => return e,
                };
                match self.match_(TipoToken::AbrePar) {
                    Ok(_) => {},
                    Err(e) => return e,
                }
                let parametros = self.parametros();
                if parametros.is_erro() {
                    return parametros;
                }
                match self.match_(TipoToken::FechaPar) {
                    Ok(_) => {},
                    Err(e) => return e,
                }
                let locais = self.declaracoes_locais();
                if locais.is_erro() {
                    return locais;
                }
                let cmds = self.cmds();
                if cmds.is_erro() {
                    return cmds;
                }
                match self.match_(TipoToken::PCfimProcedimento) {
                    Ok(_) => {},
                    Err(e) => return e,
                }
                no5(RegraAST::DeclaracaoProcedimento, ident, parametros, locais, cmds, folha(RegraAST::FechaEscopo))
            },
            TipoToken::PCfuncao => {
                match self.match_(TipoToken::PCfuncao) {
                    Ok(_) => {},
                    Err(e) => return e,
                }
                let ident = match self.match_(TipoToken::Ident) {
                    Ok(t) => folha(RegraAST::Ident(t)),
                    Err(e) => return e,
                };
                match self.match_(TipoToken::AbrePar) {
                    Ok(_) => {},
                    Err(e) => return e,
                }
                let parametros = self.parametros();
                if parametros.is_erro() {
                    return parametros;
                }
                match self.match_(TipoToken::FechaPar) {
                    Ok(_) => {},
                    Err(e) => return e,
                }
                match self.match_(TipoToken::Delim) {
                    Ok(_) => {},
                    Err(e) => return e,
                }
                let retorno = self.tipo_estendido();
                if retorno.is_erro() {
                    return retorno;
                }
                let locais = self.declaracoes_locais();
                if locais.is_erro() {
                    return locais;
                }
                let cmds = self.cmds();
                if cmds.is_erro() {
                    return cmds;
                }
                match self.match_(TipoToken::PCfimFuncao) {
                    Ok(_) => {},
                    Err(e) => return e,
                }
                no6(RegraAST::DeclaracaoFuncao, ident, parametros, retorno, locais, cmds, folha(RegraAST::FechaEscopo))
            },
            _ => self.erro_sintatico(),
        }
    }

    /// declaracoes_locais : declaracao_local declaracoes_locais | <<vazio>>
    fn declaracoes_locais(&mut self) -> (r: NoAST)
        requires
            old(self).inv(),
        ensures
            final(self).passo(old(self), r),
        decreases old(self).medida(), 1nat,
    {
        match self.la() {
            TipoToken::PCdeclare | TipoToken::PCconstante | TipoToken::PCtipo => {
                let declaracao = self.declaracao_local();
                if declaracao.is_erro() {
                    return declaracao;
                }
                let resto = self.declaracoes_locais();
                if resto.is_erro() {
                    return resto;
                }
                no2(RegraAST::DeclaracoesLocais, declaracao, resto)
            },
            _ => vazio(),
        }
    }

    /// parametro : var identificador identificadores ':' tipo_estendido
    fn parametro(&mut self) -> (r: NoAST)
        requires
            old(self).inv(),
        ensures
            final(self).passo(old(self), r),
            final(self).consumiu(old(self), r),
        decreases old(self).medida(), 1nat,
    {
        let var = self.var();
        if var.is_erro() {
            return var;
        }
        let identificador = self.identificador();
        if identificador.is_erro() {
            return identificador;
        }
        let identificadores = self.identificadores();
        if identificadores.is_erro() {
            return identificadores;
        }
        match self.match_(TipoToken::Delim) {
            Ok(_) => {},
            Err(e) => return e,
        }
        let tipo = self.tipo_estendido();
        if tipo.is_erro() {
            return tipo;
        }
        no4(RegraAST::Parametro, var, identificador, identificadores, tipo)
    }

    /// parametros : parametro parametros2 | <<vazio>>
    fn parametros(&mut self) -> (r: NoAST)
        requires
            old(self).inv(),
        ensures
            final(self).passo(old(self), r),
        decreases old(self).medida(), 2nat,
    {
        match self.la() {
            TipoToken::PCvar | TipoToken::Ident => {
                let parametro = self.parametro();
                if parametro.is_erro() {
                    return parametro;
                }
                let resto = self.parametros2();
                if resto.is_erro() {
                    return resto;
                }
                no2(RegraAST::Parametros, parametro, resto)
            },
            _ => vazio(),
        }
    }

    /// parametros2 : ',' parametro parametros2 | <<vazio>>
    fn parametros2(&mut self) -> (r: NoAST)
        requires
            old(self).inv(),
        ensures
            final(self).passo(old(self), r),
        decreases old(self).medida(), 0nat,
    {
        match self.la() {
            TipoToken::Virgula => {
                match self.match_(TipoToken::Virgula) {
                    Ok(_) => {},
                    Err(e) => return e,
                }
                let parametro = self.parametro();
                if parametro.is_erro() {
                    return parametro;
                }
                let resto = self.parametros2();
                if resto.is_erro() {
                    return resto;
                }
                no2(RegraAST::Parametros2, parametro, resto)
            },
            _ => vazio(),
        }
    }

    /// var : 'var' | <<vazio>>
    fn var(&mut self) -> (r: NoAST)
        requires
            old(self).inv(),
        ensures
            final(self).passo(old(self), r),
        decreases old(self).medida(), 0nat,
    {
        match self.la() {
            TipoToken::PCvar => match self.match_(TipoToken::PCvar) {
                Ok(_) => folha(RegraAST::Var),
                Err(e) => e,
            },
            _ => vazio(),
        }
    }

    /// corpo : declaracoes_locais cmds
    fn corpo(&mut self) -> (r: NoAST)
        requires
            old(self).inv(),
        ensures
            final(self).passo(old(self), r),
            !(r.regra is Erro) ==> r.regra is Corpo && so_comando(r.filhos@[1]),
        decreases old(self).medida(), 4nat,
    {
        let locais = self.declaracoes_locais();
        if locais.is_erro() {
            return locais;
        }
        let cmds = self.cmds();
        if cmds.is_erro() {
            return cmds;
        }
        no2(RegraAST::Corpo, locais, cmds)
    }

    /// cmd : cmdLeia | cmdEscreva | cmdSe | cmdCaso | cmdPara | cmdEnquanto | cmdFaca
    ///     | cmdAtribuicao | cmdChamada | cmdRetorne; IDENT seguido de '(' e uma chamada.
    fn cmd(&mut self) -> (r: NoAST)
        requires
            old(self).inv(),
        ensures
            final(self).passo(old(self), r),
            !(r.regra is Erro) ==> so_comando(r),
            final(self).consumiu(old(self), r),
        decreases old(self).medida(), 2nat,
    {
        match self.la() {
            TipoToken::PCleia => self.cmd_leia(),
            TipoToken::PCescreva => self.cmd_escreva(),
            TipoToken::PCse => self.cmd_se(),
            TipoToken::PCcaso => self.cmd_caso(),
            TipoToken::PCpara => self.cmd_para(),
            TipoToken::PCenquanto => self.cmd_enquanto(),
            TipoToken::PCfaca => self.cmd_faca(),
            TipoToken::Circunflexo => self.cmd_atribuicao(),
            TipoToken::Ident => {
                if self.lookahead(2).tipo == TipoToken::AbrePar {
                    self.cmd_chamada()
                } else {
                    self.cmd_atribuicao()
                }
            },
            TipoToken::PCretorne => self.cmd_retorne(),
            _ => self.erro_sintatico(),
        }
    }

    /// cmds : cmd cmds | <<vazio>>
    fn cmds(&mut self) -> (r: NoAST)
        requires
            old(self).inv(),
        ensures
            final(self).passo(old(self), r),
            !(r.regra is Erro) ==> so_comando(r),
        decreases old(self).medida(), 3nat,
    {
        match self.la() {
            TipoToken::PCleia | TipoToken::PCescreva | TipoToken::PCse | TipoToken::PCcaso | TipoToken::PCpara | TipoToken::PCenquanto | TipoToken::PCfaca | TipoToken::Circunflexo | TipoToken::Ident | TipoToken::PCretorne => {
                let cmd = self.cmd();
                if cmd.is_erro() {
                    return cmd;
                }
                let resto = self.cmds();
                if resto.is_erro() {
                    return resto;
                }
                no2(RegraAST::CMDs, cmd, resto)
            },
            _ => vazio(),
        }
    }

    /// cmdLeia : 'leia' '(' circunflexo identificador cmdLeia2 ')'
    fn cmd_leia(&mut self) -> (r: NoAST)
        requires
            old(self).inv(),
        ensures
            final(self).passo(old(self), r),
            !(r.regra is Erro) ==> so_comando(r),
            final(self).consumiu(old(self), r),
        decreases old(self).medida(), 0nat,
    {
        match self.match_(TipoToken::PCleia) {
            Ok(_) => {},
            Err(e) => return e,
        }
        match self.match_(TipoToken::AbrePar) {
            Ok(_) => {},
            Err(e) => return e,
        }
        let circunflexo = self.circunflexo();
        if circunflexo.is_erro() {
            return circunflexo;
        }
        let identificador = self.identificador();
        if identificador.is_erro() {
            return identificador;
        }
        let resto = self.cmd_leia2();
        if resto.is_erro() {
            return resto;
        }
        match self.match_(TipoToken::FechaPar) {
            Ok(_) => {},
            Err(e) => return e,
        }
        no3(RegraAST::CMDLeia, circunflexo, identificador, resto)
    }

    /// cmdLeia2 : ',' circunflexo identificador cmdLeia2 | <<vazio>>
    fn cmd_leia2(&mut self) -> (r: NoAST)
        requires
            old(self).inv(),
        ensures
            final(self).passo(old(self), r),
            !(r.regra is Erro) ==> so_comando(r),
        decreases old(self).medida(), 0nat,
    {
        match self.la() {
            TipoToken::Virgula => {
                match self.match_(TipoToken::Virgula) {
                    Ok(_) => {},
                    Err(e) => return e,
                }
                let circunflexo = self.circunflexo();
                if circunflexo.is_erro() {
                    return circunflexo;
                }
                let identificador = self.identificador();
                if identificador.is_erro() {
                    return identificador;
                }
                let resto = self.cmd_leia2();
                if resto.is_erro() {
                    return resto;
                }
                no3(RegraAST::CMDLeia2, circunflexo, identificador, resto)
            },
            _ => vazio(),
        }
    }

    /// cmdEscreva : 'escreva' '(' expressao expressoes ')'
    fn cmd_escreva(&mut self) -> (r: NoAST)
        requires
            old(self).inv(),
        ensures
            final(self).passo(old(self), r),
            !(r.regra is Erro) ==> so_comando(r),
            final(self).consumiu(old(self), r),
        decreases old(self).medida(), 0nat,
    {
        match self.match_(TipoToken::PCescreva) {
            Ok(_) => {},
            Err(e) => return e,
        }
        match self.match_(TipoToken::AbrePar) {
            Ok(_) => {},
            Err(e) => return e,
        }
        let expressao = self.expressao();
        if expressao.is_erro() {
            return expressao;
        }
        let expressoes = self.expressoes();
        if expressoes.is_erro() {
            return expressoes;
        }
        match self.match_(TipoToken::FechaPar) {
            Ok(_) => {},
            Err(e) => return e,
        }
        no2(RegraAST::CMDEscreva, expressao, expressoes)
    }

    /// cmdSe : 'se' expressao 'entao' cmds senao 'fim_se'
    fn cmd_se(&mut self) -> (r: NoAST)
        requires
            old(self).inv(),
        ensures
            final(self).passo(old(self), r),
            !(r.regra is Erro) ==> so_comando(r),
            final(self).consumiu(old(self), r),
        decreases old(self).medida(), 0nat,
    {
        match self.match_(TipoToken::PCse) {
            Ok(_) => {},
            Err(e) => return e,
        }
        let expressao = self.expressao();
        if expressao.is_erro() {
            return expressao;
        }
        match self.match_(TipoToken::PCentao) {
            Ok(_) => {},
            Err(e) => return e,
        }
        let cmds = self.cmds();
        if cmds.is_erro() {
            return cmds;
        }
        let senao = self.senao();
        if senao.is_erro() {
            return senao;
        }
        match self.match_(TipoToken::PCfimSe) {
            Ok(_) => {},
            Err(e) => return e,
        }
        no3(RegraAST::CMDSe, expressao, cmds, senao)
    }

    /// senao : 'senao' cmds | <<vazio>>
    fn senao(&mut self) -> (r: NoAST)
        requires
            old(self).inv(),
        ensures
            final(self).passo(old(self), r),
            !(r.regra is Erro) ==> so_comando(r),
        decreases old(self).medida(), 0nat,
    {
        match self.la() {
            TipoToken::PCsenao => {
                match self.match_(TipoToken::PCsenao) {
                    Ok(_) => {},
                    Err(e) => return e,
                }
                let cmds = self.cmds();
                if cmds.is_erro() {
                    return cmds;
                }
                no1(RegraAST::Senao, cmds)
            },
            _ => vazio(),
        }
    }

    /// cmdCaso : 'caso' exp_aritmetica 'seja' selecao senao 'fim_caso'
    fn cmd_caso(&mut self) -> (r: NoAST)
        requires
            old(self).inv(),
        ensures
            final(self).passo(old(self), r),
            !(r.regra is Erro) ==> so_comando(r),
            final(self).consumiu(old(self), r),
        decreases old(self).medida(), 0nat,
    {
        match self.match_(TipoToken::PCcaso) {
            Ok(_) => {},
            Err(e) => return e,
        }
        let exp = self.exp_aritmetica();
        if exp.is_erro() {
            return exp;
        }
        match self.match_(TipoToken::PCseja) {
            Ok(_) => {},
            Err(e) => return e,
        }
        let selecao = self.selecao();
        if selecao.is_erro() {
            return selecao;
        }
        let senao = self.senao();
        if senao.is_erro() {
            return senao;
        }
        match self.match_(TipoToken::PCfimCaso) {
            Ok(_) => {},
            Err(e) => return e,
        }
        no3(RegraAST::CMDCaso, exp, selecao, senao)
    }

    /// cmdPara : 'para' IDENT '<-' exp_aritmetica 'ate' exp_aritmetica 'faca' cmds 'fim_para'
    fn cmd_para(&mut self) -> (r: NoAST)
        requires
            old(self).inv(),
        ensures
            final(self).passo(old(self), r),
            !(r.regra is Erro) ==> so_comando(r),
            final(self).consumiu(old(self), r),
        decreases old(self).medida(), 0nat,
    {
        match self.match_(TipoToken::PCpara) {
            Ok(_) => {},
            Err(e) => return e,
        }
        let ident = match self.match_(TipoToken::Ident) {
            Ok(t) => folha(RegraAST::Ident(t)),
            Err(e) => return e,
        };
        match self.match_(TipoToken::BackArrow) {
            Ok(_) => {},
            Err(e) => return e,
        }
        let inicio = self.exp_aritmetica();
        if inicio.is_erro() {
            return inicio;
        }
        match self.match_(TipoToken::PCate) {
            Ok(_) => {},
            Err(e) => return e,
        }
        let fim = self.exp_aritmetica();
        if fim.is_erro() {
            return fim;
        }
        match self.match_(TipoToken::PCfaca) {
            Ok(_) => {},
            Err(e) => return e,
        }
        let cmds = self.cmds();
        if cmds.is_erro() {
            return cmds;
        }
        match self.match_(TipoToken::PCfimPara) {
            Ok(_) => {},
            Err(e) => return e,
        }
        no4(RegraAST::CMDPara, ident, inicio, fim, cmds)
    }

    /// cmdEnquanto : 'enquanto' expressao 'faca' cmds 'fim_enquanto'
    fn cmd_enquanto(&mut self) -> (r: NoAST)
        requires
            old(self).inv(),
        ensures
            final(self).passo(old(self), r),
            !(r.regra is Erro) ==> so_comando(r),
            final(self).consumiu(old(self), r),
        decreases old(self).medida(), 0nat,
    {
        match self.match_(TipoToken::PCenquanto) {
            Ok(_) => {},
            Err(e) => return e,
        }
        let expressao = self.expressao();
        if expressao.is_erro() {
            return expressao;
        }
        match self.match_(TipoToken::PCfaca) {
            Ok(_) => {},
            Err(e) => return e,
        }
        let cmds = self.cmds();
        if cmds.is_erro() {
            return cmds;
        }
        match self.match_(TipoToken::PCfimEnquanto) {
            Ok(_) => {},
            Err(e) => return e,
        }
        no2(RegraAST::CMDEnquanto, expressao, cmds)
    }

    /// cmdFaca : 'faca' cmds 'ate' expressao
    fn cmd_faca(&mut self) -> (r: NoAST)
        requires
            old(self).inv(),
        ensures
            final(self).passo(old(self), r),
            !(r.regra is Erro) ==> so_comando(r),
            final(self).consumiu(old(self), r),
        decreases old(self).medida(), 0nat,
    {
        match self.match_(TipoToken::PCfaca) {
            Ok(_) => {},
            Err(e) => return e,
        }
        let cmds = self.cmds();
        if cmds.is_erro() {
            return cmds;
        }
        match self.match_(TipoToken::PCate) {
            Ok(_) => {},
            Err(e) => return e,
        }
        let expressao = self.expressao();
        if expressao.is_erro() {
            return expressao;
        }
        no2(RegraAST::CMDFaca, cmds, expressao)
    }

    /// cmdAtribuicao : circunflexo identificador '<-' expressao
    fn cmd_atribuicao(&mut self) -> (r: NoAST)
        requires
            old(self).inv(),
        ensures
            final(self).passo(old(self), r),
            !(r.regra is Erro) ==> so_comando(r),
            !(r.regra is Erro) ==> r.regra is CMDAtribuicao && so_expressao(r.filhos@[2]),
            final(self).consumiu(old(self), r),
        decreases old(self).medida(), 1nat,
    {
        let circunflexo = self.circunflexo();
        if circunflexo.is_erro() {
            return circunflexo;
        }
        let identificador = self.identificador();
        if identificador.is_erro() {
            return identificador;
        }
        match self.match_(TipoToken::BackArrow) {
            Ok(_) => {},
            Err(e) => return e,
        }
        let expressao = self.expressao();
        if expressao.is_erro() {
            return expressao;
        }
        no3(RegraAST::CMDAtribuicao, circunflexo, identificador, expressao)
    }

    /// cmdChamada : IDENT '(' expressao expressoes ')'
    fn cmd_chamada(&mut self) -> (r: NoAST)
        requires
            old(self).inv(),
        ensures
            final(self).passo(old(self), r),
            !(r.regra is Erro) ==> so_comando(r),
            !(r.regra is Erro) ==> r.regra is CMDChamada && so_expressao(r.filhos@[1]) && so_expressao(r.filhos@[2]),
            final(self).consumiu(old(self), r),
        decreases old(self).medida(), 0nat,
    {
        let ident = match self.match_(TipoToken::Ident) {
            Ok(t) => folha(RegraAST::Ident(t)),
            Err(e) => return e,
        };
        match self.match_(TipoToken::AbrePar) {
            Ok(_) => {},
            Err(e) => return e,
        }
        let expressao = self.expressao();
        if expressao.is_erro() {
            return expressao;
        }
        let expressoes = self.expressoes();
        if expressoes.is_erro() {
            return expressoes;
        }
        match self.match_(TipoToken::FechaPar) {
            Ok(_) => {},
            Err(e) => return e,
        }
        no3(RegraAST::CMDChamada, ident, expressao, expressoes)
    }

    /// cmdRetorne : 'retorne' expressao
    fn cmd_retorne(&mut self) -> (r: NoAST)
        requires
            old(self).inv(),
        ensures
            final(self).passo(old(self), r),
            !(r.regra is Erro) ==> so_comando(r),
            !(r.regra is Erro) ==> r.regra is CMDRetorne && so_expressao(r.filhos@[0]),
            final(self).consumiu(old(self), r),
        decreases old(self).medida(), 0nat,
    {
        match self.match_(TipoToken::PCretorne) {
            Ok(_) => {},
            Err(e) => return e,
        }
        let expressao = self.expressao();
        if expressao.is_erro() {
            return expressao;
        }
        no1(RegraAST::CMDRetorne, expressao)
    }

    /// selecao : item_selecao selecao | <<vazio>>
    fn selecao(&mut self) -> (r: NoAST)
        requires
            old(self).inv(),
        ensures
            final(self).passo(old(self), r),
            !(r.regra is Erro) ==> so_comando(r),
        decreases old(self).medida(), 4nat,
    {
        match self.la() {
            TipoToken::OpAritSub | TipoToken::NumInt => {
                let item = self.item_selecao();
                if item.is_erro() {
                    return item;
                }
                let resto = self.selecao();
                if resto.is_erro() {
                    return resto;
                }
                no2(RegraAST::Selecao, item, resto)
            },
            _ => vazio(),
        }
    }

    /// item_selecao : constantes ':' cmds
    fn item_selecao(&mut self) -> (r: NoAST)
        requires
            old(self).inv(),
        ensures
            final(self).passo(old(self), r),
            !(r.regra is Erro) ==> so_comando(r),
            final(self).consumiu(old(self), r),
        decreases old(self).medida(), 3nat,
    {
        let constantes = self.constantes();
        if constantes.is_erro() {
            return constantes;
        }
        match self.match_(TipoToken::Delim) {
            Ok(_) => {},
            Err(e) => return e,
        }
        let cmds = self.cmds();
        if cmds.is_erro() {
            return cmds;
        }
        no2(RegraAST::ItemSelecao, constantes, cmds)
    }

    /// constantes : numero_intervalo numero_intervalos
    fn constantes(&mut self) -> (r: NoAST)
        requires
            old(self).inv(),
        ensures
            final(self).passo(old(self), r),
            !(r.regra is Erro) ==> so_comando(r),
            final(self).consumiu(old(self), r),
        decreases old(self).medida(), 2nat,
    {
        let intervalo = self.numero_intervalo();
        if intervalo.is_erro() {
            return intervalo;
        }
        let resto = self.numero_intervalos();
        if resto.is_erro() {
            return resto;
        }
        no2(RegraAST::Constantes, intervalo, resto)
    }

    /// numero_intervalo : op_unario NUM_INT numero_intervalo2
    fn numero_intervalo(&mut self) -> (r: NoAST)
        requires
            old(self).inv(),
        ensures
            final(self).passo(old(self), r),
            !(r.regra is Erro) ==> so_comando(r),
            final(self).consumiu(old(self), r),
        decreases old(self).medida(), 1nat,
    {
        let sinal = self.op_unario();
        if sinal.is_erro() {
            return sinal;
        }
        let num = match self.match_(TipoToken::NumInt) {
            Ok(t) => folha(RegraAST::NumInt(t)),
            Err(e) => return e,
        };
        let fim = self.numero_intervalo2();
        if fim.is_erro() {
            return fim;
        }
        no3(RegraAST::NumeroIntervalo, sinal, num, fim)
    }

    /// numero_intervalos : ',' numero_intervalo numero_intervalos | <<vazio>>
    fn numero_intervalos(&mut self) -> (r: NoAST)
        requires
            old(self).inv(),
        ensures
            final(self).passo(old(self), r),
            !(r.regra is Erro) ==> so_comando(r),
        decreases old(self).medida(), 0nat,
    {
        match self.la() {
            TipoToken::Virgula => {
                match self.match_(TipoToken::Virgula) {
                    Ok(_) => {},
                    Err(e) => return e,
                }
                let intervalo = self.numero_intervalo();
                if intervalo.is_erro() {
                    return intervalo;
                }
                let resto = self.numero_intervalos();
                if resto.is_erro() {
                    return resto;
                }
                no2(RegraAST::NumeroIntervalos, intervalo, resto)
            },
            _ => vazio(),
        }
    }

    /// numero_intervalo2 : '..' op_unario NUM_INT | <<vazio>>
    fn numero_intervalo2(&mut self) -> (r: NoAST)
        requires
            old(self).inv(),
        ensures
            final(self).passo(old(self), r),
        decreases old(self).medida(), 0nat,
    {
        match self.la() {
            TipoToken::PontoPonto => {
                match self.match_(TipoToken::PontoPonto) {
                    Ok(_) => {},
                    Err(e) => return e,
                }
                let sinal = self.op_unario();
                if sinal.is_erro() {
                    return sinal;
                }
                let num = match self.match_(TipoToken::NumInt) {
                    Ok(t) => folha(RegraAST::NumInt(t)),
                    Err(e) => return e,
                };
                no2(RegraAST::NumeroIntervalo2, sinal, num)
            },
            _ => vazio(),
        }
    }

    /// op_unario : '-' | <<vazio>>
    fn op_unario(&mut self) -> (r: NoAST)
        requires
            old(self).inv(),
        ensures
            final(self).passo(old(self), r),
            !(r.regra is Erro) ==> so_expressao(r),
        decreases old(self).medida(), 0nat,
    {
        match self.la() {
            TipoToken::OpAritSub => match self.match_(TipoToken::OpAritSub) {
                Ok(_) => folha(RegraAST::OpUnario),
                Err(e) => e,
            },
            _ => vazio(),
        }
    }

    /// exp_aritmetica : termo termos
    fn exp_aritmetica(&mut self) -> (r: NoAST)
        requires
            old(self).inv(),
        ensures
            final(self).passo(old(self), r),
            !(r.regra is Erro) ==> so_expressao(r),
            final(self).consumiu(old(self), r),
        decreases old(self).medida(), 5nat,
    {
        let a = self.termo();
        if a.is_erro() {
            return a;
        }
        let b = self.termos();
        if b.is_erro() {
            return b;
        }
        no2(RegraAST::ExpAritmetica, a, b)
    }

    /// termo : fator fatores
    fn termo(&mut self) -> (r: NoAST)
        requires
            old(self).inv(),
        ensures
            final(self).passo(old(self), r),
            !(r.regra is Erro) ==> so_expressao(r),
            final(self).consumiu(old(self), r),
        decreases old(self).medida(), 4nat,
    {
        let a = self.fator();
        if a.is_erro() {
            return a;
        }
        let b = self.fatores();
        if b.is_erro() {
            return b;
        }
        no2(RegraAST::Termo, a, b)
    }

    /// termos : op1 termo termos | <<vazio>>
    fn termos(&mut self) -> (r: NoAST)
        requires
            old(self).inv(),
        ensures
            final(self).passo(old(self), r),
            !(r.regra is Erro) ==> so_expressao(r),
        decreases old(self).medida(), 1nat,
    {
        match self.la() {
            TipoToken::OpAritSoma | TipoToken::OpAritSub => {
                let op = self.op1();
                if op.is_erro() {
                    return op;
                }
                let termo = self.termo();
                if termo.is_erro() {
                    return termo;
                }
                let resto = self.termos();
                if resto.is_erro() {
                    return resto;
                }
                no3(RegraAST::Termos, op, termo, resto)
            },
            _ => vazio(),
        }
    }

    /// fator : parcela parcelas
    fn fator(&mut self) -> (r: NoAST)
        requires
            old(self).inv(),
        ensures
            final(self).passo(old(self), r),
            !(r.regra is Erro) ==> so_expressao(r),
            final(self).consumiu(old(self), r),
        decreases old(self).medida(), 3nat,
    {
        let a = self.parcela();
        if a.is_erro() {
            return a;
        }
        let b = self.parcelas();
        if b.is_erro() {
            return b;
        }
        no2(RegraAST::Fator, a, b)
    }

    /// fatores : op2 fator fatores | <<vazio>>
    fn fatores(&mut self) -> (r: NoAST)
        requires
            old(self).inv(),
        ensures
            final(self).passo(old(self), r),
            !(r.regra is Erro) ==> so_expressao(r),
        decreases old(self).medida(), 1nat,
    {
        match self.la() {
            TipoToken::OpAritMult | TipoToken::OpAritDiv => {
                let op = self.op2();
                if op.is_erro() {
                    return op;
                }
                let fator = self.fator();
                if fator.is_erro() {
                    return fator;
                }
                let resto = self.fatores();
                if resto.is_erro() {
                    return resto;
                }
                no3(RegraAST::Fatores, op, fator, resto)
            },
            _ => vazio(),
        }
    }

    /// op1 : '+' | '-'
    fn op1(&mut self) -> (r: NoAST)
        requires
            old(self).inv(),
        ensures
            final(self).passo(old(self), r),
            !(r.regra is Erro) ==> so_expressao(r),
            final(self).consumiu(old(self), r),
        decreases old(self).medida(), 0nat,
    {
        let t = self.la();
        match t {
            TipoToken::OpAritSoma | TipoToken::OpAritSub => match self.match_(t) {
                Ok(tok) => folha(RegraAST::Op1(tok)),
                Err(e) => e,
            },
            _ => self.erro_sintatico(),
        }
    }

    /// op2 : '*' | '/'
    fn op2(&mut self) -> (r: NoAST)
        requires
            old(self).inv(),
        ensures
            final(self).passo(old(self), r),
            !(r.regra is Erro) ==> so_expressao(r),
            final(self).consumiu(old(self), r),
        decreases old(self).medida(), 0nat,
    {
        let t = self.la();
        match t {
            TipoToken::OpAritMult | TipoToken::OpAritDiv => match self.match_(t) {
                Ok(tok) => folha(RegraAST::Op2(tok)),
                Err(e) => e,
            },
            _ => self.erro_sintatico(),
        }
    }

    /// op3 : '%'
    fn op3(&mut self) -> (r: NoAST)
        requires
            old(self).inv(),
        ensures
            final(self).passo(old(self), r),
            !(r.regra is Erro) ==> so_expressao(r),
            final(self).consumiu(old(self), r),
        decreases old(self).medida(), 0nat,
    {
        match self.match_(TipoToken::Porcento) {
            Ok(_) => folha(RegraAST::Op3),
            Err(e) => e,
        }
    }

    /// parcela : op_unario parcela_unario | parcela_nao_unario
    fn parcela(&mut self) -> (r: NoAST)
        requires
            old(self).inv(),
        ensures
            final(self).passo(old(self), r),
            !(r.regra is Erro) ==> so_expressao(r),
            final(self).consumiu(old(self), r),
        decreases old(self).medida(), 2nat,
    {
        match self.la() {
            TipoToken::OpAritSub | TipoToken::Circunflexo | TipoToken::Ident | TipoToken::NumInt
            | TipoToken::NumReal | TipoToken::AbrePar => {
                let sinal = self.op_unario();
                if sinal.is_erro() {
                    return sinal;
                }
                let valor = self.parcela_unario();
                if valor.is_erro() {
                    return valor;
                }
                no2(RegraAST::Parcela, sinal, valor)
            },
            TipoToken::EComercial | TipoToken::Cadeia => self.parcela_nao_unario(),
            _ => self.erro_sintatico(),
        }
    }

    /// parcelas : op3 parcela parcelas | <<vazio>>
    fn parcelas(&mut self) -> (r: NoAST)
        requires
            old(self).inv(),
        ensures
            final(self).passo(old(self), r),
            !(r.regra is Erro) ==> so_expressao(r),
        decreases old(self).medida(), 1nat,
    {
        match self.la() {
            TipoToken::Porcento => {
                let op = self.op3();
                if op.is_erro() {
                    return op;
                }
                let parcela = self.parcela();
                if parcela.is_erro() {
                    return parcela;
                }
                let resto = self.parcelas();
                if resto.is_erro() {
                    return resto;
                }
                no3(RegraAST::Parcelas, op, parcela, resto)
            },
            _ => vazio(),
        }
    }

    /// parcela_unario : circunflexo identificador | IDENT '(' expressao expressoes ')'
    ///     | '(' expressao ')' | NUM_INT | NUM_REAL
    #[verifier::rlimit(30)]
    fn parcela_unario(&mut self) -> (r: NoAST)
        requires
            old(self).inv(),
        ensures
            final(self).passo(old(self), r),
            !(r.regra is Erro) ==> so_expressao(r),
            final(self).consumiu(old(self), r),
        decreases old(self).medida(), 1nat,
    {
        match self.la() {
            TipoToken::Circunflexo => {
                let circunflexo = self.circunflexo();
                if circunflexo.is_erro() {
                    return circunflexo;
                }
                let identificador = self.identificador();
                if identificador.is_erro() {
                    return identificador;
                }
                no2(RegraAST::ParcelaUnario1, circunflexo, identificador)
            },
            TipoToken::Ident => {
                if self.lookahead(2).tipo == TipoToken::AbrePar {
                    let ident = match self.match_(TipoToken::Ident) {
                        Ok(t) => folha(RegraAST::Ident(t)),
                        Err(e) => return e,
                    };
                    match self.match_(TipoToken::AbrePar) {
                        Ok(_) => {},
                        Err(e) => return e,
                    }
                    let expressao = self.expressao();
                    if expressao.is_erro() {
                        return expressao;
                    }
                    let expressoes = self.expressoes();
                    if expressoes.is_erro() {
                        return expressoes;
                    }
                    match self.match_(TipoToken::FechaPar) {
                        Ok(_) => {},
                        Err(e) => return e,
                    }
                    no3(RegraAST::ParcelaUnario2, ident, expressao, expressoes)
                } else {
                    self.identificador()
                }
            },
            TipoToken::AbrePar => {
                match self.match_(TipoToken::AbrePar) {
                    Ok(_) => {},
                    Err(e) => return e,
                }
                let expressao = self.expressao();
                if expressao.is_erro() {
                    return expressao;
                }
                match self.match_(TipoToken::FechaPar) {
                    Ok(_) => {},
                    Err(e) => return e,
                }
                no1(RegraAST::ParcelaUnario3, expressao)
            },
            TipoToken::NumInt => match self.match_(TipoToken::NumInt) {
                Ok(t) => folha(RegraAST::NumInt(t)),
                Err(e) => e,
            },
            TipoToken::NumReal => match self.match_(TipoToken::NumReal) {
                Ok(t) => folha(RegraAST::NumReal(t)),
                Err(e) => e,
            },
            _ => self.erro_sintatico(),
        }
    }

    /// parcela_nao_unario : '&' identificador | CADEIA
    fn parcela_nao_unario(&mut self) -> (r: NoAST)
        requires
            old(self).inv(),
        ensures
            final(self).passo(old(self), r),
            !(r.regra is Erro) ==> so_expressao(r),
            final(self).consumiu(old(self), r),
        decreases old(self).medida(), 0nat,
    {
        match self.la() {
            TipoToken::EComercial => {
                match self.match_(TipoToken::EComercial) {
                    Ok(_) => {},
                    Err(e) => return e,
                }
                let identificador = self.identificador();
                if identificador.is_erro() {
                    return identificador;
                }
                no1(RegraAST::ParcelaNaoUnario, identificador)
            },
            TipoToken::Cadeia => match self.match_(TipoToken::Cadeia) {
                Ok(t) => folha(RegraAST::Cadeia(t)),
                Err(e) => e,
            },
            _ => self.erro_sintatico(),
        }
    }

    /// exp_relacional : exp_aritmetica exp_relacional2
    fn exp_relacional(&mut self) -> (r: NoAST)
        requires
            old(self).inv(),
        ensures
            final(self).passo(old(self), r),
            !(r.regra is Erro) ==> so_expressao(r),
            final(self).consumiu(old(self), r),
        decreases old(self).medida(), 6nat,
    {
        let a = self.exp_aritmetica();
        if a.is_erro() {
            return a;
        }
        let b = self.exp_relacional2();
        if b.is_erro() {
            return b;
        }
        no2(RegraAST::ExpRelacional, a, b)
    }

    /// exp_relacional2 : op_relacional exp_aritmetica | <<vazio>>
    fn exp_relacional2(&mut self) -> (r: NoAST)
        requires
            old(self).inv(),
        ensures
            final(self).passo(old(self), r),
            !(r.regra is Erro) ==> so_expressao(r),
        decreases old(self).medida(), 1nat,
    {
        match self.la() {
            TipoToken::OpRelIgual | TipoToken::OpRelDif | TipoToken::OpRelMaiorIgual | TipoToken::OpRelMenorIgual | TipoToken::OpRelMaior | TipoToken::OpRelMenor => {
                let op = self.op_relacional();
                if op.is_erro() {
                    return op;
                }
                let exp = self.exp_aritmetica();
                if exp.is_erro() {
                    return exp;
                }
                no2(RegraAST::ExpRelacional2, op, exp)
            },
            _ => vazio(),
        }
    }

    /// op_relacional : '=' | '<>' | '>=' | '<=' | '>' | '<'
    fn op_relacional(&mut self) -> (r: NoAST)
        requires
            old(self).inv(),
        ensures
            final(self).passo(old(self), r),
            !(r.regra is Erro) ==> so_expressao(r),
            final(self).consumiu(old(self), r),
        decreases old(self).medida(), 0nat,
    {
        let t = self.la();
        match t {
            TipoToken::OpRelIgual | TipoToken::OpRelDif | TipoToken::OpRelMaiorIgual | TipoToken::OpRelMenorIgual | TipoToken::OpRelMaior | TipoToken::OpRelMenor => match self.match_(t) {
                Ok(tok) => folha(RegraAST::OpRelacional(tok)),
                Err(e) => e,
            },
            _ => self.erro_sintatico(),
        }
    }

    /// expressao : termo_logico termos_logicos
    fn expressao(&mut self) -> (r: NoAST)
        requires
            old(self).inv(),
        ensures
            final(self).passo(old(self), r),
            !(r.regra is Erro) ==> so_expressao(r),
            final(self).consumiu(old(self), r),
        decreases old(self).medida(), 10nat,
    {
        let a = self.termo_logico();
        if a.is_erro() {
            return a;
        }
        let b = self.termos_logicos();
        if b.is_erro() {
            return b;
        }
        no2(RegraAST::Expressao, a, b)
    }

    /// expressoes : ',' expressao expressoes | <<vazio>>
    fn expressoes(&mut self) -> (r: NoAST)
        requires
            old(self).inv(),
        ensures
            final(self).passo(old(self), r),
            !(r.regra is Erro) ==> so_expressao(r),
        decreases old(self).medida(), 0nat,
    {
        match self.la() {
            TipoToken::Virgula => {
                match self.match_(TipoToken::Virgula) {
                    Ok(_) => {},
                    Err(e) => return e,
                }
                let expressao = self.expressao();
                if expressao.is_erro() {
                    return expressao;
                }
                let resto = self.expressoes();
                if resto.is_erro() {
                    return resto;
                }
                no2(RegraAST::Expressoes, expressao, resto)
            },
            _ => vazio(),
        }
    }

    /// termo_logico : fator_logico fatores_logicos
    fn termo_logico(&mut self) -> (r: NoAST)
        requires
            old(self).inv(),
        ensures
            final(self).passo(old(self), r),
            !(r.regra is Erro) ==> so_expressao(r),
            final(self).consumiu(old(self), r),
        decreases old(self).medida(), 9nat,
    {
        let a = self.fator_logico();
        if a.is_erro() {
            return a;
        }
        let b = self.fatores_logicos();
        if b.is_erro() {
            return b;
        }
        no2(RegraAST::TermoLogico, a, b)
    }

    /// termos_logicos : op_logico_1 termo_logico termos_logicos | <<vazio>>
    fn termos_logicos(&mut self) -> (r: NoAST)
        requires
            old(self).inv(),
        ensures
            final(self).passo(old(self), r),
            !(r.regra is Erro) ==> so_expressao(r),
        decreases old(self).medida(), 1nat,
    {
        match self.la() {
            TipoToken::PCou => {
                let op = self.op_logico_1();
                if op.is_erro() {
                    return op;
                }
                let termo = self.termo_logico();
                if termo.is_erro() {
                    return termo;
                }
                let resto = self.termos_logicos();
                if resto.is_erro() {
                    return resto;
                }
                no3(RegraAST::TermosLogicos, op, termo, resto)
            },
            _ => vazio(),
        }
    }

    /// fator_logico : nao parcela_logica
    fn fator_logico(&mut self) -> (r: NoAST)
        requires
            old(self).inv(),
        ensures
            final(self).passo(old(self), r),
            !(r.regra is Erro) ==> so_expressao(r),
            final(self).consumiu(old(self), r),
        decreases old(self).medida(), 8nat,
    {
        let a = self.nao();
        if a.is_erro() {
            return a;
        }
        let b = self.parcela_logica();
        if b.is_erro() {
            return b;
        }
        no2(RegraAST::FatorLogico, a, b)
    }

    /// fatores_logicos : op_logico_2 fator_logico fatores_logicos | <<vazio>>
    fn fatores_logicos(&mut self) -> (r: NoAST)
        requires
            old(self).inv(),
        ensures
            final(self).passo(old(self), r),
            !(r.regra is Erro) ==> so_expressao(r),
        decreases old(self).medida(), 1nat,
    {
        match self.la() {
            TipoToken::PCe => {
                let op = self.op_logico_2();
                if op.is_erro() {
                    return op;
                }
                let fator = self.fator_logico();
                if fator.is_erro() {
                    return fator;
                }
                let resto = self.fatores_logicos();
                if resto.is_erro() {
                    return resto;
                }
                no3(RegraAST::FatoresLogicos, op, fator, resto)
            },
            _ => vazio(),
        }
    }

    /// nao : 'nao' | <<vazio>>
    fn nao(&mut self) -> (r: NoAST)
        requires
            old(self).inv(),
        ensures
            final(self).passo(old(self), r),
            !(r.regra is Erro) ==> so_expressao(r),
        decreases old(self).medida(), 0nat,
    {
        match self.la() {
            TipoToken::PCnao => match self.match_(TipoToken::PCnao) {
                Ok(_) => folha(RegraAST::Nao),
                Err(e) => e,
            },
            _ => vazio(),
        }
    }

    /// parcela_logica : constante_logica | exp_relacional
    fn parcela_logica(&mut self) -> (r: NoAST)
        requires
            old(self).inv(),
        ensures
            final(self).passo(old(self), r),
            !(r.regra is Erro) ==> so_expressao(r),
            final(self).consumiu(old(self), r),
        decreases old(self).medida(), 7nat,
    {
        match self.la() {
            TipoToken::PCverdadeiro | TipoToken::PCfalso => self.constante_logica(),
            TipoToken::OpAritSub | TipoToken::Circunflexo | TipoToken::Ident | TipoToken::NumInt
            | TipoToken::NumReal | TipoToken::AbrePar | TipoToken::EComercial
            | TipoToken::Cadeia => self.exp_relacional(),
            _ => self.erro_sintatico(),
        }
    }

    /// constante_logica : 'verdadeiro' | 'falso'
    fn constante_logica(&mut self) -> (r: NoAST)
        requires
            old(self).inv(),
        ensures
            final(self).passo(old(self), r),
            !(r.regra is Erro) ==> so_expressao(r),
            final(self).consumiu(old(self), r),
        decreases old(self).medida(), 0nat,
    {
        let t = self.la();
        match t {
            TipoToken::PCverdadeiro | TipoToken::PCfalso => match self.match_(t) {
                Ok(tok) => folha(RegraAST::ConstanteLogica(tok)),
                Err(e) => e,
            },
            _ => self.erro_sintatico(),
        }
    }

    /// op_logico_1 : 'ou'
    fn op_logico_1(&mut self) -> (r: NoAST)
        requires
            old(self).inv(),
        ensures
            final(self).passo(old(self), r),
            !(r.regra is Erro) ==> so_expressao(r),
            final(self).consumiu(old(self), r),
        decreases old(self).medida(), 0nat,
    {
        match self.match_(TipoToken::PCou) {
            Ok(_) => folha(RegraAST::OpLogico1),
            Err(e) => e,
        }
    }

    /// op_logico_2 : 'e'
    fn op_logico_2(&mut self) -> (r: NoAST)
        requires
            old(self).inv(),
        ensures
            final(self).passo(old(self), r),
            !(r.regra is Erro) ==> so_expressao(r),
            final(self).consumiu(old(self), r),
        decreases old(self).medida(), 0nat,
    {
        match self.match_(TipoToken::PCe) {
            Ok(_) => folha(RegraAST::OpLogico2),
            Err(e) => e,
        }
    }
}

} // verus!
