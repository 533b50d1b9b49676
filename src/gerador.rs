use vstd::prelude::*;
use crate::lexico::token::TipoToken;
use crate::semantico::escopos::Escopos;
use crate::lexico::token::Token;
use crate::semantico::{campo_de, campos_de, lema_prefixo_refl, lema_prefixo_trans, prefixo};
use crate::semantico::tabela_de_simbolos::{Membros, TabelaDeSimbolos, TipoSimbolo};
use crate::semantico::visitor::Visitor;
use crate::sintatico::arvore_sintatica::{
    bem_formado, idents_desde, lema_filhos_bem_formados, so_expressao, texto_de, tipo_spec, NoAST,
    RegraAST,
};
use crate::texto::{
    anexar, anexar_inteiro, decimal_com_sinal, push_char, so_algarismos, texto, valor_decimal,
    valor_inteiro,
};

verus! {

broadcast use lema_prefixo_trans;

/// Tipo dado a `n` ao registrar, em ordem, os nomes `nomes` com o tipo `tipo`, cada um depois
/// dos nomes `nome.campo` dos campos de um registro.
pub open spec fn registro_nomes(nomes: Seq<Token>, tipo: TipoSimbolo, n: Seq<char>) -> Option<TipoSimbolo>
    decreases nomes.len(),
{
    if nomes.len() == 0 {
        None
    } else if n == nomes.last().lexema@ {
        Some(tipo)
    } else {
        match campo_de(nomes.last().lexema@, campos_de(tipo), n) {
            Some(t) => Some(t),
            None => registro_nomes(nomes.drop_last(), tipo, n),
        }
    }
}

/// `n` tabulacoes.
pub open spec fn tabs(n: nat) -> Seq<char> {
    Seq::new(n, |i: int| '\t')
}

/// Rotulos `case k:` para cada inteiro `k` de `lo` a `hi`, cada um numa linha com recuo
/// `recuo`.
pub open spec fn rotulos(lo: int, hi: int, recuo: nat) -> Seq<char>
    decreases hi - lo + 1,
{
    if lo > hi {
        Seq::empty()
    } else {
        "\n"@ + tabs(recuo) + "case "@ + decimal_com_sinal(lo) + ":"@ + rotulos(lo + 1, hi, recuo)
    }
}

/// Rotulos `case k:` de `lo` a `hi`, inclusive, com recuo `recuo`.
pub fn rotulos_caso(lo: i64, hi: i64, recuo: u32) -> (r: String)
    ensures
        r@ == rotulos(lo as int, hi as int, recuo as nat),
{
    let mut s = String::new();
    if lo > hi {
        return s;
    }
    let mut i: i64 = lo;
    loop
        invariant
            lo <= i <= hi,
            rotulos(lo as int, hi as int, recuo as nat) == s@ + rotulos(i as int, hi as int, recuo as nat),
        decreases hi - i,
    {
        let ghost antes = s@;
        proof {
            reveal_strlit("\n");
        }
        push_char(&mut s, '\n');
        anexar_tabs(&mut s, recuo);
        anexar(&mut s, "case ");
        anexar_inteiro(&mut s, i);
        anexar(&mut s, ":");
        proof {
            assert(s@ =~= antes + ("\n"@ + tabs(recuo as nat) + "case "@ + decimal_com_sinal(i as int) + ":"@));
            assert(rotulos(i as int, hi as int, recuo as nat) =~= ("\n"@ + tabs(recuo as nat) + "case "@
                + decimal_com_sinal(i as int) + ":"@) + rotulos(i + 1, hi as int, recuo as nat));
        }
        if i == hi {
            proof {
                assert(rotulos(i + 1, hi as int, recuo as nat) == Seq::<char>::empty());
                assert(s@ =~= s@ + Seq::<char>::empty());
            }
            return s;
        }
        i = i + 1;
    }
}

/// Acrescenta `n` tabulacoes.
fn anexar_tabs(s: &mut String, n: u32)
    ensures
        final(s)@ == old(s)@ + tabs(n as nat),
{
    let mut k: u32 = 0;
    while k < n
        invariant
            k <= n,
            s@ == old(s)@ + tabs(k as nat),
        decreases n - k,
    {
        push_char(s, '\t');
        proof {
            assert(s@ =~= old(s)@ + tabs((k + 1) as nat));
        }
        k = k + 1;
    }
}

/// Nome em C de um tipo basico.
fn c_basico(t: TipoToken) -> (r: &'static str)
    ensures
        r@ == c_basico_spec(t),
{
    match t {
        TipoToken::PCliteral => "char",
        TipoToken::PCinteiro => "int",
        TipoToken::PCreal => "float",
        TipoToken::PClogico => "bool",
        _ => "void",
    }
}

/// Nome em C de um tipo basico.
pub open spec fn c_basico_spec(t: TipoToken) -> Seq<char> {
    match t {
        TipoToken::PCliteral => "char"@,
        TipoToken::PCinteiro => "int"@,
        TipoToken::PCreal => "float"@,
        TipoToken::PClogico => "bool"@,
        _ => "void"@,
    }
}

/// Tipo declarado `literal`, sem ponteiro.
pub open spec fn e_cadeia_spec(tipo: NoAST) -> bool {
    &&& tipo.regra is TipoExtendido
    &&& tipo.filhos@.len() == 2
    &&& tipo.filhos@[0].regra is Vazio
    &&& tipo.filhos@[1].regra is TipoBasico
    &&& tipo.filhos@[1].regra->TipoBasico_0.tipo == TipoToken::PCliteral
}

/// Tipo declarado com `^`.
pub open spec fn e_ponteiro_spec(tipo: NoAST) -> bool {
    &&& tipo.regra is TipoExtendido
    &&& tipo.filhos@.len() == 2
    &&& tipo.filhos@[0].regra is Circunflexo
}

/// Texto em C de um tipo declarado, sem o `*` de ponteiro: o tipo basico, o nome de um tipo
/// declarado, ou uma `struct` anonima com os campos de um registro.
pub open spec fn tipo_c_spec(tipo: NoAST) -> Seq<char>
    decreases tipo,
{
    let f = tipo.filhos@;
    if tipo.regra is TipoExtendido && f.len() == 2 {
        match f[1].regra {
            RegraAST::TipoBasico(t) => c_basico_spec(t.tipo),
            RegraAST::Ident(t) => t.lexema@,
            _ => Seq::empty(),
        }
    } else if tipo.regra is Registro && f.len() == 2 {
        "struct {"@ + campos_c(f[0]) + " }"@
    } else {
        Seq::empty()
    }
}

/// Declaracoes dos campos de uma lista `variaveis`, cada uma precedida de espaco.
pub open spec fn campos_c(no: NoAST) -> Seq<char>
    decreases no,
{
    if no.regra is Variaveis && no.filhos@.len() == 2 {
        " "@ + declaracao_spec(no.filhos@[0]) + campos_c(no.filhos@[1])
    } else {
        Seq::empty()
    }
}

/// Declarador em C de um identificador: `*` para ponteiros, `[80]` para cadeias.
pub open spec fn declarador_spec(ident: NoAST, ponteiro: bool, cadeia: bool) -> Seq<char> {
    (if ponteiro {
        "*"@
    } else {
        ""@
    }) + texto_de(ident) + if cadeia {
        "[80]"@
    } else {
        ""@
    }
}

/// Declaradores de uma lista `identificadores`, cada um precedido de virgula.
pub open spec fn declaradores_c(no: NoAST, ponteiro: bool, cadeia: bool) -> Seq<char>
    decreases no,
{
    if no.regra is Identificadores && no.filhos@.len() == 2 {
        ", "@ + declarador_spec(no.filhos@[0], ponteiro, cadeia) + declaradores_c(
            no.filhos@[1],
            ponteiro,
            cadeia,
        )
    } else {
        Seq::empty()
    }
}

/// Declaracao em C de uma `variavel`: tipo, declaradores separados por virgula, e `;`.
pub open spec fn declaracao_spec(var: NoAST) -> Seq<char>
    decreases var,
{
    let f = var.filhos@;
    if var.regra is Variavel && f.len() == 3 {
        let p = e_ponteiro_spec(f[2]);
        let c = e_cadeia_spec(f[2]);
        tipo_c_spec(f[2]) + " "@ + declarador_spec(f[0], p, c) + declaradores_c(f[1], p, c) + ";"@
    } else {
        Seq::empty()
    }
}

/// Letra de formato de scanf/printf para um tipo.
pub open spec fn formato(t: TipoSimbolo) -> Seq<char> {
    match t {
        TipoSimbolo::Cadeia => "s"@,
        TipoSimbolo::Inteiro => "d"@,
        TipoSimbolo::Real => "f"@,
        TipoSimbolo::Logico => "d"@,
        _ => ""@,
    }
}

fn formato_exec(t: &TipoSimbolo) -> (r: &'static str)
    ensures
        r@ == formato(*t),
{
    match t {
        TipoSimbolo::Cadeia => "s",
        TipoSimbolo::Inteiro => "d",
        TipoSimbolo::Real => "f",
        TipoSimbolo::Logico => "d",
        _ => "",
    }
}

/// Tipo declarado e uma cadeia sem ponteiro: `literal`.
fn e_cadeia(tipo: &NoAST) -> (r: bool)
    requires
        bem_formado(*tipo),
    ensures
        r == e_cadeia_spec(*tipo),
{
    proof {
        lema_filhos_bem_formados(*tipo);
    }
    if let RegraAST::TipoExtendido = tipo.regra {
        if let RegraAST::TipoBasico(t) = &tipo.filhos[1].regra {
            return matches!(tipo.filhos[0].regra, RegraAST::Vazio) && t.tipo == TipoToken::PCliteral;
        }
    }
    false
}

/// Texto em C de um tipo declarado, sem o `*` de ponteiro.
fn tipo_c(tipo: &NoAST) -> (r: String)
    requires
        bem_formado(*tipo),
    ensures
        r@ == tipo_c_spec(*tipo),
    decreases tipo,
{
    proof {
        lema_filhos_bem_formados(*tipo);
    }
    match &tipo.regra {
        RegraAST::TipoExtendido => match &tipo.filhos[1].regra {
            RegraAST::TipoBasico(t) => texto(c_basico(t.tipo)),
            RegraAST::Ident(t) => t.lexema.clone(),
            _ => String::new(),
        },
        RegraAST::Registro => {
            let mut s = texto("struct {");
            let mut cur = &tipo.filhos[0];
            loop
                invariant
                    bem_formado(*cur),
                    decreases_to!(*tipo => *cur),
                    s@ + campos_c(*cur) == "struct {"@ + campos_c(tipo.filhos@[0]),
                ensures
                    s@ == "struct {"@ + campos_c(tipo.filhos@[0]),
                decreases *cur,
            {
                proof {
                    lema_filhos_bem_formados(*cur);
                }
                if let RegraAST::Variaveis = cur.regra {
                    let ghost antes = s@;
                    proof {
                        reveal_strlit(" ");
                    }
                    push_char(&mut s, ' ');
                    let d = declaracao_c(&cur.filhos[0]);
                    anexar(&mut s, d.as_str());
                    proof {
                        assert(s@ + campos_c(cur.filhos@[1]) =~= antes + campos_c(*cur));
                    }
                    cur = &cur.filhos[1];
                } else {
                    proof {
                        assert(s@ =~= s@ + campos_c(*cur));
                    }
                    break;
                }
            }
            anexar(&mut s, " }");
            s
        },
        _ => String::new(),
    }
}

/// Ponteiro declarado com `^`.
fn e_ponteiro(tipo: &NoAST) -> (r: bool)
    requires
        bem_formado(*tipo),
    ensures
        r == e_ponteiro_spec(*tipo),
{
    proof {
        lema_filhos_bem_formados(*tipo);
    }
    if let RegraAST::TipoExtendido = tipo.regra {
        matches!(tipo.filhos[0].regra, RegraAST::Circunflexo)
    } else {
        false
    }
}

/// Declaracao em C de uma `variavel`: tipo, nomes (com `*` para ponteiros e `[80]` para
/// cadeias) e `;`.
fn declaracao_c(variavel: &NoAST) -> (r: String)
    requires
        bem_formado(*variavel),
    ensures
        r@ == declaracao_spec(*variavel),
    decreases variavel,
{
    proof {
        lema_filhos_bem_formados(*variavel);
    }
    if let RegraAST::Variavel = variavel.regra {
        let tipo = &variavel.filhos[2];
        let mut s = tipo_c(tipo);
        let cadeia = e_cadeia(tipo);
        let ponteiro = e_ponteiro(tipo);
        proof {
            reveal_strlit(" ");
            reveal_strlit(";");
        }
        push_char(&mut s, ' ');
        anexar_declarador(&mut s, &variavel.filhos[0], ponteiro, cadeia);
        let ghost cabeca = s@;
        let mut cur = &variavel.filhos[1];
        loop
            invariant
                bem_formado(*cur),
                s@ + declaradores_c(*cur, ponteiro, cadeia) == cabeca + declaradores_c(
                    variavel.filhos@[1],
                    ponteiro,
                    cadeia,
                ),
            ensures
                s@ == cabeca + declaradores_c(variavel.filhos@[1], ponteiro, cadeia),
            decreases *cur,
        {
            proof {
                lema_filhos_bem_formados(*cur);
            }
            if let RegraAST::Identificadores = cur.regra {
                let ghost antes = s@;
                anexar(&mut s, ", ");
                anexar_declarador(&mut s, &cur.filhos[0], ponteiro, cadeia);
                proof {
                    assert(s@ + declaradores_c(cur.filhos@[1], ponteiro, cadeia) =~= antes
                        + declaradores_c(*cur, ponteiro, cadeia));
                }
                cur = &cur.filhos[1];
            } else {
                proof {
                    assert(s@ =~= s@ + declaradores_c(*cur, ponteiro, cadeia));
                }
                break;
            }
        }
        push_char(&mut s, ';');
        proof {
            assert(s@ =~= declaracao_spec(*variavel));
        }
        s
    } else {
        String::new()
    }
}

/// Acrescenta o declarador de um identificador.
fn anexar_declarador(s: &mut String, identificador: &NoAST, ponteiro: bool, cadeia: bool)
    ensures
        final(s)@ == old(s)@ + declarador_spec(*identificador, ponteiro, cadeia),
{
    proof {
        reveal_strlit("");
        reveal_strlit("*");
    }
    if ponteiro {
        push_char(s, '*');
    }
    anexar(s, identificador.texto().as_str());
    if cadeia {
        anexar(s, "[80]");
    }
    proof {
        assert(s@ =~= old(s)@ + declarador_spec(*identificador, ponteiro, cadeia));
    }
}

/// Itens separados por virgula e espaco.
pub open spec fn junta(itens: Seq<Seq<char>>) -> Seq<char>
    decreases itens.len(),
{
    if itens.len() == 0 {
        Seq::empty()
    } else if itens.len() == 1 {
        itens[0]
    } else {
        junta(itens.drop_last()) + ", "@ + itens.last()
    }
}

/// Declaracao em C de um parametro: o tipo, `*` se passado por ponteiro, e o nome.
pub open spec fn parametro_decl(base: Seq<char>, estrela: bool, nome: Seq<char>) -> Seq<char> {
    base + (if estrela {
        "*"@
    } else {
        ""@
    }) + " "@ + nome
}

/// Declaracoes dos parametros `nomes`, todos do mesmo tipo.
pub open spec fn itens_nomes(nomes: Seq<Token>, base: Seq<char>, estrela: bool) -> Seq<Seq<char>>
    decreases nomes.len(),
{
    if nomes.len() == 0 {
        Seq::empty()
    } else {
        itens_nomes(nomes.drop_last(), base, estrela).push(
            parametro_decl(base, estrela, nomes.last().lexema@),
        )
    }
}

/// Declaracoes em C dos nomes de um `parametro`: cadeias e ponteiros passam por ponteiro.
pub open spec fn itens_parametro(p: NoAST) -> Seq<Seq<char>> {
    let f = p.filhos@;
    if p.regra is Parametro && f.len() == 4 {
        itens_nomes(idents_desde(p, 0), tipo_c_spec(f[3]), e_cadeia_spec(f[3]) || e_ponteiro_spec(f[3]))
    } else {
        Seq::empty()
    }
}

/// Declaracoes em C dos parametros de uma lista `parametros`, em ordem.
pub open spec fn itens_parametros(no: NoAST) -> Seq<Seq<char>>
    decreases no,
{
    if (no.regra is Parametros || no.regra is Parametros2) && no.filhos@.len() == 2 {
        itens_parametro(no.filhos@[0]) + itens_parametros(no.filhos@[1])
    } else {
        Seq::empty()
    }
}

/// Acrescentar um item a lista acrescenta ao texto a virgula e o item.
proof fn lema_junta_push(itens: Seq<Seq<char>>, x: Seq<char>)
    ensures
        junta(itens.push(x)) == if itens.len() == 0 {
            x
        } else {
            junta(itens) + ", "@ + x
        },
{
    assert(itens.push(x).drop_last() =~= itens);
}

/// Parametro em C: tipo (cadeias por ponteiro) e nome, para cada nome do `parametro`,
/// separados por virgula; `feitos` sao os parametros ja escritos em `s`.
fn parametro_c(parametro: &NoAST, s: &mut String, primeiro: bool, Ghost(feitos): Ghost<Seq<Seq<char>>>) -> (r: bool)
    requires
        bem_formado(*parametro),
        old(s)@ == junta(feitos),
        primeiro == (feitos.len() == 0),
    ensures
        final(s)@ == junta(feitos + itens_parametro(*parametro)),
        r == ((feitos + itens_parametro(*parametro)).len() == 0),
{
    proof {
        lema_filhos_bem_formados(*parametro);
    }
    let mut primeiro = primeiro;
    if let RegraAST::Parametro = parametro.regra {
        let tipo = &parametro.filhos[3];
        let base = tipo_c(tipo);
        let cadeia = e_cadeia(tipo);
        let ponteiro = e_ponteiro(tipo);
        let nomes = parametro.idents();
        let ghost estrela = cadeia || ponteiro;
        let mut i: usize = 0;
        proof {
            assert(nomes@.subrange(0, 0) =~= Seq::<Token>::empty());
            assert(feitos + itens_nomes(nomes@.subrange(0, 0), base@, estrela) =~= feitos);
        }
        while i < nomes.len()
            invariant
                i <= nomes@.len(),
                s@ == junta(feitos + itens_nomes(nomes@.subrange(0, i as int), base@, estrela)),
                primeiro == ((feitos + itens_nomes(nomes@.subrange(0, i as int), base@, estrela)).len()
                    == 0),
                estrela == (cadeia || ponteiro),
            decreases nomes@.len() - i,
        {
            let ghost antes = feitos + itens_nomes(nomes@.subrange(0, i as int), base@, estrela);
            let ghost s0 = s@;
            if !primeiro {
                anexar(s, ", ");
            }
            let ghost s1 = s@;
            primeiro = false;
            anexar(s, base.as_str());
            if cadeia || ponteiro {
                push_char(s, '*');
            }
            push_char(s, ' ');
            anexar(s, nomes[i].lexema.as_str());
            proof {
                reveal_strlit("");
                reveal_strlit("*");
                reveal_strlit(" ");
                let x = parametro_decl(base@, estrela, nomes@[i as int].lexema@);
                assert(s@ =~= s1 + x);
                let sub = nomes@.subrange(0, i + 1);
                assert(sub.drop_last() =~= nomes@.subrange(0, i as int));
                assert(itens_nomes(sub, base@, estrela) == itens_nomes(nomes@.subrange(0, i as int), base@, estrela).push(x));
                assert(feitos + itens_nomes(sub, base@, estrela) =~= antes.push(x));
                lema_junta_push(antes, x);
                if antes.len() == 0 {
                    assert(s1 =~= Seq::<char>::empty());
                    assert(s@ =~= x);
                }
            }
            i = i + 1;
        }
        proof {
            assert(nomes@.subrange(0, nomes@.len() as int) =~= nomes@);
        }
    } else {
        proof {
            assert(feitos + itens_parametro(*parametro) =~= feitos);
        }
    }
    primeiro
}

/// Gerador de codigo C: percorre a arvore de um programa sem erros semanticos com a sua
/// propria pilha de escopos, para escolher formatos e atribuicoes pelo tipo.
pub struct Gerador {
    escopos: Escopos,
    saida: String,
    identacao: u32,
}

impl Gerador {
    /// Texto gerado ate aqui.
    pub closed spec fn saida_spec(&self) -> Seq<char> {
        self.saida@
    }

    pub closed spec fn wf(&self) -> bool {
        self.escopos.wf()
    }

    /// `self` resulta de percorrer `no` a partir de `antes`: visitar `no` e depois percorrer
    /// cada filho, em ordem.
    pub open spec fn percorreu_no(&self, antes: &Self, no: NoAST) -> bool
        decreases no, no.filhos@.len() + 1,
    {
        exists|m: Gerador|
            #[trigger] m.wf() && m.visitou(antes, no) && self.percorreu_filhos(&m, no, no.filhos@.len() as int)
    }

    /// `self` resulta de percorrer, em ordem, os primeiros `i` filhos de `no` a partir de `antes`.
    pub open spec fn percorreu_filhos(&self, antes: &Self, no: NoAST, i: int) -> bool
        decreases no, i,
    {
        if i <= 0 || i > no.filhos@.len() {
            *self == *antes
        } else {
            exists|m: Gerador|
                #[trigger] m.wf() && m.percorreu_filhos(antes, no, i - 1) && self.percorreu_no(
                    &m,
                    no.filhos@[i - 1],
                )
        }
    }

    /// Nivel de recuo atual.
    pub closed spec fn recuo(&self) -> nat {
        self.identacao as nat
    }

    /// Pilha de escopos do gerador.
    pub closed spec fn pilha(&self) -> Seq<TabelaDeSimbolos> {
        self.escopos.pilha()
    }

    /// Gerador sem saida, com um escopo global vazio.
    pub fn new() -> (r: Self)
        ensures
            r.wf(),
            r.saida_spec() == Seq::<char>::empty(),
            r.recuo() == 0,
            r.pilha().len() == 1,
            r.pilha()[0].retorno_spec() is Vazio,
            forall|n: Seq<char>| r.pilha()[0].consulta(n) is None,
    {
        Gerador { escopos: Escopos::new(TipoSimbolo::Vazio), saida: String::new(), identacao: 0 }
    }

    /// Texto C gerado.
    pub fn saida(&self) -> (r: &str)
        ensures
            r@ == self.saida_spec(),
    {
        self.saida.as_str()
    }

    /// Nova linha com o recuo atual.
    fn new_line(&mut self)
        ensures
            final(self).saida_spec() == old(self).saida_spec() + "\n"@ + tabs(old(self).identacao as nat),
            final(self).escopos == old(self).escopos,
            final(self).identacao == old(self).identacao,
            prefixo(old(self).saida_spec(), final(self).saida_spec()),
    {
        proof {
            reveal_strlit("\n");
        }
        push_char(&mut self.saida, '\n');
        anexar_tabs(&mut self.saida, self.identacao);
        proof {
            assert(self.saida@ =~= old(self).saida@ + "\n"@ + tabs(old(self).identacao as nat));
            assert(self.saida@.subrange(0, old(self).saida@.len() as int) =~= old(self).saida@);
        }
    }

    fn emit(&mut self, s: &str)
        ensures
            final(self).saida_spec() == old(self).saida_spec() + s@,
            final(self).escopos == old(self).escopos,
            final(self).identacao == old(self).identacao,
            prefixo(old(self).saida_spec(), final(self).saida_spec()),
    {
        anexar(&mut self.saida, s);
        proof {
            assert(self.saida@.subrange(0, old(self).saida@.len() as int) =~= old(self).saida@);
        }
    }

    fn entra(&mut self)
        ensures
            final(self).saida == old(self).saida,
            final(self).escopos == old(self).escopos,
            prefixo(old(self).saida_spec(), final(self).saida_spec()),
            final(self).recuo() == mais(old(self).recuo()),
    {
        proof {
            lema_prefixo_refl(self.saida_spec());
        }
        if self.identacao < u32::MAX {
            self.identacao = self.identacao + 1;
        }
    }

    fn sai(&mut self)
        ensures
            final(self).saida == old(self).saida,
            final(self).escopos == old(self).escopos,
            prefixo(old(self).saida_spec(), final(self).saida_spec()),
    {
        proof {
            lema_prefixo_refl(self.saida_spec());
        }
        if self.identacao > 0 {
            self.identacao = self.identacao - 1;
        }
    }

    /// Registra `nome` com o tipo `tipo`, e os campos de registros como `nome.campo`.
    fn registrar(&mut self, nome: &str, tipo: &TipoSimbolo)
        requires
            old(self).wf(),
        ensures
            final(self).wf(),
            final(self).pilha().len() == old(self).pilha().len(),
            final(self).pilha().drop_first() == old(self).pilha().drop_first(),
            final(self).pilha()[0].retorno_spec() == old(self).pilha()[0].retorno_spec(),
            forall|n: Seq<char>| #[trigger] final(self).pilha()[0].consulta(n) == if n == nome@ {
                Some(*tipo)
            } else {
                match campo_de(nome@, campos_de(*tipo), n) {
                    Some(t) => Some(t),
                    None => old(self).pilha()[0].consulta(n),
                }
            },
            final(self).saida == old(self).saida,
            final(self).identacao == old(self).identacao,
            prefixo(old(self).saida_spec(), final(self).saida_spec()),
    {
        proof {
            lema_prefixo_refl(self.saida_spec());
        }
        if let TipoSimbolo::Registro(campos) = tipo {
            self.registrar_campos(nome, campos);
        }
        self.escopos.inserir(nome, tipo);
    }

    fn registrar_campos(&mut self, base: &str, campos: &Membros)
        requires
            old(self).wf(),
        ensures
            final(self).wf(),
            final(self).pilha().len() == old(self).pilha().len(),
            final(self).pilha().drop_first() == old(self).pilha().drop_first(),
            final(self).pilha()[0].retorno_spec() == old(self).pilha()[0].retorno_spec(),
            forall|n: Seq<char>| #[trigger] final(self).pilha()[0].consulta(n) == match campo_de(
                base@,
                *campos,
                n,
            ) {
                Some(t) => Some(t),
                None => old(self).pilha()[0].consulta(n),
            },
            final(self).saida == old(self).saida,
            final(self).identacao == old(self).identacao,
            prefixo(old(self).saida_spec(), final(self).saida_spec()),
        decreases campos,
    {
        proof {
            lema_prefixo_refl(self.saida_spec());
        }
        match campos {
            Membros::Fim => {},
            Membros::Membro(nome, tipo, resto) => {
                let mut n = base.to_string();
                anexar(&mut n, ".");
                anexar(&mut n, nome.as_str());
                self.escopos.inserir(n.as_str(), tipo);
                self.registrar_campos(base, resto);
            },
        }
    }

    fn registrar_membros(&mut self, membros: &Membros)
        requires
            old(self).wf(),
        ensures
            final(self).wf(),
            final(self).saida == old(self).saida,
            final(self).identacao == old(self).identacao,
            prefixo(old(self).saida_spec(), final(self).saida_spec()),
        decreases membros,
    {
        proof {
            lema_prefixo_refl(self.saida_spec());
        }
        match membros {
            Membros::Fim => {},
            Membros::Membro(nome, tipo, resto) => {
                self.registrar(nome.as_str(), tipo);
                self.registrar_membros(resto);
            },
        }
    }

    /// Uma leitura `scanf` para o identificador `identificador`.
    fn leitura(&mut self, circunflexo: &NoAST, identificador: &NoAST)
        requires
            old(self).wf(),
            bem_formado(*identificador),
        ensures
            final(self).wf(),
            prefixo(old(self).saida_spec(), final(self).saida_spec()),
            final(self).saida_spec() == old(self).saida_spec() + leitura_c(
                *circunflexo,
                *identificador,
                old(self).pilha(),
                old(self).recuo(),
            ),
            final(self).pilha() == old(self).pilha() && final(self).recuo() == old(self).recuo(),
    {
        proof {
            lema_prefixo_refl(self.saida_spec());
        }
        let mut tipo = identificador.tipo(&self.escopos);
        let ponteiro = matches!(circunflexo.regra, RegraAST::Circunflexo);
        if ponteiro {
            if let TipoSimbolo::Ponteiro(t) = tipo {
                tipo = *t;
            }
        }
        let ghost inicio = self.saida_spec();
        self.new_line();
        self.emit("scanf(\"%");
        self.emit(formato_exec(&tipo));
        self.emit("\", ");
        let ghost meio = self.saida_spec();
        let amp = !ponteiro && !matches!(tipo, TipoSimbolo::Cadeia);
        if amp {
            self.emit("&");
        }
        self.emit(identificador.texto().as_str());
        self.emit(");");
        proof {
            reveal_strlit("");
            let e = if amp { "&"@ } else { ""@ };
            assert(tipo == tipo_lido(ponteiro, tipo_spec(*identificador, old(self).pilha())));
            assert(self.saida_spec() =~= meio + (e + texto_de(*identificador) + ");"@));
            assert(self.saida_spec() =~= inicio + leitura_c(
                *circunflexo,
                *identificador,
                old(self).pilha(),
                old(self).recuo(),
            ));
        }
    }

    /// Emite uma lista `expressoes`, cada expressao precedida de virgula.
    fn lista_expressoes(&mut self, no: &NoAST)
        requires
            old(self).wf(),
            bem_formado(*no),
        ensures
            final(self).wf(),
            prefixo(old(self).saida_spec(), final(self).saida_spec()),
            so_expressao(*no) ==> final(self).saida_spec() == old(self).saida_spec() + lista_c(*no)
                && final(self).pilha() == old(self).pilha() && final(self).recuo() == old(self).recuo(),
        decreases no,
    {
        proof {
            lema_prefixo_refl(self.saida_spec());
        }
        proof {
            lema_filhos_bem_formados(*no);
        }
        let ghost inicio = self.saida_spec();
        if let RegraAST::Expressoes = no.regra {
            self.emit(", ");
            self.visit(&no.filhos[0]);
            self.lista_expressoes(&no.filhos[1]);
            proof {
                if so_expressao(*no) {
                    assert(so_expressao(no.filhos@[0]));
                    assert(so_expressao(no.filhos@[1]));
                    assert(self.saida_spec() =~= inicio + lista_c(*no));
                }
            }
        } else {
            proof {
                assert(self.saida_spec() =~= inicio + lista_c(*no));
            }
        }
    }

    /// Formatos de printf de cada expressao de uma lista `expressoes`.
    fn formatos(&mut self, no: &NoAST)
        requires
            old(self).wf(),
            bem_formado(*no),
        ensures
            final(self).wf(),
            prefixo(old(self).saida_spec(), final(self).saida_spec()),
            final(self).saida_spec() == old(self).saida_spec() + formatos_c(*no, old(self).pilha()),
            final(self).pilha() == old(self).pilha(),
            final(self).recuo() == old(self).recuo(),
        decreases no,
    {
        proof {
            lema_prefixo_refl(self.saida_spec());
        }
        proof {
            lema_filhos_bem_formados(*no);
        }
        let ghost inicio = self.saida_spec();
        if let RegraAST::Expressoes = no.regra {
            let t = no.filhos[0].tipo(&self.escopos);
            self.emit("%");
            self.emit(formato_exec(&t));
            self.formatos(&no.filhos[1]);
            proof {
                assert(self.saida_spec() =~= inicio + formatos_c(*no, old(self).pilha()));
            }
        } else {
            proof {
                assert(self.saida_spec() =~= inicio + formatos_c(*no, old(self).pilha()));
            }
        }
    }

    /// Rotulos de um `numero_intervalo`: um por inteiro do intervalo.
    fn intervalo(&mut self, no: &NoAST)
        requires
            old(self).wf(),
            bem_formado(*no),
        ensures
            final(self).wf(),
            prefixo(old(self).saida_spec(), final(self).saida_spec()),
            no.regra is NumeroIntervalo && intervalo_spec(*no) is Some ==> ({
                let (lo, hi) = intervalo_spec(*no)->0;
                final(self).saida_spec() == old(self).saida_spec() + rotulos(lo, hi, old(self).recuo())
            }),
            no.regra is NumeroIntervalo ==> final(self).saida_spec() == old(self).saida_spec()
                + comando_c(*no, old(self).pilha(), old(self).recuo()) && final(self).pilha() == old(self).pilha() && final(self).recuo() == old(self).recuo(),
    {
        proof {
            lema_prefixo_refl(self.saida_spec());
        }
        proof {
            lema_filhos_bem_formados(*no);
        }
        if let RegraAST::NumeroIntervalo = no.regra {
            let lo = valor_com_sinal(&no.filhos[0], &no.filhos[1]);
            let fim = &no.filhos[2];
            proof {
                lema_filhos_bem_formados(*fim);
            }
            let hi = if let RegraAST::NumeroIntervalo2 = fim.regra {
                valor_com_sinal(&fim.filhos[0], &fim.filhos[1])
            } else {
                lo
            };
            match (lo, hi) {
                (Some(a), Some(b)) => {
                    let r = rotulos_caso(a, b, self.identacao);
                    self.emit(r.as_str());
                },
                _ => {
                    let ghost s0 = self.saida_spec();
                    self.new_line();
                    self.emit("case ");
                    let ghost s1 = self.saida_spec();
                    let menos = matches!(no.filhos[0].regra, RegraAST::OpUnario);
                    if menos {
                        self.emit("-");
                    }
                    self.emit(no.filhos[1].texto().as_str());
                    self.emit(":");
                    proof {
                        reveal_strlit("");
                        let sinal = if menos { "-"@ } else { ""@ };
                        assert(self.saida_spec() =~= s1 + (sinal + texto_de(no.filhos@[1]) + ":"@));
                    }
                },
            }
        }
    }

    /// Visita os filhos de `no`, em ordem.
    fn visitar_filhos(&mut self, no: &NoAST)
        requires
            old(self).wf(),
            bem_formado(*no),
        ensures
            final(self).wf(),
            prefixo(old(self).saida_spec(), final(self).saida_spec()),
            so_expressao(*no) && !(no.regra is Identificador) ==> final(self).saida_spec()
                == old(self).saida_spec() + filhos_c(*no, 0) && final(self).pilha() == old(self).pilha() && final(self).recuo() == old(self).recuo(),
            so_comando(*no) && regra_de_lista(no.regra) ==> final(self).saida_spec()
                == old(self).saida_spec() + comandos_desde(*no, 0, old(self).pilha(), old(self).recuo())
                && final(self).pilha() == old(self).pilha() && final(self).recuo() == old(self).recuo(),
        decreases no, 0nat,
    {
        proof {
            lema_prefixo_refl(self.saida_spec());
        }
        proof {
            lema_filhos_bem_formados(*no);
        }
        let ghost inicio = self.saida_spec();
        let mut i: usize = 0;
        proof {
            assert(inicio =~= inicio + Seq::<char>::empty());
        }
        while i < no.filhos.len()
            invariant
                self.wf(),
                bem_formado(*no),
                forall|k: int| 0 <= k < no.filhos@.len() ==> bem_formado(#[trigger] no.filhos@[k]),
                prefixo(inicio, self.saida_spec()),
                i <= no.filhos@.len(),
                so_expressao(*no) && !(no.regra is Identificador) ==> self.saida_spec() + filhos_c(
                    *no,
                    i as int,
                ) == inicio + filhos_c(*no, 0) && self.pilha() == old(self).pilha() && self.recuo()
                    == old(self).recuo(),
                so_comando(*no) && regra_de_lista(no.regra) ==> self.saida_spec() + comandos_desde(
                    *no,
                    i as int,
                    old(self).pilha(),
                    old(self).recuo(),
                ) == inicio + comandos_desde(*no, 0, old(self).pilha(), old(self).recuo())
                    && self.pilha() == old(self).pilha() && self.recuo() == old(self).recuo(),
            decreases no.filhos@.len() - i,
        {
            let ghost antes = self.saida_spec();
            self.visit(&no.filhos[i]);
            proof {
                if so_comando(*no) && regra_de_lista(no.regra) {
                    assert(so_comando(no.filhos@[i as int]));
                    assert(comandos_desde(*no, i as int, old(self).pilha(), old(self).recuo())
                        == comando_c(no.filhos@[i as int], old(self).pilha(), old(self).recuo())
                        + comandos_desde(*no, i + 1, old(self).pilha(), old(self).recuo()));
                    assert(self.saida_spec() + comandos_desde(*no, i + 1, old(self).pilha(), old(self).recuo())
                        =~= antes + comandos_desde(*no, i as int, old(self).pilha(), old(self).recuo()));
                }
                if so_expressao(*no) && !(no.regra is Identificador) {
                    assert(so_expressao(no.filhos@[i as int]));
                    assert(filhos_c(*no, i as int) == expressao_c(no.filhos@[i as int]) + filhos_c(*no, i + 1));
                    assert(self.saida_spec() + filhos_c(*no, i + 1) =~= antes + filhos_c(*no, i as int));
                }
            }
            i = i + 1;
        }
        proof {
            if so_expressao(*no) && !(no.regra is Identificador) {
                assert(self.saida_spec() =~= self.saida_spec() + filhos_c(*no, i as int));
            }
            if so_comando(*no) && regra_de_lista(no.regra) {
                assert(self.saida_spec() =~= self.saida_spec() + comandos_desde(
                    *no,
                    i as int,
                    old(self).pilha(),
                    old(self).recuo(),
                ));
            }
        }
    }

    /// Declaracao de tipo: `typedef`.
    fn declaracao_tipo(&mut self, no: &NoAST)
        requires
            old(self).wf(),
            bem_formado(*no),
            no.regra is DeclaracaoTipo,
        ensures
            final(self).wf(),
            prefixo(old(self).saida_spec(), final(self).saida_spec()),
            final(self).saida_spec() == old(self).saida_spec() + tipo_decl_c(*no, old(self).recuo()),
            final(self).recuo() == old(self).recuo(),
        decreases no, 1nat,
    {
        proof {
            lema_filhos_bem_formados(*no);
            lema_prefixo_refl(self.saida_spec());
        }
        let nome = no.filhos[0].texto();
        let tipo_no = &no.filhos[1];
        let ghost s0 = self.saida_spec();
        self.new_line();
        self.emit("typedef ");
        self.emit(tipo_c(tipo_no).as_str());
        self.emit(" ");
        let ghost s1 = self.saida_spec();
        let ponteiro = e_ponteiro(tipo_no);
        if ponteiro {
            self.emit("*");
        }
        let ghost s2 = self.saida_spec();
        self.emit(nome.as_str());
        let ghost s3 = self.saida_spec();
        let cadeia = e_cadeia(tipo_no);
        if cadeia {
            self.emit("[80]");
        }
        let ghost s4 = self.saida_spec();
        self.emit(";");
        proof {
            reveal_strlit("");
            assert(s2 =~= s1 + (if ponteiro { "*"@ } else { ""@ }));
            assert(s4 =~= s3 + (if cadeia { "[80]"@ } else { ""@ }));
            assert(self.saida_spec() =~= s0 + tipo_decl_c(*no, old(self).recuo()));
        }
        let tipo = tipo_no.tipo(&self.escopos);
        self.registrar(nome.as_str(), &tipo);
    }

    /// Declaracao de constante: `#define`.
    fn declaracao_constante(&mut self, no: &NoAST)
        requires
            old(self).wf(),
            bem_formado(*no),
            no.regra is DeclaracaoConstante,
        ensures
            final(self).wf(),
            prefixo(old(self).saida_spec(), final(self).saida_spec()),
            final(self).saida_spec() == old(self).saida_spec() + constante_c(*no, old(self).recuo()),
            final(self).recuo() == old(self).recuo(),
        decreases no, 1nat,
    {
        proof {
            lema_filhos_bem_formados(*no);
            lema_prefixo_refl(self.saida_spec());
        }
        let nome = no.filhos[0].texto();
        let ghost s0 = self.saida_spec();
        self.new_line();
        self.new_line();
        self.emit("#define ");
        self.emit(nome.as_str());
        self.emit(" ");
        let ghost s1 = self.saida_spec();
        if let RegraAST::ValorConstante(t) = &no.filhos[2].regra {
            if t.tipo == TipoToken::PCverdadeiro {
                self.emit("true");
            } else if t.tipo == TipoToken::PCfalso {
                self.emit("false");
            } else {
                self.emit(t.lexema.as_str());
            }
        } else {
            proof {
                assert(self.saida_spec() =~= s1 + Seq::<char>::empty());
            }
        }
        proof {
            assert(self.saida_spec() =~= s0 + constante_c(*no, old(self).recuo()));
        }
        let mut tipo = no.filhos[1].tipo(&self.escopos);
        if matches!(tipo, TipoSimbolo::Vazio) {
            tipo = TipoSimbolo::Inteiro;
        }
        self.registrar(nome.as_str(), &tipo);
    }

    /// Declaracao de variaveis em C.
    fn variavel(&mut self, no: &NoAST)
        requires
            old(self).wf(),
            bem_formado(*no),
            no.regra is Variavel,
        ensures
            final(self).wf(),
            prefixo(old(self).saida_spec(), final(self).saida_spec()),
            final(self).saida_spec() == old(self).saida_spec() + "\n"@ + tabs(old(self).recuo())
                + declaracao_spec(*no),
            final(self).recuo() == old(self).recuo(),
            final(self).pilha().len() == old(self).pilha().len(),
            final(self).pilha().drop_first() == old(self).pilha().drop_first(),
            final(self).pilha()[0].retorno_spec() == old(self).pilha()[0].retorno_spec(),
            forall|n: Seq<char>| #[trigger] final(self).pilha()[0].consulta(n) == match registro_nomes(
                idents_desde(*no, 0),
                tipo_spec(*no, old(self).pilha()),
                n,
            ) {
                Some(t) => Some(t),
                None => old(self).pilha()[0].consulta(n),
            },
        decreases no, 1nat,
    {
        proof {
            lema_filhos_bem_formados(*no);
            lema_prefixo_refl(self.saida_spec());
        }
        self.new_line();
        self.emit(declaracao_c(no).as_str());
        let ghost s1 = *self;
        let tipo = no.tipo(&self.escopos);
        let nomes = no.idents();
        let mut i: usize = 0;
        let ghost meio = self.saida_spec();
        proof {
            lema_prefixo_refl(meio);
            assert(nomes@.subrange(0, 0) =~= Seq::<Token>::empty());
        }
        while i < nomes.len()
            invariant
                self.wf(),
                prefixo(meio, self.saida_spec()),
                self.saida_spec() == meio,
                self.identacao == s1.identacao,
                i <= nomes@.len(),
                self.pilha().len() == s1.pilha().len(),
                self.pilha().drop_first() == s1.pilha().drop_first(),
                self.pilha()[0].retorno_spec() == s1.pilha()[0].retorno_spec(),
                forall|n: Seq<char>| #[trigger] self.pilha()[0].consulta(n) == match registro_nomes(
                    nomes@.subrange(0, i as int),
                    tipo,
                    n,
                ) {
                    Some(t) => Some(t),
                    None => s1.pilha()[0].consulta(n),
                },
            decreases nomes@.len() - i,
        {
            let ghost m = *self;
            self.registrar(nomes[i].lexema.as_str(), &tipo);
            proof {
                let sub = nomes@.subrange(0, i + 1);
                assert(sub.drop_last() =~= nomes@.subrange(0, i as int));
                assert(sub.last() == nomes@[i as int]);
                assert forall|n: Seq<char>| #[trigger] self.pilha()[0].consulta(n) == match registro_nomes(
                    sub,
                    tipo,
                    n,
                ) {
                    Some(t) => Some(t),
                    None => s1.pilha()[0].consulta(n),
                } by {
                    assert(m.pilha()[0].consulta(n) == match registro_nomes(
                        nomes@.subrange(0, i as int),
                        tipo,
                        n,
                    ) {
                        Some(t) => Some(t),
                        None => s1.pilha()[0].consulta(n),
                    });
                }
            }
            i = i + 1;
        }
        proof {
            assert(nomes@.subrange(0, nomes@.len() as int) =~= nomes@);
        }
    }

    /// `escreva`: um `printf` com os formatos dos tipos das expressoes.
    fn escreva(&mut self, no: &NoAST)
        requires
            old(self).wf(),
            bem_formado(*no),
            no.regra is CMDEscreva,
        ensures
            final(self).wf(),
            prefixo(old(self).saida_spec(), final(self).saida_spec()),
            so_expressao(no.filhos@[0]) && so_expressao(no.filhos@[1]) ==> final(self).saida_spec()
                == old(self).saida_spec() + escreva_c(*no, old(self).pilha(), old(self).recuo())
                && final(self).pilha() == old(self).pilha() && final(self).recuo() == old(self).recuo(),
        decreases no, 1nat,
    {
        proof {
            lema_filhos_bem_formados(*no);
            lema_prefixo_refl(self.saida_spec());
        }
        let ghost inicio = self.saida_spec();
        let t = no.filhos[0].tipo(&self.escopos);
        self.new_line();
        self.emit("printf(\"%");
        self.emit(formato_exec(&t));
        self.formatos(&no.filhos[1]);
        self.emit("\", ");
        let ghost a = self.saida_spec();
        self.visit(&no.filhos[0]);
        let ghost b = self.saida_spec();
        self.lista_expressoes(&no.filhos[1]);
        let ghost c = self.saida_spec();
        self.emit(");");
        proof {
            if so_expressao(no.filhos@[0]) && so_expressao(no.filhos@[1]) {
                assert(b == a + expressao_c(no.filhos@[0]));
                assert(c == b + lista_c(no.filhos@[1]));
                assert(self.saida_spec() =~= inicio + escreva_c(*no, old(self).pilha(), old(self).recuo()));
            }
        }
    }

    /// `se`: um `if`, com `else` se houver `senao`.
    #[verifier::rlimit(60)]
    fn se(&mut self, no: &NoAST)
        requires
            old(self).wf(),
            bem_formado(*no),
            no.regra is CMDSe,
        ensures
            final(self).wf(),
            prefixo(old(self).saida_spec(), final(self).saida_spec()),
            so_comando(*no) ==> final(self).saida_spec() == old(self).saida_spec() + comando_c(
                *no,
                old(self).pilha(),
                old(self).recuo(),
            ) && final(self).pilha() == old(self).pilha() && final(self).recuo() == old(self).recuo(),
        decreases no, 1nat,
    {
        proof {
            lema_filhos_bem_formados(*no);
            lema_prefixo_refl(self.saida_spec());
        }
        let ghost p = self.pilha();
        let ghost r = self.recuo();
        let ghost s0 = self.saida_spec();
        let r0 = self.identacao;
        self.new_line();
        self.emit("if (");
        self.visit(&no.filhos[0]);
        self.emit(") {");
        self.entra();
        self.visit(&no.filhos[1]);
        self.identacao = r0;
        self.new_line();
        self.emit("}");
        let ghost s1 = self.saida_spec();
        proof {
            if so_comando(*no) {
                assert(s1 =~= s0 + ("\n"@ + tabs(r) + "if ("@ + expressao_c(no.filhos@[0]) + ") {"@
                    + comando_c(no.filhos@[1], p, mais(r)) + "\n"@ + tabs(r) + "}"@));
            }
        }
        if !matches!(no.filhos[2].regra, RegraAST::Vazio) {
            self.emit(" else {");
            self.entra();
            self.visit(&no.filhos[2]);
            self.identacao = r0;
            self.new_line();
            self.emit("}");
            proof {
                if so_comando(*no) {
                    assert(self.saida_spec() =~= s1 + (" else {"@ + comando_c(no.filhos@[2], p, mais(r))
                        + "\n"@ + tabs(r) + "}"@));
                }
            }
        } else {
            proof {
                assert(self.saida_spec() =~= s1 + Seq::<char>::empty());
            }
        }
        proof {
            if so_comando(*no) {
                assert(self.saida_spec() =~= s0 + comando_c(*no, p, r));
            }
        }
    }

    /// `caso`: um `switch`, com `default` se houver `senao`.
    #[verifier::rlimit(60)]
    fn caso(&mut self, no: &NoAST)
        requires
            old(self).wf(),
            bem_formado(*no),
            no.regra is CMDCaso,
        ensures
            final(self).wf(),
            prefixo(old(self).saida_spec(), final(self).saida_spec()),
            so_comando(*no) ==> final(self).saida_spec() == old(self).saida_spec() + comando_c(
                *no,
                old(self).pilha(),
                old(self).recuo(),
            ) && final(self).pilha() == old(self).pilha() && final(self).recuo() == old(self).recuo(),
        decreases no, 1nat,
    {
        proof {
            lema_filhos_bem_formados(*no);
            lema_prefixo_refl(self.saida_spec());
        }
        let ghost p = self.pilha();
        let ghost r = self.recuo();
        let ghost s0 = self.saida_spec();
        let r0 = self.identacao;
        self.new_line();
        self.emit("switch (");
        self.visit(&no.filhos[0]);
        self.emit(") {");
        self.entra();
        self.visit(&no.filhos[1]);
        let ghost s1 = self.saida_spec();
        proof {
            if so_comando(*no) {
                assert(s1 =~= s0 + ("\n"@ + tabs(r) + "switch ("@ + expressao_c(no.filhos@[0]) + ") {"@
                    + comando_c(no.filhos@[1], p, mais(r))));
            }
        }
        if !matches!(no.filhos[2].regra, RegraAST::Vazio) {
            self.new_line();
            self.emit("default:");
            self.entra();
            self.visit(&no.filhos[2]);
        }
        let ghost s2 = self.saida_spec();
        proof {
            if so_comando(*no) {
                if no.filhos@[2].regra is Vazio {
                    assert(s2 =~= s1 + Seq::<char>::empty());
                } else {
                    assert(s2 =~= s1 + ("\n"@ + tabs(mais(r)) + "default:"@ + comando_c(
                        no.filhos@[2],
                        p,
                        mais(mais(r)),
                    )));
                }
            }
        }
        self.identacao = r0;
        self.new_line();
        self.emit("}");
        proof {
            if so_comando(*no) {
                assert(self.saida_spec() =~= s0 + comando_c(*no, p, r));
            }
        }
    }

    /// `para`: um `for` crescente de passo 1.
    #[verifier::rlimit(60)]
    fn para(&mut self, no: &NoAST)
        requires
            old(self).wf(),
            bem_formado(*no),
            no.regra is CMDPara,
        ensures
            final(self).wf(),
            prefixo(old(self).saida_spec(), final(self).saida_spec()),
            so_comando(*no) ==> final(self).saida_spec() == old(self).saida_spec() + comando_c(
                *no,
                old(self).pilha(),
                old(self).recuo(),
            ) && final(self).pilha() == old(self).pilha() && final(self).recuo() == old(self).recuo(),
        decreases no, 1nat,
    {
        proof {
            lema_filhos_bem_formados(*no);
            lema_prefixo_refl(self.saida_spec());
        }
        let ghost p = self.pilha();
        let ghost r = self.recuo();
        let ghost s0 = self.saida_spec();
        let r0 = self.identacao;
        let var = no.filhos[0].texto();
        self.new_line();
        self.emit("for (");
        self.emit(var.as_str());
        self.emit(" = ");
        self.visit(&no.filhos[1]);
        self.emit("; ");
        self.emit(var.as_str());
        self.emit(" <= ");
        self.visit(&no.filhos[2]);
        self.emit("; ");
        self.emit(var.as_str());
        self.emit("++) {");
        self.entra();
        self.visit(&no.filhos[3]);
        self.identacao = r0;
        self.new_line();
        self.emit("}");
        proof {
            if so_comando(*no) {
                assert(self.saida_spec() =~= s0 + comando_c(*no, p, r));
            }
        }
    }

    /// `enquanto`: um `while`.
    #[verifier::rlimit(60)]
    fn enquanto(&mut self, no: &NoAST)
        requires
            old(self).wf(),
            bem_formado(*no),
            no.regra is CMDEnquanto,
        ensures
            final(self).wf(),
            prefixo(old(self).saida_spec(), final(self).saida_spec()),
            so_comando(*no) ==> final(self).saida_spec() == old(self).saida_spec() + comando_c(
                *no,
                old(self).pilha(),
                old(self).recuo(),
            ) && final(self).pilha() == old(self).pilha() && final(self).recuo() == old(self).recuo(),
        decreases no, 1nat,
    {
        proof {
            lema_filhos_bem_formados(*no);
            lema_prefixo_refl(self.saida_spec());
        }
        let ghost p = self.pilha();
        let ghost r = self.recuo();
        let ghost s0 = self.saida_spec();
        let r0 = self.identacao;
        self.new_line();
        self.emit("while (");
        self.visit(&no.filhos[0]);
        self.emit(") {");
        self.entra();
        self.visit(&no.filhos[1]);
        self.identacao = r0;
        self.new_line();
        self.emit("}");
        proof {
            if so_comando(*no) {
                assert(self.saida_spec() =~= s0 + comando_c(*no, p, r));
            }
        }
    }

    /// `faca ... ate`: um `do ... while` com a condicao negada.
    #[verifier::rlimit(60)]
    fn faca(&mut self, no: &NoAST)
        requires
            old(self).wf(),
            bem_formado(*no),
            no.regra is CMDFaca,
        ensures
            final(self).wf(),
            prefixo(old(self).saida_spec(), final(self).saida_spec()),
            so_comando(*no) ==> final(self).saida_spec() == old(self).saida_spec() + comando_c(
                *no,
                old(self).pilha(),
                old(self).recuo(),
            ) && final(self).pilha() == old(self).pilha() && final(self).recuo() == old(self).recuo(),
        decreases no, 1nat,
    {
        proof {
            lema_filhos_bem_formados(*no);
            lema_prefixo_refl(self.saida_spec());
        }
        let ghost p = self.pilha();
        let ghost r = self.recuo();
        let ghost s0 = self.saida_spec();
        let r0 = self.identacao;
        self.new_line();
        self.emit("do {");
        self.entra();
        self.visit(&no.filhos[0]);
        self.identacao = r0;
        self.new_line();
        self.emit("} while (!(");
        self.visit(&no.filhos[1]);
        self.emit("));");
        proof {
            if so_comando(*no) {
                assert(self.saida_spec() =~= s0 + comando_c(*no, p, r));
            }
        }
    }

    /// Item de caso: os rotulos, os comandos e um `break`.
    #[verifier::rlimit(60)]
    fn item_selecao(&mut self, no: &NoAST)
        requires
            old(self).wf(),
            bem_formado(*no),
            no.regra is ItemSelecao,
        ensures
            final(self).wf(),
            prefixo(old(self).saida_spec(), final(self).saida_spec()),
            so_comando(*no) ==> final(self).saida_spec() == old(self).saida_spec() + comando_c(
                *no,
                old(self).pilha(),
                old(self).recuo(),
            ) && final(self).pilha() == old(self).pilha() && final(self).recuo() == old(self).recuo(),
        decreases no, 1nat,
    {
        proof {
            lema_filhos_bem_formados(*no);
            lema_prefixo_refl(self.saida_spec());
        }
        let ghost p = self.pilha();
        let ghost r = self.recuo();
        let ghost s0 = self.saida_spec();
        let r0 = self.identacao;
        self.visit(&no.filhos[0]);
        self.entra();
        self.visit(&no.filhos[1]);
        self.new_line();
        self.emit("break;");
        self.identacao = r0;
        proof {
            if so_comando(*no) {
                assert(self.saida_spec() =~= s0 + comando_c(*no, p, r));
            }
        }
    }

    /// `leia`: um `scanf` por identificador.
    #[verifier::rlimit(60)]
    fn leia(&mut self, no: &NoAST)
        requires
            old(self).wf(),
            bem_formado(*no),
            no.regra is CMDLeia || no.regra is CMDLeia2,
        ensures
            final(self).wf(),
            prefixo(old(self).saida_spec(), final(self).saida_spec()),
            so_comando(*no) ==> final(self).saida_spec() == old(self).saida_spec() + comando_c(
                *no,
                old(self).pilha(),
                old(self).recuo(),
            ) && final(self).pilha() == old(self).pilha() && final(self).recuo() == old(self).recuo(),
        decreases no, 1nat,
    {
        proof {
            lema_filhos_bem_formados(*no);
            lema_prefixo_refl(self.saida_spec());
        }
        let ghost p = self.pilha();
        let ghost r = self.recuo();
        let ghost s0 = self.saida_spec();
        self.leitura(&no.filhos[0], &no.filhos[1]);
        self.visit(&no.filhos[2]);
        proof {
            if so_comando(*no) {
                assert(self.saida_spec() =~= s0 + comando_c(*no, p, r));
            }
        }
    }

    /// Fator logico: a parcela, negada se houver `nao`.
    fn fator_logico(&mut self, no: &NoAST)
        requires
            old(self).wf(),
            bem_formado(*no),
            no.regra is FatorLogico,
        ensures
            final(self).wf(),
            prefixo(old(self).saida_spec(), final(self).saida_spec()),
            so_expressao(*no) ==> final(self).saida_spec() == old(self).saida_spec() + expressao_c(*no)
                && final(self).pilha() == old(self).pilha() && final(self).recuo() == old(self).recuo(),
        decreases no, 1nat,
    {
        proof {
            lema_filhos_bem_formados(*no);
            lema_prefixo_refl(self.saida_spec());
        }
        let ghost inicio = self.saida_spec();
        let nao = matches!(no.filhos[0].regra, RegraAST::Nao);
        if nao {
            self.emit("!(");
        }
        let ghost meio = self.saida_spec();
        self.visit(&no.filhos[1]);
        let ghost depois = self.saida_spec();
        if nao {
            self.emit(")");
        }
        proof {
            if so_expressao(*no) {
                assert(so_expressao(no.filhos@[1]));
                assert(depois == meio + expressao_c(no.filhos@[1]));
                if nao {
                    assert(self.saida_spec() =~= inicio + ("!("@ + expressao_c(no.filhos@[1]) + ")"@));
                } else {
                    assert(self.saida_spec() =~= inicio + expressao_c(no.filhos@[1]));
                }
            }
        }
    }

    /// Chamada de funcao numa expressao.
    fn parcela_chamada(&mut self, no: &NoAST)
        requires
            old(self).wf(),
            bem_formado(*no),
            no.regra is ParcelaUnario2,
        ensures
            final(self).wf(),
            prefixo(old(self).saida_spec(), final(self).saida_spec()),
            so_expressao(*no) ==> final(self).saida_spec() == old(self).saida_spec() + expressao_c(*no)
                && final(self).pilha() == old(self).pilha() && final(self).recuo() == old(self).recuo(),
        decreases no, 1nat,
    {
        proof {
            lema_filhos_bem_formados(*no);
            lema_prefixo_refl(self.saida_spec());
        }
        let ghost inicio = self.saida_spec();
        self.emit(no.filhos[0].texto().as_str());
        self.emit("(");
        let ghost a = self.saida_spec();
        self.visit(&no.filhos[1]);
        let ghost b = self.saida_spec();
        self.lista_expressoes(&no.filhos[2]);
        let ghost c = self.saida_spec();
        self.emit(")");
        proof {
            if so_expressao(*no) {
                assert(so_expressao(no.filhos@[1]));
                assert(so_expressao(no.filhos@[2]));
                assert(b == a + expressao_c(no.filhos@[1]));
                assert(c == b + lista_c(no.filhos@[2]));
                assert(self.saida_spec() =~= inicio + (texto_de(no.filhos@[0]) + "("@
                    + expressao_c(no.filhos@[1]) + lista_c(no.filhos@[2]) + ")"@));
            }
        }
    }

    /// Expressao entre parenteses.
    fn parcela_parenteses(&mut self, no: &NoAST)
        requires
            old(self).wf(),
            bem_formado(*no),
            no.regra is ParcelaUnario3,
        ensures
            final(self).wf(),
            prefixo(old(self).saida_spec(), final(self).saida_spec()),
            so_expressao(*no) ==> final(self).saida_spec() == old(self).saida_spec() + expressao_c(*no)
                && final(self).pilha() == old(self).pilha() && final(self).recuo() == old(self).recuo(),
        decreases no, 1nat,
    {
        proof {
            lema_filhos_bem_formados(*no);
            lema_prefixo_refl(self.saida_spec());
        }
        let ghost inicio = self.saida_spec();
        self.emit("(");
        let ghost a = self.saida_spec();
        self.visit(&no.filhos[0]);
        let ghost b = self.saida_spec();
        self.emit(")");
        proof {
            if so_expressao(*no) {
                assert(so_expressao(no.filhos@[0]));
                assert(b == a + expressao_c(no.filhos@[0]));
                assert(self.saida_spec() =~= inicio + ("("@ + expressao_c(no.filhos@[0]) + ")"@));
            }
        }
    }

    /// Atribuicao: `strcpy` para alvos de tipo cadeia, senao `=`.
    fn atribuicao(&mut self, no: &NoAST)
        requires
            old(self).wf(),
            bem_formado(*no),
            no.regra is CMDAtribuicao,
        ensures
            final(self).wf(),
            prefixo(old(self).saida_spec(), final(self).saida_spec()),
            so_expressao(no.filhos@[2]) ==> final(self).saida_spec() == old(self).saida_spec()
                + atribuicao_c(*no, old(self).pilha(), old(self).recuo()) && final(self).pilha() == old(self).pilha() && final(self).recuo() == old(self).recuo(),
        decreases no, 1nat,
    {
        proof {
            lema_filhos_bem_formados(*no);
        }
        let ghost inicio = self.saida_spec();
        let alvo = no.filhos[1].tipo(&self.escopos);
        let ponteiro = matches!(no.filhos[0].regra, RegraAST::Circunflexo);
        self.new_line();
        let ghost linha = self.saida_spec();
        if !ponteiro && matches!(alvo, TipoSimbolo::Cadeia) {
            self.emit("strcpy(");
            self.emit(no.filhos[1].texto().as_str());
            self.emit(", ");
            let ghost a = self.saida_spec();
            self.visit(&no.filhos[2]);
            let ghost b = self.saida_spec();
            self.emit(");");
            proof {
                if so_expressao(no.filhos@[2]) {
                    assert(b == a + expressao_c(no.filhos@[2]));
                    assert(self.saida_spec() =~= linha + ("strcpy("@ + texto_de(no.filhos@[1])
                        + ", "@ + expressao_c(no.filhos@[2]) + ");"@));
                }
            }
        } else {
            if ponteiro {
                self.emit("*");
            }
            let ghost meio = self.saida_spec();
            self.emit(no.filhos[1].texto().as_str());
            self.emit(" = ");
            let ghost a = self.saida_spec();
            self.visit(&no.filhos[2]);
            let ghost b = self.saida_spec();
            self.emit(";");
            proof {
                if so_expressao(no.filhos@[2]) {
                    assert(b == a + expressao_c(no.filhos@[2]));
                    reveal_strlit("");
                    let estrela = if ponteiro { "*"@ } else { ""@ };
                    assert(meio =~= linha + estrela);
                    assert(self.saida_spec() =~= linha + (estrela + texto_de(no.filhos@[1])
                        + " = "@ + expressao_c(no.filhos@[2]) + ";"@));
                }
            }
        }
        proof {
            if so_expressao(no.filhos@[2]) {
                assert(self.saida_spec() =~= inicio + atribuicao_c(*no, old(self).pilha(), old(self).recuo()));
            }
        }
    }

    /// Chamada de procedimento como comando.
    fn chamada(&mut self, no: &NoAST)
        requires
            old(self).wf(),
            bem_formado(*no),
            no.regra is CMDChamada,
        ensures
            final(self).wf(),
            prefixo(old(self).saida_spec(), final(self).saida_spec()),
            so_expressao(no.filhos@[1]) && so_expressao(no.filhos@[2]) ==> final(self).saida_spec()
                == old(self).saida_spec() + chamada_c(*no, old(self).recuo()) && final(self).pilha() == old(self).pilha() && final(self).recuo() == old(self).recuo(),
        decreases no, 1nat,
    {
        proof {
            lema_filhos_bem_formados(*no);
        }
        let ghost inicio = self.saida_spec();
        self.new_line();
        self.emit(no.filhos[0].texto().as_str());
        self.emit("(");
        let ghost a = self.saida_spec();
        self.visit(&no.filhos[1]);
        let ghost b = self.saida_spec();
        self.lista_expressoes(&no.filhos[2]);
        let ghost c = self.saida_spec();
        self.emit(");");
        proof {
            if so_expressao(no.filhos@[1]) && so_expressao(no.filhos@[2]) {
                assert(b == a + expressao_c(no.filhos@[1]));
                assert(c == b + lista_c(no.filhos@[2]));
                assert(self.saida_spec() =~= inicio + chamada_c(*no, old(self).recuo()));
            }
        }
    }

    /// `retorne expressao`.
    fn retorne(&mut self, no: &NoAST)
        requires
            old(self).wf(),
            bem_formado(*no),
            no.regra is CMDRetorne,
        ensures
            final(self).wf(),
            prefixo(old(self).saida_spec(), final(self).saida_spec()),
            so_expressao(no.filhos@[0]) ==> final(self).saida_spec() == old(self).saida_spec()
                + retorne_c(*no, old(self).recuo()) && final(self).pilha() == old(self).pilha() && final(self).recuo() == old(self).recuo(),
        decreases no, 1nat,
    {
        proof {
            lema_filhos_bem_formados(*no);
        }
        let ghost inicio = self.saida_spec();
        self.new_line();
        self.emit("return ");
        let ghost a = self.saida_spec();
        self.visit(&no.filhos[0]);
        let ghost b = self.saida_spec();
        self.emit(";");
        proof {
            if so_expressao(no.filhos@[0]) {
                assert(b == a + expressao_c(no.filhos@[0]));
                assert(self.saida_spec() =~= inicio + retorne_c(*no, old(self).recuo()));
            }
        }
    }

    /// Procedimento ou funcao: cabecalho, corpo e fechamento do escopo.
    fn rotina(&mut self, no: &NoAST, retorno: String, corpo_desde: usize)
        requires
            old(self).wf(),
            bem_formado(*no),
            no.regra is DeclaracaoProcedimento || no.regra is DeclaracaoFuncao,
            corpo_desde + 3 == no.filhos@.len(),
            retorno@ == retorno_c(*no),
        ensures
            final(self).wf(),
            prefixo(old(self).saida_spec(), final(self).saida_spec()),
            prefixo(old(self).saida_spec() + cabecalho_c(*no, old(self).recuo()), final(self).saida_spec()),
            prefixo(
                old(self).saida_spec() + cabecalho_c(*no, old(self).recuo()) + junta(
                    itens_parametros(no.filhos@[1]),
                ) + ") {"@,
                final(self).saida_spec(),
            ),
            sufixo("\n"@ + tabs(old(self).recuo()) + "}"@, final(self).saida_spec()),
            final(self).recuo() == old(self).recuo(),
        decreases no, 1nat,
    {
        proof {
            lema_prefixo_refl(self.saida_spec());
        }
        proof {
            lema_filhos_bem_formados(*no);
        }
        let nome = no.filhos[0].texto();
        let r0 = self.identacao;
        let ghost s0 = self.saida_spec();
        self.new_line();
        self.new_line();
        self.emit(retorno.as_str());
        self.emit(" ");
        self.emit(nome.as_str());
        self.emit("(");
        let ghost s1 = self.saida_spec();
        proof {
            assert(s1 =~= s0 + cabecalho_c(*no, old(self).recuo()));
            lema_prefixo_refl(s1);
        }
        let mut params = String::new();
        let mut primeiro = true;
        let mut cur = &no.filhos[1];
        let ghost mut feitos: Seq<Seq<char>> = Seq::empty();
        proof {
            assert(feitos + itens_parametros(no.filhos@[1]) =~= itens_parametros(no.filhos@[1]));
        }
        loop
            invariant
                bem_formado(*cur),
                params@ == junta(feitos),
                primeiro == (feitos.len() == 0),
                feitos + itens_parametros(*cur) == itens_parametros(no.filhos@[1]),
            ensures
                params@ == junta(itens_parametros(no.filhos@[1])),
            decreases *cur,
        {
            proof {
                lema_filhos_bem_formados(*cur);
            }
            match cur.regra {
                RegraAST::Parametros | RegraAST::Parametros2 => {
                    primeiro = parametro_c(&cur.filhos[0], &mut params, primeiro, Ghost(feitos));
                    proof {
                        assert(feitos + itens_parametro(cur.filhos@[0]) + itens_parametros(cur.filhos@[1])
                            =~= feitos + itens_parametros(*cur));
                        feitos = feitos + itens_parametro(cur.filhos@[0]);
                    }
                    cur = &cur.filhos[1];
                },
                _ => {
                    proof {
                        assert(feitos =~= feitos + itens_parametros(*cur));
                    }
                    break;
                },
            }
        }
        let ghost s_params = self.saida_spec();
        self.emit(params.as_str());
        self.emit(") {");
        let ghost s_cab = self.saida_spec();
        proof {
            assert(s_cab =~= s1 + (junta(itens_parametros(no.filhos@[1])) + ") {"@));
            assert(s_cab =~= s0 + cabecalho_c(*no, old(self).recuo()) + junta(itens_parametros(no.filhos@[1]))
                + ") {"@);
            lema_prefixo_refl(s_cab);
        }
        self.entra();
        let assinatura = no.tipo(&self.escopos);
        let membros = no.filhos[1].membros(&self.escopos);
        self.escopos.inserir(nome.as_str(), &assinatura);
        let retorno_tipo = if corpo_desde == 3 {
            no.filhos[2].tipo(&self.escopos)
        } else {
            TipoSimbolo::Vazio
        };
        self.escopos.novo_escopo(retorno_tipo);
        self.registrar_membros(&membros);
        self.visit(&no.filhos[corpo_desde]);
        self.visit(&no.filhos[corpo_desde + 1]);
        self.visit(&no.filhos[corpo_desde + 2]);
        self.identacao = r0;
        let ghost s2 = self.saida_spec();
        self.new_line();
        self.emit("}");
        proof {
            let fim = "\n"@ + tabs(old(self).recuo()) + "}"@;
            assert(self.saida_spec() =~= s2 + fim);
            assert(self.saida_spec().subrange(
                self.saida_spec().len() - fim.len(),
                self.saida_spec().len() as int,
            ) =~= fim);
        }
    }
}

/// Valor de um rotulo de caso: o numeral `num`, negado se `sinal` e `-`, se couber em i64.
pub open spec fn valor_rotulo(sinal: NoAST, num: NoAST) -> Option<int> {
    match num.regra {
        RegraAST::NumInt(t) => if t.lexema@.len() > 0 && so_algarismos(t.lexema@) && valor_decimal(
            t.lexema@,
        ) <= i64::MAX {
            Some(
                if sinal.regra is OpUnario {
                    -valor_decimal(t.lexema@)
                } else {
                    valor_decimal(t.lexema@)
                },
            )
        } else {
            None
        },
        _ => None,
    }
}

/// Limites de um `numero_intervalo`: do primeiro numero ate o segundo, se houver `..`, ou so
/// o primeiro.
pub open spec fn intervalo_spec(no: NoAST) -> Option<(int, int)> {
    let f = no.filhos@;
    let lo = valor_rotulo(f[0], f[1]);
    let hi = if f[2].regra is NumeroIntervalo2 {
        valor_rotulo(f[2].filhos@[0], f[2].filhos@[1])
    } else {
        lo
    };
    if lo is Some && hi is Some {
        Some((lo->0, hi->0))
    } else {
        None
    }
}

/// Valor de `NUM_INT`, negado se houver `-`; nada se nao couber em i64.
fn valor_com_sinal(sinal: &NoAST, num: &NoAST) -> (r: Option<i64>)
    ensures
        r is Some <==> valor_rotulo(*sinal, *num) is Some,
        r is Some ==> r->0 == valor_rotulo(*sinal, *num)->0,
{
    if let RegraAST::NumInt(t) = &num.regra {
        match valor_inteiro(t.lexema.as_str()) {
            Some(v) => {
                if matches!(sinal.regra, RegraAST::OpUnario) {
                    Some(-v)
                } else {
                    Some(v)
                }
            },
            None => None,
        }
    } else {
        None
    }
}

/// Texto em C de uma expressao.
pub open spec fn expressao_c(no: NoAST) -> Seq<char>
    decreases no, no.filhos@.len() + 1,
{
    let f = no.filhos@;
    match no.regra {
        RegraAST::Op1(_) | RegraAST::Op2(_) | RegraAST::Op3 | RegraAST::OpRelacional(_)
        | RegraAST::OpLogico1 | RegraAST::OpLogico2 | RegraAST::OpUnario
        | RegraAST::ConstanteLogica(_) | RegraAST::NumInt(_) | RegraAST::NumReal(_)
        | RegraAST::Cadeia(_) | RegraAST::Identificador => texto_c_folha(no),
        RegraAST::Ident(t) => t.lexema@,
        RegraAST::Nao | RegraAST::Vazio => Seq::empty(),
        RegraAST::FatorLogico => if f.len() == 2 {
            if f[0].regra is Nao {
                "!("@ + expressao_c(f[1]) + ")"@
            } else {
                expressao_c(f[1])
            }
        } else {
            Seq::empty()
        },
        RegraAST::ParcelaUnario1 => if f.len() == 2 {
            "*"@ + texto_de(f[1])
        } else {
            Seq::empty()
        },
        RegraAST::ParcelaUnario2 => if f.len() == 3 {
            texto_de(f[0]) + "("@ + expressao_c(f[1]) + lista_c(f[2]) + ")"@
        } else {
            Seq::empty()
        },
        RegraAST::ParcelaUnario3 => if f.len() == 1 {
            "("@ + expressao_c(f[0]) + ")"@
        } else {
            Seq::empty()
        },
        RegraAST::ParcelaNaoUnario => if f.len() == 1 {
            "&"@ + texto_de(f[0])
        } else {
            Seq::empty()
        },
        _ => filhos_c(no, 0),
    }
}

/// Textos em C dos filhos de `no` a partir do filho `i`, concatenados.
pub open spec fn filhos_c(no: NoAST, i: int) -> Seq<char>
    decreases no, no.filhos@.len() - i,
{
    if 0 <= i < no.filhos@.len() {
        expressao_c(no.filhos@[i]) + filhos_c(no, i + 1)
    } else {
        Seq::empty()
    }
}

/// Texto em C de uma lista `expressoes`: cada expressao precedida de virgula.
pub open spec fn lista_c(no: NoAST) -> Seq<char>
    decreases no, 0int,
{
    if no.regra is Expressoes && no.filhos@.len() == 2 {
        ", "@ + expressao_c(no.filhos@[0]) + lista_c(no.filhos@[1])
    } else {
        Seq::empty()
    }
}

/// Texto em C de uma atribuicao `circunflexo identificador '<-' expressao` com recuo `recuo`:
/// `strcpy` para alvos de tipo cadeia (avaliado em `p`), senao `=`, com `*` para `^`.
pub open spec fn atribuicao_c(no: NoAST, p: Seq<TabelaDeSimbolos>, recuo: nat) -> Seq<char> {
    let f = no.filhos@;
    let ponteiro = f[0].regra is Circunflexo;
    "\n"@ + tabs(recuo) + if !ponteiro && tipo_spec(f[1], p) is Cadeia {
        "strcpy("@ + texto_de(f[1]) + ", "@ + expressao_c(f[2]) + ");"@
    } else {
        (if ponteiro {
            "*"@
        } else {
            ""@
        }) + texto_de(f[1]) + " = "@ + expressao_c(f[2]) + ";"@
    }
}

/// Formatos de printf de uma lista `expressoes`, pelos tipos avaliados em `p`.
pub open spec fn formatos_c(no: NoAST, p: Seq<TabelaDeSimbolos>) -> Seq<char>
    decreases no,
{
    if no.regra is Expressoes && no.filhos@.len() == 2 {
        "%"@ + formato(tipo_spec(no.filhos@[0], p)) + formatos_c(no.filhos@[1], p)
    } else {
        Seq::empty()
    }
}

/// Texto em C de `escreva '(' expressao expressoes ')'` com recuo `recuo`: um `printf` com um
/// formato por expressao, pelo tipo avaliado em `p`.
pub open spec fn escreva_c(no: NoAST, p: Seq<TabelaDeSimbolos>, recuo: nat) -> Seq<char> {
    let f = no.filhos@;
    "\n"@ + tabs(recuo) + "printf(\"%"@ + formato(tipo_spec(f[0], p)) + formatos_c(f[1], p)
        + "\", "@ + expressao_c(f[0]) + lista_c(f[1]) + ");"@
}

/// Tipo lido por `leia`: o apontado, se o identificador vem depois de `^`.
pub open spec fn tipo_lido(ponteiro: bool, t: TipoSimbolo) -> TipoSimbolo {
    match t {
        TipoSimbolo::Ponteiro(a) => if ponteiro {
            *a
        } else {
            t
        },
        _ => t,
    }
}

/// Texto em C da leitura de um identificador, com recuo `recuo`: `scanf` com o formato do tipo
/// avaliado em `p`, e `&` salvo para cadeias e leituras por ponteiro.
pub open spec fn leitura_c(circunflexo: NoAST, ident: NoAST, p: Seq<TabelaDeSimbolos>, recuo: nat) -> Seq<char> {
    let ponteiro = circunflexo.regra is Circunflexo;
    let t = tipo_lido(ponteiro, tipo_spec(ident, p));
    "\n"@ + tabs(recuo) + "scanf(\"%"@ + formato(t) + "\", "@ + (if !ponteiro && !(t is Cadeia) {
        "&"@
    } else {
        ""@
    }) + texto_de(ident) + ");"@
}

/// Texto em C de `constante IDENT ':' tipo_basico '=' valor_constante` com recuo `recuo`.
pub open spec fn constante_c(no: NoAST, recuo: nat) -> Seq<char> {
    let f = no.filhos@;
    "\n"@ + tabs(recuo) + "\n"@ + tabs(recuo) + "#define "@ + texto_de(f[0]) + " "@ + match f[2].regra {
        RegraAST::ValorConstante(t) => if t.tipo == TipoToken::PCverdadeiro {
            "true"@
        } else if t.tipo == TipoToken::PCfalso {
            "false"@
        } else {
            t.lexema@
        },
        _ => Seq::empty(),
    }
}

/// Texto em C de `tipo IDENT ':' tipo` com recuo `recuo`: um `typedef`.
pub open spec fn tipo_decl_c(no: NoAST, recuo: nat) -> Seq<char> {
    let f = no.filhos@;
    "\n"@ + tabs(recuo) + "typedef "@ + tipo_c_spec(f[1]) + " "@ + (if e_ponteiro_spec(f[1]) {
        "*"@
    } else {
        ""@
    }) + texto_de(f[0]) + (if e_cadeia_spec(f[1]) {
        "[80]"@
    } else {
        ""@
    }) + ";"@
}

/// `a` e sufixo de `b`.
pub open spec fn sufixo(a: Seq<char>, b: Seq<char>) -> bool {
    a.len() <= b.len() && b.subrange(b.len() - a.len(), b.len() as int) == a
}

/// Fim de todo programa gerado com recuo inicial `recuo`: o `return 0;` do `main`, um nivel
/// abaixo, e o fecho do `main`.
pub open spec fn fim_programa(recuo: nat) -> Seq<char> {
    "\n"@ + tabs(mais(recuo)) + "return 0;"@ + "\n}\n"@
}

/// Tipo de retorno em C de uma rotina: `void` para procedimentos; para funcoes o tipo
/// declarado, por ponteiro se for ponteiro ou cadeia.
pub open spec fn retorno_c(no: NoAST) -> Seq<char> {
    if no.regra is DeclaracaoFuncao {
        tipo_c_spec(no.filhos@[2]) + if e_ponteiro_spec(no.filhos@[2]) || e_cadeia_spec(no.filhos@[2]) {
            "*"@
        } else {
            ""@
        }
    } else {
        "void"@
    }
}

/// Inicio do texto em C de uma rotina com recuo `recuo`: linha em branco, tipo de retorno, nome
/// e abre-parenteses dos parametros.
pub open spec fn cabecalho_c(no: NoAST, recuo: nat) -> Seq<char> {
    "\n"@ + tabs(recuo) + "\n"@ + tabs(recuo) + retorno_c(no) + " "@ + texto_de(no.filhos@[0]) + "("@
}

/// Prologo de todo programa gerado.
pub open spec fn prologo() -> Seq<char> {
    "#include <stdio.h>\n#include <stdlib.h>\n#include <string.h>\n#include <stdbool.h>"@
}

/// Texto em C de `retorne expressao` com recuo `recuo`.
pub open spec fn retorne_c(no: NoAST, recuo: nat) -> Seq<char> {
    "\n"@ + tabs(recuo) + "return "@ + expressao_c(no.filhos@[0]) + ";"@
}

/// Texto em C de uma chamada `IDENT '(' expressao expressoes ')'` com recuo `recuo`.
pub open spec fn chamada_c(no: NoAST, recuo: nat) -> Seq<char> {
    let f = no.filhos@;
    "\n"@ + tabs(recuo) + texto_de(f[0]) + "("@ + expressao_c(f[1]) + lista_c(f[2]) + ");"@
}

/// Recuo seguinte, sem passar do maior valor representavel.
pub open spec fn mais(r: nat) -> nat {
    if r < u32::MAX {
        r + 1
    } else {
        r
    }
}

/// Comandos com expressoes simples nas posicoes de expressao: os nos em que o texto gerado
/// depende so da arvore, dos escopos e do recuo.
pub open spec fn so_comando(no: NoAST) -> bool
    decreases no,
{
    let f = no.filhos@;
    match no.regra {
        RegraAST::Vazio | RegraAST::NumeroIntervalo => true,
        RegraAST::CMDs | RegraAST::Selecao | RegraAST::Constantes | RegraAST::NumeroIntervalos
        | RegraAST::ItemSelecao => f.len() == 2 && so_comando(f[0]) && so_comando(f[1]),
        RegraAST::Senao => f.len() == 1 && so_comando(f[0]),
        RegraAST::Corpo => f.len() == 2 && f[0].regra is Vazio && so_comando(f[1]),
        RegraAST::CMDLeia | RegraAST::CMDLeia2 => f.len() == 3 && so_comando(f[2]),
        RegraAST::CMDEscreva => f.len() == 2 && so_expressao(f[0]) && so_expressao(f[1]),
        RegraAST::CMDSe | RegraAST::CMDCaso => f.len() == 3 && so_expressao(f[0]) && so_comando(f[1])
            && so_comando(f[2]),
        RegraAST::CMDPara => f.len() == 4 && so_expressao(f[1]) && so_expressao(f[2]) && so_comando(
            f[3],
        ),
        RegraAST::CMDEnquanto => f.len() == 2 && so_expressao(f[0]) && so_comando(f[1]),
        RegraAST::CMDFaca => f.len() == 2 && so_comando(f[0]) && so_expressao(f[1]),
        RegraAST::CMDAtribuicao => f.len() == 3 && so_expressao(f[2]),
        RegraAST::CMDChamada => f.len() == 3 && so_expressao(f[1]) && so_expressao(f[2]),
        RegraAST::CMDRetorne => f.len() == 1 && so_expressao(f[0]),
        _ => false,
    }
}

/// Listas de comandos, de itens de caso e de intervalos: o texto e o dos filhos, em ordem.
pub open spec fn regra_de_lista(r: RegraAST) -> bool {
    r is CMDs || r is Selecao || r is Constantes || r is NumeroIntervalos || r is Senao || r is Corpo
}

/// Textos em C dos filhos de `no` a partir do filho `i`, como comandos.
pub open spec fn comandos_desde(no: NoAST, i: int, p: Seq<TabelaDeSimbolos>, r: nat) -> Seq<char>
    decreases no, no.filhos@.len() - i,
{
    if 0 <= i < no.filhos@.len() {
        comando_c(no.filhos@[i], p, r) + comandos_desde(no, i + 1, p, r)
    } else {
        Seq::empty()
    }
}

/// Texto em C de um comando com recuo `r`, avaliando tipos em `p`.
pub open spec fn comando_c(no: NoAST, p: Seq<TabelaDeSimbolos>, r: nat) -> Seq<char>
    decreases no, no.filhos@.len() + 1,
{
    let f = no.filhos@;
    let nl = "\n"@ + tabs(r);
    if regra_de_lista(no.regra) {
        comandos_desde(no, 0, p, r)
    } else {
        match no.regra {
            RegraAST::ItemSelecao => if f.len() == 2 {
                comando_c(f[0], p, r) + comando_c(f[1], p, mais(r)) + "\n"@ + tabs(mais(r))
                    + "break;"@
            } else {
                Seq::empty()
            },
            RegraAST::NumeroIntervalo => match intervalo_spec(no) {
                Some((lo, hi)) => rotulos(lo, hi, r),
                None => nl + "case "@ + (if f[0].regra is OpUnario {
                    "-"@
                } else {
                    ""@
                }) + texto_de(f[1]) + ":"@,
            },
            RegraAST::CMDLeia | RegraAST::CMDLeia2 => if f.len() == 3 {
                leitura_c(f[0], f[1], p, r) + comando_c(f[2], p, r)
            } else {
                Seq::empty()
            },
            RegraAST::CMDEscreva => escreva_c(no, p, r),
            RegraAST::CMDSe => if f.len() == 3 {
                nl + "if ("@ + expressao_c(f[0]) + ") {"@ + comando_c(f[1], p, mais(r)) + nl + "}"@ + (
                if f[2].regra is Vazio {
                    Seq::empty()
                } else {
                    " else {"@ + comando_c(f[2], p, mais(r)) + nl + "}"@
                })
            } else {
                Seq::empty()
            },
            RegraAST::CMDCaso => if f.len() == 3 {
                nl + "switch ("@ + expressao_c(f[0]) + ") {"@ + comando_c(f[1], p, mais(r)) + (
                if f[2].regra is Vazio {
                    Seq::empty()
                } else {
                    "\n"@ + tabs(mais(r)) + "default:"@ + comando_c(f[2], p, mais(mais(r)))
                }) + nl + "}"@
            } else {
                Seq::empty()
            },
            RegraAST::CMDPara => if f.len() == 4 {
                let v = texto_de(f[0]);
                nl + "for ("@ + v + " = "@ + expressao_c(f[1]) + "; "@ + v + " <= "@ + expressao_c(
                    f[2],
                ) + "; "@ + v + "++) {"@ + comando_c(f[3], p, mais(r)) + nl + "}"@
            } else {
                Seq::empty()
            },
            RegraAST::CMDEnquanto => if f.len() == 2 {
                nl + "while ("@ + expressao_c(f[0]) + ") {"@ + comando_c(f[1], p, mais(r)) + nl + "}"@
            } else {
                Seq::empty()
            },
            RegraAST::CMDFaca => if f.len() == 2 {
                nl + "do {"@ + comando_c(f[0], p, mais(r)) + nl + "} while (!("@ + expressao_c(f[1])
                    + "));"@
            } else {
                Seq::empty()
            },
            RegraAST::CMDAtribuicao => atribuicao_c(no, p, r),
            RegraAST::CMDChamada => chamada_c(no, r),
            RegraAST::CMDRetorne => retorne_c(no, r),
            _ => Seq::empty(),
        }
    }
}

/// Texto em C de um no de operador, constante ou operando simples; vazio para os demais.
pub open spec fn texto_c_folha(no: NoAST) -> Seq<char> {
    match no.regra {
        RegraAST::Op1(t) => " "@ + t.lexema@ + " "@,
        RegraAST::Op2(t) => " "@ + t.lexema@ + " "@,
        RegraAST::Op3 => " % "@,
        RegraAST::OpRelacional(t) => if t.tipo == TipoToken::OpRelIgual {
            " == "@
        } else if t.tipo == TipoToken::OpRelDif {
            " != "@
        } else {
            " "@ + t.lexema@ + " "@
        },
        RegraAST::OpLogico1 => " || "@,
        RegraAST::OpLogico2 => " && "@,
        RegraAST::OpUnario => "-"@,
        RegraAST::ConstanteLogica(t) => if t.tipo == TipoToken::PCverdadeiro {
            "true"@
        } else {
            "false"@
        },
        RegraAST::NumInt(t) => t.lexema@,
        RegraAST::NumReal(t) => t.lexema@,
        RegraAST::Cadeia(t) => t.lexema@,
        RegraAST::Identificador => texto_de(no),
        _ => Seq::empty(),
    }
}

impl Visitor for Gerador {
    open spec fn inv(&self) -> bool {
        self.wf()
    }

    /// A saida so cresce; uma expressao acrescenta exatamente o seu texto em C, assim como as
    /// atribuicoes, os `escreva`, os `retorne` e as chamadas, e um intervalo de caso acrescenta
    /// um rotulo por inteiro do intervalo.
    open spec fn visitou(&self, antes: &Self, no: NoAST) -> bool {
        &&& self.wf()
        &&& prefixo(antes.saida_spec(), self.saida_spec())
        &&& (so_expressao(no) ==> self.saida_spec() == antes.saida_spec() + expressao_c(no)
            && self.pilha() == antes.pilha() && self.recuo() == antes.recuo())
        &&& (no.regra is CMDAtribuicao && so_expressao(no.filhos@[2]) ==> self.saida_spec()
            == antes.saida_spec() + atribuicao_c(no, antes.pilha(), antes.recuo()))
        &&& (so_comando(no) ==> self.saida_spec() == antes.saida_spec() + comando_c(
            no,
            antes.pilha(),
            antes.recuo(),
        ) && self.pilha() == antes.pilha() && self.recuo() == antes.recuo())
        &&& (no.regra is DeclaracaoConstante ==> self.saida_spec() == antes.saida_spec() + constante_c(
            no,
            antes.recuo(),
        ))
        &&& (no.regra is DeclaracaoTipo ==> self.saida_spec() == antes.saida_spec() + tipo_decl_c(
            no,
            antes.recuo(),
        ))
        &&& (no.regra is Variavel ==> {
            &&& self.recuo() == antes.recuo()
            &&& self.pilha().len() == antes.pilha().len()
            &&& self.pilha().drop_first() == antes.pilha().drop_first()
            &&& self.pilha()[0].retorno_spec() == antes.pilha()[0].retorno_spec()
            &&& forall|n: Seq<char>| #[trigger] self.pilha()[0].consulta(n) == match registro_nomes(
                idents_desde(no, 0),
                tipo_spec(no, antes.pilha()),
                n,
            ) {
                Some(t) => Some(t),
                None => antes.pilha()[0].consulta(n),
            }
        })
        &&& (no.regra is DeclaracaoProcedimento || no.regra is DeclaracaoFuncao ==> {
            &&& prefixo(antes.saida_spec() + cabecalho_c(no, antes.recuo()), self.saida_spec())
            &&& prefixo(
                antes.saida_spec() + cabecalho_c(no, antes.recuo()) + junta(
                    itens_parametros(no.filhos@[1]),
                ) + ") {"@,
                self.saida_spec(),
            )
            &&& sufixo("\n"@ + tabs(antes.recuo()) + "}"@, self.saida_spec())
            &&& self.recuo() == antes.recuo()
        })
        &&& (no.regra is Programa && no.filhos@.len() == 2 && no.filhos@[0].regra is Vazio && so_comando(
            no.filhos@[1],
        ) ==> self.saida_spec() == antes.saida_spec() + prologo() + "\n\nint main(void) {"@ + comando_c(
            no.filhos@[1],
            antes.pilha(),
            mais(antes.recuo()),
        ) + fim_programa(antes.recuo()))
        &&& (no.regra is Programa ==> {
            &&& prefixo(antes.saida_spec() + prologo(), self.saida_spec())
            &&& sufixo(fim_programa(antes.recuo()), self.saida_spec())
        })
        &&& (no.regra is Variavel ==> self.saida_spec() == antes.saida_spec() + "\n"@ + tabs(
            antes.recuo(),
        ) + declaracao_spec(no))
        &&& (no.regra is CMDEscreva && so_expressao(no.filhos@[0]) && so_expressao(no.filhos@[1])
            ==> self.saida_spec() == antes.saida_spec() + escreva_c(no, antes.pilha(), antes.recuo()))
        &&& (no.regra is CMDRetorne && so_expressao(no.filhos@[0]) ==> self.saida_spec()
            == antes.saida_spec() + retorne_c(no, antes.recuo()))
        &&& (no.regra is CMDChamada && so_expressao(no.filhos@[1]) && so_expressao(no.filhos@[2])
            ==> self.saida_spec() == antes.saida_spec() + chamada_c(no, antes.recuo()))
        &&& (no.regra is NumeroIntervalo && intervalo_spec(no) is Some ==> {
            let (lo, hi) = intervalo_spec(no)->0;
            self.saida_spec() == antes.saida_spec() + rotulos(lo, hi, antes.recuo())
        })
    }

    /// A saida so cresce.
    /// O resultado e o de visitar cada no da arvore em pre-ordem.
    open spec fn percorreu(&self, antes: &Self, no: NoAST) -> bool {
        &&& self.wf()
        &&& self.percorreu_no(antes, no)
    }

    /// Emite o codigo C de um no, visitando os filhos conforme a regra.
    #[verifier::rlimit(30)]
    fn visit(&mut self, no: &NoAST)
        decreases no, 2nat,
    {
        proof {
            lema_filhos_bem_formados(*no);
            lema_prefixo_refl(self.saida_spec());
        }
        let ghost inicio = self.saida_spec();
        match &no.regra {
            RegraAST::Programa => {
                let r0 = self.identacao;
                self.emit("#include <stdio.h>\n#include <stdlib.h>\n#include <string.h>\n#include <stdbool.h>");
                let ghost s1 = self.saida_spec();
                self.visit(&no.filhos[0]);
                self.emit("\n\nint main(void) {");
                self.identacao = r0;
                self.entra();
                let nivel = self.identacao;
                self.visit(&no.filhos[1]);
                self.identacao = nivel;
                let ghost s2 = self.saida_spec();
                self.new_line();
                self.emit("return 0;");
                self.identacao = r0;
                self.emit("\n}\n");
                proof {
                    if no.filhos@[0].regra is Vazio && so_comando(no.filhos@[1]) {
                        assert(self.saida_spec() =~= inicio + prologo() + "\n\nint main(void) {"@ + comando_c(
                            no.filhos@[1],
                            old(self).pilha(),
                            mais(old(self).recuo()),
                        ) + fim_programa(old(self).recuo()));
                    }
                    assert(s1 == inicio + prologo());
                    lema_prefixo_refl(s1);
                    assert(prefixo(s1, self.saida_spec()));
                    let fim = fim_programa(old(self).recuo());
                    assert(self.saida_spec() =~= s2 + fim);
                    assert(self.saida_spec().subrange(
                        self.saida_spec().len() - fim.len(),
                        self.saida_spec().len() as int,
                    ) =~= fim);
                }
            },
            RegraAST::DeclaracaoTipo => {
                self.declaracao_tipo(no);
            },
            RegraAST::DeclaracaoConstante => {
                self.declaracao_constante(no);
            },
            RegraAST::Variavel => {
                self.variavel(no);
            },
            RegraAST::DeclaracaoProcedimento => {
                self.rotina(no, texto("void"), 2);
            },
            RegraAST::DeclaracaoFuncao => {
                let mut retorno = tipo_c(&no.filhos[2]);
                let ghost base = retorno@;
                if e_ponteiro(&no.filhos[2]) || e_cadeia(&no.filhos[2]) {
                    anexar(&mut retorno, "*");
                } else {
                    proof {
                        reveal_strlit("");
                        assert(retorno@ =~= base + ""@);
                    }
                }
                self.rotina(no, retorno, 3);
            },
            RegraAST::CMDLeia | RegraAST::CMDLeia2 => {
                self.leia(no);
            },
            RegraAST::CMDEscreva => {
                self.escreva(no);
            },
            RegraAST::CMDSe => {
                self.se(no);
            },
            RegraAST::CMDCaso => {
                self.caso(no);
            },
            RegraAST::ItemSelecao => {
                self.item_selecao(no);
            },
            RegraAST::NumeroIntervalo => {
                self.intervalo(no);
            },
            RegraAST::CMDPara => {
                self.para(no);
            },
            RegraAST::CMDEnquanto => {
                self.enquanto(no);
            },
            RegraAST::CMDFaca => {
                self.faca(no);
            },
            RegraAST::CMDAtribuicao => {
                self.atribuicao(no);
            },
            RegraAST::CMDChamada => {
                self.chamada(no);
            },
            RegraAST::CMDRetorne => {
                self.retorne(no);
            },
            RegraAST::Op1(t) | RegraAST::Op2(t) => {
                let ghost antes = self.saida_spec();
                self.emit(" ");
                self.emit(t.lexema.as_str());
                self.emit(" ");
                proof {
                    assert(self.saida_spec() =~= antes + (" "@ + t.lexema@ + " "@));
                }
            },
            RegraAST::Op3 => {
                self.emit(" % ");
            },
            RegraAST::OpRelacional(t) => {
                if t.tipo == TipoToken::OpRelIgual {
                    self.emit(" == ");
                } else if t.tipo == TipoToken::OpRelDif {
                    self.emit(" != ");
                } else {
                    let ghost antes = self.saida_spec();
                    self.emit(" ");
                    self.emit(t.lexema.as_str());
                    self.emit(" ");
                    proof {
                        assert(self.saida_spec() =~= antes + (" "@ + t.lexema@ + " "@));
                    }
                }
            },
            RegraAST::OpLogico1 => {
                self.emit(" || ");
            },
            RegraAST::OpLogico2 => {
                self.emit(" && ");
            },
            RegraAST::OpUnario => {
                self.emit("-");
            },
            RegraAST::FatorLogico => {
                self.fator_logico(no);
            },
            RegraAST::ConstanteLogica(t) => {
                if t.tipo == TipoToken::PCverdadeiro {
                    self.emit("true");
                } else {
                    self.emit("false");
                }
            },
            RegraAST::ParcelaUnario1 => {
                self.emit("*");
                self.emit(no.filhos[1].texto().as_str());
                proof {
                    assert(self.saida_spec() =~= inicio + ("*"@ + texto_de(no.filhos@[1])));
                }
            },
            RegraAST::ParcelaUnario2 => {
                self.parcela_chamada(no);
            },
            RegraAST::ParcelaUnario3 => {
                self.parcela_parenteses(no);
            },
            RegraAST::ParcelaNaoUnario => {
                self.emit("&");
                self.emit(no.filhos[0].texto().as_str());
                proof {
                    assert(self.saida_spec() =~= inicio + ("&"@ + texto_de(no.filhos@[0])));
                }
            },
            RegraAST::NumInt(t) | RegraAST::NumReal(t) | RegraAST::Cadeia(t) | RegraAST::Ident(t) => {
                self.emit(t.lexema.as_str());
            },
            RegraAST::Identificador => {
                self.emit(no.texto().as_str());
            },
            RegraAST::FechaEscopo => {
                self.escopos.abandonar_escopo();
            },
            RegraAST::TipoExtendido | RegraAST::Registro | RegraAST::Variaveis | RegraAST::Parametros
            | RegraAST::Parametros2 | RegraAST::Parametro | RegraAST::Nao | RegraAST::Vazio
            | RegraAST::Erro { .. } => {
                proof {
                    assert(self.saida_spec() =~= inicio + Seq::<char>::empty());
                }
            },
            _ => {
                self.visitar_filhos(no);
            },
        }
    }

    /// Visita o no e depois, recursivamente, os filhos, em ordem.
    fn traverse(&mut self, no: &NoAST)
        decreases no,
    {
        proof {
            lema_filhos_bem_formados(*no);
        }
        let ghost s0 = *self;
        self.visit(no);
        let ghost s1 = *self;
        let mut i: usize = 0;
        while i < no.filhos.len()
            invariant
                self.wf(),
                bem_formado(*no),
                forall|k: int| 0 <= k < no.filhos@.len() ==> bem_formado(#[trigger] no.filhos@[k]),
                i <= no.filhos@.len(),
                self.percorreu_filhos(&s1, *no, i as int),
            decreases no.filhos@.len() - i,
        {
            let ghost m = *self;
            self.traverse(&no.filhos[i]);
            proof {
                lema_passo_gerador(s1, m, *self, *no, i as int);
            }
            i = i + 1;
        }
        proof {
            assert(s1.wf() && s1.visitou(&s0, *no));
            assert(self.percorreu_no(&s0, *no));
        }
    }
}

/// Percorrer mais um filho estende o percurso dos filhos anteriores.
proof fn lema_passo_gerador(a: Gerador, m: Gerador, s: Gerador, no: NoAST, i: int)
    requires
        0 <= i < no.filhos@.len(),
        m.wf(),
        m.percorreu_filhos(&a, no, i),
        s.percorreu_no(&m, no.filhos@[i]),
    ensures
        s.percorreu_filhos(&a, no, i + 1),
{
    let j = i + 1;
    assert(j - 1 == i);
    assert(m.percorreu_filhos(&a, no, j - 1));
}

} // verus!
