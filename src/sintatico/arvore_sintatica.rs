use vstd::prelude::*;
use crate::lexico::token::{TipoToken, Token};
use crate::semantico::escopos::{resolve, Escopos};
use crate::semantico::tabela_de_simbolos::{concatena, mesmo_tipo, numerico, Membros, TabelaDeSimbolos, TipoSimbolo};
use crate::texto::{anexar, texto};

verus! {

/// Regra da gramatica que um no da arvore sintatica representa.
#[derive(Debug, Clone)]
pub enum RegraAST {
    /// programa : declaracoes 'algoritmo' corpo 'fim_algoritmo'
    Programa,
    /// declaracoes : declaracao declaracoes | <<vazio>>
    Declaracoes,
    /// declaracao_local : 'declare' variavel
    DeclaracaoVariavel,
    /// | 'tipo' IDENT ':' tipo
    DeclaracaoTipo,
    /// | 'constante' IDENT ':' tipo_basico '=' valor_constante
    DeclaracaoConstante,
    /// valor_constante : CADEIA | NUM_INT | NUM_REAL | 'verdadeiro' | 'falso'
    ValorConstante(Token),
    /// variavel : identificador identificadores ':' tipo
    Variavel,
    /// identificador : IDENT identificador2 dimensao
    Identificador,
    /// identificador2 : '.' IDENT identificador2 | <<vazio>>
    Identificador2,
    /// identificadores : ',' identificador identificadores | <<vazio>>
    Identificadores,
    /// dimensao : '[' exp_aritmetica ']' dimensao | <<vazio>>
    Dimensao,
    /// tipo_estendido : circunflexo tipo_basico_ident
    TipoExtendido,
    /// tipo_basico_ident : IDENT
    Ident(Token),
    /// tipo_basico : 'literal' | 'inteiro' | 'real' | 'logico'
    TipoBasico(Token),
    /// circunflexo : '^' | <<vazio>>
    Circunflexo,
    /// registro : 'registro' variaveis 'fim_registro' fecha_escopo
    Registro,
    /// variaveis : variavel variaveis | <<vazio>>
    Variaveis,
    /// declaracao_global : 'procedimento' IDENT '(' parametros ')' declaracoes_locais cmds
    /// 'fim_procedimento' fecha_escopo
    DeclaracaoProcedimento,
    /// | 'funcao' IDENT '(' parametros ')' ':' tipo_estendido declaracoes_locais cmds
    /// 'fim_funcao' fecha_escopo
    DeclaracaoFuncao,
    /// declaracoes_locais : declaracao_local declaracoes_locais | <<vazio>>
    DeclaracoesLocais,
    /// parametro : var identificador identificadores ':' tipo_estendido
    Parametro,
    /// parametros : parametro parametros2 | <<vazio>>
    Parametros,
    /// parametros2 : ',' parametro parametros2 | <<vazio>>
    Parametros2,
    /// var : 'var' | <<vazio>>
    Var,
    /// corpo : declaracoes_locais cmds
    Corpo,
    /// cmds : cmd cmds | <<vazio>>
    CMDs,
    /// cmdLeia : 'leia' '(' circunflexo identificador cmdLeia2 ')'
    CMDLeia,
    /// cmdLeia2 : ',' circunflexo identificador cmdLeia2 | <<vazio>>
    CMDLeia2,
    /// cmdEscreva : 'escreva' '(' expressao expressoes ')'
    CMDEscreva,
    /// cmdSe : 'se' expressao 'entao' cmds senao 'fim_se'
    CMDSe,
    /// senao : 'senao' cmds | <<vazio>>
    Senao,
    /// cmdCaso : 'caso' exp_aritmetica 'seja' selecao senao 'fim_caso'
    CMDCaso,
    /// cmdPara : 'para' IDENT '<-' exp_aritmetica 'ate' exp_aritmetica 'faca' cmds 'fim_para'
    CMDPara,
    /// cmdEnquanto : 'enquanto' expressao 'faca' cmds 'fim_enquanto'
    CMDEnquanto,
    /// cmdFaca : 'faca' cmds 'ate' expressao
    CMDFaca,
    /// cmdAtribuicao : circunflexo identificador '<-' expressao
    CMDAtribuicao,
    /// cmdChamada : IDENT '(' expressao expressoes ')'
    CMDChamada,
    /// cmdRetorne : 'retorne' expressao
    CMDRetorne,
    /// selecao : item_selecao selecao | <<vazio>>
    Selecao,
    /// item_selecao : constantes ':' cmds
    ItemSelecao,
    /// constantes : numero_intervalo numero_intervalos
    Constantes,
    /// numero_intervalo : op_unario NUM_INT numero_intervalo2
    NumeroIntervalo,
    /// numero_intervalos : ',' numero_intervalo numero_intervalos | <<vazio>>
    NumeroIntervalos,
    /// numero_intervalo2 : '..' op_unario NUM_INT | <<vazio>>
    NumeroIntervalo2,
    /// op_unario : '-' | <<vazio>>
    OpUnario,
    /// exp_aritmetica : termo termos
    ExpAritmetica,
    /// termo : fator fatores
    Termo,
    /// termos : op1 termo termos | <<vazio>>
    Termos,
    /// op1 : '+' | '-'
    Op1(Token),
    /// fator : parcela parcelas
    Fator,
    /// fatores : op2 fator fatores | <<vazio>>
    Fatores,
    /// op2 : '*' | '/'
    Op2(Token),
    /// parcela : op_unario parcela_unario | parcela_nao_unario
    Parcela,
    /// parcelas : op3 parcela parcelas | <<vazio>>
    Parcelas,
    /// op3 : '%'
    Op3,
    /// parcela_unario : circunflexo identificador
    ParcelaUnario1,
    /// | IDENT '(' expressao expressoes ')'
    ParcelaUnario2,
    /// | '(' expressao ')'
    ParcelaUnario3,
    /// | NUM_INT
    NumInt(Token),
    /// | NUM_REAL
    NumReal(Token),
    /// parcela_nao_unario : '&' identificador
    ParcelaNaoUnario,
    /// | CADEIA
    Cadeia(Token),
    /// exp_relacional : exp_aritmetica exp_relacional2
    ExpRelacional,
    /// exp_relacional2 : op_relacional exp_aritmetica | <<vazio>>
    ExpRelacional2,
    /// op_relacional : '=' | '<>' | '>=' | '<=' | '>' | '<'
    OpRelacional(Token),
    /// expressao : termo_logico termos_logicos
    Expressao,
    /// expressoes : ',' expressao expressoes | <<vazio>>
    Expressoes,
    /// termo_logico : fator_logico fatores_logicos
    TermoLogico,
    /// termos_logicos : op_logico_1 termo_logico termos_logicos | <<vazio>>
    TermosLogicos,
    /// fator_logico : nao parcela_logica
    FatorLogico,
    /// fatores_logicos : op_logico_2 fator_logico fatores_logicos | <<vazio>>
    FatoresLogicos,
    /// nao : 'nao' | <<vazio>>
    Nao,
    /// constante_logica : 'verdadeiro' | 'falso'
    ConstanteLogica(Token),
    /// op_logico_1 : 'ou'
    OpLogico1,
    /// op_logico_2 : 'e'
    OpLogico2,
    /// fecha_escopo : <<vazio>>, ultimo filho das regras que abrem escopo
    FechaEscopo,
    /// ausencia de um filho opcional
    Vazio,
    /// erro lexico ou sintatico, com a mensagem pronta
    Erro { mensagem: String },
}

/// Numero de filhos de um no de cada regra.
pub open spec fn aridade(r: RegraAST) -> nat {
    match r {
        RegraAST::Programa => 2,
        RegraAST::Declaracoes => 2,
        RegraAST::DeclaracaoVariavel => 1,
        RegraAST::DeclaracaoTipo => 2,
        RegraAST::DeclaracaoConstante => 3,
        RegraAST::Variavel => 3,
        RegraAST::Identificador => 3,
        RegraAST::Identificador2 => 2,
        RegraAST::Identificadores => 2,
        RegraAST::Dimensao => 2,
        RegraAST::TipoExtendido => 2,
        RegraAST::Registro => 2,
        RegraAST::Variaveis => 2,
        RegraAST::DeclaracaoProcedimento => 5,
        RegraAST::DeclaracaoFuncao => 6,
        RegraAST::DeclaracoesLocais => 2,
        RegraAST::Parametro => 4,
        RegraAST::Parametros => 2,
        RegraAST::Parametros2 => 2,
        RegraAST::Corpo => 2,
        RegraAST::CMDs => 2,
        RegraAST::CMDLeia => 3,
        RegraAST::CMDLeia2 => 3,
        RegraAST::CMDEscreva => 2,
        RegraAST::CMDSe => 3,
        RegraAST::Senao => 1,
        RegraAST::CMDCaso => 3,
        RegraAST::CMDPara => 4,
        RegraAST::CMDEnquanto => 2,
        RegraAST::CMDFaca => 2,
        RegraAST::CMDAtribuicao => 3,
        RegraAST::CMDChamada => 3,
        RegraAST::CMDRetorne => 1,
        RegraAST::Selecao => 2,
        RegraAST::ItemSelecao => 2,
        RegraAST::Constantes => 2,
        RegraAST::NumeroIntervalo => 3,
        RegraAST::NumeroIntervalos => 2,
        RegraAST::NumeroIntervalo2 => 2,
        RegraAST::ExpAritmetica => 2,
        RegraAST::Termo => 2,
        RegraAST::Termos => 3,
        RegraAST::Fator => 2,
        RegraAST::Fatores => 3,
        RegraAST::Parcela => 2,
        RegraAST::Parcelas => 3,
        RegraAST::ParcelaUnario1 => 2,
        RegraAST::ParcelaUnario2 => 3,
        RegraAST::ParcelaUnario3 => 1,
        RegraAST::ParcelaNaoUnario => 1,
        RegraAST::ExpRelacional => 2,
        RegraAST::ExpRelacional2 => 2,
        RegraAST::Expressao => 2,
        RegraAST::Expressoes => 2,
        RegraAST::TermoLogico => 2,
        RegraAST::TermosLogicos => 3,
        RegraAST::FatorLogico => 2,
        RegraAST::FatoresLogicos => 3,
        _ => 0,
    }
}

/// No da arvore sintatica: a regra e os filhos, em numero fixo para cada regra.
#[derive(Debug)]
pub struct NoAST {
    pub regra: RegraAST,
    pub filhos: Vec<NoAST>,
}

/// Regras que abrem um escopo: o seu ultimo filho, e so ele, e o marcador de fecho de escopo.
pub open spec fn abre_escopo(r: RegraAST) -> bool {
    r is DeclaracaoProcedimento || r is DeclaracaoFuncao || r is Registro
}

/// Cada no tem o numero de filhos da sua regra, com `Vazio` no lugar das partes ausentes;
/// nenhum no abaixo da raiz e um erro; e o marcador de fecho de escopo e o ultimo filho dos
/// procedimentos, funcoes e registros, e so deles.
pub open spec fn bem_formado(no: NoAST) -> bool
    decreases no,
{
    &&& no.filhos@.len() == aridade(no.regra)
    &&& forall|i: int|
        0 <= i < no.filhos@.len() ==> !((#[trigger] no.filhos@[i]).regra is Erro) && bem_formado(
            no.filhos@[i],
        ) && ((no.filhos@[i].regra is FechaEscopo) == (abre_escopo(no.regra) && i == no.filhos@.len()
            - 1))
}

/// Regras que formam expressoes.
pub open spec fn regra_de_expressao(r: RegraAST) -> bool {
    ||| r is Expressao
    ||| r is Expressoes
    ||| r is TermoLogico
    ||| r is TermosLogicos
    ||| r is FatorLogico
    ||| r is FatoresLogicos
    ||| r is Nao
    ||| r is ConstanteLogica
    ||| r is OpLogico1
    ||| r is OpLogico2
    ||| r is ExpRelacional
    ||| r is ExpRelacional2
    ||| r is OpRelacional
    ||| r is ExpAritmetica
    ||| r is Termo
    ||| r is Termos
    ||| r is Op1
    ||| r is Fator
    ||| r is Fatores
    ||| r is Op2
    ||| r is Parcela
    ||| r is Parcelas
    ||| r is Op3
    ||| r is OpUnario
    ||| r is ParcelaUnario1
    ||| r is ParcelaUnario2
    ||| r is ParcelaUnario3
    ||| r is NumInt
    ||| r is NumReal
    ||| r is ParcelaNaoUnario
    ||| r is Cadeia
    ||| r is Identificador
    ||| r is Ident
    ||| r is Circunflexo
    ||| r is Vazio
}

/// Todos os nos da arvore sao de expressao; um identificador conta como folha.
pub open spec fn so_expressao(no: NoAST) -> bool
    decreases no,
{
    &&& regra_de_expressao(no.regra)
    &&& (no.regra is Identificador || forall|i: int|
        0 <= i < no.filhos@.len() ==> so_expressao(#[trigger] no.filhos@[i]))
}

/// Token guardado pelas folhas que o tem.
pub open spec fn token_spec(r: RegraAST) -> Option<Token> {
    match r {
        RegraAST::ValorConstante(t) => Some(t),
        RegraAST::Ident(t) => Some(t),
        RegraAST::TipoBasico(t) => Some(t),
        RegraAST::Op1(t) => Some(t),
        RegraAST::Op2(t) => Some(t),
        RegraAST::NumInt(t) => Some(t),
        RegraAST::NumReal(t) => Some(t),
        RegraAST::Cadeia(t) => Some(t),
        RegraAST::OpRelacional(t) => Some(t),
        _ => None,
    }
}

/// Linha de um no: a do seu token, ou a primeira linha nao nula entre os filhos a partir do
/// filho `i`, ou 0.
pub open spec fn linha_desde(no: NoAST, i: int) -> u32
    decreases no, no.filhos@.len() - i,
{
    if token_spec(no.regra) is Some {
        token_spec(no.regra)->0.linha
    } else if i < 0 || i >= no.filhos@.len() {
        0
    } else if linha_desde(no.filhos@[i], 0) > 0 {
        linha_desde(no.filhos@[i], 0)
    } else {
        linha_desde(no, i + 1)
    }
}

/// Identificadores declarados sob um no, em ordem, a partir do filho `i`; tipos e dimensoes
/// nao contam.
pub open spec fn idents_desde(no: NoAST, i: int) -> Seq<Token>
    decreases no, no.filhos@.len() - i,
{
    match no.regra {
        RegraAST::Ident(t) => seq![t],
        RegraAST::TipoExtendido | RegraAST::Registro | RegraAST::Dimensao => Seq::empty(),
        _ => if 0 <= i < no.filhos@.len() {
            idents_desde(no.filhos@[i], 0) + idents_desde(no, i + 1)
        } else {
            Seq::empty()
        },
    }
}

/// Texto de um no, como aparece no programa (separadores `.`, `, `, `[ ]` e `^` recompostos);
/// os demais nos concatenam os textos dos filhos a partir do filho `i`.
pub open spec fn texto_desde(no: NoAST, i: int) -> Seq<char>
    decreases no, no.filhos@.len() - i,
{
    if token_spec(no.regra) is Some {
        token_spec(no.regra)->0.lexema@
    } else if no.regra is Circunflexo {
        "^"@
    } else if no.regra is Identificador2 && no.filhos@.len() == 2 {
        "."@ + texto_desde(no.filhos@[0], 0) + texto_desde(no.filhos@[1], 0)
    } else if (no.regra is Identificadores || no.regra is Expressoes) && no.filhos@.len() == 2 {
        ", "@ + texto_desde(no.filhos@[0], 0) + texto_desde(no.filhos@[1], 0)
    } else if no.regra is Dimensao && no.filhos@.len() == 2 {
        "["@ + texto_desde(no.filhos@[0], 0) + "]"@ + texto_desde(no.filhos@[1], 0)
    } else if 0 <= i < no.filhos@.len() {
        texto_desde(no.filhos@[i], 0) + texto_desde(no, i + 1)
    } else {
        Seq::empty()
    }
}

/// Texto de um no.
pub open spec fn texto_de(no: NoAST) -> Seq<char> {
    texto_desde(no, 0)
}

impl NoAST {
    /// No da regra `regra` com os filhos `filhos`.
    pub fn new(regra: RegraAST, filhos: Vec<NoAST>) -> (r: Self)
        ensures
            r.regra == regra,
            r.filhos == filhos,
    {
        NoAST { regra, filhos }
    }

    /// Folha da regra `regra`.
    pub fn new_folha(regra: RegraAST) -> (r: Self)
        ensures
            r.regra == regra,
            r.filhos@.len() == 0,
    {
        NoAST { regra, filhos: Vec::new() }
    }

    /// Folha vazia: a ausencia de um filho opcional.
    pub fn vazio() -> (r: Self)
        ensures
            r.regra is Vazio,
            r.filhos@.len() == 0,
    {
        NoAST { regra: RegraAST::Vazio, filhos: Vec::new() }
    }

    /// Regra do no.
    pub fn regra(&self) -> (r: &RegraAST)
        ensures
            *r == self.regra,
    {
        &self.regra
    }

    /// Filhos do no.
    pub fn filhos(&self) -> (r: &Vec<NoAST>)
        ensures
            *r == self.filhos,
    {
        &self.filhos
    }

    /// Verifica se o no e um erro lexico ou sintatico.
    pub fn is_erro(&self) -> (r: bool)
        ensures
            r == self.regra is Erro,
    {
        matches!(self.regra, RegraAST::Erro { .. })
    }

    /// Mensagem de erro, se o no for um erro.
    pub fn get_erro(&self) -> (r: Option<String>)
        ensures
            r is Some <==> self.regra is Erro,
            r is Some ==> r->0@ == self.regra->mensagem@,
    {
        match &self.regra {
            RegraAST::Erro { mensagem } => Some(mensagem.clone()),
            _ => None,
        }
    }

    /// Token da folha, se a regra guarda um.
    pub fn token(&self) -> (r: Option<Token>)
        ensures
            r == token_spec(self.regra),
    {
        match &self.regra {
            RegraAST::ValorConstante(t) | RegraAST::Ident(t) | RegraAST::TipoBasico(t)
            | RegraAST::Op1(t) | RegraAST::Op2(t) | RegraAST::NumInt(t) | RegraAST::NumReal(t)
            | RegraAST::Cadeia(t) | RegraAST::OpRelacional(t) => Some(t.copy()),
            _ => None,
        }
    }

    /// Linha do no: a do seu token ou a primeira linha nao nula dos filhos.
    pub fn linha(&self) -> (r: u32)
        ensures
            r == linha_desde(*self, 0),
        decreases self,
    {
        match self.token() {
            Some(t) => t.linha,
            None => {
                let mut i: usize = 0;
                while i < self.filhos.len()
                    invariant
                        token_spec(self.regra) is None,
                        i <= self.filhos@.len(),
                        linha_desde(*self, 0) == linha_desde(*self, i as int),
                    decreases self.filhos@.len() - i,
                {
                    let l = self.filhos[i].linha();
                    if l > 0 {
                        return l;
                    }
                    i = i + 1;
                }
                0
            },
        }
    }

    /// Identificadores declarados sob o no, em ordem.
    pub fn idents(&self) -> (r: Vec<Token>)
        ensures
            r@ == idents_desde(*self, 0),
        decreases self,
    {
        match &self.regra {
            RegraAST::Ident(t) => {
                let mut v = Vec::new();
                v.push(t.copy());
                proof {
                    assert(v@ =~= seq![*t]);
                }
                v
            },
            RegraAST::TipoExtendido | RegraAST::Registro | RegraAST::Dimensao => Vec::new(),
            _ => {
                let mut v: Vec<Token> = Vec::new();
                let mut i: usize = self.filhos.len();
                proof {
                    assert(v@ =~= idents_desde(*self, i as int));
                }
                while i > 0
                    invariant
                        !(self.regra is Ident || self.regra is TipoExtendido
                            || self.regra is Registro || self.regra is Dimensao),
                        i <= self.filhos@.len(),
                        v@ == idents_desde(*self, i as int),
                    decreases i,
                {
                    let mut f = self.filhos[i - 1].idents();
                    f.append(&mut v);
                    v = f;
                    i = i - 1;
                }
                v
            },
        }
    }

    /// Texto do no, como aparece no programa.
    pub fn texto(&self) -> (r: String)
        ensures
            r@ == texto_de(*self),
        decreases self,
    {
        match &self.regra {
            RegraAST::ValorConstante(t) | RegraAST::Ident(t) | RegraAST::TipoBasico(t)
            | RegraAST::Op1(t) | RegraAST::Op2(t) | RegraAST::NumInt(t) | RegraAST::NumReal(t)
            | RegraAST::Cadeia(t) | RegraAST::OpRelacional(t) => return t.lexema.clone(),
            RegraAST::Circunflexo => return texto("^"),
            _ => {},
        }
        if self.filhos.len() == 2 {
            match &self.regra {
                RegraAST::Identificador2 => {
                    let mut s = texto(".");
                    anexar(&mut s, self.filhos[0].texto().as_str());
                    anexar(&mut s, self.filhos[1].texto().as_str());
                    return s;
                },
                RegraAST::Identificadores | RegraAST::Expressoes => {
                    let mut s = texto(", ");
                    anexar(&mut s, self.filhos[0].texto().as_str());
                    anexar(&mut s, self.filhos[1].texto().as_str());
                    return s;
                },
                RegraAST::Dimensao => {
                    let mut s = texto("[");
                    anexar(&mut s, self.filhos[0].texto().as_str());
                    anexar(&mut s, "]");
                    anexar(&mut s, self.filhos[1].texto().as_str());
                    return s;
                },
                _ => {},
            }
        }
        let mut s = String::new();
        let mut i: usize = self.filhos.len();
        proof {
            assert(s@ =~= texto_desde(*self, i as int));
        }
        while i > 0
            invariant
                token_spec(self.regra) is None,
                !(self.regra is Circunflexo),
                !((self.regra is Identificador2 || self.regra is Identificadores
                    || self.regra is Expressoes || self.regra is Dimensao)
                    && self.filhos@.len() == 2),
                i <= self.filhos@.len(),
                s@ == texto_desde(*self, i as int),
            decreases i,
        {
            let mut f = self.filhos[i - 1].texto();
            anexar(&mut f, s.as_str());
            s = f;
            i = i - 1;
        }
        s
    }
}

/// Os filhos de um no bem formado sao bem formados e nao sao erros.
pub proof fn lema_filhos_bem_formados(no: NoAST)
    requires
        bem_formado(no),
    ensures
        no.filhos@.len() == aridade(no.regra),
        forall|i: int| 0 <= i < no.filhos@.len() ==> bem_formado(#[trigger] no.filhos@[i])
            && !(no.filhos@[i].regra is Erro),
{

}

/// Tipo nomeado por uma palavra de tipo basico.
pub open spec fn tipo_basico_spec(t: TipoToken) -> TipoSimbolo {
    match t {
        TipoToken::PCliteral => TipoSimbolo::Cadeia,
        TipoToken::PCinteiro => TipoSimbolo::Inteiro,
        TipoToken::PCreal => TipoSimbolo::Real,
        TipoToken::PClogico => TipoSimbolo::Logico,
        _ => TipoSimbolo::Vazio,
    }
}

/// O valor de uma funcao e o seu tipo de retorno.
pub open spec fn sem_funcao(t: TipoSimbolo) -> TipoSimbolo {
    match t {
        TipoSimbolo::Funcao(_, r) => *r,
        _ => t,
    }
}

/// Operandos compativeis: mesmo tipo, ambos numericos, ou sem segundo operando.
pub open spec fn compativeis(t1: TipoSimbolo, t2: TipoSimbolo) -> bool {
    mesmo_tipo(t1, t2) || (numerico(t1) && numerico(t2)) || t2 is Vazio
}

/// Tipo de uma operacao aritmetica ou logica sobre operandos `t1` e `t2`.
pub open spec fn combina(t1: TipoSimbolo, t2: TipoSimbolo) -> TipoSimbolo {
    if compativeis(t1, t2) {
        t1
    } else {
        TipoSimbolo::Invalido
    }
}

/// Tipo de uma comparacao: logico se os operandos sao compativeis.
pub open spec fn combina_relacional(t1: TipoSimbolo, t2: TipoSimbolo) -> TipoSimbolo {
    if t2 is Vazio {
        t1
    } else if compativeis(t1, t2) {
        TipoSimbolo::Logico
    } else {
        TipoSimbolo::Invalido
    }
}

/// Tipo declarado de `nome` na pilha `p`, ou Invalido.
pub open spec fn tipo_do_nome(p: Seq<TabelaDeSimbolos>, nome: Seq<char>) -> TipoSimbolo {
    match resolve(p, nome) {
        Some(t) => t,
        None => TipoSimbolo::Invalido,
    }
}

/// Um membro de tipo `t` para cada nome em `nomes`.
pub open spec fn membros_com(nomes: Seq<Token>, t: TipoSimbolo) -> Membros
    decreases nomes.len(),
{
    if nomes.len() == 0 {
        Membros::Fim
    } else {
        Membros::Membro(nomes[0].lexema, Box::new(t), Box::new(membros_com(nomes.drop_first(), t)))
    }
}

/// Tipo de um no, avaliado sobre a pilha de escopos `p`.
pub open spec fn tipo_spec(no: NoAST, p: Seq<TabelaDeSimbolos>) -> TipoSimbolo
    decreases no, 0int,
{
    let fs = no.filhos@;
    if fs.len() != aridade(no.regra) {
        TipoSimbolo::Vazio
    } else {
        match no.regra {
            RegraAST::ConstanteLogica(_) => TipoSimbolo::Logico,
            RegraAST::Cadeia(_) => TipoSimbolo::Cadeia,
            RegraAST::NumInt(_) => TipoSimbolo::Inteiro,
            RegraAST::NumReal(_) => TipoSimbolo::Real,
            RegraAST::Registro => TipoSimbolo::Registro(Box::new(membros_spec(fs[0], p))),
            RegraAST::DeclaracaoProcedimento => TipoSimbolo::Procedimento(
                Box::new(membros_spec(fs[1], p)),
            ),
            RegraAST::DeclaracaoFuncao => TipoSimbolo::Funcao(
                Box::new(membros_spec(fs[1], p)),
                Box::new(tipo_spec(fs[2], p)),
            ),
            RegraAST::TipoBasico(t) => tipo_basico_spec(t.tipo),
            RegraAST::ParcelaNaoUnario => TipoSimbolo::Ponteiro(Box::new(tipo_spec(fs[0], p))),
            RegraAST::ParcelaUnario2 | RegraAST::ParcelaUnario3 => tipo_spec(fs[0], p),
            RegraAST::FatorLogico | RegraAST::ParcelaUnario1 | RegraAST::ExpRelacional2
            | RegraAST::Parcela => tipo_spec(fs[1], p),
            RegraAST::Variavel => tipo_spec(fs[2], p),
            RegraAST::Parametro => tipo_spec(fs[3], p),
            RegraAST::TipoExtendido => if fs[0].regra is Circunflexo {
                TipoSimbolo::Ponteiro(Box::new(tipo_spec(fs[1], p)))
            } else {
                tipo_spec(fs[1], p)
            },
            RegraAST::Expressao | RegraAST::TermoLogico | RegraAST::ExpAritmetica
            | RegraAST::Termo | RegraAST::Fator => combina(
                sem_funcao(tipo_spec(fs[0], p)),
                sem_funcao(tipo_spec(fs[1], p)),
            ),
            RegraAST::TermosLogicos | RegraAST::FatoresLogicos | RegraAST::Termos
            | RegraAST::Fatores | RegraAST::Parcelas => combina(
                sem_funcao(tipo_spec(fs[1], p)),
                sem_funcao(tipo_spec(fs[2], p)),
            ),
            RegraAST::ExpRelacional => combina_relacional(
                sem_funcao(tipo_spec(fs[0], p)),
                sem_funcao(tipo_spec(fs[1], p)),
            ),
            RegraAST::Identificador => tipo_do_nome(p, texto_de(fs[0]) + texto_de(fs[1])),
            RegraAST::Ident(t) => tipo_do_nome(p, t.lexema@),
            _ => TipoSimbolo::Vazio,
        }
    }
}

/// Membros declarados sob um no: campos de um registro ou parametros de uma rotina, em ordem.
pub open spec fn membros_spec(no: NoAST, p: Seq<TabelaDeSimbolos>) -> Membros
    decreases no, 1int,
{
    let fs = no.filhos@;
    if fs.len() != aridade(no.regra) {
        Membros::Fim
    } else {
        match no.regra {
            RegraAST::Variavel | RegraAST::Parametro => membros_com(
                idents_desde(no, 0),
                tipo_spec(no, p),
            ),
            RegraAST::Variaveis | RegraAST::Parametros | RegraAST::Parametros2 => concatena(
                membros_spec(fs[0], p),
                membros_spec(fs[1], p),
            ),
            RegraAST::Registro => membros_spec(fs[0], p),
            RegraAST::DeclaracaoProcedimento | RegraAST::DeclaracaoFuncao => membros_spec(fs[1], p),
            _ => Membros::Fim,
        }
    }
}

/// Nome e tipo de cada membro, em ordem.
pub open spec fn vista_membros(m: Membros) -> Seq<(Seq<char>, TipoSimbolo)>
    decreases m,
{
    match m {
        Membros::Fim => Seq::empty(),
        Membros::Membro(n, t, resto) => seq![(n@, *t)] + vista_membros(*resto),
    }
}

/// Argumentos de uma lista `expressoes`: o texto e o tipo de cada expressao, em ordem.
pub open spec fn lista_argumentos(no: NoAST, p: Seq<TabelaDeSimbolos>) -> Seq<(Seq<char>, TipoSimbolo)>
    decreases no,
{
    if no.regra is Expressoes && no.filhos@.len() == 2 {
        seq![(texto_de(no.filhos@[0]), tipo_spec(no.filhos@[0], p))] + lista_argumentos(
            no.filhos@[1],
            p,
        )
    } else {
        Seq::empty()
    }
}

/// Argumentos de uma chamada `IDENT '(' expressao expressoes ')'`: o texto e o tipo de cada
/// expressao, em ordem.
pub open spec fn argumentos_chamada(no: NoAST, p: Seq<TabelaDeSimbolos>) -> Seq<(Seq<char>, TipoSimbolo)> {
    seq![(texto_de(no.filhos@[1]), tipo_spec(no.filhos@[1], p))] + lista_argumentos(no.filhos@[2], p)
}

/// Um membro por expressao de uma lista `expressoes`, com o seu texto e o seu tipo.
fn lista_argumentos_exec(no: &NoAST, escopos: &Escopos) -> (r: Membros)
    requires
        bem_formado(*no),
    ensures
        vista_membros(r) == lista_argumentos(*no, escopos.pilha()),
    decreases no,
{
    proof {
        lema_filhos_bem_formados(*no);
    }
    if let RegraAST::Expressoes = no.regra {
        let resto = lista_argumentos_exec(&no.filhos[1], escopos);
        let r = Membros::Membro(no.filhos[0].texto(), Box::new(no.filhos[0].tipo(escopos)), Box::new(resto));
        proof {
            assert(vista_membros(r) =~= lista_argumentos(*no, escopos.pilha()));
        }
        r
    } else {
        Membros::Fim
    }
}

/// Um membro de tipo `t` para cada token de `nomes`.
fn membros_com_exec(nomes: &Vec<Token>, t: &TipoSimbolo) -> (r: Membros)
    ensures
        r == membros_com(nomes@, *t),
{
    let mut m = Membros::Fim;
    let mut i: usize = nomes.len();
    proof {
        assert(nomes@.subrange(i as int, nomes@.len() as int).len() == 0);
    }
    while i > 0
        invariant
            i <= nomes@.len(),
            m == membros_com(nomes@.subrange(i as int, nomes@.len() as int), *t),
        decreases i,
    {
        proof {
            let s = nomes@.subrange(i - 1, nomes@.len() as int);
            assert(s.drop_first() =~= nomes@.subrange(i as int, nomes@.len() as int));
        }
        m = Membros::Membro(nomes[i - 1].lexema.clone(), Box::new(t.copia()), Box::new(m));
        i = i - 1;
    }
    proof {
        assert(nomes@.subrange(0, nomes@.len() as int) =~= nomes@);
    }
    m
}

fn tipo_basico_exec(t: TipoToken) -> (r: TipoSimbolo)
    ensures
        r == tipo_basico_spec(t),
{
    match t {
        TipoToken::PCliteral => TipoSimbolo::Cadeia,
        TipoToken::PCinteiro => TipoSimbolo::Inteiro,
        TipoToken::PCreal => TipoSimbolo::Real,
        TipoToken::PClogico => TipoSimbolo::Logico,
        _ => TipoSimbolo::Vazio,
    }
}

/// O valor de uma funcao e o seu tipo de retorno.
pub fn retorno_se_funcao(t: TipoSimbolo) -> (r: TipoSimbolo)
    ensures
        r == sem_funcao(t),
{
    match t {
        TipoSimbolo::Funcao(_, r) => *r,
        _ => t,
    }
}

/// Tipo de uma operacao sobre operandos `t1` e `t2`.
pub fn combinar(t1: TipoSimbolo, t2: &TipoSimbolo) -> (r: TipoSimbolo)
    ensures
        r == combina(t1, *t2),
{
    if t1.igual(t2) || (t1.e_numerico() && t2.e_numerico()) || matches!(t2, TipoSimbolo::Vazio) {
        t1
    } else {
        TipoSimbolo::Invalido
    }
}

/// Tipo de uma comparacao entre operandos `t1` e `t2`.
pub fn combinar_relacional(t1: TipoSimbolo, t2: &TipoSimbolo) -> (r: TipoSimbolo)
    ensures
        r == combina_relacional(t1, *t2),
{
    if matches!(t2, TipoSimbolo::Vazio) {
        t1
    } else if t1.igual(t2) || (t1.e_numerico() && t2.e_numerico()) {
        TipoSimbolo::Logico
    } else {
        TipoSimbolo::Invalido
    }
}

impl NoAST {
    /// Tipo do no, avaliado sobre a pilha de escopos `escopos`.
    #[verifier::rlimit(30)]
    pub fn tipo(&self, escopos: &Escopos) -> (r: TipoSimbolo)
        requires
            bem_formado(*self),
        ensures
            r == tipo_spec(*self, escopos.pilha()),
        decreases self, 0int,
    {
        let fs = &self.filhos;
        proof {
            assert(fs@.len() == aridade(self.regra));
            lema_filhos_bem_formados(*self);
        }
        match &self.regra {
            RegraAST::ConstanteLogica(_) => TipoSimbolo::Logico,
            RegraAST::Cadeia(_) => TipoSimbolo::Cadeia,
            RegraAST::NumInt(_) => TipoSimbolo::Inteiro,
            RegraAST::NumReal(_) => TipoSimbolo::Real,
            RegraAST::Registro => TipoSimbolo::Registro(Box::new(fs[0].membros(escopos))),
            RegraAST::DeclaracaoProcedimento => TipoSimbolo::Procedimento(
                Box::new(fs[1].membros(escopos)),
            ),
            RegraAST::DeclaracaoFuncao => TipoSimbolo::Funcao(
                Box::new(fs[1].membros(escopos)),
                Box::new(fs[2].tipo(escopos)),
            ),
            RegraAST::TipoBasico(t) => tipo_basico_exec(t.tipo),
            RegraAST::ParcelaNaoUnario => TipoSimbolo::Ponteiro(Box::new(fs[0].tipo(escopos))),
            RegraAST::ParcelaUnario2 | RegraAST::ParcelaUnario3 => fs[0].tipo(escopos),
            RegraAST::FatorLogico | RegraAST::ParcelaUnario1 | RegraAST::ExpRelacional2
            | RegraAST::Parcela => fs[1].tipo(escopos),
            RegraAST::Variavel => fs[2].tipo(escopos),
            RegraAST::Parametro => fs[3].tipo(escopos),
            RegraAST::TipoExtendido => {
                if matches!(fs[0].regra, RegraAST::Circunflexo) {
                    TipoSimbolo::Ponteiro(Box::new(fs[1].tipo(escopos)))
                } else {
                    fs[1].tipo(escopos)
                }
            },
            RegraAST::Expressao | RegraAST::TermoLogico | RegraAST::ExpAritmetica
            | RegraAST::Termo | RegraAST::Fator => {
                let t1 = retorno_se_funcao(fs[0].tipo(escopos));
                let t2 = retorno_se_funcao(fs[1].tipo(escopos));
                combinar(t1, &t2)
            },
            RegraAST::TermosLogicos | RegraAST::FatoresLogicos | RegraAST::Termos
            | RegraAST::Fatores | RegraAST::Parcelas => {
                let t1 = retorno_se_funcao(fs[1].tipo(escopos));
                let t2 = retorno_se_funcao(fs[2].tipo(escopos));
                combinar(t1, &t2)
            },
            RegraAST::ExpRelacional => {
                let t1 = retorno_se_funcao(fs[0].tipo(escopos));
                let t2 = retorno_se_funcao(fs[1].tipo(escopos));
                combinar_relacional(t1, &t2)
            },
            RegraAST::Identificador => {
                let mut nome = fs[0].texto();
                anexar(&mut nome, fs[1].texto().as_str());
                escopos.tipo_de(nome.as_str())
            },
            RegraAST::Ident(t) => escopos.tipo_de(t.lexema.as_str()),
            _ => TipoSimbolo::Vazio,
        }
    }

    /// Membros declarados sob o no: campos de um registro ou parametros de uma rotina, em
    /// ordem, cada um com o tipo avaliado sobre `escopos`.
    pub fn membros(&self, escopos: &Escopos) -> (r: Membros)
        requires
            bem_formado(*self),
        ensures
            r == membros_spec(*self, escopos.pilha()),
        decreases self, 1int,
    {
        let fs = &self.filhos;
        proof {
            assert(fs@.len() == aridade(self.regra));
            lema_filhos_bem_formados(*self);
        }
        match &self.regra {
            RegraAST::Variavel | RegraAST::Parametro => {
                let nomes = self.idents();
                let t = self.tipo(escopos);
                membros_com_exec(&nomes, &t)
            },
            RegraAST::Variaveis | RegraAST::Parametros | RegraAST::Parametros2 => {
                let a = fs[0].membros(escopos);
                let b = fs[1].membros(escopos);
                a.concatenar(b)
            },
            RegraAST::Registro => fs[0].membros(escopos),
            RegraAST::DeclaracaoProcedimento | RegraAST::DeclaracaoFuncao => fs[1].membros(escopos),
            _ => Membros::Fim,
        }
    }

    /// Membros sob o no, em ordem, com os tipos avaliados sobre `escopos`: os campos de um
    /// registro, os parametros de uma rotina (um por nome declarado), ou os argumentos de uma
    /// chamada (um por expressao, com o seu texto).
    pub fn variaveis(&self, escopos: &Escopos) -> (r: Membros)
        requires
            bem_formado(*self),
        ensures
            !(self.regra is ParcelaUnario2 || self.regra is CMDChamada) ==> r == membros_spec(
                *self,
                escopos.pilha(),
            ),
            self.regra is ParcelaUnario2 || self.regra is CMDChamada ==> vista_membros(r)
                == argumentos_chamada(*self, escopos.pilha()),
    {
        proof {
            lema_filhos_bem_formados(*self);
        }
        match &self.regra {
            RegraAST::ParcelaUnario2 | RegraAST::CMDChamada => {
                let fs = &self.filhos;
                let resto = lista_argumentos_exec(&fs[2], escopos);
                let r = Membros::Membro(fs[1].texto(), Box::new(fs[1].tipo(escopos)), Box::new(resto));
                proof {
                    assert(vista_membros(r) =~= argumentos_chamada(*self, escopos.pilha()));
                }
                r
            },
            _ => self.membros(escopos),
        }
    }
}

} // verus!
