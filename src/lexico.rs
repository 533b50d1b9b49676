pub mod scanner;
pub mod token;

use vstd::prelude::*;
use crate::lexico::scanner::{char_em, trecho, Scanner};
use crate::lexico::token::{TipoToken, Token};
use crate::texto::{anexar, mensagem_linha, prefixo_linha, push_char, texto};

verus! {

/// O caractere tem a propriedade Unicode Alphabetic.
pub uninterp spec fn alfabetico(c: char) -> bool;

/// O caractere e alfabetico ou numerico no sentido do Unicode.
pub uninterp spec fn alfanumerico(c: char) -> bool;

/// O caractere tem a propriedade Unicode White_Space: tabulacoes e quebras de linha
/// (U+0009 a U+000D), espaco, U+0085, espaco sem quebra, U+1680, os espacos U+2000 a U+200A,
/// separadores de linha e paragrafo, U+202F, U+205F e U+3000.
pub open spec fn espaco_branco(c: char) -> bool {
    let u = c as u32;
    (0x9 <= u <= 0xd) || u == 0x20 || u == 0x85 || u == 0xa0 || u == 0x1680 || (0x2000 <= u
        <= 0x200a) || u == 0x2028 || u == 0x2029 || u == 0x202f || u == 0x205f || u == 0x3000
}

/// Caractere alfabetico: entre os ASCII, as letras; os demais pela propriedade Unicode.
pub open spec fn e_letra(c: char) -> bool {
    if (c as u32) < 0x80 {
        letra_ascii(c)
    } else {
        alfabetico(c)
    }
}

/// Caractere alfanumerico: entre os ASCII, as letras e os algarismos; os demais pelo Unicode.
pub open spec fn e_letra_ou_digito(c: char) -> bool {
    if (c as u32) < 0x80 {
        letra_ascii(c) || ('0' <= c <= '9')
    } else {
        alfanumerico(c)
    }
}

/// Letra ASCII.
pub open spec fn letra_ascii(c: char) -> bool {
    ('a' <= c <= 'z') || ('A' <= c <= 'Z')
}

/// Apoia-se em char::is_alphabetic: a resposta depende apenas do caractere; entre os
/// caracteres ASCII, so as letras tem a propriedade Alphabetic.
#[verifier::external_body]
fn e_alfabetico(c: char) -> (r: bool)
    ensures
        r == alfabetico(c),
        (c as u32) < 0x80 ==> (r == letra_ascii(c)),
{
    c.is_alphabetic()
}

/// Apoia-se em char::is_alphanumeric, que vale is_alphabetic ou is_numeric: a resposta depende
/// apenas do caractere; todo alfabetico e alfanumerico, e entre os caracteres ASCII so as letras
/// e os algarismos o sao.
#[verifier::external_body]
fn e_alfanumerico(c: char) -> (r: bool)
    ensures
        r == alfanumerico(c),
        alfabetico(c) ==> r,
        (c as u32) < 0x80 ==> (r == (letra_ascii(c) || ('0' <= c <= '9'))),
{
    c.is_alphanumeric()
}

/// Verifica se `c` e um espaco em branco.
fn e_espaco(c: char) -> (r: bool)
    ensures
        r == espaco_branco(c),
{
    let u = c as u32;
    (0x9 <= u && u <= 0xd) || u == 0x20 || u == 0x85 || u == 0xa0 || u == 0x1680 || (0x2000 <= u
        && u <= 0x200a) || u == 0x2028 || u == 0x2029 || u == 0x202f || u == 0x205f || u == 0x3000
}

/// Algarismo decimal ASCII.
pub open spec fn digito(c: char) -> bool {
    '0' <= c <= '9'
}

fn e_digito(c: char) -> (r: bool)
    ensures
        r == digito(c),
{
    '0' <= c && c <= '9'
}

/// Classe do operador aritmetico `c`, se for um.
pub open spec fn op_arit_spec(c: char) -> Option<TipoToken> {
    if c == '*' {
        Some(TipoToken::OpAritMult)
    } else if c == '/' {
        Some(TipoToken::OpAritDiv)
    } else if c == '+' {
        Some(TipoToken::OpAritSoma)
    } else if c == '-' {
        Some(TipoToken::OpAritSub)
    } else {
        None
    }
}

/// Classe da palavra reservada `s`, se for uma.
pub open spec fn palavra_chave(s: Seq<char>) -> Option<TipoToken> {
    if s == "algoritmo"@ { Some(TipoToken::PCalgoritmo) }
    else if s == "declare"@ { Some(TipoToken::PCdeclare) }
    else if s == "literal"@ { Some(TipoToken::PCliteral) }
    else if s == "inteiro"@ { Some(TipoToken::PCinteiro) }
    else if s == "leia"@ { Some(TipoToken::PCleia) }
    else if s == "escreva"@ { Some(TipoToken::PCescreva) }
    else if s == "fim_algoritmo"@ { Some(TipoToken::PCfimAlgoritmo) }
    else if s == "real"@ { Some(TipoToken::PCreal) }
    else if s == "logico"@ { Some(TipoToken::PClogico) }
    else if s == "fim_se"@ { Some(TipoToken::PCfimSe) }
    else if s == "senao"@ { Some(TipoToken::PCsenao) }
    else if s == "entao"@ { Some(TipoToken::PCentao) }
    else if s == "se"@ { Some(TipoToken::PCse) }
    else if s == "fim_caso"@ { Some(TipoToken::PCfimCaso) }
    else if s == "para"@ { Some(TipoToken::PCpara) }
    else if s == "ate"@ { Some(TipoToken::PCate) }
    else if s == "faca"@ { Some(TipoToken::PCfaca) }
    else if s == "fim_para"@ { Some(TipoToken::PCfimPara) }
    else if s == "fim_enquanto"@ { Some(TipoToken::PCfimEnquanto) }
    else if s == "seja"@ { Some(TipoToken::PCseja) }
    else if s == "caso"@ { Some(TipoToken::PCcaso) }
    else if s == "enquanto"@ { Some(TipoToken::PCenquanto) }
    else if s == "registro"@ { Some(TipoToken::PCregistro) }
    else if s == "fim_registro"@ { Some(TipoToken::PCfimRegistro) }
    else if s == "tipo"@ { Some(TipoToken::PCtipo) }
    else if s == "fim_procedimento"@ { Some(TipoToken::PCfimProcedimento) }
    else if s == "procedimento"@ { Some(TipoToken::PCprocedimento) }
    else if s == "var"@ { Some(TipoToken::PCvar) }
    else if s == "funcao"@ { Some(TipoToken::PCfuncao) }
    else if s == "fim_funcao"@ { Some(TipoToken::PCfimFuncao) }
    else if s == "retorne"@ { Some(TipoToken::PCretorne) }
    else if s == "constante"@ { Some(TipoToken::PCconstante) }
    else if s == "falso"@ { Some(TipoToken::PCfalso) }
    else if s == "verdadeiro"@ { Some(TipoToken::PCverdadeiro) }
    else if s == "nao"@ { Some(TipoToken::PCnao) }
    else if s == "ou"@ { Some(TipoToken::PCou) }
    else if s == "e"@ { Some(TipoToken::PCe) }
    else { None }
}

/// Fim da sequencia de letras, algarismos e `_` que comeca em `i`.
pub open spec fn fim_identificador(f: Seq<char>, i: int) -> int
    decreases f.len() - i,
{
    if i < 0 || i >= f.len() {
        i
    } else if f[i] != '\0' && (f[i] == '_' || e_letra_ou_digito(f[i])) {
        fim_identificador(f, i + 1)
    } else {
        i
    }
}

/// Fim da sequencia de letras e `_` que comeca em `i`.
pub open spec fn fim_palavra(f: Seq<char>, i: int) -> int
    decreases f.len() - i,
{
    if i < 0 || i >= f.len() {
        i
    } else if f[i] != '\0' && (f[i] == '_' || e_letra(f[i])) {
        fim_palavra(f, i + 1)
    } else {
        i
    }
}

/// Fim da sequencia de algarismos que comeca em `i`.
pub open spec fn fim_digitos(f: Seq<char>, i: int) -> int
    decreases f.len() - i,
{
    if i < 0 || i >= f.len() {
        i
    } else if digito(f[i]) {
        fim_digitos(f, i + 1)
    } else {
        i
    }
}

/// A sequencia de algarismos termina entre o seu inicio e o fim do texto.
pub proof fn lema_fim_digitos(f: Seq<char>, i: int)
    requires
        0 <= i <= f.len(),
    ensures
        i <= fim_digitos(f, i) <= f.len(),
    decreases f.len() - i,
{
    if i < f.len() && digito(f[i]) {
        lema_fim_digitos(f, i + 1);
    }
}

/// Identificador que comeca em `m`: classe e posicao final.
pub open spec fn identificador_spec(f: Seq<char>, m: int) -> Option<(TipoToken, int)> {
    let c = char_em(f, m);
    if c != '\0' && e_letra(c) {
        Some((TipoToken::Ident, fim_identificador(f, m + 1)))
    } else {
        None
    }
}

/// Palavra reservada que comeca em `m`: a maior sequencia de letras e `_`, se for reservada.
pub open spec fn palavra_reservada_spec(f: Seq<char>, m: int) -> Option<(TipoToken, int)> {
    let e = fim_palavra(f, m);
    if e > m && palavra_chave(trecho(f, m, e)) is Some {
        Some((palavra_chave(trecho(f, m, e))->0, e))
    } else {
        None
    }
}

/// Numero que comeca em `m`: algarismos, e uma parte fracionaria se o ponto for seguido de
/// algarismo; um ponto seguido de outro ponto encerra um inteiro.
pub open spec fn numero_spec(f: Seq<char>, m: int) -> Option<(TipoToken, int)> {
    if !digito(char_em(f, m)) {
        None
    } else {
        let e = fim_digitos(f, m + 1);
        if char_em(f, e) == '.' {
            if digito(char_em(f, e + 1)) {
                Some((TipoToken::NumReal, fim_digitos(f, e + 2)))
            } else if char_em(f, e + 1) == '.' {
                Some((TipoToken::NumInt, e))
            } else {
                None
            }
        } else {
            Some((TipoToken::NumInt, e))
        }
    }
}

/// Operador aritmetico em `m`.
pub open spec fn op_aritmetico_spec(f: Seq<char>, m: int) -> Option<(TipoToken, int)> {
    match op_arit_spec(char_em(f, m)) {
        Some(t) => Some((t, m + 1)),
        None => None,
    }
}

/// Operador relacional em `m`; `<-` nao e operador relacional.
pub open spec fn op_relacional_spec(f: Seq<char>, m: int) -> Option<(TipoToken, int)> {
    let c = char_em(f, m);
    let c2 = char_em(f, m + 1);
    if c == '<' {
        if c2 == '>' {
            Some((TipoToken::OpRelDif, m + 2))
        } else if c2 == '=' {
            Some((TipoToken::OpRelMenorIgual, m + 2))
        } else if c2 == '-' {
            None
        } else {
            Some((TipoToken::OpRelMenor, m + 1))
        }
    } else if c == '=' {
        Some((TipoToken::OpRelIgual, m + 1))
    } else if c == '>' {
        if c2 == '=' {
            Some((TipoToken::OpRelMaiorIgual, m + 2))
        } else {
            Some((TipoToken::OpRelMaior, m + 1))
        }
    } else {
        None
    }
}

/// Caractere especial em `m`, `.`, `..` ou a seta `<-`.
pub open spec fn especial_spec(f: Seq<char>, m: int) -> Option<(TipoToken, int)> {
    let c = char_em(f, m);
    let c2 = char_em(f, m + 1);
    if c == '(' {
        Some((TipoToken::AbrePar, m + 1))
    } else if c == ')' {
        Some((TipoToken::FechaPar, m + 1))
    } else if c == '[' {
        Some((TipoToken::AbreCol, m + 1))
    } else if c == ']' {
        Some((TipoToken::FechaCol, m + 1))
    } else if c == ',' {
        Some((TipoToken::Virgula, m + 1))
    } else if c == '%' {
        Some((TipoToken::Porcento, m + 1))
    } else if c == ':' {
        Some((TipoToken::Delim, m + 1))
    } else if c == '^' {
        Some((TipoToken::Circunflexo, m + 1))
    } else if c == '&' {
        Some((TipoToken::EComercial, m + 1))
    } else if c == '.' {
        if c2 == '.' {
            Some((TipoToken::PontoPonto, m + 2))
        } else {
            Some((TipoToken::Ponto, m + 1))
        }
    } else if c == '<' && c2 == '-' {
        Some((TipoToken::BackArrow, m + 2))
    } else {
        None
    }
}

/// Linha seguinte, sem passar do maior valor representavel.
pub open spec fn proxima(linha: u32) -> u32 {
    if linha < u32::MAX {
        (linha + 1) as u32
    } else {
        linha
    }
}

/// Resto de uma cadeia literal a partir de `i`, com `escape` se o caractere anterior foi `\`:
/// Cadeia e a posicao apos a aspa de fechamento, ou Erro se a linha ou o texto acabam antes
/// (um fim de linha e consumido, o fim do texto nao).
pub open spec fn fim_cadeia(f: Seq<char>, i: int, escape: bool) -> (TipoToken, int)
    decreases f.len() - i,
{
    if i < 0 || i >= f.len() || f[i] == '\0' {
        (TipoToken::Erro, i)
    } else if f[i] == '\n' {
        (TipoToken::Erro, i + 1)
    } else if escape {
        fim_cadeia(f, i + 1, false)
    } else if f[i] == '"' {
        (TipoToken::Cadeia, i + 1)
    } else if f[i] == '\\' {
        fim_cadeia(f, i + 1, true)
    } else {
        fim_cadeia(f, i + 1, false)
    }
}

/// Cadeia literal que comeca em `m`.
pub open spec fn cadeia_spec(f: Seq<char>, m: int) -> Option<(TipoToken, int)> {
    if char_em(f, m) == '"' {
        Some(fim_cadeia(f, m + 1, false))
    } else {
        None
    }
}

/// Espacos e comentarios a partir de `i`, dentro de um comentario se `comentario`: se houve
/// comentario nao fechado, a posicao final e a linha atual.
pub open spec fn espacos(f: Seq<char>, i: int, comentario: bool, linha: u32) -> (bool, int, u32)
    decreases f.len() - i,
{
    if i < 0 || i >= f.len() || f[i] == '\0' {
        (comentario, i, linha)
    } else if comentario {
        if f[i] == '\n' {
            (true, i + 1, linha)
        } else if f[i] == '}' {
            espacos(f, i + 1, false, linha)
        } else {
            espacos(f, i + 1, true, linha)
        }
    } else if f[i] == '{' {
        espacos(f, i + 1, true, linha)
    } else if !(f[i] == ' ' || espaco_branco(f[i])) {
        (false, i, linha)
    } else {
        espacos(f, i + 1, false, if f[i] == '\n' { proxima(linha) } else { linha })
    }
}

/// Token lido a partir da posicao `m` na linha `linha`: classe, lexema e linha do token,
/// posicao seguinte e linha seguinte. Depois de espacos e comentarios, os reconhecedores
/// sao tentados nesta ordem: fim, palavra reservada, identificador, numero, operador
/// aritmetico, operador relacional, caractere especial, cadeia; senao, o caractere e um erro.
pub open spec fn proximo_token(f: Seq<char>, m: int, linha: u32) -> ((TipoToken, Seq<char>, u32), int, u32) {
    let (erro, p, l) = espacos(f, m, false, linha);
    if erro {
        ((TipoToken::Erro, prefixo_linha(l) + "comentario nao fechado\n"@, l), p, l)
    } else if char_em(f, p) == '\0' {
        ((TipoToken::Fim, "EOF"@, l), p, l)
    } else if palavra_reservada_spec(f, p) is Some {
        let (t, e) = palavra_reservada_spec(f, p)->0;
        ((t, trecho(f, p, e), l), e, l)
    } else if identificador_spec(f, p) is Some {
        let (t, e) = identificador_spec(f, p)->0;
        ((t, trecho(f, p, e), l), e, l)
    } else if numero_spec(f, p) is Some {
        let (t, e) = numero_spec(f, p)->0;
        ((t, trecho(f, p, e), l), e, l)
    } else if op_aritmetico_spec(f, p) is Some {
        let (t, e) = op_aritmetico_spec(f, p)->0;
        ((t, trecho(f, p, e), l), e, l)
    } else if op_relacional_spec(f, p) is Some {
        let (t, e) = op_relacional_spec(f, p)->0;
        ((t, trecho(f, p, e), l), e, l)
    } else if especial_spec(f, p) is Some {
        let (t, e) = especial_spec(f, p)->0;
        ((t, trecho(f, p, e), l), e, l)
    } else if cadeia_spec(f, p) is Some {
        let (t, e) = cadeia_spec(f, p)->0;
        if t == TipoToken::Cadeia {
            ((t, trecho(f, p, e), l), e, l)
        } else {
            ((t, prefixo_linha(l) + "cadeia literal nao fechada\n"@, l), e, l)
        }
    } else {
        (
            (TipoToken::Erro, prefixo_linha(l) + seq![char_em(f, p)] + " - simbolo nao identificado\n"@, l),
            p + 1,
            l,
        )
    }
}

/// Analisador lexico: agrupa os caracteres do texto em tokens, contando as linhas.
pub struct Lexico {
    scanner: Scanner,
    line: u32,
}

impl Lexico {
    /// Texto analisado.
    pub closed spec fn fonte(&self) -> Seq<char> {
        self.scanner.fonte()
    }

    /// Posicao a partir da qual o proximo token sera lido.
    pub closed spec fn posicao(&self) -> int {
        self.scanner.marca()
    }

    /// Linha atual.
    pub closed spec fn linha_atual(&self) -> u32 {
        self.line
    }

    /// Entre dois tokens, a posicao de leitura esta na marca, dentro do texto.
    pub closed spec fn wf(&self) -> bool {
        &&& self.scanner.wf()
        &&& self.scanner.posicao() == self.scanner.marca()
        &&& self.scanner.marca() <= self.scanner.fonte().len()
    }

    /// Estado de um reconhecedor apos tentar ler um token a partir da marca.
    closed spec fn reconheceu(&self, antes: &Self, r: Option<Token>) -> bool {
        &&& self.scanner.wf()
        &&& self.scanner.fonte() == antes.scanner.fonte()
        &&& self.scanner.marca() == antes.scanner.marca()
        &&& self.scanner.marca() <= self.scanner.posicao() <= self.scanner.fonte().len() + 1
        &&& (r is Some ==> self.scanner.marca() < self.scanner.posicao()
            <= self.scanner.fonte().len())
    }

    /// Resultado de um reconhecedor conforme a sua especificacao `e`: token da classe dada,
    /// com o lexema lido desde a marca ate a posicao final dada.
    closed spec fn conforme(&self, antes: &Self, r: Option<Token>, e: Option<(TipoToken, int)>) -> bool {
        &&& (r is Some <==> e is Some)
        &&& (r is Some ==> {
            let (tipo, fim) = e->0;
            &&& r->0.tipo == tipo
            &&& self.scanner.posicao() == fim
            &&& r->0.lexema@ == self.scanner.lexema_atual()
            &&& r->0.linha == antes.line
        })
    }

    /// Cria um analisador lexico sobre o texto `fonte`, na linha 1.
    pub fn new(fonte: &str) -> (r: Self)
        requires
            fonte@.len() + 2 < usize::MAX,
        ensures
            r.wf(),
            r.fonte() == fonte@,
            r.posicao() == 0,
            r.posicao() <= r.fonte().len(),
            r.linha_atual() == 1,
    {
        Lexico { scanner: Scanner::new(fonte), line: 1 }
    }

    /// Linha atual.
    pub fn line(&self) -> (r: u32)
        ensures
            r == self.linha_atual(),
    {
        self.line
    }

    fn proxima_linha(&mut self)
        ensures
            final(self).scanner == old(self).scanner,
            final(self).line == proxima(old(self).line),
    {
        if self.line < u32::MAX {
            self.line = self.line + 1;
        }
    }

    fn token_lido(&self, tipo: TipoToken) -> (r: Token)
        requires
            self.scanner.wf(),
        ensures
            r.tipo == tipo,
            r.lexema@ == self.scanner.lexema_atual(),
            r.linha == self.line,
    {
        Token::new(tipo, self.scanner.get_lexeme(), self.line)
    }

    fn erro(&self, texto_erro: &str) -> (r: Token)
        ensures
            r.tipo == TipoToken::Erro,
            r.lexema@ == prefixo_linha(self.line) + texto_erro@,
            r.linha == self.line,
    {
        let mut m = mensagem_linha(self.line);
        anexar(&mut m, texto_erro);
        Token::new(TipoToken::Erro, m, self.line)
    }

    /// Proximo token do texto; um token de classe Erro com a mensagem pronta quando o texto
    /// nao forma token valido, e Fim no fim do texto. Todo token que nao e Fim consome texto.
    #[verifier::rlimit(30)]
    pub fn next_token(&mut self) -> (r: Token)
        requires
            old(self).wf(),
        ensures
            final(self).wf(),
            final(self).fonte() == old(self).fonte(),
            old(self).posicao() <= final(self).posicao(),
            final(self).posicao() <= final(self).fonte().len(),
            r.tipo != TipoToken::Fim ==> old(self).posicao() < final(self).posicao(),
            ({
                let ((tipo, lexema, linha), fim, linha_seguinte) = proximo_token(
                    old(self).fonte(),
                    old(self).posicao(),
                    old(self).linha_atual(),
                );
                &&& r.tipo == tipo
                &&& r.lexema@ == lexema
                &&& r.linha == linha
                &&& final(self).posicao() == fim
                &&& final(self).linha_atual() == linha_seguinte
            }),
    {
        let ws = self.whitespace_and_comments();
        self.scanner.confirm();
        if let Some(t) = ws {
            return t;
        }
        let ghost inicio = self.scanner.marca();
        let fim = self.end();
        match fim {
            Some(t) => {
                self.scanner.confirm();
                return t;
            },
            None => self.scanner.reset(),
        }
        let r = self.keywords();
        match r {
            Some(t) => {
                self.scanner.confirm();
                return t;
            },
            None => self.scanner.reset(),
        }
        let r = self.identifier();
        match r {
            Some(t) => {
                self.scanner.confirm();
                return t;
            },
            None => self.scanner.reset(),
        }
        let r = self.number();
        match r {
            Some(t) => {
                self.scanner.confirm();
                return t;
            },
            None => self.scanner.reset(),
        }
        let r = self.op_arit();
        match r {
            Some(t) => {
                self.scanner.confirm();
                return t;
            },
            None => self.scanner.reset(),
        }
        let r = self.op_rel();
        match r {
            Some(t) => {
                self.scanner.confirm();
                return t;
            },
            None => self.scanner.reset(),
        }
        let r = self.special_char();
        match r {
            Some(t) => {
                self.scanner.confirm();
                return t;
            },
            None => self.scanner.reset(),
        }
        let r = self.str_literal();
        match r {
            Some(t) => {
                self.scanner.confirm();
                return t;
            },
            None => self.scanner.reset(),
        }
        let c = self.scanner.next_char();
        self.scanner.confirm();
        let mut m = mensagem_linha(self.line);
        push_char(&mut m, c);
        anexar(&mut m, " - simbolo nao identificado\n");
        Token::new(TipoToken::Erro, m, self.line)
    }

    /// Fim do texto: o primeiro NUL, que nao e consumido.
    fn end(&mut self) -> (r: Option<Token>)
        requires
            old(self).wf(),
        ensures
            final(self).scanner.wf(),
            final(self).scanner.fonte() == old(self).scanner.fonte(),
            final(self).scanner.marca() == old(self).scanner.marca(),
            final(self).line == old(self).line,
            r is Some <==> char_em(old(self).scanner.fonte(), old(self).scanner.marca()) == '\0',
            r is Some ==> final(self).scanner.posicao() == final(self).scanner.marca()
                && r->0.tipo == TipoToken::Fim && r->0.lexema@ == "EOF"@ && r->0.linha
                == old(self).line,
            r is None ==> final(self).scanner.posicao() == final(self).scanner.marca() + 1,
    {
        let c = self.scanner.next_char();
        if c == '\0' {
            self.scanner.decrement();
            return Some(Token::new(TipoToken::Fim, texto("EOF"), self.line));
        }
        None
    }

    /// Operadores aritmeticos `*`, `/`, `+`, `-`.
    fn op_arit(&mut self) -> (r: Option<Token>)
        requires
            old(self).wf(),
        ensures
            final(self).reconheceu(old(self), r),
            final(self).line == old(self).line,
            final(self).conforme(old(self), r, op_aritmetico_spec(old(self).fonte(), old(self).posicao())),
    {
        let c = self.scanner.next_char();
        let tipo = if c == '*' {
            TipoToken::OpAritMult
        } else if c == '/' {
            TipoToken::OpAritDiv
        } else if c == '+' {
            TipoToken::OpAritSoma
        } else if c == '-' {
            TipoToken::OpAritSub
        } else {
            return None;
        };
        let t = self.token_lido(tipo);
        proof {
            assert(self.scanner.lexema_atual() =~= seq![c]);
        }
        Some(t)
    }

    /// Operadores relacionais `<`, `<=`, `<>`, `=`, `>`, `>=`; `<-` fica para os caracteres
    /// especiais.
    fn op_rel(&mut self) -> (r: Option<Token>)
        requires
            old(self).wf(),
        ensures
            final(self).reconheceu(old(self), r),
            final(self).line == old(self).line,
            final(self).conforme(old(self), r, op_relacional_spec(old(self).fonte(), old(self).posicao())),
    {
        let c = self.scanner.next_char();
        if c == '<' {
            let c2 = self.scanner.next_char();
            if c2 == '>' {
                Some(self.token_lido(TipoToken::OpRelDif))
            } else if c2 == '=' {
                Some(self.token_lido(TipoToken::OpRelMenorIgual))
            } else if c2 == '-' {
                self.scanner.decrement();
                self.scanner.decrement();
                None
            } else {
                self.scanner.decrement();
                Some(self.token_lido(TipoToken::OpRelMenor))
            }
        } else if c == '=' {
            Some(self.token_lido(TipoToken::OpRelIgual))
        } else if c == '>' {
            let c2 = self.scanner.next_char();
            if c2 == '=' {
                Some(self.token_lido(TipoToken::OpRelMaiorIgual))
            } else {
                self.scanner.decrement();
                Some(self.token_lido(TipoToken::OpRelMaior))
            }
        } else {
            None
        }
    }

    /// Numeros inteiros e reais; `..` depois dos algarismos nao e parte do numero.
    fn number(&mut self) -> (r: Option<Token>)
        requires
            old(self).wf(),
        ensures
            final(self).reconheceu(old(self), r),
            final(self).line == old(self).line,
            final(self).conforme(old(self), r, numero_spec(old(self).fonte(), old(self).posicao())),
    {
        let ghost f = self.scanner.fonte();
        let ghost m = self.scanner.marca();
        let c = self.scanner.next_char();
        if !e_digito(c) {
            return None;
        }
        self.digitos();
        proof {
            lema_fim_digitos(f, m + 1);
        }
        let c = self.scanner.next_char();
        if c == '.' {
            let c2 = self.scanner.next_char();
            if e_digito(c2) {
                let ghost p = self.scanner.posicao();
                self.digitos();
                proof {
                    lema_fim_digitos(f, p);
                }
                Some(self.token_lido(TipoToken::NumReal))
            } else if c2 == '.' {
                self.scanner.decrement();
                self.scanner.decrement();
                Some(self.token_lido(TipoToken::NumInt))
            } else {
                None
            }
        } else {
            self.scanner.decrement();
            Some(self.token_lido(TipoToken::NumInt))
        }
    }

    /// Consome algarismos ate o primeiro caractere que nao e algarismo, exclusive.
    fn digitos(&mut self)
        requires
            old(self).scanner.wf(),
            old(self).scanner.marca() < old(self).scanner.posicao() <= old(self).scanner.fonte().len(),
        ensures
            final(self).scanner.wf(),
            final(self).scanner.fonte() == old(self).scanner.fonte(),
            final(self).scanner.marca() == old(self).scanner.marca(),
            final(self).line == old(self).line,
            final(self).scanner.posicao() == fim_digitos(old(self).scanner.fonte(), old(self).scanner.posicao()),
            final(self).scanner.posicao() <= final(self).scanner.fonte().len(),
    {
        let ghost f = self.scanner.fonte();
        let ghost ponto_inicial = self.scanner.posicao();
        loop
            invariant
                self.scanner.wf(),
                f == old(self).scanner.fonte(),
                ponto_inicial == old(self).scanner.posicao(),
                self.scanner.fonte() == f,
                self.scanner.marca() == old(self).scanner.marca(),
                self.scanner.marca() < self.scanner.posicao() <= f.len(),
                self.line == old(self).line,
                fim_digitos(f, ponto_inicial) == fim_digitos(f, self.scanner.posicao()),
            decreases f.len() + 1 - self.scanner.posicao(),
        {
            let c = self.scanner.next_char();
            if !e_digito(c) {
                self.scanner.decrement();
                return;
            }
        }
    }

    /// Identificadores: uma letra seguida de letras, algarismos ou `_`.
    fn identifier(&mut self) -> (r: Option<Token>)
        requires
            old(self).wf(),
        ensures
            final(self).reconheceu(old(self), r),
            final(self).line == old(self).line,
            final(self).conforme(old(self), r, identificador_spec(old(self).fonte(), old(self).posicao())),
    {
        let ghost f = self.scanner.fonte();
        let ghost m = self.scanner.marca();
        let c = self.scanner.next_char();
        if c == '\0' || !e_alfabetico(c) {
            return None;
        }
        loop
            invariant
                self.scanner.wf(),
                f == old(self).scanner.fonte(),
                m == old(self).scanner.marca(),
                self.scanner.fonte() == f,
                self.scanner.marca() == m,
                m < self.scanner.posicao() <= f.len(),
                self.line == old(self).line,
                fim_identificador(f, m + 1) == fim_identificador(f, self.scanner.posicao()),
                identificador_spec(f, m) is Some,
            decreases f.len() + 1 - self.scanner.posicao(),
        {
            let ghost p = self.scanner.posicao();
            let c = self.scanner.next_char();
            if c == '\0' || !(c == '_' || e_alfanumerico(c)) {
                self.scanner.decrement();
                proof {
                    assert(fim_identificador(f, p) == p);
                }
                return Some(self.token_lido(TipoToken::Ident));
            }
        }
    }

    /// Cadeias literais entre aspas; `\` escapa o caractere seguinte. Uma cadeia que nao
    /// fecha antes do fim da linha e um erro.
    fn str_literal(&mut self) -> (r: Option<Token>)
        requires
            old(self).wf(),
        ensures
            final(self).reconheceu(old(self), r),
            final(self).line == old(self).line,
            r is Some <==> cadeia_spec(old(self).fonte(), old(self).posicao()) is Some,
            r is Some ==> ({
                let (tipo, fim) = cadeia_spec(old(self).fonte(), old(self).posicao())->0;
                &&& r->0.tipo == tipo
                &&& final(self).scanner.posicao() == fim
                &&& r->0.linha == old(self).line
                &&& tipo == TipoToken::Cadeia ==> r->0.lexema@ == final(self).scanner.lexema_atual()
                &&& tipo != TipoToken::Cadeia ==> r->0.lexema@ == prefixo_linha(old(self).line)
                    + "cadeia literal nao fechada\n"@
            }),
    {
        let ghost f = self.scanner.fonte();
        let ghost m = self.scanner.marca();
        let c = self.scanner.next_char();
        if c != '"' {
            return None;
        }
        let mut escape = false;
        loop
            invariant
                f == old(self).scanner.fonte(),
                m == old(self).scanner.marca(),
                self.scanner.wf(),
                self.scanner.fonte() == f,
                self.scanner.marca() == m,
                m < self.scanner.posicao() <= f.len(),
                self.line == old(self).line,
                char_em(f, m) == '"',
                fim_cadeia(f, m + 1, false) == fim_cadeia(f, self.scanner.posicao(), escape),
            decreases f.len() + 1 - self.scanner.posicao(),
        {
            let c = self.scanner.next_char();
            if c == '\0' {
                self.scanner.decrement();
                return Some(self.erro("cadeia literal nao fechada\n"));
            }
            if c == '\n' {
                return Some(self.erro("cadeia literal nao fechada\n"));
            }
            if escape {
                escape = false;
            } else if c == '"' {
                return Some(self.token_lido(TipoToken::Cadeia));
            } else if c == '\\' {
                escape = true;
            }
        }
    }

    /// Consome espacos e comentarios `{...}`, contando as linhas; um comentario que nao fecha
    /// antes do fim da linha e um erro.
    fn whitespace_and_comments(&mut self) -> (r: Option<Token>)
        requires
            old(self).wf(),
        ensures
            final(self).scanner.wf(),
            final(self).scanner.fonte() == old(self).scanner.fonte(),
            final(self).scanner.marca() == old(self).scanner.marca(),
            final(self).scanner.marca() <= final(self).scanner.posicao()
                <= final(self).scanner.fonte().len(),
            r is Some ==> final(self).scanner.marca() < final(self).scanner.posicao(),
            ({
                let (erro, fim, linha) = espacos(old(self).fonte(), old(self).posicao(), false, old(self).line);
                &&& (r is Some <==> erro)
                &&& final(self).scanner.posicao() == fim
                &&& final(self).line == linha
                &&& r is Some ==> r->0.tipo == TipoToken::Erro && r->0.linha == linha && r->0.lexema@
                    == prefixo_linha(linha) + "comentario nao fechado\n"@
            }),
    {
        let ghost f = self.scanner.fonte();
        let ghost m = self.scanner.marca();
        let mut comentario = false;
        loop
            invariant
                f == old(self).scanner.fonte(),
                m == old(self).scanner.marca(),
                self.scanner.wf(),
                self.scanner.fonte() == f,
                self.scanner.marca() == m,
                m <= self.scanner.posicao() <= f.len(),
                comentario ==> m < self.scanner.posicao(),
                espacos(f, m, false, old(self).line) == espacos(
                    f,
                    self.scanner.posicao(),
                    comentario,
                    self.line,
                ),
            decreases f.len() + 1 - self.scanner.posicao(),
        {
            let c = self.scanner.next_char();
            if comentario {
                if c == '\0' {
                    self.scanner.decrement();
                    return Some(self.erro("comentario nao fechado\n"));
                } else if c == '\n' {
                    return Some(self.erro("comentario nao fechado\n"));
                } else if c == '}' {
                    comentario = false;
                }
            } else if c == '{' {
                comentario = true;
            } else if c == '\0' || !(c == ' ' || e_espaco(c)) {
                self.scanner.decrement();
                return None;
            }
            if c == '\n' {
                self.proxima_linha();
            }
        }
    }

    /// Caracteres especiais, `.` e `..`, e a seta de atribuicao `<-`.
    fn special_char(&mut self) -> (r: Option<Token>)
        requires
            old(self).wf(),
        ensures
            final(self).reconheceu(old(self), r),
            final(self).line == old(self).line,
            final(self).conforme(old(self), r, especial_spec(old(self).fonte(), old(self).posicao())),
    {
        let c = self.scanner.next_char();
        let tipo = if c == '(' {
            TipoToken::AbrePar
        } else if c == ')' {
            TipoToken::FechaPar
        } else if c == '[' {
            TipoToken::AbreCol
        } else if c == ']' {
            TipoToken::FechaCol
        } else if c == ',' {
            TipoToken::Virgula
        } else if c == '%' {
            TipoToken::Porcento
        } else if c == ':' {
            TipoToken::Delim
        } else if c == '^' {
            TipoToken::Circunflexo
        } else if c == '&' {
            TipoToken::EComercial
        } else if c == '.' {
            let c2 = self.scanner.next_char();
            if c2 == '.' {
                TipoToken::PontoPonto
            } else {
                self.scanner.decrement();
                TipoToken::Ponto
            }
        } else if c == '<' {
            let c2 = self.scanner.next_char();
            if c2 == '-' {
                TipoToken::BackArrow
            } else {
                return None;
            }
        } else {
            return None;
        };
        Some(self.token_lido(tipo))
    }

    /// Palavras reservadas: a maior sequencia de letras e `_`, se for uma palavra reservada.
    fn keywords(&mut self) -> (r: Option<Token>)
        requires
            old(self).wf(),
        ensures
            final(self).reconheceu(old(self), r),
            final(self).line == old(self).line,
            final(self).conforme(old(self), r, palavra_reservada_spec(old(self).fonte(), old(self).posicao())),
    {
        loop
            invariant
                self.scanner.wf(),
                self.scanner.fonte() == old(self).scanner.fonte(),
                self.scanner.marca() == old(self).scanner.marca(),
                self.scanner.marca() <= self.scanner.posicao() <= self.scanner.fonte().len(),
                self.line == old(self).line,
                fim_palavra(old(self).scanner.fonte(), old(self).scanner.marca()) == fim_palavra(
                    self.scanner.fonte(),
                    self.scanner.posicao(),
                ),
            ensures
                self.scanner.wf(),
                self.scanner.fonte() == old(self).scanner.fonte(),
                self.scanner.marca() == old(self).scanner.marca(),
                self.scanner.marca() <= self.scanner.posicao() <= self.scanner.fonte().len(),
                self.line == old(self).line,
                self.scanner.posicao() == fim_palavra(old(self).scanner.fonte(), old(self).scanner.marca()),
            decreases self.scanner.fonte().len() + 1 - self.scanner.posicao(),
        {
            let ghost p = self.scanner.posicao();
            let c = self.scanner.next_char();
            if c == '\0' || !(c == '_' || e_alfabetico(c)) {
                self.scanner.decrement();
                proof {
                    assert(fim_palavra(old(self).scanner.fonte(), p) == p);
                }
                break;
            }
        }
        if self.scanner.tamanho_lexema() == 0 {
            return None;
        }
        let tipo = self.palavra_reservada();
        match tipo {
            Some(t) => Some(self.token_lido(t)),
            None => None,
        }
    }

    fn palavra_reservada(&self) -> (r: Option<TipoToken>)
        requires
            self.scanner.wf(),
        ensures
            r == palavra_chave(self.scanner.lexema_atual()),
    {
        let s = &self.scanner;
        if s.lexema_igual("algoritmo") { Some(TipoToken::PCalgoritmo) }
        else if s.lexema_igual("declare") { Some(TipoToken::PCdeclare) }
        else if s.lexema_igual("literal") { Some(TipoToken::PCliteral) }
        else if s.lexema_igual("inteiro") { Some(TipoToken::PCinteiro) }
        else if s.lexema_igual("leia") { Some(TipoToken::PCleia) }
        else if s.lexema_igual("escreva") { Some(TipoToken::PCescreva) }
        else if s.lexema_igual("fim_algoritmo") { Some(TipoToken::PCfimAlgoritmo) }
        else if s.lexema_igual("real") { Some(TipoToken::PCreal) }
        else if s.lexema_igual("logico") { Some(TipoToken::PClogico) }
        else if s.lexema_igual("fim_se") { Some(TipoToken::PCfimSe) }
        else if s.lexema_igual("senao") { Some(TipoToken::PCsenao) }
        else if s.lexema_igual("entao") { Some(TipoToken::PCentao) }
        else if s.lexema_igual("se") { Some(TipoToken::PCse) }
        else if s.lexema_igual("fim_caso") { Some(TipoToken::PCfimCaso) }
        else if s.lexema_igual("para") { Some(TipoToken::PCpara) }
        else if s.lexema_igual("ate") { Some(TipoToken::PCate) }
        else if s.lexema_igual("faca") { Some(TipoToken::PCfaca) }
        else if s.lexema_igual("fim_para") { Some(TipoToken::PCfimPara) }
        else if s.lexema_igual("fim_enquanto") { Some(TipoToken::PCfimEnquanto) }
        else if s.lexema_igual("seja") { Some(TipoToken::PCseja) }
        else if s.lexema_igual("caso") { Some(TipoToken::PCcaso) }
        else if s.lexema_igual("enquanto") { Some(TipoToken::PCenquanto) }
        else if s.lexema_igual("registro") { Some(TipoToken::PCregistro) }
        else if s.lexema_igual("fim_registro") { Some(TipoToken::PCfimRegistro) }
        else if s.lexema_igual("tipo") { Some(TipoToken::PCtipo) }
        else if s.lexema_igual("fim_procedimento") { Some(TipoToken::PCfimProcedimento) }
        else if s.lexema_igual("procedimento") { Some(TipoToken::PCprocedimento) }
        else if s.lexema_igual("var") { Some(TipoToken::PCvar) }
        else if s.lexema_igual("funcao") { Some(TipoToken::PCfuncao) }
        else if s.lexema_igual("fim_funcao") { Some(TipoToken::PCfimFuncao) }
        else if s.lexema_igual("retorne") { Some(TipoToken::PCretorne) }
        else if s.lexema_igual("constante") { Some(TipoToken::PCconstante) }
        else if s.lexema_igual("falso") { Some(TipoToken::PCfalso) }
        else if s.lexema_igual("verdadeiro") { Some(TipoToken::PCverdadeiro) }
        else if s.lexema_igual("nao") { Some(TipoToken::PCnao) }
        else if s.lexema_igual("ou") { Some(TipoToken::PCou) }
        else if s.lexema_igual("e") { Some(TipoToken::PCe) }
        else { None }
    }
}

/// Classe, lexema e linha de cada token.
pub open spec fn vista_tokens(s: Seq<Token>) -> Seq<(TipoToken, Seq<char>, u32)> {
    s.map_values(|t: Token| (t.tipo, t.lexema@, t.linha))
}

/// Tokens lidos a partir da posicao `m` na linha `linha`, ate o fim do texto (exclusive) ou o
/// primeiro erro lexico (inclusive).
pub open spec fn tokens_desde(f: Seq<char>, m: int, linha: u32) -> Seq<(TipoToken, Seq<char>, u32)>
    decreases f.len() - m,
{
    let ((tipo, lexema, lin), e, l) = proximo_token(f, m, linha);
    if tipo == TipoToken::Fim || !(m < e <= f.len()) {
        Seq::empty()
    } else if tipo == TipoToken::Erro {
        seq![(tipo, lexema, lin)]
    } else {
        seq![(tipo, lexema, lin)] + tokens_desde(f, e, l)
    }
}

/// Tokens de um texto, do inicio, na linha 1.
pub open spec fn tokens_spec(f: Seq<char>) -> Seq<(TipoToken, Seq<char>, u32)> {
    tokens_desde(f, 0, 1)
}

/// Tokens do texto `fonte`, em ordem, ate o fim do texto (exclusive) ou ate o primeiro erro
/// lexico (inclusive).
#[verifier::rlimit(30)]
pub fn tokens(fonte: &str) -> (r: Vec<Token>)
    requires
        fonte@.len() + 2 < usize::MAX,
    ensures
        vista_tokens(r@) == tokens_spec(fonte@),
{
    let mut lex = Lexico::new(fonte);
    let mut v: Vec<Token> = Vec::new();
    proof {
        assert(vista_tokens(v@) =~= Seq::empty());
        assert(vista_tokens(v@) + tokens_spec(fonte@) =~= tokens_spec(fonte@));
    }
    loop
        invariant
            lex.wf(),
            lex.fonte() == fonte@,
            lex.posicao() <= lex.fonte().len(),
            vista_tokens(v@) + tokens_desde(fonte@, lex.posicao(), lex.linha_atual())
                == tokens_spec(fonte@),
        decreases lex.fonte().len() - lex.posicao(),
    {
        let ghost m = lex.posicao();
        let ghost l = lex.linha_atual();
        let ghost antes = vista_tokens(v@);
        let t = lex.next_token();
        if t.tipo == TipoToken::Fim {
            proof {
                assert(tokens_desde(fonte@, m, l) =~= Seq::empty());
                assert(vista_tokens(v@) =~= vista_tokens(v@) + tokens_desde(fonte@, m, l));
            }
            return v;
        }
        let erro = t.tipo == TipoToken::Erro;
        let ghost item = (t.tipo, t.lexema@, t.linha);
        v.push(t);
        proof {
            assert(vista_tokens(v@) =~= antes.push(item));
            if erro {
                assert(tokens_desde(fonte@, m, l) == seq![item]);
                assert(vista_tokens(v@) =~= antes + tokens_desde(fonte@, m, l));
            } else {
                assert(tokens_desde(fonte@, m, l) == seq![item] + tokens_desde(
                    fonte@,
                    lex.posicao(),
                    lex.linha_atual(),
                ));
                assert(vista_tokens(v@) + tokens_desde(fonte@, lex.posicao(), lex.linha_atual())
                    =~= antes + tokens_desde(fonte@, m, l));
            }
        }
        if erro {
            return v;
        }
    }
}

/// A analise lexica e determinista: dois resultados da leitura de tokens de textos iguais
/// sao iguais, token a token, em classe, lexema e linha.
pub proof fn lema_tokens_deterministas(a: Seq<char>, b: Seq<char>, ta: Seq<Token>, tb: Seq<Token>)
    requires
        a == b,
        vista_tokens(ta) == tokens_spec(a),
        vista_tokens(tb) == tokens_spec(b),
    ensures
        vista_tokens(ta) == vista_tokens(tb),
        ta.len() == tb.len(),
        forall|i: int| 0 <= i < ta.len() ==> ta[i].tipo == tb[i].tipo && ta[i].lexema@ == tb[i].lexema@
            && ta[i].linha == tb[i].linha,
{
    assert(vista_tokens(ta).len() == ta.len());
    assert(vista_tokens(tb).len() == tb.len());
    assert forall|i: int| 0 <= i < ta.len() implies ta[i].tipo == tb[i].tipo && ta[i].lexema@
        == tb[i].lexema@ && ta[i].linha == tb[i].linha by {
        assert(vista_tokens(ta)[i] == (ta[i].tipo, ta[i].lexema@, ta[i].linha));
        assert(vista_tokens(tb)[i] == (tb[i].tipo, tb[i].lexema@, tb[i].linha));
    }
}

} // verus!
