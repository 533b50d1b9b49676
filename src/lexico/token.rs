use vstd::prelude::*;
use crate::texto::{anexar, texto};

verus! {

/// Classe de um token da linguagem LA.
#[derive(Debug, Clone, Copy, PartialEq, Eq, Structural)]
pub enum TipoToken {
    PCalgoritmo, PCdeclare, PCinteiro, PCleia, PCescreva, PCfimAlgoritmo, PCreal,
    PCliteral, PClogico, PCfimSe, PCsenao, PCentao, PCse, PCfimCaso, PCpara, PCate, PCfaca,
    PCfimPara, PCfimEnquanto, PCseja, PCcaso, PCenquanto, PCregistro, PCfimRegistro,
    PCtipo, PCfimProcedimento, PCprocedimento, PCvar, PCfuncao, PCfimFuncao, PCretorne, PCconstante,
    PCfalso, PCverdadeiro, PCnao, PCou, PCe, OpAritMult, OpAritDiv, OpAritSoma,
    OpAritSub, OpRelMenor, OpRelMenorIgual, OpRelMaiorIgual, BackArrow, OpRelMaior, OpRelIgual,
    OpRelDif, Delim, AbrePar, FechaPar, AbreCol, FechaCol, Virgula, Porcento, Circunflexo,
    EComercial, Ponto, PontoPonto, Ident, NumInt, NumReal, Cadeia, Fim, Erro, Vazio,
}

/// Token: classe, lexema e linha em que foi lido.
#[derive(Debug, Clone)]
pub struct Token {
    pub tipo: TipoToken,
    pub lexema: String,
    pub linha: u32,
}

/// Nome da classe na forma de depuracao: IDENT, NUM_INT, NUM_REAL, CADEIA ou o lexema entre aspas.
pub open spec fn tipo_string_spec(tipo: TipoToken, lexema: Seq<char>) -> Seq<char> {
    match tipo {
        TipoToken::Ident => "IDENT"@,
        TipoToken::NumInt => "NUM_INT"@,
        TipoToken::NumReal => "NUM_REAL"@,
        TipoToken::Cadeia => "CADEIA"@,
        _ => "'"@ + lexema + "'"@,
    }
}

/// Forma de depuracao `<'lexema','TIPO'>`.
pub open spec fn token_string_spec(tipo: TipoToken, lexema: Seq<char>) -> Seq<char> {
    "<'"@ + lexema + "',"@ + tipo_string_spec(tipo, lexema) + ">"@
}

impl Token {
    /// Cria um token.
    pub fn new(tipo: TipoToken, lexema: String, linha: u32) -> (r: Self)
        ensures
            r.tipo == tipo,
            r.lexema == lexema,
            r.linha == linha,
    {
        Token { tipo, lexema, linha }
    }

    /// Classe do token.
    pub fn tipo(&self) -> (r: TipoToken)
        ensures
            r == self.tipo,
    {
        self.tipo
    }

    /// Copia do lexema.
    pub fn lexema(&self) -> (r: String)
        ensures
            r@ == self.lexema@,
    {
        self.lexema.clone()
    }

    /// Linha do token.
    pub fn linha(&self) -> (r: u32)
        ensures
            r == self.linha,
    {
        self.linha
    }

    /// Nome da classe do token.
    pub fn tipo_string(&self) -> (r: String)
        ensures
            r@ == tipo_string_spec(self.tipo, self.lexema@),
    {
        match self.tipo {
            TipoToken::Ident => texto("IDENT"),
            TipoToken::NumInt => texto("NUM_INT"),
            TipoToken::NumReal => texto("NUM_REAL"),
            TipoToken::Cadeia => texto("CADEIA"),
            _ => {
                let mut s = texto("'");
                anexar(&mut s, self.lexema.as_str());
                anexar(&mut s, "'");
                s
            },
        }
    }

    /// Forma de depuracao `<'lexema','TIPO'>`.
    pub fn to_string(&self) -> (r: String)
        ensures
            r@ == token_string_spec(self.tipo, self.lexema@),
    {
        let mut s = texto("<'");
        anexar(&mut s, self.lexema.as_str());
        anexar(&mut s, "',");
        let t = self.tipo_string();
        anexar(&mut s, t.as_str());
        anexar(&mut s, ">");
        proof {
            assert(s@ == "<'"@ + self.lexema@ + "',"@ + tipo_string_spec(self.tipo, self.lexema@)
                + ">"@);
        }
        s
    }

    /// Copia do token.
    pub fn copy(&self) -> (r: Token)
        ensures
            r == *self,
    {
        Token::new(self.tipo, self.lexema.clone(), self.linha)
    }
}

} // verus!
