use vstd::prelude::*;
use crate::texto::push_char;
use vstd::std_specs::iter::IteratorSpec;
use vstd::string::StrSliceExecFns;

verus! {

/// Caractere na posicao `i` do texto; NUL alem do fim.
pub open spec fn char_em(fonte: Seq<char>, i: int) -> char {
    if 0 <= i < fonte.len() {
        fonte[i]
    } else {
        '\0'
    }
}

/// Caracteres lidos entre as posicoes `de` e `ate`, com NUL alem do fim do texto.
pub open spec fn trecho(fonte: Seq<char>, de: int, ate: int) -> Seq<char> {
    Seq::new((ate - de) as nat, |k: int| char_em(fonte, de + k))
}

/// Leitor de caracteres com retrocesso: le a partir da marca, pode recuar e voltar a marca,
/// e confirma o lexema lido avancando a marca.
pub struct Scanner {
    fonte: Vec<char>,
    pointer: usize,
    lexeme_start: usize,
    lexeme: Vec<char>,
}

impl Scanner {
    /// Texto lido.
    pub closed spec fn fonte(&self) -> Seq<char> {
        self.fonte@
    }

    /// Posicao do proximo caractere a ler.
    pub closed spec fn posicao(&self) -> int {
        self.pointer as int
    }

    /// Inicio do lexema atual (ultima posicao confirmada).
    pub closed spec fn marca(&self) -> int {
        self.lexeme_start as int
    }

    /// Lexema atual: o que foi lido desde a marca.
    pub open spec fn lexema_atual(&self) -> Seq<char> {
        trecho(self.fonte(), self.marca(), self.posicao())
    }

    pub closed spec fn wf(&self) -> bool {
        &&& self.fonte@.len() + 2 < usize::MAX
        &&& self.lexeme_start <= self.pointer <= self.fonte@.len() + 1
        &&& self.lexeme@ == trecho(self.fonte@, self.lexeme_start as int, self.pointer as int)
    }

    /// Cria um leitor sobre o texto `texto`, com marca e posicao no inicio.
    pub fn new(texto: &str) -> (r: Self)
        requires
            texto@.len() + 2 < usize::MAX,
        ensures
            r.wf(),
            r.marca() <= r.posicao() <= r.fonte().len() + 1,
            r.fonte() == texto@,
            r.posicao() == 0,
            r.marca() == 0,
    {
        let mut fonte: Vec<char> = Vec::new();
        let mut it = texto.chars();
        let ghost total = texto@;
        proof {
            broadcast use vstd::string::group_string_axioms, vstd::string::next_postcondition;
        }
        loop
            invariant
                fonte@ + it.remaining() == total,
                it.decrease() is Some,
            ensures
                fonte@ == total,
            decreases it.decrease()->0,
        {
            match it.next() {
                Some(c) => fonte.push(c),
                None => break,
            }
        }
        let r = Scanner { fonte, pointer: 0, lexeme_start: 0, lexeme: Vec::new() };
        proof {
            assert(r.lexeme@ =~= trecho(r.fonte@, 0, 0));
        }
        r
    }

    /// Le o proximo caractere e o acrescenta ao lexema; NUL alem do fim do texto.
    pub fn next_char(&mut self) -> (c: char)
        requires
            old(self).wf(),
            old(self).posicao() <= old(self).fonte().len(),
        ensures
            final(self).wf(),
            final(self).marca() <= final(self).posicao() <= final(self).fonte().len() + 1,
            c == char_em(old(self).fonte(), old(self).posicao()),
            final(self).fonte() == old(self).fonte(),
            final(self).marca() == old(self).marca(),
            final(self).posicao() == old(self).posicao() + 1,
    {
        let c = if self.pointer < self.fonte.len() {
            self.fonte[self.pointer]
        } else {
            '\0'
        };
        self.pointer = self.pointer + 1;
        self.lexeme.push(c);
        proof {
            assert(self.lexeme@ =~= trecho(self.fonte@, self.lexeme_start as int, self.pointer as int));
        }
        c
    }

    /// Devolve o ultimo caractere lido, retirando-o do lexema.
    pub fn decrement(&mut self)
        requires
            old(self).wf(),
            old(self).posicao() > old(self).marca(),
        ensures
            final(self).wf(),
            final(self).marca() <= final(self).posicao() <= final(self).fonte().len() + 1,
            final(self).fonte() == old(self).fonte(),
            final(self).marca() == old(self).marca(),
            final(self).posicao() == old(self).posicao() - 1,
    {
        self.pointer = self.pointer - 1;
        self.lexeme.pop();
        proof {
            assert(self.lexeme@ =~= trecho(self.fonte@, self.lexeme_start as int, self.pointer as int));
        }
    }

    /// Descarta o lexema atual e volta a marca.
    pub fn reset(&mut self)
        requires
            old(self).wf(),
        ensures
            final(self).wf(),
            final(self).marca() <= final(self).posicao() <= final(self).fonte().len() + 1,
            final(self).fonte() == old(self).fonte(),
            final(self).marca() == old(self).marca(),
            final(self).posicao() == old(self).marca(),
    {
        self.pointer = self.lexeme_start;
        self.lexeme = Vec::new();
        proof {
            assert(self.lexeme@ =~= trecho(self.fonte@, self.lexeme_start as int, self.pointer as int));
        }
    }

    /// Confirma o lexema atual: a marca passa para a posicao atual.
    pub fn confirm(&mut self)
        requires
            old(self).wf(),
        ensures
            final(self).wf(),
            final(self).marca() <= final(self).posicao() <= final(self).fonte().len() + 1,
            final(self).fonte() == old(self).fonte(),
            final(self).marca() == old(self).posicao(),
            final(self).posicao() == old(self).posicao(),
    {
        self.lexeme_start = self.pointer;
        self.lexeme = Vec::new();
        proof {
            assert(self.lexeme@ =~= trecho(self.fonte@, self.lexeme_start as int, self.pointer as int));
        }
    }

    /// Verifica se o lexema atual e exatamente `s`.
    pub fn lexema_igual(&self, s: &str) -> (r: bool)
        requires
            self.wf(),
        ensures
            r == (self.lexema_atual() == s@),
    {
        let n = s.unicode_len();
        if n != self.lexeme.len() {
            return false;
        }
        let mut i: usize = 0;
        while i < n
            invariant
                self.wf(),
                n == s@.len(),
                n == self.lexeme@.len(),
                i <= n,
                forall|k: int| 0 <= k < i ==> self.lexeme@[k] == s@[k],
            decreases n - i,
        {
            if self.lexeme[i] != s.get_char(i) {
                proof {
                    assert(self.lexema_atual()[i as int] != s@[i as int]);
                }
                return false;
            }
            i = i + 1;
        }
        proof {
            assert(self.lexeme@ =~= s@);
        }
        true
    }

    /// Numero de caracteres do lexema atual.
    pub fn tamanho_lexema(&self) -> (r: usize)
        requires
            self.wf(),
        ensures
            r == self.posicao() - self.marca(),
    {
        self.lexeme.len()
    }

    /// Texto do lexema atual.
    pub fn get_lexeme(&self) -> (r: String)
        requires
            self.wf(),
        ensures
            r@ == self.lexema_atual(),
    {
        let mut s = String::new();
        let mut i: usize = 0;
        while i < self.lexeme.len()
            invariant
                i <= self.lexeme@.len(),
                s@ == self.lexeme@.subrange(0, i as int),
            decreases self.lexeme@.len() - i,
        {
            push_char(&mut s, self.lexeme[i]);
            proof {
                assert(s@ =~= self.lexeme@.subrange(0, i + 1));
            }
            i = i + 1;
        }
        proof {
            assert(s@ =~= self.lexeme@);
        }
        s
    }
}

} // verus!
