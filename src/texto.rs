use vstd::prelude::*;
use vstd::string::StrSliceExecFns;

verus! {

/// Apoia-se em String::push: acrescenta um caractere ao fim da cadeia.
#[verifier::external_body]
pub(crate) fn push_char(s: &mut String, c: char)
    ensures
        final(s)@ == old(s)@.push(c),
{
    s.push(c)
}

/// Copia de `s` como String.
pub(crate) fn texto(s: &str) -> (r: String)
    ensures
        r@ == s@,
{
    s.to_string()
}

/// Concatena `b` ao fim de `a`.
pub(crate) fn anexar(a: &mut String, b: &str)
    ensures
        final(a)@ == old(a)@ + b@,
{
    a.append(b);
}

/// Algarismo decimal de `d`, com `d < 10`.
pub open spec fn algarismo(d: nat) -> char {
    if d < 10 { (('0' as u32) + d) as char } else { '0' }
}

/// Representacao decimal de `n`, sem zeros a esquerda.
pub open spec fn decimal(n: nat) -> Seq<char>
    decreases n,
{
    if n < 10 {
        seq![algarismo(n)]
    } else {
        decimal(n / 10).push(algarismo(n % 10))
    }
}

/// Representacao decimal de um inteiro com sinal.
pub open spec fn decimal_com_sinal(n: int) -> Seq<char> {
    if n < 0 { seq!['-'] + decimal((-n) as nat) } else { decimal(n as nat) }
}

fn algarismo_exec(d: u64) -> (c: char)
    requires
        d < 10,
    ensures
        c == algarismo(d as nat),
{
    if d == 0 { '0' } else if d == 1 { '1' } else if d == 2 { '2' } else if d == 3 { '3' }
    else if d == 4 { '4' } else if d == 5 { '5' } else if d == 6 { '6' } else if d == 7 { '7' }
    else if d == 8 { '8' } else { '9' }
}

/// Acrescenta a `s` a representacao decimal de `n`.
pub fn anexar_decimal(s: &mut String, n: u64)
    ensures
        final(s)@ == old(s)@ + decimal(n as nat),
    decreases n,
{
    if n < 10 {
        push_char(s, algarismo_exec(n));
        proof {
            assert(decimal(n as nat) == seq![algarismo(n as nat)]);
            assert(final(s)@ =~= old(s)@ + decimal(n as nat));
        }
    } else {
        anexar_decimal(s, n / 10);
        push_char(s, algarismo_exec(n % 10));
        proof {
            assert(decimal(n as nat) == decimal((n / 10) as nat).push(algarismo((n % 10) as nat)));
            assert(final(s)@ =~= old(s)@ + decimal(n as nat));
        }
    }
}

/// Acrescenta a `s` a representacao decimal de `n`, com '-' se negativo.
pub fn anexar_inteiro(s: &mut String, n: i64)
    ensures
        final(s)@ == old(s)@ + decimal_com_sinal(n as int),
{
    if n < 0 {
        push_char(s, '-');
        let m: u64 = if n == i64::MIN { 9223372036854775808u64 } else { (-n) as u64 };
        anexar_decimal(s, m);
        proof {
            assert(final(s)@ =~= old(s)@ + decimal_com_sinal(n as int));
        }
    } else {
        anexar_decimal(s, n as u64);
    }
}

/// Texto "Linha N: " que abre toda mensagem de diagnostico.
pub open spec fn prefixo_linha(linha: u32) -> Seq<char> {
    "Linha "@ + decimal(linha as nat) + ": "@
}

/// Inicia uma mensagem com "Linha N: ".
pub fn mensagem_linha(linha: u32) -> (r: String)
    ensures
        r@ == prefixo_linha(linha),
{
    let mut s = texto("Linha ");
    anexar_decimal(&mut s, linha as u64);
    anexar(&mut s, ": ");
    s
}

/// Valor de uma sequencia de algarismos decimais.
pub open spec fn valor_decimal(s: Seq<char>) -> int
    decreases s.len(),
{
    if s.len() == 0 {
        0
    } else {
        valor_decimal(s.drop_last()) * 10 + (s.last() as int - '0' as int)
    }
}

/// Todos os caracteres sao algarismos decimais.
pub open spec fn so_algarismos(s: Seq<char>) -> bool {
    forall|i: int| 0 <= i < s.len() ==> '0' <= #[trigger] s[i] <= '9'
}

/// Valor do numeral decimal `s`, se nao vazio, so de algarismos e cabe em i64.
pub fn valor_inteiro(s: &str) -> (r: Option<i64>)
    ensures
        r is Some ==> s@.len() > 0 && so_algarismos(s@) && r->0 == valor_decimal(s@) && r->0 >= 0,
        (s@.len() > 0 && so_algarismos(s@) && valor_decimal(s@) <= i64::MAX) ==> r is Some,
{
    let n = s.unicode_len();
    if n == 0 {
        return None;
    }
    let mut v: i64 = 0;
    let mut i: usize = 0;
    while i < n
        invariant
            n == s@.len(),
            i <= n,
            so_algarismos(s@.subrange(0, i as int)),
            v == valor_decimal(s@.subrange(0, i as int)),
            0 <= v,
        decreases n - i,
    {
        let c = s.get_char(i);
        proof {
            assert(s@.subrange(0, i + 1).drop_last() =~= s@.subrange(0, i as int));
        }
        if c < '0' || c > '9' {
            proof {
                assert(!so_algarismos(s@));
                assert(s@[i as int] == c);
            }
            return None;
        }
        let d = (c as u32 - '0' as u32) as i64;
        if v > (i64::MAX - d) / 10 {
            proof {
                assert(valor_decimal(s@.subrange(0, i + 1)) == v * 10 + d) by {
                    assert(s@.subrange(0, i + 1).last() == c);
                }
                assert(v * 10 + d > i64::MAX) by (nonlinear_arith)
                    requires
                        v > (i64::MAX - d) / 10,
                        0 <= d <= 9,
                ;
                if so_algarismos(s@) {
                    lema_valor_prefixo(s@, i as int + 1);
                }
            }
            return None;
        }
        v = v * 10 + d;
        i = i + 1;
    }
    proof {
        assert(s@.subrange(0, n as int) =~= s@);
    }
    Some(v)
}

/// O valor de um numeral nao diminui ao acrescentar algarismos.
proof fn lema_valor_prefixo(s: Seq<char>, k: int)
    requires
        0 <= k <= s.len(),
        so_algarismos(s),
    ensures
        valor_decimal(s) >= valor_decimal(s.subrange(0, k)),
        valor_decimal(s.subrange(0, k)) >= 0,
    decreases s.len(),
{
    if s.len() == 0 {
        assert(s.subrange(0, k) =~= s);
    } else if k == s.len() {
        assert(s.subrange(0, k) =~= s);
        lema_valor_prefixo(s.drop_last(), 0);
    } else {
        assert(so_algarismos(s.drop_last()));
        lema_valor_prefixo(s.drop_last(), k);
        assert(s.drop_last().subrange(0, k) =~= s.subrange(0, k));
    }
}

} // verus!
