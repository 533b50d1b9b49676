use compilador::gerador::{rotulos_caso, Gerador};
use compilador::lexico::token::{TipoToken, Token};
use compilador::lexico::{tokens, Lexico};
use compilador::semantico::escopos::Escopos;
use compilador::semantico::tabela_de_simbolos::{Membros, TabelaDeSimbolos, TipoSimbolo};
use compilador::semantico::visitor::Visitor;
use compilador::semantico::Semantico;
use compilador::sintatico::arvore_sintatica::{NoAST, RegraAST};
use compilador::sintatico::parser::Parser;
use compilador::texto::valor_inteiro;

fn arvore(fonte: &str) -> NoAST {
    let mut p = Parser::new(Lexico::new(fonte));
    p.programa()
}

fn erros_semanticos(fonte: &str) -> Vec<String> {
    let a = arvore(fonte);
    assert!(!a.is_erro(), "erro sintatico: {:?}", a.get_erro());
    let mut s = Semantico::new();
    s.traverse(&a);
    s.get_erros()
}

fn codigo_c(fonte: &str) -> String {
    let a = arvore(fonte);
    assert!(!a.is_erro(), "erro sintatico: {:?}", a.get_erro());
    let mut g = Gerador::new();
    g.visit(&a);
    g.saida().to_string()
}

fn formas(fonte: &str) -> Vec<String> {
    tokens(fonte).iter().map(|t| t.to_string()).collect()
}

#[test]
fn mesma_entrada_mesmos_tokens() {
    let fonte = "algoritmo\n  declare x: real\n  x <- 3.5 * (2 + 1)\n  escreva(\"x = \", x)\nfim_algoritmo\n";
    let a = formas(fonte);
    let b = formas(fonte);
    assert!(!a.is_empty());
    assert_eq!(a, b);
}

#[test]
fn forma_de_depuracao_dos_tokens() {
    assert_eq!(
        formas("declare x: inteiro"),
        vec!["<'declare','declare'>", "<'x',IDENT>", "<':',':'>", "<'inteiro','inteiro'>"]
    );
    assert_eq!(formas("12 3.25 \"oi\""), vec!["<'12',NUM_INT>", "<'3.25',NUM_REAL>", "<'\"oi\"',CADEIA>"]);
    let t = Token::new(TipoToken::Ident, "abc".to_string(), 7);
    assert_eq!(t.tipo_string(), "IDENT");
    assert_eq!(t.linha(), 7);
    assert_eq!(t.copy().lexema(), "abc");
}

#[test]
fn intervalo_nao_e_numero_real() {
    let t = tokens("1..20");
    let tipos: Vec<TipoToken> = t.iter().map(|t| t.tipo()).collect();
    assert_eq!(tipos, vec![TipoToken::NumInt, TipoToken::PontoPonto, TipoToken::NumInt]);
    assert_eq!(t[0].lexema(), "1");
    assert_eq!(t[2].lexema(), "20");
}

#[test]
fn menor_que_e_seta() {
    let tipos: Vec<TipoToken> = tokens("< <= <> <- > >= =").iter().map(|t| t.tipo()).collect();
    assert_eq!(
        tipos,
        vec![
            TipoToken::OpRelMenor,
            TipoToken::OpRelMenorIgual,
            TipoToken::OpRelDif,
            TipoToken::BackArrow,
            TipoToken::OpRelMaior,
            TipoToken::OpRelMaiorIgual,
            TipoToken::OpRelIgual
        ]
    );
}

#[test]
fn palavras_reservadas_e_identificadores() {
    let t = tokens("fim_algoritmo algoritmos x1 e ou");
    let tipos: Vec<TipoToken> = t.iter().map(|t| t.tipo()).collect();
    assert_eq!(
        tipos,
        vec![TipoToken::PCfimAlgoritmo, TipoToken::Ident, TipoToken::Ident, TipoToken::PCe, TipoToken::PCou]
    );
}

#[test]
fn linhas_contadas_e_comentarios_ignorados() {
    let mut lex = Lexico::new("{ comentario }\n\n  x");
    let t = lex.next_token();
    assert_eq!(t.tipo(), TipoToken::Ident);
    assert_eq!(t.linha(), 3);
    assert_eq!(lex.next_token().tipo(), TipoToken::Fim);
    assert_eq!(lex.next_token().tipo(), TipoToken::Fim);
}

#[test]
fn comentario_nao_fechado() {
    let t = tokens("x\n{ sem fim\ny");
    let ultimo = t.last().unwrap();
    assert_eq!(ultimo.tipo(), TipoToken::Erro);
    assert_eq!(ultimo.lexema(), "Linha 2: comentario nao fechado\n");
}

#[test]
fn cadeia_nao_fechada() {
    let t = tokens("escreva(\"abc\n)");
    let ultimo = t.last().unwrap();
    assert_eq!(ultimo.tipo(), TipoToken::Erro);
    assert_eq!(ultimo.lexema(), "Linha 1: cadeia literal nao fechada\n");
    let t = tokens("\"abc");
    assert_eq!(t.last().unwrap().lexema(), "Linha 1: cadeia literal nao fechada\n");
}

#[test]
fn simbolo_nao_identificado() {
    let t = tokens("x\n  $");
    let ultimo = t.last().unwrap();
    assert_eq!(ultimo.tipo(), TipoToken::Erro);
    assert_eq!(ultimo.lexema(), "Linha 2: $ - simbolo nao identificado\n");
}

#[test]
fn erro_sintatico_na_primeira_falha() {
    let a = arvore("algoritmo\n  x <-\nfim_algoritmo\n");
    assert!(a.is_erro());
    assert!(a.filhos().is_empty());
    assert_eq!(a.get_erro().unwrap(), "Linha 3: erro sintatico proximo a fim_algoritmo\n");
}

#[test]
fn erro_lexico_chega_a_raiz() {
    let a = arvore("algoritmo\n  declare x: inteiro\n  x <- 1 $ 2\nfim_algoritmo\n");
    assert_eq!(a.get_erro().unwrap(), "Linha 3: $ - simbolo nao identificado\n");
}

#[test]
fn programa_minimo_sem_erros() {
    let a = arvore("algoritmo\nfim_algoritmo");
    assert!(!a.is_erro());
    assert!(matches!(a.regra(), RegraAST::Programa));
    assert_eq!(a.filhos().len(), 2);
    assert!(a.get_erro().is_none());
}

#[test]
fn declaracao_unica_sem_diagnostico() {
    let e = erros_semanticos("algoritmo\n  declare x: inteiro\n  x <- 2\nfim_algoritmo\n");
    assert!(e.is_empty(), "{:?}", e);
    let mut s = Semantico::new();
    assert!(s.declarar("x", 2, &TipoSimbolo::Inteiro));
    assert!(s.get_erros().is_empty());
    assert!(s.escopos().existe("x"));
}

#[test]
fn declaracao_repetida_um_diagnostico() {
    let e = erros_semanticos("algoritmo\n  declare x: inteiro\n  declare x: real\nfim_algoritmo\n");
    assert_eq!(e, vec!["Linha 3: identificador x ja declarado anteriormente\n"]);
}

#[test]
fn uso_sem_declaracao_um_diagnostico() {
    let e = erros_semanticos("algoritmo\n  declare x: inteiro\n  escreva(x, y)\nfim_algoritmo\n");
    assert_eq!(e, vec!["Linha 3: identificador y nao declarado\n"]);
    let e = erros_semanticos("algoritmo\n  declare x: inteiro\n  x <- y\nfim_algoritmo\n");
    let nao_declarados: Vec<&String> = e.iter().filter(|m| m.contains("nao declarado")).collect();
    assert_eq!(nao_declarados, vec!["Linha 3: identificador y nao declarado\n"]);
}

#[test]
fn real_para_inteiro_aceito() {
    let e = erros_semanticos("algoritmo\n  declare x: inteiro\n  x <- 2.5\nfim_algoritmo\n");
    assert!(e.is_empty(), "{:?}", e);
}

#[test]
fn cadeia_para_inteiro_rejeitado() {
    let e = erros_semanticos("algoritmo\n  declare x: inteiro\n  x <- \"abc\"\nfim_algoritmo\n");
    assert_eq!(e, vec!["Linha 3: atribuicao nao compativel para x\n"]);
}

#[test]
fn declare_atribui_escreve_em_c() {
    let fonte = "algoritmo\n  declare x, y: inteiro\n  x <- 1\n  escreva(x)\nfim_algoritmo\n";
    assert!(erros_semanticos(fonte).is_empty());
    let c = codigo_c(fonte);
    assert!(c.contains("int x, y;"), "{}", c);
    assert!(c.contains("x = 1;"), "{}", c);
    assert!(c.contains("printf(\"%d\", x);"), "{}", c);
    assert!(c.starts_with("#include <stdio.h>"));
    assert!(c.contains("int main(void) {"));
    assert!(c.ends_with("\treturn 0;\n}\n"));
}

#[test]
fn chamada_com_argumentos_a_menos() {
    let fonte = "funcao soma(a: inteiro, b: inteiro, c: inteiro): inteiro\n  retorne a + b + c\nfim_funcao\nalgoritmo\n  declare r: inteiro\n  r <- soma(1, 2)\n  r <- \"texto\"\nfim_algoritmo\n";
    let e = erros_semanticos(fonte);
    assert_eq!(
        e,
        vec![
            "Linha 6: incompatibilidade de parametros na chamada de soma\n",
            "Linha 7: atribuicao nao compativel para r\n"
        ]
    );
}

#[test]
fn chamada_correta_sem_diagnostico() {
    let fonte = "funcao soma(a, b: inteiro): inteiro\n  retorne a + b\nfim_funcao\nalgoritmo\n  declare r: inteiro\n  r <- soma(1, 2)\nfim_algoritmo\n";
    assert!(erros_semanticos(fonte).is_empty());
}

#[test]
fn caso_com_intervalo_negativo() {
    let fonte = "algoritmo\n  declare x: inteiro\n  leia(x)\n  caso x seja\n    -2..2: escreva(\"pequeno\")\n  senao\n    escreva(\"grande\")\n  fim_caso\nfim_algoritmo\n";
    assert!(erros_semanticos(fonte).is_empty());
    let c = codigo_c(fonte);
    assert!(c.contains("switch (x) {"), "{}", c);
    assert!(c.contains("case -2:\n\t\tcase -1:\n\t\tcase 0:\n\t\tcase 1:\n\t\tcase 2:"), "{}", c);
    assert_eq!(c.matches("case ").count(), 5);
    assert!(c.contains("default:"));
    assert!(c.contains("scanf(\"%d\", &x);"));
}

#[test]
fn rotulos_de_intervalo() {
    assert_eq!(rotulos_caso(-2, 2, 0), "\ncase -2:\ncase -1:\ncase 0:\ncase 1:\ncase 2:");
    assert_eq!(rotulos_caso(3, 1, 0), "");
    assert_eq!(rotulos_caso(7, 7, 1), "\n\tcase 7:");
}

#[test]
fn retorne_fora_de_funcao() {
    let e = erros_semanticos("algoritmo\n  retorne 1\nfim_algoritmo\n");
    assert_eq!(e, vec!["Linha 2: comando retorne nao permitido nesse escopo\n"]);
}

#[test]
fn tipo_de_ponteiro_nao_declarado() {
    let e = erros_semanticos("algoritmo\n  declare p: ^ponto\nfim_algoritmo\n");
    assert_eq!(e, vec!["Linha 2: tipo ponto nao declarado\n"]);
}

#[test]
fn campos_de_registro_acessiveis() {
    let fonte = "tipo ponto: registro\n  x, y: real\nfim_registro\nalgoritmo\n  declare p: ponto\n  p.x <- 1.5\n  leia(p.y)\n  escreva(p.x)\nfim_algoritmo\n";
    let e = erros_semanticos(fonte);
    assert!(e.is_empty(), "{:?}", e);
    let c = codigo_c(fonte);
    assert!(c.contains("typedef struct { float x, y; } ponto;"), "{}", c);
    assert!(c.contains("ponto p;"), "{}", c);
    assert!(c.contains("scanf(\"%f\", &p.y);"), "{}", c);
    assert!(c.contains("printf(\"%f\", p.x);"), "{}", c);
}

#[test]
fn construcoes_de_controle_em_c() {
    let fonte = "procedimento ola(nome: literal)\n  escreva(\"ola \", nome)\nfim_procedimento\nalgoritmo\n  declare i: inteiro\n  declare s: literal\n  s <- \"x\"\n  para i <- 1 ate 3 faca\n    se i = 2 e nao (i <> 3) entao\n      escreva(i)\n    senao\n      ola(s)\n    fim_se\n  fim_para\n  enquanto i > 0 faca\n    i <- i - 1\n  fim_enquanto\n  faca\n    i <- i + 1\n  ate i >= 3\nfim_algoritmo\n";
    let e = erros_semanticos(fonte);
    assert!(e.is_empty(), "{:?}", e);
    let c = codigo_c(fonte);
    assert!(c.contains("void ola(char* nome) {"), "{}", c);
    assert!(c.contains("printf(\"%s%s\", \"ola \", nome);"), "{}", c);
    assert!(c.contains("char s[80];"), "{}", c);
    assert!(c.contains("strcpy(s, \"x\");"), "{}", c);
    assert!(c.contains("for (i = 1; i <= 3; i++) {"), "{}", c);
    assert!(c.contains("if (i == 2 && !((i != 3))) {"), "{}", c);
    assert!(c.contains("} else {"), "{}", c);
    assert!(c.contains("ola(s);"), "{}", c);
    assert!(c.contains("while (i > 0) {"), "{}", c);
    assert!(c.contains("i = i - 1;"), "{}", c);
    assert!(c.contains("do {"), "{}", c);
    assert!(c.contains("} while (!(i >= 3));"), "{}", c);
}

#[test]
fn constante_e_funcao_em_c() {
    let fonte = "constante MAX: inteiro = 10\nfuncao dobro(v: inteiro): inteiro\n  retorne v * 2\nfim_funcao\nalgoritmo\n  declare r: inteiro\n  r <- dobro(MAX)\nfim_algoritmo\n";
    assert!(erros_semanticos(fonte).is_empty());
    let c = codigo_c(fonte);
    assert!(c.contains("#define MAX 10"), "{}", c);
    assert!(c.contains("int dobro(int v) {"), "{}", c);
    assert!(c.contains("return v * 2;"), "{}", c);
    assert!(c.contains("r = dobro(MAX);"), "{}", c);
}

#[test]
fn escopos_do_mais_interno_ao_mais_externo() {
    let mut e = Escopos::new(TipoSimbolo::Vazio);
    e.escopo_atual().inserir("x", &TipoSimbolo::Inteiro);
    e.novo_escopo(TipoSimbolo::Real);
    e.escopo_atual().inserir("x", &TipoSimbolo::Cadeia);
    assert!(matches!(e.verificar("x").unwrap().tipo(), TipoSimbolo::Cadeia));
    assert_eq!(e.tabelas().len(), 2);
    assert!(matches!(e.escopo_atual().tipo_retorno(), TipoSimbolo::Real));
    e.abandonar_escopo();
    assert!(matches!(e.verificar("x").unwrap().tipo(), TipoSimbolo::Inteiro));
    e.abandonar_escopo();
    assert_eq!(e.tabelas().len(), 1);
    assert!(e.existe("x"));
    assert!(!e.existe("y"));
}

#[test]
fn tabela_substitui_associacao() {
    let mut t = TabelaDeSimbolos::new(TipoSimbolo::Vazio);
    assert!(!t.existe("a"));
    t.inserir("a", &TipoSimbolo::Inteiro);
    t.inserir("a", &TipoSimbolo::Logico);
    let s = t.verificar("a").unwrap();
    assert_eq!(s.nome(), "a");
    assert!(matches!(s.tipo(), TipoSimbolo::Logico));
}

#[test]
fn tipos_estruturais_ignoram_nomes() {
    let r1 = TipoSimbolo::Registro(Box::new(Membros::Membro(
        "a".to_string(),
        Box::new(TipoSimbolo::Inteiro),
        Box::new(Membros::Fim),
    )));
    let r2 = TipoSimbolo::Registro(Box::new(Membros::Membro(
        "b".to_string(),
        Box::new(TipoSimbolo::Inteiro),
        Box::new(Membros::Fim),
    )));
    let r3 = TipoSimbolo::Registro(Box::new(Membros::Fim));
    assert!(r1.igual(&r2));
    assert!(!r1.igual(&r3));
    assert!(!TipoSimbolo::Inteiro.igual(&TipoSimbolo::Real));
}

#[test]
fn numerais_decimais() {
    assert_eq!(valor_inteiro("0"), Some(0));
    assert_eq!(valor_inteiro("1234"), Some(1234));
    assert_eq!(valor_inteiro("9223372036854775807"), Some(i64::MAX));
    assert_eq!(valor_inteiro("9223372036854775808"), None);
    assert_eq!(valor_inteiro(""), None);
    assert_eq!(valor_inteiro("1a"), None);
}

#[test]
fn no_folha_e_texto() {
    let t = Token::new(TipoToken::Ident, "abc".to_string(), 4);
    let f = NoAST::new_folha(RegraAST::Ident(t));
    assert_eq!(f.texto(), "abc");
    assert_eq!(f.linha(), 4);
    assert_eq!(f.idents().len(), 1);
    assert!(f.token().is_some());
    let v = NoAST::vazio();
    assert_eq!(v.linha(), 0);
    assert!(v.token().is_none());
    let n = NoAST::new(RegraAST::Programa, vec![v, f]);
    assert_eq!(n.linha(), 4);
    assert_eq!(n.texto(), "abc");
}

fn balanceado(c: &str) -> bool {
    let mut pilha: Vec<char> = Vec::new();
    let mut em_cadeia = false;
    for ch in c.chars() {
        if em_cadeia {
            if ch == '"' {
                em_cadeia = false;
            }
            continue;
        }
        match ch {
            '"' => em_cadeia = true,
            '(' | '[' | '{' => pilha.push(ch),
            ')' => {
                if pilha.pop() != Some('(') {
                    return false;
                }
            }
            ']' => {
                if pilha.pop() != Some('[') {
                    return false;
                }
            }
            '}' => {
                if pilha.pop() != Some('{') {
                    return false;
                }
            }
            _ => {}
        }
    }
    pilha.is_empty() && !em_cadeia
}

#[test]
fn programa_sem_erros_gera_c_balanceado() {
    let fonte = "constante PI: real = 3.14\ntipo ponto: registro\n  x, y: real\nfim_registro\nprocedimento mostra(p: ponto)\n  escreva(p.x, p.y)\nfim_procedimento\nfuncao maior(a: inteiro, b: inteiro): inteiro\n  se a > b entao\n    retorne a\n  senao\n    retorne b\n  fim_se\nfim_funcao\nalgoritmo\n  declare v[3]: inteiro\n  declare q: ponto\n  declare n: inteiro\n  declare ok: logico\n  declare nome: literal\n  leia(n, nome)\n  q.x <- PI * 2\n  q.y <- (n + 1) / 2\n  ok <- verdadeiro\n  v[0] <- maior(n, 10) % 7\n  caso n seja\n    1, 3..4: escreva(\"a\")\n    5: escreva(\"b\")\n  fim_caso\n  enquanto nao ok e n >= 0 ou n = 5 faca\n    n <- n - 1\n  fim_enquanto\n  mostra(q)\nfim_algoritmo\n";
    let e = erros_semanticos(fonte);
    assert!(e.is_empty(), "{:?}", e);
    let c = codigo_c(fonte);
    assert!(balanceado(&c), "{}", c);
    assert!(c.contains("#define PI 3.14"), "{}", c);
    assert!(c.contains("int v[3];"), "{}", c);
    assert!(c.contains("void mostra(ponto p) {"), "{}", c);
    assert!(c.contains("int maior(int a, int b) {"), "{}", c);
    assert!(c.contains("scanf(\"%s\", nome);"), "{}", c);
    assert!(c.contains("ok = true;"), "{}", c);
    assert!(c.contains("v[0] = maior(n, 10) % 7;"), "{}", c);
    assert!(c.contains("case 1:"), "{}", c);
    assert!(c.contains("case 3:"), "{}", c);
    assert!(c.contains("case 4:"), "{}", c);
    assert!(c.contains("mostra(q);"), "{}", c);
}

#[test]
fn identificadores_com_acentos() {
    let t = tokens("ação é_x");
    let tipos: Vec<TipoToken> = t.iter().map(|t| t.tipo()).collect();
    assert_eq!(tipos, vec![TipoToken::Ident, TipoToken::Ident]);
    assert_eq!(t[0].lexema(), "ação");
    assert_eq!(t[1].lexema(), "é_x");
}

#[test]
fn espacos_tabulacoes_e_retornos() {
    let t = tokens("\tx\r\n\u{00a0}y\u{3000}z");
    let lex: Vec<String> = t.iter().map(|t| t.lexema()).collect();
    assert_eq!(lex, vec!["x", "y", "z"]);
    assert_eq!(t[1].linha(), 2);
}

#[test]
fn funcao_repetida_no_mesmo_escopo() {
    let fonte = "procedimento p()\nfim_procedimento\nprocedimento p()\nfim_procedimento\nalgoritmo\nfim_algoritmo\n";
    let e = erros_semanticos(fonte);
    assert_eq!(e, vec!["Linha 3: identificador p ja declarado anteriormente\n"]);
}

#[test]
fn ponteiros_em_c() {
    let fonte = "algoritmo\n  declare p: ^inteiro\n  declare x: inteiro\n  p <- &x\n  ^p <- 3\n  leia(^p)\n  x <- ^p\nfim_algoritmo\n";
    let c = codigo_c(fonte);
    assert!(c.contains("int *p;"), "{}", c);
    assert!(c.contains("p = &x;"), "{}", c);
    assert!(c.contains("*p = 3;"), "{}", c);
    assert!(c.contains("scanf(\"%d\", p);"), "{}", c);
    assert!(c.contains("x = *p;"), "{}", c);
}

#[test]
fn parametro_registro_com_campos() {
    let fonte = "tipo ponto: registro\n  x: real\nfim_registro\nprocedimento zera(var q: ponto)\n  q.x <- 0.0\n  q.z <- 1.0\nfim_procedimento\nalgoritmo\nfim_algoritmo\n";
    let e = erros_semanticos(fonte);
    assert_eq!(e, vec!["Linha 6: identificador q.z nao declarado\n"]);
}

#[test]
fn texto_depois_do_fim_do_algoritmo() {
    let a = arvore("algoritmo\nfim_algoritmo\nx\n");
    assert_eq!(a.get_erro().unwrap(), "Linha 3: erro sintatico proximo a x\n");
}

#[test]
fn erro_lexico_no_primeiro_token() {
    let a = arvore("@");
    assert_eq!(a.get_erro().unwrap(), "Linha 1: @ - simbolo nao identificado\n");
}

#[test]
fn argumentos_de_uma_chamada() {
    let a = arvore("algoritmo\n  f(1, 2.5, \"s\")\nfim_algoritmo\n");
    assert!(!a.is_erro());
    let chamada = &a.filhos()[1].filhos()[1].filhos()[0];
    assert!(matches!(chamada.regra(), RegraAST::CMDChamada));
    let m = chamada.variaveis(&Escopos::new(TipoSimbolo::Vazio));
    assert_eq!(m.len(), 3);
    match m {
        Membros::Membro(n1, t1, r1) => {
            assert_eq!(n1, "1");
            assert!(matches!(*t1, TipoSimbolo::Inteiro));
            match *r1 {
                Membros::Membro(n2, t2, r2) => {
                    assert_eq!(n2, "2.5");
                    assert!(matches!(*t2, TipoSimbolo::Real));
                    match *r2 {
                        Membros::Membro(n3, t3, _) => {
                            assert_eq!(n3, "\"s\"");
                            assert!(matches!(*t3, TipoSimbolo::Cadeia));
                        }
                        Membros::Fim => panic!("faltou o terceiro argumento"),
                    }
                }
                Membros::Fim => panic!("faltou o segundo argumento"),
            }
        }
        Membros::Fim => panic!("sem argumentos"),
    }
}
