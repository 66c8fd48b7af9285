use batalha_naval::application::helpers::coordenadas::{
    caixa_coordenada, estilo_coordenada, gerar_coordenadas,
};
use batalha_naval::application::helpers::cursor::{controlar_cursor, AcaoCursor, ControleCursor};
use batalha_naval::application::helpers::estilo::Cor;
use batalha_naval::domain::tabuleiro::{dentro_do_tabuleiro, BOARD_SIZE, TAMANHO_TILE};
use batalha_naval::texto::numero_para_texto;

#[test]
fn tabuleiro_tem_dez_por_dez() {
    assert_eq!(BOARD_SIZE, 10);
    assert_eq!(TAMANHO_TILE, 16);
    assert!(dentro_do_tabuleiro(0, 0));
    assert!(dentro_do_tabuleiro(9, 9));
    assert!(!dentro_do_tabuleiro(10, 0));
    assert!(!dentro_do_tabuleiro(0, 10));
    assert!(!dentro_do_tabuleiro(-1, 5));
    assert!(!dentro_do_tabuleiro(5, -1));
}

#[test]
fn numeros_em_decimal() {
    assert_eq!(numero_para_texto(0), "0");
    assert_eq!(numero_para_texto(7), "7");
    assert_eq!(numero_para_texto(10), "10");
    assert_eq!(numero_para_texto(105), "105");
    assert_eq!(numero_para_texto(u32::MAX), "4294967295");
}

#[test]
fn coordenadas_numeros_e_letras() {
    let r = gerar_coordenadas();
    assert_eq!(r.len(), 20);
    let numeros = ["1", "2", "3", "4", "5", "6", "7", "8", "9", "10"];
    let letras = ["A", "B", "C", "D", "E", "F", "G", "H", "I", "J"];
    for i in 0..10 {
        assert_eq!(r[i].texto, numeros[i]);
        assert_eq!((r[i].x, r[i].y), (16 * i as i32, -16));
        assert_eq!(r[10 + i].texto, letras[i]);
        assert_eq!((r[10 + i].x, r[10 + i].y), (-16, 16 * i as i32));
    }
    for rotulo in &r {
        assert_eq!(rotulo.estilo, estilo_coordenada());
        assert_eq!(rotulo.caixa, caixa_coordenada());
        assert_eq!((rotulo.caixa.largura_minima, rotulo.caixa.altura_minima), (16, 16));
        assert_eq!(rotulo.estilo.tamanho_fonte, 12);
    }
}

#[test]
fn estilo_das_coordenadas() {
    let e = estilo_coordenada();
    assert_eq!(e.tamanho_fonte, 12);
    assert_eq!(e.tamanho_contorno, 2);
    assert_eq!(e.cor_fonte, Cor::Branco);
    assert_eq!(e.cor_contorno, Cor::Preto);
}

#[test]
fn cursor_sobre_celula_sem_clique() {
    let c = controlar_cursor(true, 3, 4, false);
    assert_eq!(c, ControleCursor { acao: AcaoCursor::Mostrar { x: 56, y: 72 }, clique: None });
}

#[test]
fn cursor_sobre_celula_com_clique() {
    let c = controlar_cursor(true, 0, 9, true);
    assert_eq!(c, ControleCursor { acao: AcaoCursor::Mostrar { x: 8, y: 152 }, clique: Some((0, 9)) });
}

#[test]
fn cursor_fora_do_tabuleiro_esconde() {
    for (x, y) in [(10, 0), (0, 10), (-1, 3), (3, -1), (i32::MIN, i32::MAX)] {
        let c = controlar_cursor(true, x, y, true);
        assert_eq!(c, ControleCursor { acao: AcaoCursor::Esconder, clique: None });
    }
}

#[test]
fn cursor_ausente_ainda_informa_clique_valido() {
    let c = controlar_cursor(false, 2, 7, true);
    assert_eq!(c, ControleCursor { acao: AcaoCursor::Manter, clique: Some((2, 7)) });
}

#[test]
fn cursor_ausente_sem_clique_valido() {
    let c = controlar_cursor(false, 2, 7, false);
    assert_eq!(c, ControleCursor { acao: AcaoCursor::Manter, clique: None });
    let c = controlar_cursor(false, 10, 7, true);
    assert_eq!(c, ControleCursor { acao: AcaoCursor::Manter, clique: None });
}

#[test]
fn caixa_das_coordenadas() {
    let c = caixa_coordenada();
    assert_eq!((c.largura_minima, c.altura_minima), (16, 16));
    assert!(c.centralizado_horizontal);
    assert!(c.centralizado_vertical);
}
