use vstd::prelude::*;

use crate::application::helpers::estilo::{Cor, EstiloTexto};
use crate::domain::tabuleiro::{BOARD_SIZE, TAMANHO_TILE};
use crate::texto::{
    decimal, lei_decimal_le_de_volta, numeral_canonico, numero_para_texto, valor_decimal,
};

verus! {

/// A coordinate label drawn beside a board: its text, the top-left corner of
/// its box in the pixels of the board's tile map, its glyph style and its box.
pub struct RotuloCoordenada {
    pub texto: String,
    pub x: i32,
    pub y: i32,
    pub estilo: EstiloTexto,
    pub caixa: CaixaCoordenada,
}

/// Coordinate labels are drawn in small light glyphs with a thin dark outline.
pub open spec fn spec_estilo_coordenada() -> EstiloTexto {
    EstiloTexto { tamanho_fonte: 12, cor_fonte: Cor::Branco, cor_contorno: Cor::Preto, tamanho_contorno: 2 }
}

/// Each coordinate label fills at least one cell, with its text centred both
/// ways.
pub open spec fn spec_caixa_coordenada() -> CaixaCoordenada {
    CaixaCoordenada {
        largura_minima: TAMANHO_TILE,
        altura_minima: TAMANHO_TILE,
        centralizado_horizontal: true,
        centralizado_vertical: true,
    }
}

/// The capital letter that names row `i` (`A` for the first row).
pub open spec fn letra(i: nat) -> char {
    (65 + i) as char
}

/// The rows are named by the letters `A` to `J`, in alphabetical order.
pub proof fn lei_letras_das_linhas(i: nat)
    requires
        i < BOARD_SIZE,
    ensures
        letra(i) == seq!['A', 'B', 'C', 'D', 'E', 'F', 'G', 'H', 'I', 'J'][i as int],
{
}

/// The one-letter name of row `i`.
fn texto_letra(i: usize) -> (r: &'static str)
    requires
        i < BOARD_SIZE,
    ensures
        r@ == seq![letra(i as nat)],
{
    if i == 0 {
        proof { reveal_strlit("A"); }
        "A"
    } else if i == 1 {
        proof { reveal_strlit("B"); }
        "B"
    } else if i == 2 {
        proof { reveal_strlit("C"); }
        "C"
    } else if i == 3 {
        proof { reveal_strlit("D"); }
        "D"
    } else if i == 4 {
        proof { reveal_strlit("E"); }
        "E"
    } else if i == 5 {
        proof { reveal_strlit("F"); }
        "F"
    } else if i == 6 {
        proof { reveal_strlit("G"); }
        "G"
    } else if i == 7 {
        proof { reveal_strlit("H"); }
        "H"
    } else if i == 8 {
        proof { reveal_strlit("I"); }
        "I"
    } else {
        proof { reveal_strlit("J"); }
        "J"
    }
}

/// The glyph style of the coordinate labels: small light glyphs with a thin
/// dark outline.
pub fn estilo_coordenada() -> (e: EstiloTexto)
    ensures
        e == spec_estilo_coordenada(),
{
    EstiloTexto { tamanho_fonte: 12, cor_fonte: Cor::Branco, cor_contorno: Cor::Preto, tamanho_contorno: 2 }
}

/// The box of a coordinate label: its minimum size in pixels, and whether its
/// text is centred across and down.
#[derive(Clone, Copy, Debug, PartialEq, Eq, Structural)]
pub struct CaixaCoordenada {
    pub largura_minima: i32,
    pub altura_minima: i32,
    pub centralizado_horizontal: bool,
    pub centralizado_vertical: bool,
}

/// Each coordinate label fills at least one cell, with its text centred both
/// ways.
pub fn caixa_coordenada() -> (c: CaixaCoordenada)
    ensures
        c == spec_caixa_coordenada(),
{
    CaixaCoordenada {
        largura_minima: TAMANHO_TILE,
        altura_minima: TAMANHO_TILE,
        centralizado_horizontal: true,
        centralizado_vertical: true,
    }
}

/// The labels drawn around a board: first the column numbers `1` to
/// `BOARD_SIZE`, one cell above the top row, each above its column; then the
/// row letters from `A`, one cell left of the first column, each beside its row.
/// Every label has the coordinate glyph style and box.
pub fn gerar_coordenadas() -> (r: Vec<RotuloCoordenada>)
    ensures
        r.len() == 2 * BOARD_SIZE,
        forall|i: int|
            #![trigger r[i]]
            0 <= i < r.len() ==> r[i].estilo == spec_estilo_coordenada() && r[i].caixa
                == spec_caixa_coordenada(),
        forall|i: int|
            #![trigger r[i]]
            0 <= i < BOARD_SIZE ==> numeral_canonico(r[i].texto@) && valor_decimal(r[i].texto@) == i
                + 1,
        forall|i: int|
            #![trigger r[i]]
            0 <= i < BOARD_SIZE ==> r[i].texto@ == decimal((i + 1) as nat) && r[i].x == i
                * TAMANHO_TILE && r[i].y == -TAMANHO_TILE,
        forall|i: int|
            #![trigger r[BOARD_SIZE + i]]
            0 <= i < BOARD_SIZE ==> r[BOARD_SIZE + i].texto@ == seq![letra(i as nat)]
                && r[BOARD_SIZE + i].x == -TAMANHO_TILE && r[BOARD_SIZE + i].y == i * TAMANHO_TILE,
{
    let mut r: Vec<RotuloCoordenada> = Vec::new();
    let n: usize = BOARD_SIZE;
    let estilo = estilo_coordenada();
    let caixa = caixa_coordenada();
    for i in 0..n
        invariant
            n == BOARD_SIZE,
            r.len() == i,
            estilo == spec_estilo_coordenada(),
            caixa == spec_caixa_coordenada(),
            forall|j: int|
                #![trigger r[j]]
                0 <= j < r.len() ==> r[j].estilo == spec_estilo_coordenada() && r[j].caixa
                    == spec_caixa_coordenada(),
            forall|j: int|
                #![trigger r[j]]
                0 <= j < i ==> r[j].texto@ == decimal((j + 1) as nat) && r[j].x == j
                    * TAMANHO_TILE && r[j].y == -TAMANHO_TILE,
    {
        let coluna: i32 = i as i32;
        let numero: u32 = (i + 1) as u32;
        r.push(RotuloCoordenada {
            texto: numero_para_texto(numero),
            x: coluna * TAMANHO_TILE,
            y: -TAMANHO_TILE,
            estilo,
            caixa,
        });
    }
    for i in 0..n
        invariant
            n == BOARD_SIZE,
            r.len() == n + i,
            estilo == spec_estilo_coordenada(),
            caixa == spec_caixa_coordenada(),
            forall|j: int|
                #![trigger r[j]]
                0 <= j < r.len() ==> r[j].estilo == spec_estilo_coordenada() && r[j].caixa
                    == spec_caixa_coordenada(),
            forall|j: int|
                #![trigger r[j]]
                0 <= j < n ==> r[j].texto@ == decimal((j + 1) as nat) && r[j].x == j
                    * TAMANHO_TILE && r[j].y == -TAMANHO_TILE,
            forall|j: int|
                #![trigger r[n + j]]
                0 <= j < i ==> r[n + j].texto@ == seq![letra(j as nat)] && r[n + j].x
                    == -TAMANHO_TILE && r[n + j].y == j * TAMANHO_TILE,
    {
        let linha: i32 = i as i32;
        let letra_linha = texto_letra(i);
        r.push(RotuloCoordenada {
            texto: String::from_str(letra_linha),
            x: -TAMANHO_TILE,
            y: linha * TAMANHO_TILE,
            estilo,
            caixa,
        });
    }
    assert forall|i: int| 0 <= i < BOARD_SIZE implies numeral_canonico(#[trigger] r[i].texto@)
        && valor_decimal(r[i].texto@) == i + 1 by {
        lei_decimal_le_de_volta((i + 1) as nat);
    }
    r
}

} // verus!
