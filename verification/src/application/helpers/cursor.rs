use vstd::prelude::*;

use crate::domain::tabuleiro::{dentro_do_tabuleiro, spec_dentro_do_tabuleiro, TAMANHO_TILE};

verus! {

/// What becomes of the cursor sprite of a board.
#[derive(Clone, Copy, Debug, PartialEq, Eq, Structural)]
pub enum AcaoCursor {
    /// The sprite is left as it is.
    Manter,
    /// The sprite is hidden.
    Esconder,
    /// The sprite is shown with its centre at `(x, y)`, in the pixels of the board's tile map.
    Mostrar { x: i32, y: i32 },
}

/// What the cursor of a board does in one frame: what becomes of its sprite,
/// and the cell clicked, if the player clicked one.
#[derive(Clone, Copy, Debug, PartialEq, Eq)]
pub struct ControleCursor {
    pub acao: AcaoCursor,
    pub clique: Option<(i32, i32)>,
}

/// The pixel coordinate of the centre of cell `c` along one axis.
pub open spec fn centro_da_celula(c: int) -> int {
    c * TAMANHO_TILE + TAMANHO_TILE / 2
}

/// The cursor's position along an axis lies strictly inside the cell under
/// the mouse, exactly halfway between its two edges.
pub proof fn lei_cursor_no_centro_da_celula(c: int)
    ensures
        c * TAMANHO_TILE < centro_da_celula(c) < (c + 1) * TAMANHO_TILE,
        centro_da_celula(c) - c * TAMANHO_TILE == (c + 1) * TAMANHO_TILE - centro_da_celula(c),
{
}

/// Moves the cursor of a board to the cell under the mouse and reports the
/// cell clicked. A click counts when the click action was just pressed over a
/// cell of the board, whether or not the board has a cursor sprite. With a
/// sprite, it is shown centred on the cell under the mouse when that cell is on
/// the board and hidden otherwise; without one, there is nothing to move.
pub fn controlar_cursor(
    cursor_presente: bool,
    celula_x: i32,
    celula_y: i32,
    clique_pressionado: bool,
) -> (r: ControleCursor)
    ensures
        r.clique == (if spec_dentro_do_tabuleiro(celula_x as int, celula_y as int)
            && clique_pressionado {
            Some((celula_x, celula_y))
        } else {
            None
        }),
        !cursor_presente ==> r.acao == AcaoCursor::Manter,
        cursor_presente && spec_dentro_do_tabuleiro(celula_x as int, celula_y as int) ==> r.acao
            == (AcaoCursor::Mostrar {
            x: centro_da_celula(celula_x as int) as i32,
            y: centro_da_celula(celula_y as int) as i32,
        }),
        cursor_presente && !spec_dentro_do_tabuleiro(celula_x as int, celula_y as int) ==> r.acao
            == AcaoCursor::Esconder,
        r.clique matches Some((x, y)) ==> x == celula_x && y == celula_y
            && spec_dentro_do_tabuleiro(x as int, y as int),
{
    let dentro = dentro_do_tabuleiro(celula_x, celula_y);
    let clique = if dentro && clique_pressionado {
        Some((celula_x, celula_y))
    } else {
        None
    };
    let acao = if !cursor_presente {
        AcaoCursor::Manter
    } else if dentro {
        let meio: i32 = TAMANHO_TILE / 2;
        AcaoCursor::Mostrar { x: celula_x * TAMANHO_TILE + meio, y: celula_y * TAMANHO_TILE + meio }
    } else {
        AcaoCursor::Esconder
    };
    ControleCursor { acao, clique }
}

} // verus!
