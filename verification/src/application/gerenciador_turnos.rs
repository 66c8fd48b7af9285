use vstd::prelude::*;

verus! {

/// The phases a match goes through, as the turn manager reports them.
#[derive(Clone, Copy, Debug, PartialEq, Eq, Structural)]
pub enum EstadoTurno {
    SelecaoDificuldade,
    PosicionamentoJogador,
    PosicionamentoIA,
    TurnoJogador,
    TurnoIA,
    VitoriaJogador,
    VitoriaIA,
}

} // verus!
