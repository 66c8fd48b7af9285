use vstd::prelude::*;

verus! {

/// The two colours that the board labels are drawn in.
#[derive(Clone, Copy, Debug, PartialEq, Eq, Structural)]
pub enum Cor {
    Preto,
    Branco,
}

/// How the glyphs of a label are drawn: font size, fill colour, outline colour
/// and outline thickness, all in pixels.
#[derive(Clone, Copy, Debug, PartialEq, Eq, Structural)]
pub struct EstiloTexto {
    pub tamanho_fonte: i32,
    pub cor_fonte: Cor,
    pub cor_contorno: Cor,
    pub tamanho_contorno: i32,
}

} // verus!
