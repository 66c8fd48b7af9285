use vstd::prelude::*;

use crate::application::gerenciador_turnos::EstadoTurno;
use crate::application::helpers::estilo::{Cor, EstiloTexto};
use crate::texto::{
    decimal, escrever_decimal, lei_decimal_le_de_volta, numeral_canonico, valor_decimal,
};

verus! {

/// The three labels of the battle interface.
#[derive(Clone, Copy, Debug, PartialEq, Eq, Structural)]
pub enum TipoRotulo {
    /// The phase or round, at the top.
    Fase,
    /// Whose turn it is, below the phase.
    Turno,
    /// The outcome of the match, in the middle of the screen.
    Resultado,
}

/// Where and how an interface label is drawn: its glyph style, its box
/// (position and size in pixels), its drawing order, whether its text is
/// centred, and whether it uses the game's own font.
#[derive(Clone, Copy, Debug, PartialEq, Eq, Structural)]
pub struct EstiloRotulo {
    pub texto: EstiloTexto,
    pub x: i32,
    pub y: i32,
    pub largura: i32,
    pub altura: i32,
    pub indice_z: i32,
    pub centralizado: bool,
    pub fonte_personalizada: bool,
}

/// A label as it stands in the scene when it is found: its text and whether
/// it is visible.
pub struct RotuloCena {
    pub texto: String,
    pub visivel: bool,
}

/// An interface label: its text, whether it is visible, and its layout.
pub struct Rotulo {
    pub texto: String,
    pub visivel: bool,
    pub estilo: EstiloRotulo,
}

/// A label as the contracts see it.
pub struct RotuloVisao {
    pub texto: Seq<char>,
    pub visivel: bool,
    pub estilo: EstiloRotulo,
}

impl View for Rotulo {
    type V = RotuloVisao;

    open spec fn view(&self) -> RotuloVisao {
        RotuloVisao { texto: self.texto@, visivel: self.visivel, estilo: self.estilo }
    }
}

/// The layout of each interface label: dark glyphs with a light outline, all
/// centred in a 400-pixel-wide box 80 pixels from the left, drawn above the
/// boards; the phase label on top, the turn label below it, the result label
/// in the middle of the screen and largest. The game's own font is used when
/// it could be loaded.
pub open spec fn spec_estilo_rotulo(tipo: TipoRotulo, fonte_carregada: bool) -> EstiloRotulo {
    EstiloRotulo {
        texto: EstiloTexto {
            tamanho_fonte: match tipo {
                TipoRotulo::Fase => 24,
                TipoRotulo::Turno => 18,
                TipoRotulo::Resultado => 32,
            },
            cor_fonte: Cor::Preto,
            cor_contorno: Cor::Branco,
            tamanho_contorno: match tipo {
                TipoRotulo::Resultado => 4,
                _ => 3,
            },
        },
        x: 80,
        y: match tipo {
            TipoRotulo::Fase => 20,
            TipoRotulo::Turno => 70,
            TipoRotulo::Resultado => 300,
        },
        largura: 400,
        altura: match tipo {
            TipoRotulo::Fase => 50,
            TipoRotulo::Turno => 40,
            TipoRotulo::Resultado => 60,
        },
        indice_z: 100,
        centralizado: true,
        fonte_personalizada: fonte_carregada,
    }
}

/// A label found in the scene once the interface has taken it over: its text
/// kept, its layout set, and, for the result label, hidden.
pub open spec fn rotulo_inicial(c: RotuloCena, tipo: TipoRotulo, fonte_carregada: bool) -> RotuloVisao {
    RotuloVisao {
        texto: c.texto@,
        visivel: if tipo == TipoRotulo::Resultado {
            false
        } else {
            c.visivel
        },
        estilo: spec_estilo_rotulo(tipo, fonte_carregada),
    }
}

/// A label slot after taking over what the scene holds for it: a label found
/// replaces what was there, a label not found leaves it.
pub open spec fn assumido(
    antes: Option<RotuloVisao>,
    encontrado: Option<RotuloCena>,
    tipo: TipoRotulo,
    fonte_carregada: bool,
) -> Option<RotuloVisao> {
    match encontrado {
        Some(c) => Some(rotulo_inicial(c, tipo, fonte_carregada)),
        None => antes,
    }
}

/// A label that may be missing from the scene, as the contracts see it.
pub open spec fn visao_rotulo(r: Option<Rotulo>) -> Option<RotuloVisao> {
    match r {
        Some(r) => Some(r@),
        None => None,
    }
}

/// An optional new text, as the contracts see it.
pub open spec fn visao_texto(t: Option<String>) -> Option<Seq<char>> {
    match t {
        Some(t) => Some(t@),
        None => None,
    }
}

/// A label after its text is replaced where `texto` is given and its
/// visibility is set where `visivel` is given; a missing label stays missing.
pub open spec fn alterado(r: Option<RotuloVisao>, texto: Option<Seq<char>>, visivel: Option<bool>) -> Option<
    RotuloVisao,
> {
    match r {
        None => None,
        Some(r) => Some(
            RotuloVisao {
                texto: match texto {
                    Some(t) => t,
                    None => r.texto,
                },
                visivel: match visivel {
                    Some(v) => v,
                    None => r.visivel,
                },
                estilo: r.estilo,
            },
        ),
    }
}

/// The heading that names a round.
pub open spec fn texto_rodada(rodada: u32) -> Seq<char> {
    "Rodada "@ + decimal(rodada as nat)
}

/// Whether the match has ended.
pub open spec fn fim_de_jogo(e: EstadoTurno) -> bool {
    e == EstadoTurno::VitoriaJogador || e == EstadoTurno::VitoriaIA
}

/// Whether someone is taking a shot.
pub open spec fn em_turno(e: EstadoTurno) -> bool {
    e == EstadoTurno::TurnoJogador || e == EstadoTurno::TurnoIA
}

/// The text the phase label gets in state `e`, if any.
pub open spec fn texto_fase(e: EstadoTurno, rodada: u32) -> Option<Seq<char>> {
    match e {
        EstadoTurno::SelecaoDificuldade => Some("Selecione a Dificuldade"@),
        EstadoTurno::PosicionamentoJogador => Some("Fase de Posicionamento"@),
        EstadoTurno::TurnoJogador => Some(texto_rodada(rodada)),
        EstadoTurno::TurnoIA => Some(texto_rodada(rodada)),
        _ => None,
    }
}

/// The text the turn label gets in state `e`, if any.
pub open spec fn texto_turno(e: EstadoTurno) -> Option<Seq<char>> {
    match e {
        EstadoTurno::TurnoJogador => Some("Sua vez!"@),
        EstadoTurno::TurnoIA => Some("Turno da IA"@),
        _ => None,
    }
}

/// The text the result label gets in state `e`, if any.
pub open spec fn texto_resultado(e: EstadoTurno) -> Option<Seq<char>> {
    match e {
        EstadoTurno::VitoriaJogador => Some("Vitoria!"@),
        EstadoTurno::VitoriaIA => Some("Derrota!"@),
        _ => None,
    }
}

/// The visibility each label gets in state `e`: the phase label until the
/// match ends, the turn label during the turns, the result label once the
/// match has ended. While the computer places its fleet nothing changes.
pub open spec fn visibilidade(e: EstadoTurno, tipo: TipoRotulo) -> Option<bool> {
    if e == EstadoTurno::PosicionamentoIA {
        None
    } else {
        match tipo {
            TipoRotulo::Fase => Some(!fim_de_jogo(e)),
            TipoRotulo::Turno => Some(em_turno(e)),
            TipoRotulo::Resultado => Some(fim_de_jogo(e)),
        }
    }
}

/// The text label `tipo` gets in state `e` of round `rodada`, if any.
pub open spec fn texto_para(e: EstadoTurno, rodada: u32, tipo: TipoRotulo) -> Option<Seq<char>> {
    match tipo {
        TipoRotulo::Fase => texto_fase(e, rodada),
        TipoRotulo::Turno => texto_turno(e),
        TipoRotulo::Resultado => texto_resultado(e),
    }
}

/// What one update does to one label: the new text, if it gets one, and the
/// new visibility, if it gets one. What is `None` is left untouched.
pub struct AlteracaoRotulo {
    pub texto: Option<String>,
    pub visivel: Option<bool>,
}

/// What one update does to each of the three labels.
pub struct AlteracoesInterface {
    pub fase: AlteracaoRotulo,
    pub turno: AlteracaoRotulo,
    pub resultado: AlteracaoRotulo,
}

/// The three labels as the contracts see them.
pub struct InterfaceVisao {
    pub fase: Option<RotuloVisao>,
    pub turno: Option<RotuloVisao>,
    pub resultado: Option<RotuloVisao>,
}

impl InterfaceVisao {
    /// The labels after the interface shows state `e` of round `rodada`.
    pub open spec fn atualizada(self, e: EstadoTurno, rodada: u32) -> InterfaceVisao {
        InterfaceVisao {
            fase: alterado(
                self.fase,
                texto_para(e, rodada, TipoRotulo::Fase),
                visibilidade(e, TipoRotulo::Fase),
            ),
            turno: alterado(
                self.turno,
                texto_para(e, rodada, TipoRotulo::Turno),
                visibilidade(e, TipoRotulo::Turno),
            ),
            resultado: alterado(
                self.resultado,
                texto_para(e, rodada, TipoRotulo::Resultado),
                visibilidade(e, TipoRotulo::Resultado),
            ),
        }
    }

    /// The labels after the ones found in the scene are taken over, each
    /// laid out as its kind calls for; the result label starts hidden, and a
    /// label not found keeps what was there.
    pub open spec fn inicializada(
        self,
        fase: Option<RotuloCena>,
        turno: Option<RotuloCena>,
        resultado: Option<RotuloCena>,
        fonte_carregada: bool,
    ) -> InterfaceVisao {
        InterfaceVisao {
            fase: assumido(self.fase, fase, TipoRotulo::Fase, fonte_carregada),
            turno: assumido(self.turno, turno, TipoRotulo::Turno, fonte_carregada),
            resultado: assumido(self.resultado, resultado, TipoRotulo::Resultado, fonte_carregada),
        }
    }
}

/// What the battle interface shows: the phase, turn and result labels, each
/// of which the scene may lack.
pub struct GerenciadorInterface {
    pub label_fase: Option<Rotulo>,
    pub label_turno: Option<Rotulo>,
    pub label_resultado: Option<Rotulo>,
}

impl View for GerenciadorInterface {
    type V = InterfaceVisao;

    open spec fn view(&self) -> InterfaceVisao {
        InterfaceVisao {
            fase: visao_rotulo(self.label_fase),
            turno: visao_rotulo(self.label_turno),
            resultado: visao_rotulo(self.label_resultado),
        }
    }
}

/// Replaces the text of a present label where one is given and sets its
/// visibility where one is given.
fn alterar(rotulo: &mut Option<Rotulo>, texto: &Option<String>, visivel: Option<bool>)
    ensures
        visao_rotulo(*final(rotulo)) == alterado(
            visao_rotulo(*old(rotulo)),
            visao_texto(*texto),
            visivel,
        ),
{
    match rotulo {
        Some(r) => {
            match texto {
                Some(t) => {
                    r.texto = t.clone();
                },
                None => {},
            }
            match visivel {
                Some(v) => {
                    r.visivel = v;
                },
                None => {},
            }
        },
        None => {},
    }
}

impl GerenciadorInterface {
    /// An interface that holds no label yet.
    pub fn novo() -> (r: GerenciadorInterface)
        ensures
            r@ == (InterfaceVisao { fase: None, turno: None, resultado: None }),
    {
        GerenciadorInterface { label_fase: None, label_turno: None, label_resultado: None }
    }

    /// Takes over the labels found in the scene, keeping their text, and
    /// lays each out as its kind calls for (with the game's own font when it
    /// could be loaded); the result label is hidden until the match ends. A
    /// label not found leaves the one held before in place.
    pub fn inicializar(
        &mut self,
        fase: Option<RotuloCena>,
        turno: Option<RotuloCena>,
        resultado: Option<RotuloCena>,
        fonte_carregada: bool,
    )
        ensures
            final(self)@ == old(self)@.inicializada(fase, turno, resultado, fonte_carregada),
    {
        match fase {
            Some(c) => {
                self.label_fase = Some(
                    Rotulo {
                        texto: c.texto,
                        visivel: c.visivel,
                        estilo: estilo_rotulo(TipoRotulo::Fase, fonte_carregada),
                    },
                );
            },
            None => {},
        }
        match turno {
            Some(c) => {
                self.label_turno = Some(
                    Rotulo {
                        texto: c.texto,
                        visivel: c.visivel,
                        estilo: estilo_rotulo(TipoRotulo::Turno, fonte_carregada),
                    },
                );
            },
            None => {},
        }
        match resultado {
            Some(c) => {
                self.label_resultado = Some(
                    Rotulo {
                        texto: c.texto,
                        visivel: false,
                        estilo: estilo_rotulo(TipoRotulo::Resultado, fonte_carregada),
                    },
                );
            },
            None => {},
        }
    }

    /// Shows state `estado` of round `rodada` on the labels that exist, and
    /// returns the change made to each label, so that the scene can make the
    /// same changes and no others.
    pub fn atualizar(&mut self, estado: EstadoTurno, rodada: u32) -> (a: AlteracoesInterface)
        ensures
            final(self)@ == old(self)@.atualizada(estado, rodada),
            visao_texto(a.fase.texto) == texto_para(estado, rodada, TipoRotulo::Fase),
            a.fase.visivel == visibilidade(estado, TipoRotulo::Fase),
            visao_texto(a.turno.texto) == texto_para(estado, rodada, TipoRotulo::Turno),
            a.turno.visivel == visibilidade(estado, TipoRotulo::Turno),
            visao_texto(a.resultado.texto) == texto_para(estado, rodada, TipoRotulo::Resultado),
            a.resultado.visivel == visibilidade(estado, TipoRotulo::Resultado),
            final(self)@.fase == alterado(old(self)@.fase, visao_texto(a.fase.texto), a.fase.visivel),
            final(self)@.turno == alterado(
                old(self)@.turno,
                visao_texto(a.turno.texto),
                a.turno.visivel,
            ),
            final(self)@.resultado == alterado(
                old(self)@.resultado,
                visao_texto(a.resultado.texto),
                a.resultado.visivel,
            ),
    {
        let fase = alteracao_rotulo(estado, rodada, TipoRotulo::Fase);
        alterar(&mut self.label_fase, &fase.texto, fase.visivel);
        let turno = alteracao_rotulo(estado, rodada, TipoRotulo::Turno);
        alterar(&mut self.label_turno, &turno.texto, turno.visivel);
        let resultado = alteracao_rotulo(estado, rodada, TipoRotulo::Resultado);
        alterar(&mut self.label_resultado, &resultado.texto, resultado.visivel);
        AlteracoesInterface { fase, turno, resultado }
    }
}

/// What showing state `estado` of round `rodada` does to label `tipo`.
pub fn alteracao_rotulo(estado: EstadoTurno, rodada: u32, tipo: TipoRotulo) -> (a: AlteracaoRotulo)
    ensures
        visao_texto(a.texto) == texto_para(estado, rodada, tipo),
        a.visivel == visibilidade(estado, tipo),
{
    let texto = match tipo {
        TipoRotulo::Fase => match estado {
            EstadoTurno::SelecaoDificuldade => Some(String::from_str("Selecione a Dificuldade")),
            EstadoTurno::PosicionamentoJogador => Some(String::from_str("Fase de Posicionamento")),
            EstadoTurno::TurnoJogador | EstadoTurno::TurnoIA => {
                let mut titulo = String::from_str("Rodada ");
                escrever_decimal(&mut titulo, rodada);
                Some(titulo)
            },
            _ => None,
        },
        TipoRotulo::Turno => match estado {
            EstadoTurno::TurnoJogador => Some(String::from_str("Sua vez!")),
            EstadoTurno::TurnoIA => Some(String::from_str("Turno da IA")),
            _ => None,
        },
        TipoRotulo::Resultado => match estado {
            EstadoTurno::VitoriaJogador => Some(String::from_str("Vitoria!")),
            EstadoTurno::VitoriaIA => Some(String::from_str("Derrota!")),
            _ => None,
        },
    };
    let fim = estado == EstadoTurno::VitoriaJogador || estado == EstadoTurno::VitoriaIA;
    let turno = estado == EstadoTurno::TurnoJogador || estado == EstadoTurno::TurnoIA;
    let visivel = if estado == EstadoTurno::PosicionamentoIA {
        None
    } else {
        match tipo {
            TipoRotulo::Fase => Some(!fim),
            TipoRotulo::Turno => Some(turno),
            TipoRotulo::Resultado => Some(fim),
        }
    };
    AlteracaoRotulo { texto, visivel }
}

/// The layout of interface label `tipo`; see `spec_estilo_rotulo`.
pub fn estilo_rotulo(tipo: TipoRotulo, fonte_carregada: bool) -> (e: EstiloRotulo)
    ensures
        e == spec_estilo_rotulo(tipo, fonte_carregada),
{
    let (tamanho_fonte, tamanho_contorno, y, altura): (i32, i32, i32, i32) = match tipo {
        TipoRotulo::Fase => (24, 3, 20, 50),
        TipoRotulo::Turno => (18, 3, 70, 40),
        TipoRotulo::Resultado => (32, 4, 300, 60),
    };
    EstiloRotulo {
        texto: EstiloTexto {
            tamanho_fonte,
            cor_fonte: Cor::Preto,
            cor_contorno: Cor::Branco,
            tamanho_contorno,
        },
        x: 80,
        y,
        largura: 400,
        altura,
        indice_z: 100,
        centralizado: true,
        fonte_personalizada: fonte_carregada,
    }
}

/// The name of the scene node that holds each label.
pub fn nome_do_no(tipo: TipoRotulo) -> (r: String)
    ensures
        r@ == (match tipo {
            TipoRotulo::Fase => "LabelFase"@,
            TipoRotulo::Turno => "LabelTurno"@,
            TipoRotulo::Resultado => "LabelResultado"@,
        }),
{
    match tipo {
        TipoRotulo::Fase => String::from_str("LabelFase"),
        TipoRotulo::Turno => String::from_str("LabelTurno"),
        TipoRotulo::Resultado => String::from_str("LabelResultado"),
    }
}

/// The resource path of the game's own font.
pub fn caminho_fonte() -> (r: String)
    ensures
        r@ == "res://fonts/Retro Gaming.ttf"@,
{
    String::from_str("res://fonts/Retro Gaming.ttf")
}

/// The three labels share their left edge, width and drawing order, and are
/// stacked top to bottom without overlapping: phase, then turn, then result.
/// The game's font is used exactly when it could be loaded, and every other
/// setting is the same either way.
pub proof fn lei_rotulos_empilhados(fonte_carregada: bool)
    ensures
        ({
            let f = spec_estilo_rotulo(TipoRotulo::Fase, fonte_carregada);
            let t = spec_estilo_rotulo(TipoRotulo::Turno, fonte_carregada);
            let r = spec_estilo_rotulo(TipoRotulo::Resultado, fonte_carregada);
            &&& f.x == t.x && t.x == r.x
            &&& f.largura == t.largura && t.largura == r.largura
            &&& f.indice_z == t.indice_z && t.indice_z == r.indice_z
            &&& f.y + f.altura <= t.y
            &&& t.y + t.altura <= r.y
            &&& f.fonte_personalizada == fonte_carregada
            &&& t.fonte_personalizada == fonte_carregada
            &&& r.fonte_personalizada == fonte_carregada
        }),
        forall|tipo: TipoRotulo|
            #![trigger spec_estilo_rotulo(tipo, fonte_carregada)]
            spec_estilo_rotulo(tipo, fonte_carregada).texto == spec_estilo_rotulo(tipo, !fonte_carregada).texto
                && spec_estilo_rotulo(tipo, fonte_carregada).x == spec_estilo_rotulo(tipo, !fonte_carregada).x
                && spec_estilo_rotulo(tipo, fonte_carregada).y == spec_estilo_rotulo(tipo, !fonte_carregada).y
                && spec_estilo_rotulo(tipo, fonte_carregada).largura == spec_estilo_rotulo(
                tipo,
                !fonte_carregada,
            ).largura && spec_estilo_rotulo(tipo, fonte_carregada).altura == spec_estilo_rotulo(
                tipo,
                !fonte_carregada,
            ).altura && spec_estilo_rotulo(tipo, fonte_carregada).indice_z == spec_estilo_rotulo(
                tipo,
                !fonte_carregada,
            ).indice_z && spec_estilo_rotulo(tipo, fonte_carregada).centralizado
                == spec_estilo_rotulo(tipo, !fonte_carregada).centralizado,
{
}

/// During either side's turn the phase label reads `Rodada ` followed by the
/// round number written in decimal: the digits after the prefix are a
/// canonical numeral that reads back to the round itself.
pub proof fn lei_titulo_da_rodada(e: EstadoTurno, rodada: u32)
    requires
        em_turno(e),
    ensures
        texto_para(e, rodada, TipoRotulo::Fase) is Some,
        texto_para(e, rodada, TipoRotulo::Fase).unwrap().len() > 7,
        texto_para(e, rodada, TipoRotulo::Fase).unwrap().take(7) == "Rodada "@,
        numeral_canonico(texto_para(e, rodada, TipoRotulo::Fase).unwrap().skip(7)),
        valor_decimal(texto_para(e, rodada, TipoRotulo::Fase).unwrap().skip(7)) == rodada,
{
    reveal_strlit("Rodada ");
    lei_decimal_le_de_volta(rodada as nat);
    let t = texto_para(e, rodada, TipoRotulo::Fase).unwrap();
    assert(t == "Rodada "@ + decimal(rodada as nat));
    assert(t.take(7) =~= "Rodada "@);
    assert(t.skip(7) =~= decimal(rodada as nat));
}

/// The turn label says whose turn it is: "Sua vez!" on the player's turn and
/// "Turno da IA" on the computer's; outside the turns it keeps its text.
pub proof fn lei_turno_diz_de_quem_e_a_vez(v: InterfaceVisao, e: EstadoTurno, rodada: u32)
    ensures
        e == EstadoTurno::TurnoJogador ==> texto_para(e, rodada, TipoRotulo::Turno) == Some(
            "Sua vez!"@,
        ),
        e == EstadoTurno::TurnoIA ==> texto_para(e, rodada, TipoRotulo::Turno) == Some(
            "Turno da IA"@,
        ),
        !(e == EstadoTurno::TurnoJogador || e == EstadoTurno::TurnoIA) ==> (v.atualizada(
            e,
            rodada,
        ).turno matches Some(t) ==> v.turno matches Some(t0) && t.texto == t0.texto),
{
}

/// Every interface label, of every kind and with or without the game's font,
/// has its text centred in its box.
pub proof fn lei_rotulos_centralizados(tipo: TipoRotulo, fonte_carregada: bool)
    ensures
        spec_estilo_rotulo(tipo, fonte_carregada).centralizado,
{
}

/// Showing a state twice leaves the labels as showing it once.
pub proof fn lei_atualizar_idempotente(v: InterfaceVisao, e: EstadoTurno, rodada: u32)
    ensures
        v.atualizada(e, rodada).atualizada(e, rodada) == v.atualizada(e, rodada),
{
}

/// An update neither adds nor removes a label.
pub proof fn lei_atualizar_preserva_rotulos(v: InterfaceVisao, e: EstadoTurno, rodada: u32)
    ensures
        v.atualizada(e, rodada).fase is Some <==> v.fase is Some,
        v.atualizada(e, rodada).turno is Some <==> v.turno is Some,
        v.atualizada(e, rodada).resultado is Some <==> v.resultado is Some,
{
}

/// While the computer places its fleet the labels stay as they are.
pub proof fn lei_posicionamento_ia_nao_altera(v: InterfaceVisao, rodada: u32)
    ensures
        v.atualizada(EstadoTurno::PosicionamentoIA, rodada) == v,
{
}

/// In every other state the state alone decides what is visible, whatever was
/// shown before: the phase label until the match ends, the turn label exactly
/// during the turns, the result label exactly once the match has ended. So the
/// phase and result labels are never shown together.
pub proof fn lei_visibilidade(v: InterfaceVisao, e: EstadoTurno, rodada: u32)
    requires
        e != EstadoTurno::PosicionamentoIA,
    ensures
        v.atualizada(e, rodada).fase matches Some(f) ==> f.visivel == !(e
            == EstadoTurno::VitoriaJogador || e == EstadoTurno::VitoriaIA),
        v.atualizada(e, rodada).turno matches Some(t) ==> t.visivel == (e == EstadoTurno::TurnoJogador
            || e == EstadoTurno::TurnoIA),
        v.atualizada(e, rodada).resultado matches Some(r) ==> r.visivel == (e
            == EstadoTurno::VitoriaJogador || e == EstadoTurno::VitoriaIA),
        v.atualizada(e, rodada).fase matches Some(f) ==> (v.atualizada(e, rodada).resultado matches Some(
            r,
        ) ==> !(f.visivel && r.visivel)),
{
}

/// What is visible depends only on the latest update, and a text that update
/// sets replaces whatever an earlier update had put there; only while the
/// computer places its fleet does the earlier state show through.
pub proof fn lei_ultima_atualizacao_decide(
    v: InterfaceVisao,
    e1: EstadoTurno,
    r1: u32,
    e2: EstadoTurno,
    r2: u32,
)
    requires
        e2 != EstadoTurno::PosicionamentoIA,
    ensures
        v.atualizada(e1, r1).atualizada(e2, r2).fase matches Some(f) ==> f.visivel == !fim_de_jogo(
            e2,
        ),
        v.atualizada(e1, r1).atualizada(e2, r2).turno matches Some(t) ==> t.visivel == em_turno(e2),
        v.atualizada(e1, r1).atualizada(e2, r2).resultado matches Some(r) ==> r.visivel
            == fim_de_jogo(e2),
        texto_para(e2, r2, TipoRotulo::Fase) is Some ==> v.atualizada(e1, r1).atualizada(e2, r2).fase
            == v.atualizada(e2, r2).fase,
        texto_para(e2, r2, TipoRotulo::Turno) is Some ==> v.atualizada(e1, r1).atualizada(
            e2,
            r2,
        ).turno == v.atualizada(e2, r2).turno,
        texto_para(e2, r2, TipoRotulo::Resultado) is Some ==> v.atualizada(e1, r1).atualizada(
            e2,
            r2,
        ).resultado == v.atualizada(e2, r2).resultado,
{
}

/// Once the match has ended the result label names the winner: "Vitoria!"
/// when the player won, "Derrota!" when the computer did.
pub proof fn lei_resultado_nomeia_vencedor(v: InterfaceVisao, e: EstadoTurno, rodada: u32)
    requires
        fim_de_jogo(e),
    ensures
        v.atualizada(e, rodada).resultado matches Some(r) ==> r.texto == (if e == EstadoTurno::VitoriaJogador {
            "Vitoria!"@
        } else {
            "Derrota!"@
        }),
{
}

} // verus!
