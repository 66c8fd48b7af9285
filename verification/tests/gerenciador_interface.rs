use batalha_naval::application::gerenciador_interface::{
    alteracao_rotulo, caminho_fonte, estilo_rotulo, nome_do_no, GerenciadorInterface, Rotulo,
    RotuloCena, TipoRotulo,
};
use batalha_naval::application::gerenciador_turnos::EstadoTurno;
use batalha_naval::application::helpers::estilo::Cor;

fn rotulo(texto: &str, visivel: bool) -> RotuloCena {
    RotuloCena { texto: texto.to_string(), visivel }
}

fn pronto() -> GerenciadorInterface {
    let mut g = GerenciadorInterface::novo();
    g.inicializar(
        Some(rotulo("cena fase", false)),
        Some(rotulo("cena turno", true)),
        Some(rotulo("cena resultado", true)),
        true,
    );
    g
}

fn estado_de(r: &Option<Rotulo>) -> Option<(String, bool)> {
    r.as_ref().map(|r| (r.texto.clone(), r.visivel))
}

fn s(t: &str, v: bool) -> Option<(String, bool)> {
    Some((t.to_string(), v))
}

#[test]
fn novo_nao_tem_rotulos() {
    let g = GerenciadorInterface::novo();
    assert!(g.label_fase.is_none());
    assert!(g.label_turno.is_none());
    assert!(g.label_resultado.is_none());
}

#[test]
fn inicializar_guarda_rotulos_e_esconde_resultado() {
    let g = pronto();
    assert_eq!(estado_de(&g.label_fase), s("cena fase", false));
    assert_eq!(estado_de(&g.label_turno), s("cena turno", true));
    assert_eq!(estado_de(&g.label_resultado), s("cena resultado", false));
}

#[test]
fn inicializar_sem_rotulo_mantem_o_anterior() {
    let mut g = pronto();
    g.inicializar(None, Some(rotulo("outro", false)), None, false);
    assert_eq!(estado_de(&g.label_fase), s("cena fase", false));
    assert_eq!(estado_de(&g.label_turno), s("outro", false));
    assert_eq!(estado_de(&g.label_resultado), s("cena resultado", false));
}

#[test]
fn atualizar_selecao_dificuldade() {
    let mut g = pronto();
    g.atualizar(EstadoTurno::SelecaoDificuldade, 3);
    assert_eq!(estado_de(&g.label_fase), s("Selecione a Dificuldade", true));
    assert_eq!(estado_de(&g.label_turno), s("cena turno", false));
    assert_eq!(estado_de(&g.label_resultado), s("cena resultado", false));
}

#[test]
fn atualizar_posicionamento_jogador() {
    let mut g = pronto();
    g.atualizar(EstadoTurno::PosicionamentoJogador, 1);
    assert_eq!(estado_de(&g.label_fase), s("Fase de Posicionamento", true));
    assert_eq!(estado_de(&g.label_turno), s("cena turno", false));
    assert_eq!(estado_de(&g.label_resultado), s("cena resultado", false));
}

#[test]
fn atualizar_turno_jogador() {
    let mut g = pronto();
    g.atualizar(EstadoTurno::TurnoJogador, 1);
    assert_eq!(estado_de(&g.label_fase), s("Rodada 1", true));
    assert_eq!(estado_de(&g.label_turno), s("Sua vez!", true));
    assert_eq!(estado_de(&g.label_resultado), s("cena resultado", false));
}

#[test]
fn atualizar_turno_ia() {
    let mut g = pronto();
    g.atualizar(EstadoTurno::TurnoIA, 27);
    assert_eq!(estado_de(&g.label_fase), s("Rodada 27", true));
    assert_eq!(estado_de(&g.label_turno), s("Turno da IA", true));
    assert_eq!(estado_de(&g.label_resultado), s("cena resultado", false));
}

#[test]
fn atualizar_rodada_maxima() {
    let mut g = pronto();
    g.atualizar(EstadoTurno::TurnoJogador, u32::MAX);
    assert_eq!(estado_de(&g.label_fase), s("Rodada 4294967295", true));
}

#[test]
fn atualizar_vitoria_jogador() {
    let mut g = pronto();
    g.atualizar(EstadoTurno::TurnoJogador, 5);
    g.atualizar(EstadoTurno::VitoriaJogador, 5);
    assert_eq!(estado_de(&g.label_fase), s("Rodada 5", false));
    assert_eq!(estado_de(&g.label_turno), s("Sua vez!", false));
    assert_eq!(estado_de(&g.label_resultado), s("Vitoria!", true));
}

#[test]
fn atualizar_vitoria_ia() {
    let mut g = pronto();
    g.atualizar(EstadoTurno::VitoriaIA, 9);
    assert_eq!(estado_de(&g.label_fase), s("cena fase", false));
    assert_eq!(estado_de(&g.label_turno), s("cena turno", false));
    assert_eq!(estado_de(&g.label_resultado), s("Derrota!", true));
}

#[test]
fn atualizar_posicionamento_ia_nao_altera() {
    let mut g = pronto();
    g.atualizar(EstadoTurno::TurnoIA, 2);
    g.atualizar(EstadoTurno::PosicionamentoIA, 8);
    assert_eq!(estado_de(&g.label_fase), s("Rodada 2", true));
    assert_eq!(estado_de(&g.label_turno), s("Turno da IA", true));
    assert_eq!(estado_de(&g.label_resultado), s("cena resultado", false));
}

#[test]
fn atualizar_duas_vezes_igual_a_uma() {
    let estados = [
        EstadoTurno::SelecaoDificuldade,
        EstadoTurno::PosicionamentoJogador,
        EstadoTurno::PosicionamentoIA,
        EstadoTurno::TurnoJogador,
        EstadoTurno::TurnoIA,
        EstadoTurno::VitoriaJogador,
        EstadoTurno::VitoriaIA,
    ];
    for e in estados {
        let mut uma = pronto();
        uma.atualizar(e, 4);
        let mut duas = pronto();
        duas.atualizar(e, 4);
        duas.atualizar(e, 4);
        assert_eq!(estado_de(&uma.label_fase), estado_de(&duas.label_fase));
        assert_eq!(estado_de(&uma.label_turno), estado_de(&duas.label_turno));
        assert_eq!(estado_de(&uma.label_resultado), estado_de(&duas.label_resultado));
    }
}

#[test]
fn atualizar_sem_rotulos_nao_cria_rotulos() {
    let mut g = GerenciadorInterface::novo();
    g.atualizar(EstadoTurno::VitoriaJogador, 1);
    assert!(g.label_fase.is_none());
    assert!(g.label_turno.is_none());
    assert!(g.label_resultado.is_none());
}

#[test]
fn fase_e_resultado_nunca_visiveis_juntos() {
    let estados = [
        EstadoTurno::SelecaoDificuldade,
        EstadoTurno::PosicionamentoJogador,
        EstadoTurno::TurnoJogador,
        EstadoTurno::TurnoIA,
        EstadoTurno::VitoriaJogador,
        EstadoTurno::VitoriaIA,
    ];
    for e in estados {
        let mut g = pronto();
        g.atualizar(e, 1);
        let fase = g.label_fase.as_ref().unwrap().visivel;
        let resultado = g.label_resultado.as_ref().unwrap().visivel;
        assert!(fase != resultado);
    }
}

#[test]
fn estilo_do_rotulo_de_fase() {
    let e = estilo_rotulo(TipoRotulo::Fase, true);
    assert_eq!(e.texto.tamanho_fonte, 24);
    assert_eq!(e.texto.tamanho_contorno, 3);
    assert_eq!(e.texto.cor_fonte, Cor::Preto);
    assert_eq!(e.texto.cor_contorno, Cor::Branco);
    assert_eq!((e.x, e.y, e.largura, e.altura), (80, 20, 400, 50));
    assert_eq!(e.indice_z, 100);
    assert!(e.centralizado);
    assert!(e.fonte_personalizada);
}

#[test]
fn estilo_do_rotulo_de_turno() {
    let e = estilo_rotulo(TipoRotulo::Turno, false);
    assert_eq!(e.texto.tamanho_fonte, 18);
    assert_eq!(e.texto.tamanho_contorno, 3);
    assert_eq!((e.x, e.y, e.largura, e.altura), (80, 70, 400, 40));
    assert!(!e.fonte_personalizada);
}

#[test]
fn estilo_do_rotulo_de_resultado() {
    let e = estilo_rotulo(TipoRotulo::Resultado, true);
    assert_eq!(e.texto.tamanho_fonte, 32);
    assert_eq!(e.texto.tamanho_contorno, 4);
    assert_eq!((e.x, e.y, e.largura, e.altura), (80, 300, 400, 60));
    assert_eq!(e.indice_z, 100);
}

#[test]
fn nomes_dos_nos_e_fonte() {
    assert_eq!(nome_do_no(TipoRotulo::Fase), "LabelFase");
    assert_eq!(nome_do_no(TipoRotulo::Turno), "LabelTurno");
    assert_eq!(nome_do_no(TipoRotulo::Resultado), "LabelResultado");
    assert_eq!(caminho_fonte(), "res://fonts/Retro Gaming.ttf");
}

#[test]
fn alteracao_no_posicionamento_ia_e_vazia() {
    for tipo in [TipoRotulo::Fase, TipoRotulo::Turno, TipoRotulo::Resultado] {
        let a = alteracao_rotulo(EstadoTurno::PosicionamentoIA, 3, tipo);
        assert!(a.texto.is_none());
        assert!(a.visivel.is_none());
    }
}

#[test]
fn alteracao_no_turno_do_jogador() {
    let fase = alteracao_rotulo(EstadoTurno::TurnoJogador, 14, TipoRotulo::Fase);
    assert_eq!(fase.texto.as_deref(), Some("Rodada 14"));
    assert_eq!(fase.visivel, Some(true));
    let turno = alteracao_rotulo(EstadoTurno::TurnoJogador, 14, TipoRotulo::Turno);
    assert_eq!(turno.texto.as_deref(), Some("Sua vez!"));
    assert_eq!(turno.visivel, Some(true));
    let resultado = alteracao_rotulo(EstadoTurno::TurnoJogador, 14, TipoRotulo::Resultado);
    assert!(resultado.texto.is_none());
    assert_eq!(resultado.visivel, Some(false));
}

#[test]
fn alteracao_na_vitoria_da_ia() {
    let fase = alteracao_rotulo(EstadoTurno::VitoriaIA, 1, TipoRotulo::Fase);
    assert!(fase.texto.is_none());
    assert_eq!(fase.visivel, Some(false));
    let resultado = alteracao_rotulo(EstadoTurno::VitoriaIA, 1, TipoRotulo::Resultado);
    assert_eq!(resultado.texto.as_deref(), Some("Derrota!"));
    assert_eq!(resultado.visivel, Some(true));
}

#[test]
fn ultima_atualizacao_decide_o_que_aparece() {
    let mut a = pronto();
    a.atualizar(EstadoTurno::VitoriaJogador, 6);
    a.atualizar(EstadoTurno::TurnoIA, 7);
    let mut b = pronto();
    b.atualizar(EstadoTurno::TurnoIA, 7);
    assert_eq!(estado_de(&a.label_fase), estado_de(&b.label_fase));
    assert_eq!(estado_de(&a.label_turno), estado_de(&b.label_turno));
    assert_eq!(a.label_resultado.as_ref().unwrap().visivel, b.label_resultado.as_ref().unwrap().visivel);
    assert_eq!(estado_de(&a.label_resultado), s("Vitoria!", false));
}

#[test]
fn inicializar_aplica_estilo_de_cada_rotulo() {
    let g = pronto();
    assert_eq!(g.label_fase.as_ref().unwrap().estilo, estilo_rotulo(TipoRotulo::Fase, true));
    assert_eq!(g.label_turno.as_ref().unwrap().estilo, estilo_rotulo(TipoRotulo::Turno, true));
    assert_eq!(
        g.label_resultado.as_ref().unwrap().estilo,
        estilo_rotulo(TipoRotulo::Resultado, true)
    );
    let e = g.label_resultado.as_ref().unwrap().estilo;
    assert_eq!((e.texto.tamanho_fonte, e.y, e.altura), (32, 300, 60));
}

#[test]
fn inicializar_sem_fonte_e_sem_um_rotulo() {
    let mut g = GerenciadorInterface::novo();
    g.inicializar(Some(rotulo("f", true)), None, Some(rotulo("r", true)), false);
    assert!(g.label_turno.is_none());
    let f = g.label_fase.as_ref().unwrap().estilo;
    assert!(!f.fonte_personalizada);
    assert_eq!((f.texto.tamanho_fonte, f.x, f.y, f.largura, f.altura, f.indice_z), (24, 80, 20, 400, 50, 100));
    let r = g.label_resultado.as_ref().unwrap();
    assert!(!r.estilo.fonte_personalizada);
    assert!(!r.visivel);
}

#[test]
fn rotulos_empilhados_sem_sobreposicao() {
    for fonte in [false, true] {
        let f = estilo_rotulo(TipoRotulo::Fase, fonte);
        let t = estilo_rotulo(TipoRotulo::Turno, fonte);
        let r = estilo_rotulo(TipoRotulo::Resultado, fonte);
        assert!(f.y + f.altura <= t.y);
        assert!(t.y + t.altura <= r.y);
        assert_eq!((f.x, t.x, r.x), (80, 80, 80));
    }
}

#[test]
fn atualizar_devolve_as_alteracoes_feitas() {
    let mut g = pronto();
    let a = g.atualizar(EstadoTurno::VitoriaJogador, 3);
    assert!(a.fase.texto.is_none());
    assert_eq!(a.fase.visivel, Some(false));
    assert!(a.turno.texto.is_none());
    assert_eq!(a.turno.visivel, Some(false));
    assert_eq!(a.resultado.texto.as_deref(), Some("Vitoria!"));
    assert_eq!(a.resultado.visivel, Some(true));
    let b = g.atualizar(EstadoTurno::PosicionamentoIA, 3);
    assert!(b.fase.texto.is_none() && b.fase.visivel.is_none());
    assert!(b.resultado.texto.is_none() && b.resultado.visivel.is_none());
}
