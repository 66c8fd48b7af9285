pub mod tabuleiro;
