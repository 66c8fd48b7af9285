# batalha_naval

The interface logic of a Battleship game built on Godot, as a Verus-verified
library.

- `src/domain/tabuleiro.rs`: the board size, the cell size in pixels, and
  which tile-map cells belong to the board.
- `src/application/gerenciador_turnos.rs`: the states a match goes through.
- `src/application/gerenciador_interface.rs`: what the phase, turn and result
  labels show in each state, how they are laid out, and the laws that relate
  successive updates.
- `src/application/helpers/coordenadas.rs`: the column numbers and row
  letters drawn around a board.
- `src/application/helpers/cursor.rs`: how the cell cursor follows the mouse
  and when a click on a cell is reported.
- `src/texto.rs`: decimal numerals.

`app/` holds the Godot side: it reads the scene, calls the library, and
applies its decisions to the scene's nodes.
