pub mod gerenciador_interface;
pub mod gerenciador_turnos;
pub mod helpers;
