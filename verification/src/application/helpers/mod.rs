pub mod coordenadas;
pub mod cursor;
pub mod estilo;
