//! Row polymorphism: extensible records whose fields are tracked at the
//! type level, so that functions can ask for "at least these fields".

pub mod campus;
pub mod ordo;
pub mod registrum;

pub use campus::{Confluo, Extendo, HabetCampum, Muto, Renomino, Restricto};
pub use ordo::{
    Bool, Carentia, Disiunctus, Extensio, Falsum, Ordo, OrdineConiunctio, OrdoOps, Restrictio,
    Unio, Verum,
};
pub use registrum::{Registrum, RegistrumExt};
