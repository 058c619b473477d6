//! The protocol of Commodore disk drives on the IEC bus, verified.
//!
//! The library holds what is to be said to a drive and what is to be made of
//! its answers: the character sets of the drive, its status line, the layout
//! of a directory, the signatures by which a model is known, the bookkeeping
//! of channels, and the order of the requests of every operation together
//! with what is undone when one of them fails. It does not touch the bus: the
//! operations of [`cbm::Cbm`] and [`drive::CbmDriveUnit`] name the next
//! request to perform, and the caller performs it.

pub mod bus;
pub mod cbm;
pub mod cbmtype;
pub mod channel;
pub mod disk;
pub mod drive;
pub mod error;
pub mod string;
pub mod text;
pub mod util;
pub mod validate;
