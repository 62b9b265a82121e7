pub mod doc;
pub mod err;
pub mod font;
pub mod inch;
pub mod layout;
pub mod mrg;
pub mod pag;
pub mod sze;
pub mod text;
pub mod unit;

pub use crate::doc::{new_ansi_letter, par, Align, Doc, Elm, LineSpace, Par, Resolved, Style};
pub use crate::err::StringError;
pub use crate::inch::{In, PT_PER_IN, THOU_PER_IN};
pub use crate::layout::advance;
pub use crate::mrg::{mrg_in_1, Mrg};
pub use crate::sze::{ansi_letter, Sze};
pub use crate::text::replace_all;
pub use crate::unit::Unit;
