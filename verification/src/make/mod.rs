//! What the bot does on each command and what it says back.
//!
//! A command never touches the store itself. It is given what the store
//! holds, decides, and hands back a [`common::Step`]: a reply, or statements
//! for the store together with the replies to give once the store has
//! answered.
pub mod avail;
pub mod cal;
pub mod common;
pub mod complete;
pub mod deadline;
pub mod digest;
pub mod done;
pub mod help;
pub mod intent;
pub mod list;
pub mod meta;
pub mod more;
pub mod new;
pub mod note;
pub mod parent;
pub mod parse_error;
pub mod project;
pub mod provision;
pub mod since;
pub mod start;
pub mod stop;
pub mod switch;

pub use crate::make::avail::avail;
pub use crate::make::cal::cal;
pub use crate::make::complete::complete;
pub use crate::make::deadline::deadline;
pub use crate::make::digest::digest;
pub use crate::make::done::done;
pub use crate::make::help::help;
pub use crate::make::intent::intent;
pub use crate::make::list::list;
pub use crate::make::meta::meta;
pub use crate::make::more::more;
pub use crate::make::new::new;
pub use crate::make::note::note;
pub use crate::make::parent::parent;
pub use crate::make::parse_error::parse_error;
pub use crate::make::project::project;
pub use crate::make::provision::provision;
pub use crate::make::since::since;
pub use crate::make::start::start;
pub use crate::make::stop::stop;
pub use crate::make::switch::switch;
