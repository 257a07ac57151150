//! Pearls counts the time that people spend on projects.
//!
//! Users log their work in a chat room with short commands ([`expr`],
//! [`make`]). From the time they mean to give to a project, the time they
//! can work per week, the work they have logged and the deadlines of the
//! projects, [`plan`] forecasts week by week when the remaining work will
//! happen. The other modules show what the store holds: [`timeline`],
//! [`workload`], [`calendar`], [`landing`] and [`tabular`], on top of the
//! HTML of [`html`] and the calendar arithmetic of [`time`] and [`cal`].
//!
//! Nothing here reads a clock, a file or a database but the few functions
//! that say so: everything else is a function of what it is given.
pub mod bot;
pub mod cal;
pub mod calendar;
pub mod expr;
pub mod helpers;
pub mod html;
pub mod landing;
pub mod make;
pub mod notif;
pub mod parser_ext;
pub mod plan;
pub mod sorting;
pub mod space_time;
pub mod store;
pub mod tabular;
pub mod text;
pub mod time;
pub mod timeline;
pub mod timeline2;
pub mod util;
pub mod workload;
