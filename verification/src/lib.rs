pub mod arith;
pub mod words;
pub mod fmt;
pub mod text;
pub mod geom;
pub mod checker;
pub mod blockout;
pub mod connect;
pub mod clock;
pub mod keylog;
pub mod hexcalc;
pub mod typer;
pub mod wide;
pub mod environ;
pub mod scroll;
pub mod dialogs;
pub mod popad;
pub mod menu;
pub mod layout;
pub mod randrect;
pub mod fonts;
pub mod owndraw;
pub mod panels;
