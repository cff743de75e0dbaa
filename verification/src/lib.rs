//! Decision logic of the Freelook desktop mail client: which navigations stay
//! inside the mail view, how settings are read and written, how downloaded
//! files are named, and which scripts are injected into the mail page.

pub mod text;
pub mod navigation;
pub mod settings;
pub mod downloads;
pub mod scripts;
pub mod shell;
