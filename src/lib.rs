//! Application state engine of a terminal browser for BibLaTeX databases:
//! which area has the input, which records and keywords are visible, what
//! is selected, and what an overlay or a search returns to.

// Text and ordering helpers.
pub mod text;
pub mod sort;

// Records, keywords, selection and overlays.
pub mod entries;
pub mod keywords;
pub mod scroll;
pub mod search;
pub mod popup;
pub mod colors;

// The engine, its commands and the laws it keeps.
pub mod bibiman;
pub mod app;
pub mod laws;

// Loading, editing and adding records.
pub mod bibisetup;
pub mod bibtex;
pub mod editor;
pub mod weblink;
