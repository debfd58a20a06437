//! Rendering of analyzer findings as caret-annotated, colourised reports.
//!
//! `position` turns a character offset into line, column and excerpt
//! boundaries; `snippet` renders the excerpt with its header, caret and detail
//! lines; `report` joins a snippet with the labelled fields of a finding and
//! lays out what a whole batch of findings prints; `text` holds the character
//! level helpers the others share.

pub mod text;
pub mod position;
pub mod snippet;
pub mod report;
