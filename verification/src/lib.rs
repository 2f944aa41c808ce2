//! Renders diagnostics as annotated excerpts of source text: numbered lines,
//! underlines below the annotated columns, elbows that lead to the messages,
//! brackets in the margin for annotations that run over several lines, and an
//! ellipsis where lines without annotations are left out.

pub mod diagnostic;
