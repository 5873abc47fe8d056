// A terminal line editor core: a queue of device commands, a buffer of text
// lines, a view that paints the buffer into a viewport only after a change,
// and an editor that turns input events into caret moves, resizes and quits.
// The grading model of a climbing log lives beside it.

pub mod buffer;
pub mod climbing;
pub mod editor;
pub mod terminal;
pub mod view;
