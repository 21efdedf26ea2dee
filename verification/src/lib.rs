//! Runtime view of the objects mapped into a process: each object's program
//! headers as a sequence of segments, its load bias, and the GNU build id
//! found in its NOTE segments.

pub mod elf;
pub mod enumerate;
pub mod library;
pub mod note;
pub mod segment;

pub use crate::elf::{ProgramHeader, SegmentKind};
pub use crate::enumerate::{IterState, IterationControl, VisitOutcome};
pub use crate::library::{Bias, SharedLibrary, SharedLibraryId};
pub use crate::note::ByteOrder;
pub use crate::segment::{Segment, SegmentIter, Svma};
