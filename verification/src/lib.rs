//! A fixed-capacity, heap-allocated, homogeneous array container.
//!
//! A [`StaticHeapArray`] allocates room for exactly `cap` elements at
//! construction and never grows or shrinks afterwards. Elements are appended
//! one at a time up to the capacity, read by position, mutated in place, and
//! iterated in insertion order by a [`StaticHeapArrayIter`].

pub mod array;
pub mod errors;

pub use self::array::StaticHeapArray;
pub use self::array::StaticHeapArrayIter;
pub use self::errors::RunOutOfCapacity;
