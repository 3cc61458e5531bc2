use crate::stream::Stream;
use vstd::prelude::*;

verus! {

/// A transport that can unpack a zlib stream on its way in.
pub trait ZCStream: Stream {
    /// From now on, what is read is unpacked first. Nothing changes where
    /// that is the case already.
    fn begin_zlib(&mut self);

    /// From now on, what is read is handed on as it comes. Nothing changes
    /// where that is the case already.
    fn end_zlib(&mut self);
}

} // verus!
