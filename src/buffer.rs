//! The bookkeeping of a driver buffer: its handle and how many bytes the
//! driver has allocated for it.
use vstd::prelude::*;
use vstd::string::StringExecFns;

use crate::GolemError;

verus! {

/// A driver buffer, by handle, and the bytes allocated for it.
pub struct Buffer {
    id: u32,
    length: usize,
}

/// What the driver must do to store data in a buffer.
#[derive(Clone, Copy, Debug, PartialEq, Eq, Structural)]
pub struct BufferWrite {
    /// The new allocation size in bytes, where the buffer has to grow first.
    pub grow_to: Option<i32>,
    /// The bytes at the start of the old allocation that are copied into the
    /// new one when the buffer grows: all of them. 0 when it does not grow.
    pub keep: i32,
    /// The byte offset at which the data is stored.
    pub offset: i32,
}

/// The byte offset of element `start`.
pub open spec fn data_start(start: int, element_size: int) -> int {
    start * element_size
}

/// The byte just past data of `byte_len` bytes stored from element `start`.
pub open spec fn data_end(start: int, element_size: int, byte_len: int) -> int {
    data_start(start, element_size) + byte_len
}

impl Buffer {
    pub closed spec fn spec_id(&self) -> u32 {
        self.id
    }

    /// The bytes allocated for the buffer.
    pub closed spec fn spec_length(&self) -> nat {
        self.length as nat
    }

    /// The allocation always has a size that the driver can be told.
    pub open spec fn wf(&self) -> bool {
        self.spec_length() <= i32::MAX
    }

    /// A buffer that the driver has created and not yet allocated.
    pub fn new(id: u32) -> (r: Buffer)
        ensures
            r.wf(),
            r.spec_id() == id,
            r.spec_length() == 0,
    {
        Buffer { id, length: 0 }
    }

    pub fn id(&self) -> (r: u32)
        ensures
            r == self.spec_id(),
    {
        self.id
    }

    pub fn length(&self) -> (r: usize)
        ensures
            r == self.spec_length(),
    {
        self.length
    }

    /// Plans storing `byte_len` bytes from element `start`, for elements of
    /// `element_size` bytes. Where the data would reach past the allocation,
    /// the buffer grows to twice the end of the data, keeping what it held.
    /// Fails, changing nothing, when that size does not fit an `i32`.
    pub fn prepare_write(&mut self, start: usize, element_size: usize, byte_len: usize) -> (r:
        Result<BufferWrite, GolemError>)
        requires
            old(self).wf(),
        ensures
            final(self).wf(),
            final(self).spec_id() == old(self).spec_id(),
            r is Ok ==> data_end(start as int, element_size as int, byte_len as int)
                <= final(self).spec_length(),
            ({
                let end = data_end(start as int, element_size as int, byte_len as int);
                let offset = data_start(start as int, element_size as int);
                if end <= old(self).spec_length() {
                    &&& r == Ok::<BufferWrite, GolemError>(
                        BufferWrite { grow_to: None, keep: 0, offset: offset as i32 },
                    )
                    &&& final(self).spec_length() == old(self).spec_length()
                } else if 2 * end <= i32::MAX {
                    &&& r == Ok::<BufferWrite, GolemError>(
                        BufferWrite {
                            grow_to: Some((2 * end) as i32),
                            keep: old(self).spec_length() as i32,
                            offset: offset as i32,
                        },
                    )
                    &&& final(self).spec_length() == 2 * end
                } else {
                    &&& r is Err
                    &&& r->Err_0 is ContextError
                    &&& final(self).spec_length() == old(self).spec_length()
                }
            }),
    {
        let limit: usize = (i32::MAX / 2) as usize;
        let bounds = match start.checked_mul(element_size) {
            Some(first) => match first.checked_add(byte_len) {
                Some(end) => Some((first, end)),
                None => None,
            },
            None => None,
        };
        match bounds {
            Some((first, end)) => {
                if end <= self.length {
                    Ok(BufferWrite { grow_to: None, keep: 0, offset: first as i32 })
                } else if end <= limit {
                    let keep = self.length as i32;
                    let new_length = 2 * end;
                    self.length = new_length;
                    Ok(BufferWrite { grow_to: Some(new_length as i32), keep, offset: first as i32 })
                } else {
                    Err(GolemError::ContextError(String::from_str("buffer too large")))
                }
            },
            None => Err(GolemError::ContextError(String::from_str("buffer too large"))),
        }
    }
}

} // verus!
