//! A model of the state of the device, as far as the library's calls act on
//! it.
//!
//! The state of the device is global: which vertex array is active, which
//! buffer is bound at each target, which program draws, and what each buffer
//! holds. An upload goes to whatever buffer is bound at its target. The model
//! says what each call does to that state, so that what a batch of calls
//! leaves on the device can be stated and proved.

use crate::device::Call;
use crate::gl::{ARRAY_BUFFER, ELEMENT_ARRAY_BUFFER};
use vstd::prelude::*;

verus! {

/// The store of a buffer after `data` was written over it from the byte
/// `offset` on.
pub open spec fn patched(store: Seq<u8>, offset: int, data: Seq<u8>) -> Seq<u8> {
    store.subrange(0, offset) + data + store.subrange(offset + data.len(), store.len() as int)
}

/// The state of the device.
pub struct DeviceState {
    /// The active vertex array; zero for none.
    pub vertex_array: u32,
    /// The buffer that is bound for vertex data; zero for none.
    pub array_buffer: u32,
    /// The buffer that is bound for index data; zero for none.
    pub element_buffer: u32,
    /// What each buffer holds, by the buffer's name.
    pub stores: Map<u32, Seq<u8>>,
    /// The program that draws; zero for none.
    pub program: u32,
    /// How polygons are rasterised.
    pub polygon_mode: u32,
}

impl DeviceState {
    /// The buffer that is bound at `target`; zero for none.
    pub open spec fn bound(self, target: u32) -> u32 {
        if target == ARRAY_BUFFER {
            self.array_buffer
        } else if target == ELEMENT_ARRAY_BUFFER {
            self.element_buffer
        } else {
            0
        }
    }

    /// What the buffer named `buffer` holds; nothing before its first upload.
    pub open spec fn store(self, buffer: u32) -> Seq<u8> {
        if self.stores.dom().contains(buffer) {
            self.stores[buffer]
        } else {
            Seq::empty()
        }
    }

    /// The state after one call.
    ///
    /// A bind makes an object the active one of its kind. A full upload
    /// replaces the store of the buffer that is bound at its target. A
    /// partial upload overwrites a part of that store where the part lies
    /// within it, and is refused where not. With no buffer bound an upload is
    /// refused. The calls that make, compile, link, query, delete or draw
    /// leave this part of the state as it is.
    pub open spec fn after(self, call: Call) -> DeviceState {
        match call {
            Call::BindVertexArray { array } => DeviceState { vertex_array: array, ..self },
            Call::BindBuffer { target, buffer } => if target == ARRAY_BUFFER {
                DeviceState { array_buffer: buffer, ..self }
            } else if target == ELEMENT_ARRAY_BUFFER {
                DeviceState { element_buffer: buffer, ..self }
            } else {
                self
            },
            Call::BufferData { target, data, .. } => if self.bound(target) != 0 {
                DeviceState { stores: self.stores.insert(self.bound(target), data), ..self }
            } else {
                self
            },
            Call::BufferSubData { target, offset, data, .. } => {
                let buffer = self.bound(target);
                if buffer != 0 && 0 <= offset && offset + data.len() <= self.store(buffer).len() {
                    DeviceState {
                        stores: self.stores.insert(
                            buffer,
                            patched(self.store(buffer), offset as int, data),
                        ),
                        ..self
                    }
                } else {
                    self
                }
            },
            Call::UseProgram { program } => DeviceState { program, ..self },
            Call::PolygonMode { mode, .. } => DeviceState { polygon_mode: mode, ..self },
            _ => self,
        }
    }

    /// The state after a batch of calls, issued in order.
    pub open spec fn after_all(self, calls: Seq<Call>) -> DeviceState
        decreases calls.len(),
    {
        if calls.len() == 0 {
            self
        } else {
            self.after_all(calls.drop_last()).after(calls.last())
        }
    }
}

/// A batch that is issued in two parts leaves what the whole batch leaves.
pub proof fn lemma_after_all_concat(device: DeviceState, first: Seq<Call>, second: Seq<Call>)
    ensures
        device.after_all(first + second) == device.after_all(first).after_all(second),
    decreases second.len(),
{
    if second.len() == 0 {
        assert(first + second =~= first);
    } else {
        lemma_after_all_concat(device, first, second.drop_last());
        assert((first + second).drop_last() =~= first + second.drop_last());
    }
}

} // verus!
