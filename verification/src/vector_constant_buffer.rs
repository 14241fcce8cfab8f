//! A growable GPU buffer that is automatically resized to fit the data
//! written to it.  It never shrinks: a smaller write reuses the existing
//! allocation, so the allocated capacity is monotonically non-decreasing
//! while the reported length always equals the length of the last write.
//!
//! The buffer lives in a CPU-writable, GPU-visible heap, so a write lands
//! in GPU-visible memory directly; `contents` is that memory's semantic
//! content.

use vstd::prelude::*;

use crate::GpuError;
use crate::gpulib::GpuDevice;
use crate::resource::GpuBuffer;

verus! {

/// Which kind of CPU-writable heap the buffer is allocated from.
#[derive(Clone, Copy, Debug, PartialEq, Eq, Structural)]
pub enum BufferLocation {
    /// CPU memory; mapping is possible.
    Cpu,
    /// GPU memory; mapping is possible on hardware with resizable BAR.
    GpuUpload,
}

/// The element width of an index buffer.
#[derive(Clone, Copy, Debug, PartialEq, Eq, Structural)]
pub enum IndexFormat {
    U16,
    U32,
}

/// A vertex-buffer view spanning a buffer's entire current length.
#[derive(Clone, Copy, Debug, PartialEq, Eq, Structural)]
pub struct VertexBufferView {
    pub element_count: usize,
    pub element_size: usize,
}

/// An index-buffer view spanning a buffer's entire current length.
#[derive(Clone, Copy, Debug, PartialEq, Eq, Structural)]
pub struct IndexBufferView {
    pub element_count: usize,
    pub format: IndexFormat,
}

/// A growable buffer of `T` values backed by one GPU resource.
pub struct VectorConstantBuffer<T> {
    /// The current GPU allocation; its byte size is the capacity times
    /// the element size.
    pub resource: GpuBuffer,
    /// The semantic content of the GPU-visible memory: exactly the
    /// elements of the last upload.
    pub contents: Vec<T>,
    /// The capacity, in elements.
    pub max_size: usize,
    pub location: BufferLocation,
    pub name: Option<String>,
}

impl<T> VectorConstantBuffer<T> {
    /// The length never exceeds the capacity, and the GPU allocation is
    /// exactly as large as the capacity says.
    pub open spec fn wf(&self) -> bool {
        &&& self.contents@.len() <= self.max_size
        &&& self.resource.size_bytes as nat == self.max_size as nat * vstd::layout::size_of::<T>()
        &&& self.resource.state is Common
    }

    /// Constructs a buffer with space reserved for `initial_size`
    /// elements.  Reserving space does not affect the reported length,
    /// which starts at zero.  A reservation whose byte size does not fit
    /// the address space is rejected.
    pub fn new(device: &GpuDevice, initial_size: usize, location: BufferLocation, name: Option<
        String,
    >) -> (r: Result<Self, GpuError>)
        ensures
            r is Ok <==> initial_size * vstd::layout::size_of::<T>() <= usize::MAX,
            r is Err ==> r->Err_0 == GpuError::ResourceTooLarge,
            r is Ok ==> {
                let buffer = r->Ok_0;
                &&& buffer.wf()
                &&& buffer.contents@.len() == 0
                &&& buffer.max_size == initial_size
                &&& buffer.location == location
            },
    {
        let elem_size = core::mem::size_of::<T>();
        let bytes = match initial_size.checked_mul(elem_size) {
            Some(bytes) => bytes,
            None => {
                return Err(GpuError::ResourceTooLarge);
            },
        };
        let resource = device.create_buffer(bytes as u64);
        Ok(
            VectorConstantBuffer {
                resource,
                contents: Vec::new(),
                max_size: initial_size,
                location,
                name,
            },
        )
    }

    /// The number of elements currently stored in the buffer.
    pub fn len(&self) -> (r: usize)
        ensures
            r == self.contents@.len(),
    {
        self.contents.len()
    }

    pub fn is_empty(&self) -> (r: bool)
        ensures
            r == (self.contents@.len() == 0),
    {
        self.contents.len() == 0
    }

    /// The vertex-buffer view the buffer reports: its entire current
    /// length with the element type's stride.
    pub open spec fn spec_vertex_buffer_view(&self) -> VertexBufferView {
        VertexBufferView {
            element_count: self.contents@.len() as usize,
            element_size: vstd::layout::size_of_as_usize::<T>(),
        }
    }

    /// The index-buffer view the buffer reports: its entire current
    /// length with the given format.
    pub open spec fn spec_index_buffer_view(&self, format: IndexFormat) -> IndexBufferView {
        IndexBufferView { element_count: self.contents@.len() as usize, format }
    }

    /// A vertex-buffer view over the buffer's entire current length, with
    /// the stride of the buffer's element type.
    pub fn vertex_buffer_view(&self) -> (view: VertexBufferView)
        ensures
            view.element_count == self.contents@.len(),
            view.element_size as nat == vstd::layout::size_of::<T>(),
            view == self.spec_vertex_buffer_view(),
    {
        VertexBufferView {
            element_count: self.contents.len(),
            element_size: core::mem::size_of::<T>(),
        }
    }

    /// An index-buffer view over the buffer's entire current length, with
    /// the given index format.
    pub fn index_buffer_view(&self, format: IndexFormat) -> (view: IndexBufferView)
        ensures
            view.element_count == self.contents@.len(),
            view.format == format,
            view == self.spec_index_buffer_view(format),
    {
        IndexBufferView { element_count: self.contents.len(), format }
    }
}

impl<T: Copy> VectorConstantBuffer<T> {
    /// Copies new data into the buffer, replacing the previous content.
    /// A discarded previous allocation, if the write had to grow, is
    /// dropped here.
    pub fn upload(&mut self, device: &GpuDevice, data: &[T]) -> (r: Result<(), GpuError>)
        requires
            old(self).wf(),
        ensures
            final(self).wf(),
            r is Ok <==> (data@.len() <= old(self).max_size || data@.len()
                * vstd::layout::size_of::<T>() <= usize::MAX),
            r is Err ==> r->Err_0 == GpuError::ResourceTooLarge && *final(self) == *old(self),
            r is Ok ==> {
                &&& final(self).contents@ == data@
                &&& final(self).max_size == if data@.len() > old(self).max_size {
                    data@.len() as int
                } else {
                    old(self).max_size as int
                }
                &&& final(self).max_size >= old(self).max_size
                &&& data@.len() <= old(self).max_size ==> final(self).resource == old(self).resource
                &&& final(self).location == old(self).location
                &&& final(self).name == old(self).name
            },
    {
        match self.upload_deferred_delete(device, data) {
            Ok(_) => Ok(()),
            Err(e) => Err(e),
        }
    }

    /// Copies new data into the buffer while returning the potentially
    /// discarded previous allocation, for delete queues tied to frames in
    /// flight.  The old allocation is returned exactly when the new data
    /// does not fit the current capacity; the prior content is fully
    /// replaced either way, and any write up to the capacity succeeds
    /// without growing.
    pub fn upload_deferred_delete(&mut self, device: &GpuDevice, data: &[T]) -> (r: Result<
        Option<GpuBuffer>,
        GpuError,
    >)
        requires
            old(self).wf(),
        ensures
            final(self).wf(),
            r is Ok <==> (data@.len() <= old(self).max_size || data@.len()
                * vstd::layout::size_of::<T>() <= usize::MAX),
            r is Err ==> r->Err_0 == GpuError::ResourceTooLarge && *final(self) == *old(self),
            r is Ok ==> {
                let discarded = r->Ok_0;
                &&& final(self).contents@ == data@
                &&& final(self).max_size == if data@.len() > old(self).max_size {
                    data@.len() as int
                } else {
                    old(self).max_size as int
                }
                &&& final(self).max_size >= old(self).max_size
                &&& discarded is Some <==> data@.len() > old(self).max_size
                &&& discarded is Some ==> discarded->0 == old(self).resource
                &&& data@.len() <= old(self).max_size ==> final(self).resource == old(self).resource
                &&& final(self).location == old(self).location
                &&& final(self).name == old(self).name
            },
    {
        let deleted_resource: Option<GpuBuffer> = if self.max_size < data.len() {
            let elem_size = core::mem::size_of::<T>();
            let bytes = match data.len().checked_mul(elem_size) {
                Some(bytes) => bytes,
                None => {
                    return Err(GpuError::ResourceTooLarge);
                },
            };
            let mut replaced = device.create_buffer(bytes as u64);
            core::mem::swap(&mut self.resource, &mut replaced);
            self.max_size = data.len();
            Some(replaced)
        } else {
            None
        };

        let mut contents: Vec<T> = Vec::new();
        let mut i: usize = 0;
        while i < data.len()
            invariant
                i <= data@.len(),
                contents@ == data@.subrange(0, i as int),
            decreases data@.len() - i,
        {
            contents.push(data[i]);
            i += 1;
        }
        assert(contents@ == data@);
        self.contents = contents;

        Ok(deleted_resource)
    }
}

} // verus!
