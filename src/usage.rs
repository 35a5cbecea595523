use vstd::prelude::*;

verus! {

/// Which operations a buffer may take part in.
#[derive(Clone, Copy, Debug, PartialEq, Eq, Structural)]
pub struct BufferUsage {
    /// Source of a transfer (copy) command.
    pub transfer_src: bool,
    /// Destination of a transfer (copy) command.
    pub transfer_dst: bool,
    /// Bound as a uniform buffer in a descriptor set.
    pub uniform_buffer: bool,
    /// Bound as a storage buffer in a descriptor set.
    pub storage_buffer: bool,
    /// Bound as an index buffer.
    pub index_buffer: bool,
    /// Bound as a vertex or instance buffer.
    pub vertex_buffer: bool,
}

impl BufferUsage {
    /// The usage with no flag set.
    pub open spec fn none() -> BufferUsage {
        BufferUsage {
            transfer_src: false,
            transfer_dst: false,
            uniform_buffer: false,
            storage_buffer: false,
            index_buffer: false,
            vertex_buffer: false,
        }
    }

    /// Every flag of either side.
    pub open spec fn spec_union(self, other: BufferUsage) -> BufferUsage {
        BufferUsage {
            transfer_src: self.transfer_src || other.transfer_src,
            transfer_dst: self.transfer_dst || other.transfer_dst,
            uniform_buffer: self.uniform_buffer || other.uniform_buffer,
            storage_buffer: self.storage_buffer || other.storage_buffer,
            index_buffer: self.index_buffer || other.index_buffer,
            vertex_buffer: self.vertex_buffer || other.vertex_buffer,
        }
    }

    /// Every flag of `other` is set in `self`.
    pub open spec fn spec_contains(self, other: BufferUsage) -> bool {
        &&& other.transfer_src ==> self.transfer_src
        &&& other.transfer_dst ==> self.transfer_dst
        &&& other.uniform_buffer ==> self.uniform_buffer
        &&& other.storage_buffer ==> self.storage_buffer
        &&& other.index_buffer ==> self.index_buffer
        &&& other.vertex_buffer ==> self.vertex_buffer
    }

    /// No flag is set.
    pub fn empty() -> (r: BufferUsage)
        ensures
            r == BufferUsage::none(),
    {
        BufferUsage {
            transfer_src: false,
            transfer_dst: false,
            uniform_buffer: false,
            storage_buffer: false,
            index_buffer: false,
            vertex_buffer: false,
        }
    }

    /// Only `transfer_src`.
    pub fn transfer_src() -> (r: BufferUsage)
        ensures
            r == (BufferUsage { transfer_src: true, ..BufferUsage::none() }),
    {
        BufferUsage { transfer_src: true, ..BufferUsage::empty() }
    }

    /// Only `transfer_dst`.
    pub fn transfer_dst() -> (r: BufferUsage)
        ensures
            r == (BufferUsage { transfer_dst: true, ..BufferUsage::none() }),
    {
        BufferUsage { transfer_dst: true, ..BufferUsage::empty() }
    }

    /// Only `uniform_buffer`.
    pub fn uniform_buffer() -> (r: BufferUsage)
        ensures
            r == (BufferUsage { uniform_buffer: true, ..BufferUsage::none() }),
    {
        BufferUsage { uniform_buffer: true, ..BufferUsage::empty() }
    }

    /// Only `storage_buffer`.
    pub fn storage_buffer() -> (r: BufferUsage)
        ensures
            r == (BufferUsage { storage_buffer: true, ..BufferUsage::none() }),
    {
        BufferUsage { storage_buffer: true, ..BufferUsage::empty() }
    }

    /// Only `index_buffer`.
    pub fn index_buffer() -> (r: BufferUsage)
        ensures
            r == (BufferUsage { index_buffer: true, ..BufferUsage::none() }),
    {
        BufferUsage { index_buffer: true, ..BufferUsage::empty() }
    }

    /// Only `vertex_buffer`.
    pub fn vertex_buffer() -> (r: BufferUsage)
        ensures
            r == (BufferUsage { vertex_buffer: true, ..BufferUsage::none() }),
    {
        BufferUsage { vertex_buffer: true, ..BufferUsage::empty() }
    }

    /// The flags of both sides together.
    pub fn union(&self, other: &BufferUsage) -> (r: BufferUsage)
        ensures
            r == self.spec_union(*other),
    {
        BufferUsage {
            transfer_src: self.transfer_src || other.transfer_src,
            transfer_dst: self.transfer_dst || other.transfer_dst,
            uniform_buffer: self.uniform_buffer || other.uniform_buffer,
            storage_buffer: self.storage_buffer || other.storage_buffer,
            index_buffer: self.index_buffer || other.index_buffer,
            vertex_buffer: self.vertex_buffer || other.vertex_buffer,
        }
    }

    /// Whether every flag of `other` is set in `self`.
    pub fn contains(&self, other: &BufferUsage) -> (r: bool)
        ensures
            r == self.spec_contains(*other),
    {
        (!other.transfer_src || self.transfer_src) && (!other.transfer_dst || self.transfer_dst)
            && (!other.uniform_buffer || self.uniform_buffer) && (!other.storage_buffer
            || self.storage_buffer) && (!other.index_buffer || self.index_buffer) && (
        !other.vertex_buffer || self.vertex_buffer)
    }
}

} // verus!
