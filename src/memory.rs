use vstd::prelude::*;
use crate::usage::BufferUsage;

verus! {

/// Plain data that a buffer can hold: copied bit for bit between host and
/// device.
pub trait BufferData: Copy {}

impl<T: Copy> BufferData for T {}

/// Where a buffer's memory lives.
#[derive(Clone, Copy, Debug, PartialEq, Eq, Structural)]
pub enum MemoryKind {
    /// Host-visible memory: the host may write and read it.
    Shared,
    /// Device-local memory: only the device reads and writes it.
    Device,
}

/// A buffer as it is asked of the allocator: where it lives, what it is used
/// for, and how many elements it holds.
#[derive(Clone, Copy, Debug, PartialEq, Eq, Structural)]
pub struct BufferInfo {
    pub kind: MemoryKind,
    pub usage: BufferUsage,
    pub len: u64,
}

/// Why a copy between two buffers is refused.
#[derive(Clone, Copy, Debug, PartialEq, Eq, Structural)]
pub enum CopyError {
    /// The source buffer lacks the `transfer_src` usage.
    MissingTransferSrc,
    /// The destination buffer lacks the `transfer_dst` usage.
    MissingTransferDst,
    /// The region to copy would be empty.
    EmptyRegion,
    /// Source and destination are the same buffer, so the regions overlap.
    SameBuffer,
}

/// The usage of the transient staging buffer of an upload.
pub open spec fn staging_usage_spec() -> BufferUsage {
    BufferUsage { transfer_src: true, ..BufferUsage::none() }
}

/// The usage of a device buffer that is filled by an upload: what was asked
/// for, and `transfer_dst`.
pub open spec fn upload_target_usage_spec(usage: BufferUsage) -> BufferUsage {
    usage.spec_union(BufferUsage { transfer_dst: true, ..BufferUsage::none() })
}

/// The usage of the transient staging buffer of an upload: `transfer_src`
/// alone.
pub fn staging_usage() -> (r: BufferUsage)
    ensures
        r == staging_usage_spec(),
{
    BufferUsage::transfer_src()
}

/// The usage of a device buffer that an upload fills.
pub fn upload_target_usage(usage: BufferUsage) -> (r: BufferUsage)
    ensures
        r == upload_target_usage_spec(usage),
{
    usage.union(&BufferUsage::transfer_dst())
}

/// The two buffers of a staged upload to device memory.
#[derive(Clone, Copy, Debug, PartialEq, Eq, Structural)]
pub struct StagedUpload {
    /// Host-visible buffer that receives the data.
    pub staging: BufferInfo,
    /// Device-local buffer that the staging buffer is copied into.
    pub target: BufferInfo,
}

/// The staged upload of `len` elements to a device buffer of usage `usage`.
pub open spec fn staged_upload_spec(usage: BufferUsage, len: u64) -> StagedUpload {
    StagedUpload {
        staging: BufferInfo { kind: MemoryKind::Shared, usage: staging_usage_spec(), len },
        target: BufferInfo { kind: MemoryKind::Device, usage: upload_target_usage_spec(usage), len },
    }
}

/// Plans the upload of `len` elements to device memory: a shared staging
/// buffer that only serves as a copy source, and a device buffer of the
/// requested usage that can also be copied into, both of `len` elements.
pub fn plan_staged_upload(usage: BufferUsage, len: u64) -> (plan: StagedUpload)
    ensures
        plan == staged_upload_spec(usage, len),
{
    StagedUpload {
        staging: BufferInfo { kind: MemoryKind::Shared, usage: staging_usage(), len },
        target: BufferInfo { kind: MemoryKind::Device, usage: upload_target_usage(usage), len },
    }
}

/// The outcome of a whole-buffer copy from `src` to `dst`: the number of
/// elements copied, the smaller of the two lengths, or why it is refused.
pub open spec fn copy_check(src: BufferInfo, dst: BufferInfo) -> Result<u64, CopyError> {
    if !src.usage.transfer_src {
        Err(CopyError::MissingTransferSrc)
    } else if !dst.usage.transfer_dst {
        Err(CopyError::MissingTransferDst)
    } else if src.len == 0 || dst.len == 0 {
        Err(CopyError::EmptyRegion)
    } else if src.len <= dst.len {
        Ok(src.len)
    } else {
        Ok(dst.len)
    }
}

/// Checks a whole-buffer copy from `src` to `dst` and gives the number of
/// elements it copies.
pub fn copy_region(src: &BufferInfo, dst: &BufferInfo) -> (r: Result<u64, CopyError>)
    ensures
        r == copy_check(*src, *dst),
{
    if !src.usage.transfer_src {
        Err(CopyError::MissingTransferSrc)
    } else if !dst.usage.transfer_dst {
        Err(CopyError::MissingTransferDst)
    } else if src.len == 0 || dst.len == 0 {
        Err(CopyError::EmptyRegion)
    } else if src.len <= dst.len {
        Ok(src.len)
    } else {
        Ok(dst.len)
    }
}


/// `len` copies of `zero`.
pub open spec fn filled<T>(len: nat, zero: T) -> Seq<T> {
    Seq::new(len, |i: int| zero)
}

/// `dst` after its first `n` elements were overwritten by those of `src`.
pub open spec fn copy_into<T>(src: Seq<T>, dst: Seq<T>, n: nat) -> Seq<T> {
    src.take(n as int) + dst.skip(n as int)
}

/// A buffer of the memory model: what was asked for, and its elements.
pub type BufferView<T> = (BufferInfo, Seq<T>);

/// What the host reads back from buffer `h`: its elements if it is shared,
/// nothing if it lives in device memory.
pub open spec fn read_back<T>(m: Seq<BufferView<T>>, h: int) -> Option<Seq<T>> {
    if m[h].0.kind == MemoryKind::Shared {
        Some(m[h].1)
    } else {
        None
    }
}

/// A shared buffer of usage `usage` holding `len` elements.
pub open spec fn shared_info(usage: BufferUsage, len: nat) -> BufferInfo {
    BufferInfo { kind: MemoryKind::Shared, usage, len: len as u64 }
}

/// The memory after a copy from buffer `src` to buffer `dst`, and its outcome.
pub open spec fn after_copy<T>(m: Seq<BufferView<T>>, src: int, dst: int) -> (
    Seq<BufferView<T>>,
    Result<u64, CopyError>,
) {
    match copy_check(m[src].0, m[dst].0) {
        Ok(n) => if src == dst {
            (m, Err(CopyError::SameBuffer))
        } else {
            (m.update(dst, (m[dst].0, copy_into(m[src].1, m[dst].1, n as nat))), Ok(n))
        },
        Err(e) => (m, Err(e)),
    }
}

/// The memory after `data` was uploaded to a new device buffer of usage
/// `usage`: the staging buffer holding `data`, then the device buffer, which
/// the copy from the staging buffer has filled.
pub open spec fn after_device_upload<T>(
    m: Seq<BufferView<T>>,
    usage: BufferUsage,
    data: Seq<T>,
    zero: T,
) -> Seq<BufferView<T>> {
    let plan = staged_upload_spec(usage, data.len() as u64);
    let staged = m.push((plan.staging, data)).push((plan.target, filled(data.len(), zero)));
    after_copy(staged, m.len() as int, m.len() as int + 1).0
}

/// Host-side model of device memory: the buffers that were allocated, in
/// order, each with what it was asked for and its elements. The buffer
/// protocol runs on it exactly as on a device, which makes its outcome
/// checkable without one.
pub struct MemoryModel<T> {
    buffers: Vec<(BufferInfo, Vec<T>)>,
}

impl<T: BufferData> MemoryModel<T> {
    /// The buffers, in order of allocation.
    pub closed spec fn buffers(&self) -> Seq<BufferView<T>> {
        Seq::new(self.buffers@.len(), |i: int| (self.buffers@[i].0, self.buffers@[i].1@))
    }

    /// Each buffer holds as many elements as were asked for.
    pub closed spec fn wf(&self) -> bool {
        forall|i: int|
            0 <= i < self.buffers@.len() ==> #[trigger] self.buffers@[i].1@.len()
                == self.buffers@[i].0.len
    }

    /// Memory with no buffer.
    pub fn new() -> (r: MemoryModel<T>)
        ensures
            r.wf(),
            r.buffers() == Seq::<BufferView<T>>::empty(),
    {
        let r = MemoryModel { buffers: Vec::new() };
        assert(r.buffers() =~= Seq::<BufferView<T>>::empty());
        r
    }

    /// Number of buffers allocated so far.
    pub fn buffer_count(&self) -> (n: usize)
        ensures
            n == self.buffers().len(),
    {
        self.buffers.len()
    }

    /// What buffer `h` was asked for with.
    pub fn info(&self, h: usize) -> (r: BufferInfo)
        requires
            h < self.buffers().len(),
        ensures
            r == self.buffers()[h as int].0,
    {
        self.buffers[h].0
    }

    /// Number of elements of buffer `h`.
    pub fn len(&self, h: usize) -> (r: u64)
        requires
            h < self.buffers().len(),
        ensures
            r == self.buffers()[h as int].0.len,
    {
        self.buffers[h].0.len
    }

    fn push_buffer(&mut self, info: BufferInfo, data: Vec<T>) -> (h: usize)
        requires
            old(self).wf(),
            data@.len() == info.len,
        ensures
            final(self).wf(),
            h == old(self).buffers().len(),
            final(self).buffers() == old(self).buffers().push((info, data@)),
    {
        let h = self.buffers.len();
        self.buffers.push((info, data));
        assert(self.buffers() =~= old(self).buffers().push((info, data@)));
        h
    }

    /// Allocates a buffer as `info` asks, every element set to `zero`, and
    /// gives its index.
    pub fn allocate(&mut self, info: BufferInfo, zero: T) -> (h: usize)
        requires
            old(self).wf(),
            0 < info.len <= usize::MAX,
        ensures
            final(self).wf(),
            h == old(self).buffers().len(),
            final(self).buffers() == old(self).buffers().push((info, filled(info.len as nat, zero))),
    {
        let n = info.len as usize;
        let mut data: Vec<T> = Vec::new();
        let mut i: usize = 0;
        while i < n
            invariant
                i <= n,
                n == info.len,
                data@ == filled(i as nat, zero),
            decreases n - i,
        {
            data.push(zero);
            i = i + 1;
            assert(data@ =~= filled(i as nat, zero));
        }
        self.push_buffer(info, data)
    }

    /// Creates a shared buffer of `len` elements set to `zero`.
    pub fn new_shared(&mut self, usage: BufferUsage, len: u64, zero: T) -> (h: usize)
        requires
            old(self).wf(),
            0 < len <= usize::MAX,
        ensures
            final(self).wf(),
            h == old(self).buffers().len(),
            final(self).buffers() == old(self).buffers().push(
                (BufferInfo { kind: MemoryKind::Shared, usage, len }, filled(len as nat, zero)),
            ),
    {
        self.allocate(BufferInfo { kind: MemoryKind::Shared, usage, len }, zero)
    }

    /// Creates a device buffer of `len` elements set to `zero`.
    pub fn new_device(&mut self, usage: BufferUsage, len: u64, zero: T) -> (h: usize)
        requires
            old(self).wf(),
            0 < len <= usize::MAX,
        ensures
            final(self).wf(),
            h == old(self).buffers().len(),
            final(self).buffers() == old(self).buffers().push(
                (BufferInfo { kind: MemoryKind::Device, usage, len }, filled(len as nat, zero)),
            ),
    {
        self.allocate(BufferInfo { kind: MemoryKind::Device, usage, len }, zero)
    }

    /// Creates a shared buffer that holds `data`, written by the host.
    pub fn shared_from_iter(&mut self, usage: BufferUsage, data: Vec<T>) -> (h: usize)
        requires
            old(self).wf(),
            data@.len() > 0,
        ensures
            final(self).wf(),
            h == old(self).buffers().len(),
            final(self).buffers() == old(self).buffers().push(
                (shared_info(usage, data@.len()), data@),
            ),
    {
        let len = data.len() as u64;
        self.push_buffer(BufferInfo { kind: MemoryKind::Shared, usage, len }, data)
    }

    /// Copies buffer `src` into buffer `dst`, as many elements as the shorter
    /// holds, and gives that number; a refused copy changes nothing.
    pub fn copy(&mut self, src: usize, dst: usize) -> (r: Result<u64, CopyError>)
        requires
            old(self).wf(),
            src < old(self).buffers().len(),
            dst < old(self).buffers().len(),
        ensures
            final(self).wf(),
            (final(self).buffers(), r) == after_copy(old(self).buffers(), src as int, dst as int),
    {
        let checked = copy_region(&self.buffers[src].0, &self.buffers[dst].0);
        let n = match checked {
            Ok(n) => n,
            Err(e) => {
                return Err(e);
            },
        };
        if src == dst {
            return Err(CopyError::SameBuffer);
        }
        let ghost m = self.buffers();
        let info = self.buffers[dst].0;
        let mut out: Vec<T> = Vec::new();
        let count = n as usize;
        let dst_len = self.buffers[dst].1.len();
        assert(self.buffers@[dst as int].1@.len() == info.len);
        assert(self.buffers@[src as int].1@.len() == self.buffers@[src as int].0.len);
        let mut i: usize = 0;
        while i < dst_len
            invariant
                i <= dst_len,
                dst_len == m[dst as int].1.len(),
                count <= dst_len,
                count <= m[src as int].1.len(),
                self.buffers() == m,
                src < self.buffers@.len(),
                dst < self.buffers@.len(),
                out@ == copy_into(m[src as int].1, m[dst as int].1, count as nat).take(i as int),
            decreases dst_len - i,
        {
            let x = if i < count {
                self.buffers[src].1[i]
            } else {
                self.buffers[dst].1[i]
            };
            out.push(x);
            i = i + 1;
            assert(out@ =~= copy_into(m[src as int].1, m[dst as int].1, count as nat).take(
                i as int,
            ));
        }
        assert(out@ =~= copy_into(m[src as int].1, m[dst as int].1, count as nat));
        let mut slot = (info, out);
        std::mem::swap(&mut self.buffers[dst], &mut slot);
        assert(self.buffers() =~= m.update(
            dst as int,
            (m[dst as int].0, copy_into(m[src as int].1, m[dst as int].1, n as nat)),
        ));
        Ok(n)
    }

    /// Reads buffer `h` back to the host: its elements if it is shared,
    /// `None` if it lives in device memory.
    pub fn read(&self, h: usize) -> (r: Option<Vec<T>>)
        requires
            h < self.buffers().len(),
        ensures
            match r {
                Some(v) => read_back(self.buffers(), h as int) == Some(v@),
                None => read_back(self.buffers(), h as int) == None::<Seq<T>>,
            },
    {
        if self.buffers[h].0.kind != MemoryKind::Shared {
            return None;
        }
        let src = &self.buffers[h].1;
        let mut out: Vec<T> = Vec::new();
        let mut i: usize = 0;
        while i < src.len()
            invariant
                i <= src@.len(),
                src@ == self.buffers()[h as int].1,
                out@ == src@.take(i as int),
            decreases src@.len() - i,
        {
            out.push(src[i]);
            i = i + 1;
            assert(out@ =~= src@.take(i as int));
        }
        assert(out@ =~= src@);
        Some(out)
    }

    /// Creates a device buffer that holds `data`: the data goes to a staging
    /// buffer with `transfer_src` usage, a device buffer of the requested
    /// usage and `transfer_dst` is allocated with the same length, and the
    /// staging buffer is copied into it. Gives the device buffer's index.
    pub fn device_from_iter(&mut self, usage: BufferUsage, data: Vec<T>, zero: T) -> (h: usize)
        requires
            old(self).wf(),
            data@.len() > 0,
        ensures
            final(self).wf(),
            h == old(self).buffers().len() + 1,
            final(self).buffers() == after_device_upload(old(self).buffers(), usage, data@, zero),
    {
        let len = data.len() as u64;
        let plan = plan_staged_upload(usage, len);
        let staging = self.push_buffer(plan.staging, data);
        let target = self.allocate(plan.target, zero);
        let _ = self.copy(staging, target);
        target
    }
}

/// A shared buffer made from `data` reads back as `data`.
pub proof fn lemma_shared_round_trip<T>(m: Seq<BufferView<T>>, usage: BufferUsage, data: Seq<T>)
    ensures
        read_back(m.push((shared_info(usage, data.len()), data)), m.len() as int) == Some(data),
{
}

/// A device buffer made from `data` holds `data`, element for element: it
/// has as many elements, and, when it was asked for with `transfer_src` so
/// that it can be copied from, copying it into a new shared buffer of that
/// length reads back as `data`.
pub proof fn lemma_device_round_trip<T>(
    m: Seq<BufferView<T>>,
    usage: BufferUsage,
    data: Seq<T>,
    zero: T,
)
    requires
        0 < data.len() <= u64::MAX,
    ensures
        after_device_upload(m, usage, data, zero)[m.len() as int + 1].1 == data,
        usage.transfer_src ==> ({
            let m1 = after_device_upload(m, usage, data, zero);
            let dev = m.len() as int + 1;
            let m2 = m1.push(
                (shared_info(BufferUsage { transfer_dst: true, ..BufferUsage::none() }, data.len()), filled(data.len(), zero)),
            );
            let (m3, r) = after_copy(m2, dev, m1.len() as int);
            &&& m1.len() == m.len() + 2
            &&& m1[dev].0.kind == MemoryKind::Device
            &&& m1[dev].0.len == data.len()
            &&& r == Ok::<u64, CopyError>(data.len() as u64)
            &&& read_back(m3, m1.len() as int) == Some(data)
        }),
{
    let plan = staged_upload_spec(usage, data.len() as u64);
    let n = data.len();
    let staged = m.push((plan.staging, data)).push((plan.target, filled(n, zero)));
    let src = m.len() as int;
    let dev = m.len() as int + 1;
    assert(staged[src] == (plan.staging, data));
    assert(staged[dev] == (plan.target, filled(n, zero)));
    assert(copy_check(plan.staging, plan.target) == Ok::<u64, CopyError>(n as u64));
    assert(copy_into(data, filled(n, zero), n) =~= data);
    let m1 = after_device_upload(m, usage, data, zero);
    assert(m1 == staged.update(dev, (plan.target, data)));
    assert(m1[dev] == (plan.target, data));
    let back = shared_info(BufferUsage { transfer_dst: true, ..BufferUsage::none() }, n);
    let m2 = m1.push((back, filled(n, zero)));
    let last = m1.len() as int;
    assert(m2[dev] == m1[dev]);
    assert(m2[last] == (back, filled(n, zero)));
    if usage.transfer_src {
        assert(copy_check(plan.target, back) == Ok::<u64, CopyError>(n as u64));
        let m3 = after_copy(m2, dev, last).0;
        assert(m3[last] == (back, data));
    }
}

} // verus!
