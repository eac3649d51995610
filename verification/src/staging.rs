//! What an upload does to the contents of the buffers.
//!
//! [`Memory`] is a small model of the buffers that uploads touch: the
//! staging buffer as the host has written it and as the device sees it,
//! and the two device-local buffers. Its transition function gives each
//! [`UploadStep`] a meaning, and turns down a step that would be a misuse,
//! such as destroying a buffer while a copy from it may be running.
//! [`SimulatedMemory`] is the same thing on vectors of bytes, for trying
//! out a sequence of steps without a device.
//!
//! A copy takes effect when the queue has been waited on, not before: what
//! the destination holds between submission and that wait is not to be
//! relied on, and the model shows the old contents until then.

use crate::buffer::{copy_steps, upload_steps, write_steps, UploadStep};
use crate::command::BufferId;
use vstd::prelude::*;

verus! {

/// A copy that has been recorded.
#[derive(Clone, Copy, Debug, PartialEq, Eq, Structural)]
pub struct CopyRegion {
    pub dst: BufferId,
    pub src_offset: u64,
    pub dst_offset: u64,
    pub size: u64,
}

/// The contents of the buffers, and how far the upload has come.
pub struct Memory {
    /// The staging buffer as the host has written it; `None` while there
    /// is no staging buffer.
    pub written: Option<Seq<u8>>,
    /// The staging buffer as the device sees it: what has been flushed.
    pub staging: Seq<u8>,
    /// The vertex buffer; `None` while there is none.
    pub vertex: Option<Seq<u8>>,
    /// The index buffer; `None` while there is none.
    pub index: Option<Seq<u8>>,
    /// Whether the staging memory is mapped.
    pub mapped: bool,
    /// The copy that has been recorded and not yet completed.
    pub recorded: Option<CopyRegion>,
    /// Whether the recorded copy has been submitted and may be running.
    pub submitted: bool,
}

/// `len` zero bytes: what a new buffer is taken to hold.
pub open spec fn zeros(len: int) -> Seq<u8> {
    Seq::new(len as nat, |i: int| 0u8)
}

/// `base` with `len` bytes from `at` replaced by those of `patch` from
/// `from`.
pub open spec fn overlaid(base: Seq<u8>, at: int, patch: Seq<u8>, from: int, len: int) -> Seq<u8> {
    Seq::new(
        base.len(),
        |i: int|
            if at <= i < at + len {
                patch[from + i - at]
            } else {
                base[i]
            },
    )
}

impl Memory {
    /// No buffer exists and nothing is under way.
    pub open spec fn empty() -> Memory {
        Memory {
            written: None,
            staging: Seq::empty(),
            vertex: None,
            index: None,
            mapped: false,
            recorded: None,
            submitted: false,
        }
    }

    /// The contents of a device-local buffer.
    pub open spec fn device_local(self, buffer: BufferId) -> Option<Seq<u8>> {
        match buffer {
            BufferId::Staging => None,
            BufferId::Vertex => self.vertex,
            BufferId::Index => self.index,
        }
    }

    /// The memory with other contents in a device-local buffer.
    pub open spec fn with_device_local(self, buffer: BufferId, contents: Option<Seq<u8>>) -> Memory {
        match buffer {
            BufferId::Staging => self,
            BufferId::Vertex => Memory { vertex: contents, ..self },
            BufferId::Index => Memory { index: contents, ..self },
        }
    }

    /// Whether `region` lies within the staging buffer and within its
    /// destination.
    pub open spec fn in_bounds(self, region: CopyRegion) -> bool {
        &&& self.written is Some
        &&& region.src_offset + region.size <= self.staging.len()
        &&& self.device_local(region.dst) matches Some(d) && region.dst_offset + region.size
            <= d.len()
    }

    /// What creating a buffer does.
    pub open spec fn create(self, buffer: BufferId, size: u64) -> Option<Memory> {
        if size > usize::MAX {
            None
        } else if buffer is Staging {
            if self.written is None {
                Some(
                    Memory {
                        written: Some(zeros(size as int)),
                        staging: zeros(size as int),
                        ..self
                    },
                )
            } else {
                None
            }
        } else if self.device_local(buffer) is None {
            Some(self.with_device_local(buffer, Some(zeros(size as int))))
        } else {
            None
        }
    }

    /// What destroying a buffer does. Nothing may be destroyed while a
    /// copy may be running, and the staging buffer not while it is mapped.
    pub open spec fn destroy(self, buffer: BufferId) -> Option<Memory> {
        if self.submitted {
            None
        } else if buffer is Staging {
            if self.written is Some && !self.mapped {
                Some(Memory { written: None, staging: Seq::empty(), recorded: None, ..self })
            } else {
                None
            }
        } else if self.device_local(buffer) is Some {
            Some(Memory { recorded: None, ..self.with_device_local(buffer, None) })
        } else {
            None
        }
    }

    /// What the end of the queue-idle wait does: a submitted copy has
    /// taken place.
    pub open spec fn complete(self) -> Option<Memory> {
        if !self.submitted {
            Some(self)
        } else {
            match self.recorded {
                Some(region) => if self.in_bounds(region) {
                    Some(
                        Memory {
                            recorded: None,
                            submitted: false,
                            ..self.with_device_local(
                                region.dst,
                                Some(
                                    overlaid(
                                        self.device_local(region.dst).unwrap(),
                                        region.dst_offset as int,
                                        self.staging,
                                        region.src_offset as int,
                                        region.size as int,
                                    ),
                                ),
                            )
                        },
                    )
                } else {
                    None
                },
                None => None,
            }
        }
    }

    /// The memory after a step of an upload of `data`, or `None` where the
    /// step is a misuse.
    pub open spec fn step(self, step: UploadStep, data: Seq<u8>) -> Option<Memory> {
        match step {
            UploadStep::CreateBuffer { buffer, info } => self.create(buffer, info.size),
            UploadStep::MapMemory { buffer, offset, size } => match self.written {
                Some(w) => if buffer is Staging && !self.mapped && offset == 0 && size <= w.len() {
                    Some(Memory { mapped: true, ..self })
                } else {
                    None
                },
                None => None,
            },
            UploadStep::WriteMapped => match self.written {
                Some(w) => if self.mapped && data.len() <= w.len() {
                    Some(
                        Memory { written: Some(overlaid(w, 0, data, 0, data.len() as int)), ..self },
                    )
                } else {
                    None
                },
                None => None,
            },
            UploadStep::FlushMappedMemory { buffer, offset, size } => match self.written {
                Some(w) => if buffer is Staging && self.mapped && offset == 0 && size <= w.len()
                    && w.len() == self.staging.len() {
                    Some(Memory { staging: overlaid(self.staging, 0, w, 0, size as int), ..self })
                } else {
                    None
                },
                None => None,
            },
            UploadStep::UnmapMemory { buffer } => if buffer is Staging && self.mapped {
                Some(Memory { mapped: false, ..self })
            } else {
                None
            },
            UploadStep::RecordCopy { flags, src, dst, src_offset, dst_offset, size } => {
                let region = CopyRegion { dst, src_offset, dst_offset, size };
                if src is Staging && self.recorded is None && self.in_bounds(region) {
                    Some(Memory { recorded: Some(region), ..self })
                } else {
                    None
                }
            },
            UploadStep::Submit => if self.recorded is Some && !self.submitted {
                Some(Memory { submitted: true, ..self })
            } else {
                None
            },
            UploadStep::WaitQueueIdle => self.complete(),
            UploadStep::DestroyBuffer { buffer } => self.destroy(buffer),
        }
    }

    /// The memory after the steps in order, or `None` where one of them is
    /// a misuse.
    pub open spec fn run(self, steps: Seq<UploadStep>, data: Seq<u8>) -> Option<Memory>
        decreases steps.len(),
    {
        if steps.len() == 0 {
            Some(self)
        } else {
            match self.run(steps.drop_last(), data) {
                Some(before) => before.step(steps.last(), data),
                None => None,
            }
        }
    }
}

/// A run over the first `n + 1` steps is the run over the first `n`,
/// followed by one step.
pub proof fn lemma_run_unfolds(start: Memory, steps: Seq<UploadStep>, data: Seq<u8>, n: int)
    requires
        0 <= n < steps.len(),
    ensures
        start.run(steps.take(n + 1), data) == match start.run(steps.take(n), data) {
            Some(before) => before.step(steps[n], data),
            None => None,
        },
{
    assert(steps.take(n + 1).drop_last() =~= steps.take(n));
}

/// One more step of a run: where the first `n` steps have led to
/// `before` and step `n` leads from there to `next`, the first `n + 1`
/// steps lead to `next`.
proof fn lemma_run_extends(
    start: Memory,
    steps: Seq<UploadStep>,
    data: Seq<u8>,
    n: int,
    before: Memory,
    next: Memory,
)
    requires
        0 <= n < steps.len(),
        start.run(steps.take(n), data) == Some(before),
        before.step(steps[n], data) == Some(next),
    ensures
        start.run(steps.take(n + 1), data) == Some(next),
{
    lemma_run_unfolds(start, steps, data, n);
}

/// What is written reaches the memory. The four steps that write `data`
/// to the staging buffer, carried out while the buffer exists, is not
/// mapped and is at least as long as the data, are all accepted. After
/// them the first bytes of the buffer are the bytes of the data, for the
/// host and, because the range was flushed before it was unmapped, for
/// the device; the bytes after them are what they were; the memory is
/// unmapped; and nothing else has changed.
pub proof fn lemma_write_reaches_memory(start: Memory, data: Seq<u8>)
    requires
        start.written matches Some(w) && data.len() <= w.len() && w.len() == start.staging.len(),
        !start.mapped,
        data.len() <= u64::MAX,
    ensures
        ({
            let n = data.len() as int;
            let before = start.written.unwrap();
            let written = overlaid(before, 0, data, 0, n);
            let staging = overlaid(start.staging, 0, written, 0, n);
            &&& start.run(write_steps(BufferId::Staging, data.len() as u64), data) == Some(
                Memory { written: Some(written), staging, ..start },
            )
            &&& written.take(n) == data
            &&& staging.take(n) == data
            &&& written.skip(n) == before.skip(n)
            &&& staging.skip(n) == start.staging.skip(n)
        }),
{
    let n = data.len() as int;
    let steps = write_steps(BufferId::Staging, data.len() as u64);
    let before = start.written.unwrap();
    let written = overlaid(before, 0, data, 0, n);
    let staging = overlaid(start.staging, 0, written, 0, n);
    let s1 = Memory { mapped: true, ..start };
    let s2 = Memory { written: Some(written), ..s1 };
    let s3 = Memory { staging, ..s2 };
    let s4 = Memory { mapped: false, ..s3 };
    assert(steps.take(0) =~= Seq::<UploadStep>::empty());
    lemma_run_extends(start, steps, data, 0, start, s1);
    lemma_run_extends(start, steps, data, 1, s1, s2);
    lemma_run_extends(start, steps, data, 2, s2, s3);
    lemma_run_extends(start, steps, data, 3, s3, s4);
    assert(steps.take(4) =~= steps);
    assert(written.take(n) =~= data);
    assert(staging.take(n) =~= data);
    assert(written.skip(n) =~= before.skip(n));
    assert(staging.skip(n) =~= start.staging.skip(n));
}

/// What is copied reaches the destination. The three steps that copy the
/// first `size` bytes of the staging buffer to the start of a
/// device-local buffer, carried out while both buffers exist and are at
/// least that long and no copy is under way, are all accepted. After
/// them the first `size` bytes of the destination are those of the
/// staging buffer as the device sees it, bit for bit, and the bytes
/// after them are what they were. The staging buffer is unchanged, no
/// copy is left recorded or running, and nothing else has changed.
pub proof fn lemma_copy_reaches_destination(
    start: Memory,
    dst: BufferId,
    size: u64,
    data: Seq<u8>,
)
    requires
        start.written is Some,
        size <= start.staging.len(),
        start.device_local(dst) matches Some(d) && size <= d.len(),
        start.recorded is None,
        !start.submitted,
    ensures
        ({
            let before = start.device_local(dst).unwrap();
            let after = overlaid(before, 0, start.staging, 0, size as int);
            &&& start.run(copy_steps(dst, BufferId::Staging, size), data) == Some(
                start.with_device_local(dst, Some(after)),
            )
            &&& after.take(size as int) == start.staging.take(size as int)
            &&& after.skip(size as int) == before.skip(size as int)
        }),
{
    let steps = copy_steps(dst, BufferId::Staging, size);
    let region = CopyRegion { dst, src_offset: 0, dst_offset: 0, size };
    let before = start.device_local(dst).unwrap();
    let after = overlaid(before, 0, start.staging, 0, size as int);
    let s1 = Memory { recorded: Some(region), ..start };
    let s2 = Memory { submitted: true, ..s1 };
    let s3 = start.with_device_local(dst, Some(after));
    assert(steps.take(0) =~= Seq::<UploadStep>::empty());
    lemma_run_extends(start, steps, data, 0, start, s1);
    lemma_run_extends(start, steps, data, 1, s1, s2);
    lemma_run_extends(start, steps, data, 2, s2, s3);
    assert(steps.take(3) =~= steps);
    assert(after.take(size as int) =~= start.staging.take(size as int));
    assert(after.skip(size as int) =~= before.skip(size as int));
}

/// Whether an upload of `data` into `destination` can begin: neither the
/// staging buffer nor the destination exists, the data fit a buffer, and
/// nothing is under way.
pub open spec fn can_upload(start: Memory, destination: BufferId, data: Seq<u8>) -> bool {
    &&& !(destination is Staging)
    &&& data.len() <= usize::MAX
    &&& data.len() <= u64::MAX
    &&& start.written is None
    &&& start.device_local(destination) is None
    &&& !start.mapped
    &&& start.recorded is None
    &&& !start.submitted
}

/// The memory of an upload whose copy has been submitted and not yet
/// waited for: the staging buffer holds the data, for the host and for
/// the device, and the destination is as it was created.
pub open spec fn submitted_upload(start: Memory, destination: BufferId, data: Seq<u8>) -> Memory {
    Memory {
        written: Some(data),
        staging: data,
        mapped: false,
        recorded: Some(
            CopyRegion {
                dst: destination,
                src_offset: 0,
                dst_offset: 0,
                size: data.len() as u64,
            },
        ),
        submitted: true,
        ..start.with_device_local(destination, Some(zeros(data.len() as int)))
    }
}

/// Until the queue has been waited on, the destination does not show the
/// data. The first eight steps of an upload, up to the submission, are
/// all accepted and lead to [`submitted_upload`]; there the destination
/// is as it was created, and the staging buffer cannot be destroyed.
pub proof fn lemma_destination_untouched_before_wait(
    start: Memory,
    destination: BufferId,
    usage: u32,
    data: Seq<u8>,
)
    requires
        can_upload(start, destination, data),
    ensures
        start.run(upload_steps(destination, usage, data.len() as u64).take(8), data) == Some(
            submitted_upload(start, destination, data),
        ),
        submitted_upload(start, destination, data).destroy(BufferId::Staging) is None,
{
    let n = data.len() as int;
    let steps = upload_steps(destination, usage, data.len() as u64);
    let prefix = steps.take(8);
    let s1 = Memory { written: Some(zeros(n)), staging: zeros(n), ..start };
    let s2 = Memory { mapped: true, ..s1 };
    let s3 = Memory { written: Some(data), ..s2 };
    let s4 = Memory { staging: data, ..s3 };
    let s5 = Memory { mapped: false, ..s4 };
    let s6 = s5.with_device_local(destination, Some(zeros(n)));
    let s7 = Memory { recorded: submitted_upload(start, destination, data).recorded, ..s6 };
    let s8 = submitted_upload(start, destination, data);
    assert(prefix.take(0) =~= Seq::<UploadStep>::empty());
    lemma_run_extends(start, prefix, data, 0, start, s1);
    lemma_run_extends(start, prefix, data, 1, s1, s2);
    assert(overlaid(zeros(n), 0, data, 0, n) =~= data);
    lemma_run_extends(start, prefix, data, 2, s2, s3);
    lemma_run_extends(start, prefix, data, 3, s3, s4);
    lemma_run_extends(start, prefix, data, 4, s4, s5);
    lemma_run_extends(start, prefix, data, 5, s5, s6);
    lemma_run_extends(start, prefix, data, 6, s6, s7);
    lemma_run_extends(start, prefix, data, 7, s7, s8);
    assert(prefix.take(8) =~= prefix);
}

/// What goes in comes out. The steps of an upload, carried out on memory
/// in which neither the staging buffer nor the destination exists and
/// nothing is under way, are all accepted, and leave the destination with
/// exactly the bytes of the data, the staging buffer destroyed, and no
/// copy outstanding. Whatever else the memory held is as it was.
pub proof fn lemma_upload_round_trip(
    start: Memory,
    destination: BufferId,
    usage: u32,
    data: Seq<u8>,
)
    requires
        can_upload(start, destination, data),
    ensures
        start.run(upload_steps(destination, usage, data.len() as u64), data) == Some(
            Memory { staging: Seq::empty(), ..start.with_device_local(destination, Some(data)) },
        ),
{
    let n = data.len() as int;
    let steps = upload_steps(destination, usage, data.len() as u64);
    let s8 = submitted_upload(start, destination, data);
    let s9 = Memory {
        recorded: None,
        submitted: false,
        ..s8.with_device_local(destination, Some(data))
    };
    let s10 = Memory { written: None, staging: Seq::empty(), ..s9 };
    lemma_destination_untouched_before_wait(start, destination, usage, data);
    assert(overlaid(zeros(n), 0, data, 0, n) =~= data);
    lemma_run_extends(start, steps, data, 8, s8, s9);
    lemma_run_extends(start, steps, data, 9, s9, s10);
    assert(steps.take(10) =~= steps);
}

/// The buffers of an upload as vectors of bytes. See [`Memory`].
pub struct SimulatedMemory {
    written: Option<Vec<u8>>,
    staging: Vec<u8>,
    vertex: Option<Vec<u8>>,
    index: Option<Vec<u8>>,
    mapped: bool,
    recorded: Option<CopyRegion>,
    submitted: bool,
}

/// The bytes of a buffer that may not exist.
pub open spec fn contents(buffer: Option<Vec<u8>>) -> Option<Seq<u8>> {
    match buffer {
        Some(v) => Some(v@),
        None => None,
    }
}

/// `len` zero bytes.
fn zeroed(len: usize) -> (bytes: Vec<u8>)
    ensures
        bytes@ == zeros(len as int),
{
    let mut bytes: Vec<u8> = Vec::new();
    while bytes.len() < len
        invariant
            bytes.len() <= len,
            forall|i: int| 0 <= i < bytes.len() ==> bytes[i] == 0,
        decreases len - bytes.len(),
    {
        bytes.push(0);
    }
    bytes
}

/// A copy of `base` with `len` bytes from `at` replaced by those of
/// `patch` from `from`.
fn overlay(base: &Vec<u8>, at: usize, patch: &Vec<u8>, from: usize, len: usize) -> (out: Vec<u8>)
    requires
        at + len <= base.len(),
        from + len <= patch.len(),
    ensures
        out@ == overlaid(base@, at as int, patch@, from as int, len as int),
{
    let mut out: Vec<u8> = Vec::new();
    let mut i: usize = 0;
    while i < base.len()
        invariant
            at + len <= base.len(),
            from + len <= patch.len(),
            i <= base.len(),
            out.len() == i,
            forall|k: int|
                0 <= k < i ==> out[k] == overlaid(
                    base@,
                    at as int,
                    patch@,
                    from as int,
                    len as int,
                )[k],
        decreases base.len() - i,
    {
        if at <= i && i - at < len {
            out.push(patch[from + (i - at)]);
        } else {
            out.push(base[i]);
        }
        i += 1;
    }
    out
}

impl SimulatedMemory {
    /// The contents as a mathematical value.
    pub closed spec fn view(&self) -> Memory {
        Memory {
            written: contents(self.written),
            staging: self.staging@,
            vertex: contents(self.vertex),
            index: contents(self.index),
            mapped: self.mapped,
            recorded: self.recorded,
            submitted: self.submitted,
        }
    }

    /// Memory without any buffer.
    pub fn new() -> (memory: SimulatedMemory)
        ensures
            memory@ == Memory::empty(),
    {
        SimulatedMemory {
            written: None,
            staging: Vec::new(),
            vertex: None,
            index: None,
            mapped: false,
            recorded: None,
            submitted: false,
        }
    }

    /// The bytes that reading a device-local buffer back gives, or `None`
    /// where there is no such buffer.
    pub fn read_back(&self, buffer: BufferId) -> (bytes: Option<Vec<u8>>)
        ensures
            contents(bytes) == self@.device_local(buffer),
    {
        match buffer {
            BufferId::Staging => None,
            BufferId::Vertex => match &self.vertex {
                Some(v) => Some(overlay(v, 0, v, 0, 0)),
                None => None,
            },
            BufferId::Index => match &self.index {
                Some(v) => Some(overlay(v, 0, v, 0, 0)),
                None => None,
            },
        }
    }

    /// Whether a copy has been submitted and not yet waited for.
    pub fn is_busy(&self) -> (busy: bool)
        ensures
            busy == self@.submitted,
    {
        self.submitted
    }

    /// Whether the staging buffer exists.
    pub fn has_staging(&self) -> (exists: bool)
        ensures
            exists == self@.written is Some,
    {
        self.written.is_some()
    }

    fn create(&mut self, buffer: BufferId, size: u64) -> (done: bool)
        ensures
            match old(self)@.create(buffer, size) {
                Some(m) => done && final(self)@ == m,
                None => !done && final(self)@ == old(self)@,
            },
    {
        if size > usize::MAX as u64 {
            return false;
        }
        let len: usize = size as usize;
        match buffer {
            BufferId::Staging => {
                if self.written.is_some() {
                    return false;
                }
                self.written = Some(zeroed(len));
                self.staging = zeroed(len);
                true
            },
            BufferId::Vertex => {
                if self.vertex.is_some() {
                    return false;
                }
                self.vertex = Some(zeroed(len));
                true
            },
            BufferId::Index => {
                if self.index.is_some() {
                    return false;
                }
                self.index = Some(zeroed(len));
                true
            },
        }
    }

    fn destroy(&mut self, buffer: BufferId) -> (done: bool)
        ensures
            match old(self)@.destroy(buffer) {
                Some(m) => done && final(self)@ == m,
                None => !done && final(self)@ == old(self)@,
            },
    {
        if self.submitted {
            return false;
        }
        match buffer {
            BufferId::Staging => {
                if self.written.is_none() || self.mapped {
                    return false;
                }
                self.written = None;
                self.staging = Vec::new();
                self.recorded = None;
                true
            },
            BufferId::Vertex => {
                if self.vertex.is_none() {
                    return false;
                }
                self.vertex = None;
                self.recorded = None;
                true
            },
            BufferId::Index => {
                if self.index.is_none() {
                    return false;
                }
                self.index = None;
                self.recorded = None;
                true
            },
        }
    }

    fn in_bounds(&self, region: CopyRegion) -> (inside: bool)
        ensures
            inside == self@.in_bounds(region),
    {
        if self.written.is_none() {
            return false;
        }
        let src_len: u64 = self.staging.len() as u64;
        if region.size > src_len || region.src_offset > src_len - region.size {
            return false;
        }
        let dst_len: u64 = match region.dst {
            BufferId::Staging => { return false; },
            BufferId::Vertex => match &self.vertex {
                Some(v) => v.len() as u64,
                None => { return false; },
            },
            BufferId::Index => match &self.index {
                Some(v) => v.len() as u64,
                None => { return false; },
            },
        };
        region.size <= dst_len && region.dst_offset <= dst_len - region.size
    }

    fn complete(&mut self) -> (done: bool)
        ensures
            match old(self)@.complete() {
                Some(m) => done && final(self)@ == m,
                None => !done && final(self)@ == old(self)@,
            },
    {
        if !self.submitted {
            return true;
        }
        let region = match self.recorded {
            Some(r) => r,
            None => { return false; },
        };
        if !self.in_bounds(region) {
            return false;
        }
        assert(region.src_offset + region.size <= self.staging.len());
        match region.dst {
            BufferId::Staging => { return false; },
            BufferId::Vertex => {
                let copied = match &self.vertex {
                    Some(v) => {
                        let dst_len: usize = v.len();
                        overlay(
                            v,
                            region.dst_offset as usize,
                            &self.staging,
                            region.src_offset as usize,
                            region.size as usize,
                        )
                    },
                    None => { return false; },
                };
                self.vertex = Some(copied);
            },
            BufferId::Index => {
                let copied = match &self.index {
                    Some(v) => {
                        let dst_len: usize = v.len();
                        overlay(
                            v,
                            region.dst_offset as usize,
                            &self.staging,
                            region.src_offset as usize,
                            region.size as usize,
                        )
                    },
                    None => { return false; },
                };
                self.index = Some(copied);
            },
        }
        self.recorded = None;
        self.submitted = false;
        true
    }

    /// Carries out one step of an upload of `data`. A step that is a
    /// misuse is turned down and changes nothing. See [`Memory::step`].
    pub fn apply(&mut self, step: UploadStep, data: &Vec<u8>) -> (done: bool)
        ensures
            match old(self)@.step(step, data@) {
                Some(m) => done && final(self)@ == m,
                None => !done && final(self)@ == old(self)@,
            },
    {
        match step {
            UploadStep::CreateBuffer { buffer, info } => self.create(buffer, info.size),
            UploadStep::MapMemory { buffer, offset, size } => {
                let fits = match &self.written {
                    Some(w) => size <= w.len() as u64,
                    None => false,
                };
                match buffer {
                    BufferId::Staging => {
                        if fits && !self.mapped && offset == 0 {
                            self.mapped = true;
                            true
                        } else {
                            false
                        }
                    },
                    _ => false,
                }
            },
            UploadStep::WriteMapped => {
                let written = match &self.written {
                    Some(w) => if self.mapped && data.len() <= w.len() {
                        Some(overlay(w, 0, data, 0, data.len()))
                    } else {
                        None
                    },
                    None => None,
                };
                match written {
                    Some(w) => {
                        self.written = Some(w);
                        true
                    },
                    None => false,
                }
            },
            UploadStep::FlushMappedMemory { buffer, offset, size } => {
                let flushed = match &self.written {
                    Some(w) => if self.mapped && offset == 0 && size <= w.len() as u64 && w.len()
                        == self.staging.len() {
                        Some(overlay(&self.staging, 0, w, 0, size as usize))
                    } else {
                        None
                    },
                    None => None,
                };
                match buffer {
                    BufferId::Staging => match flushed {
                        Some(f) => {
                            self.staging = f;
                            true
                        },
                        None => false,
                    },
                    _ => false,
                }
            },
            UploadStep::UnmapMemory { buffer } => match buffer {
                BufferId::Staging => {
                    if self.mapped {
                        self.mapped = false;
                        true
                    } else {
                        false
                    }
                },
                _ => false,
            },
            UploadStep::RecordCopy { flags, src, dst, src_offset, dst_offset, size } => {
                let region = CopyRegion { dst, src_offset, dst_offset, size };
                match src {
                    BufferId::Staging => {
                        if self.recorded.is_none() && self.in_bounds(region) {
                            self.recorded = Some(region);
                            true
                        } else {
                            false
                        }
                    },
                    _ => false,
                }
            },
            UploadStep::Submit => {
                if self.recorded.is_some() && !self.submitted {
                    self.submitted = true;
                    true
                } else {
                    false
                }
            },
            UploadStep::WaitQueueIdle => self.complete(),
            UploadStep::DestroyBuffer { buffer } => self.destroy(buffer),
        }
    }

    /// Carries out the steps in order and stops at the first that is a
    /// misuse. See [`Memory::run`].
    pub fn run(&mut self, steps: &Vec<UploadStep>, data: &Vec<u8>) -> (done: bool)
        ensures
            done <==> old(self)@.run(steps@, data@) is Some,
            done ==> Some(final(self)@) == old(self)@.run(steps@, data@),
    {
        let mut i: usize = 0;
        while i < steps.len()
            invariant
                i <= steps.len(),
                old(self)@.run(steps@.take(i as int), data@) == Some(self@),
            decreases steps.len() - i,
        {
            proof {
                lemma_run_unfolds(old(self)@, steps@, data@, i as int);
            }
            if !self.apply(steps[i], data) {
                proof {
                    lemma_run_fails_for_good(old(self)@, steps@, data@, i + 1);
                    assert(steps@.take(steps.len() as int) =~= steps@);
                }
                return false;
            }
            i += 1;
        }
        assert(steps@.take(i as int) =~= steps@);
        true
    }
}

/// Once a step has been turned down, no later step is carried out.
pub proof fn lemma_run_fails_for_good(
    start: Memory,
    steps: Seq<UploadStep>,
    data: Seq<u8>,
    n: int,
)
    requires
        0 <= n <= steps.len(),
        start.run(steps.take(n), data) is None,
    ensures
        forall|k: int|
            n <= k <= steps.len() ==> (#[trigger] start.run(steps.take(k), data)) is None,
    decreases steps.len() - n,
{
    if n < steps.len() {
        lemma_run_unfolds(start, steps, data, n);
        lemma_run_fails_for_good(start, steps, data, n + 1);
    }
}

} // verus!
