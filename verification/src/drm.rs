//! The DRM side of the driver: request handlers for user space and the GEM
//! object table.
use vstd::prelude::*;
use crate::error::{Error, Result};
use crate::memory::{GemHandle, GemObject};

pub mod flags;
pub mod ioctl;
pub mod param;

verus! {

/// GETPARAM request: the parameter asked for, and the value returned.
#[derive(Debug, Clone, Copy)]
pub struct GetParamRequest {
    pub param: u32,
    pub value: u64,
}

/// GEM_CREATE request: the size asked for, and the handle returned.
#[derive(Debug, Clone, Copy)]
pub struct GemCreateRequest {
    pub size: u64,
    pub handle: u32,
    pub flags: u32,
}

/// GEM_INFO request: the handle asked about, and its size and offset.
#[derive(Debug, Clone, Copy)]
pub struct GemInfoRequest {
    pub handle: u32,
    pub size: u64,
    pub offset: u64,
}

/// GEM_MMAP request: the handle and range to map, and the address returned.
#[derive(Debug, Clone, Copy)]
pub struct GemMmapRequest {
    pub handle: u32,
    pub offset: u64,
    pub size: u64,
    pub addr: u64,
}

/// An open file of the DRM device.
pub struct DrmFile {
    pub fd: u32,
    pub authenticated: bool,
}

impl DrmFile {
    /// A newly opened, unauthenticated file.
    pub fn new(fd: u32) -> (r: Self)
        ensures
            r.fd == fd,
            !r.authenticated,
    {
        Self { fd, authenticated: false }
    }

    /// Marks the file as authenticated.
    pub fn authenticate(&mut self)
        ensures
            final(self).authenticated,
            final(self).fd == old(self).fd,
    {
        self.authenticated = true;
    }

    /// Whether the file has been authenticated.
    pub fn is_authenticated(&self) -> (r: bool)
        ensures
            r == self.authenticated,
    {
        self.authenticated
    }
}

/// The abstract state of the DRM device: its identity and, for each GEM
/// handle in use, the size of its object.
pub struct DrmState {
    pub device_id: u16,
    pub vram_size: u64,
    pub driver_version: u32,
    pub firmware_version: u32,
    pub gem_sizes: Map<u32, usize>,
    pub gem_count: nat,
    pub next_handle: u32,
}

impl DrmState {
    /// Handles are issued in order from 1: those in use are exactly
    /// 1..next_handle, one object each.
    pub open spec fn consistent(self) -> bool {
        &&& 1 <= self.next_handle
        &&& self.gem_count + 1 == self.next_handle
        &&& forall|h: u32| #[trigger]
            self.gem_sizes.dom().contains(h) <==> 1 <= h < self.next_handle
    }

    /// The state after a GEM object of `size` bytes got the next handle.
    pub open spec fn with_new_object(self, size: usize) -> DrmState {
        DrmState {
            gem_sizes: self.gem_sizes.insert(self.next_handle, size),
            gem_count: self.gem_count + 1,
            next_handle: (self.next_handle + 1) as u32,
            ..self
        }
    }
}

/// The value GETPARAM reports for `param`, or `None` for an unknown parameter.
pub open spec fn param_value(s: DrmState, param: u32) -> Option<u64> {
    if param == param::CHIPSET_ID {
        Some(s.device_id as u64)
    } else if param == param::VRAM_SIZE {
        Some(s.vram_size)
    } else if param == param::DRIVER_VERSION {
        Some(s.driver_version as u64)
    } else if param == param::FIRMWARE_VERSION {
        Some(s.firmware_version as u64)
    } else {
        None
    }
}

/// Whether `offset..offset + size` lies inside the object with `handle`.
pub open spec fn mmap_fits(s: DrmState, handle: u32, offset: u64, size: u64) -> bool {
    &&& s.gem_sizes.dom().contains(handle)
    &&& offset + size <= s.gem_sizes[handle]
}

/// The DRM device: its identity and the GEM objects created through it.
pub struct NovaDrm {
    device_id: u16,
    vram_size: u64,
    driver_version: u32,
    firmware_version: u32,
    gem_objects: Vec<GemObject>,
    next_gem_handle: u32,
}

impl View for NovaDrm {
    type V = DrmState;

    closed spec fn view(&self) -> DrmState {
        DrmState {
            device_id: self.device_id,
            vram_size: self.vram_size,
            driver_version: self.driver_version,
            firmware_version: self.firmware_version,
            gem_sizes: Map::new(
                |h: u32| 1 <= h < self.next_gem_handle,
                |h: u32| self.gem_objects@[h - 1].gem_size(),
            ),
            gem_count: self.gem_objects@.len(),
            next_handle: self.next_gem_handle,
        }
    }
}

impl NovaDrm {
    /// The object table holds, at position i, the object with handle i + 1,
    /// and the next handle is one past the last.
    pub closed spec fn wf(&self) -> bool {
        &&& self.next_gem_handle as int == self.gem_objects@.len() + 1
        &&& forall|i: int|
            0 <= i < self.gem_objects@.len() ==> (#[trigger] self.gem_objects@[i]).gem_handle().0
                == i + 1
    }

    /// A well-formed device is consistent: handles 1..next_handle are in use,
    /// one object each.
    pub proof fn lemma_wf_consistent(&self)
        requires
            self.wf(),
        ensures
            self@.consistent(),
    {
    }

    /// A device with the given identity, driver version 1 and no GEM objects.
    pub fn new(device_id: u16, vram_size: u64, firmware_version: u32) -> (r: Self)
        ensures
            r.wf(),
            r@.consistent(),
            r@.device_id == device_id,
            r@.vram_size == vram_size,
            r@.driver_version == 1,
            r@.firmware_version == firmware_version,
            r@.gem_count == 0,
            r@.next_handle == 1,
            r@.gem_sizes == Map::<u32, usize>::empty(),
    {
        let r = Self {
            device_id,
            vram_size,
            driver_version: 1,
            firmware_version,
            gem_objects: Vec::new(),
            next_gem_handle: 1,
        };
        assert(r@.gem_sizes =~= Map::<u32, usize>::empty());
        r
    }

    /// Answers a GETPARAM request; `Err(Invalid)` for an unknown parameter,
    /// the request then unchanged.
    pub fn handle_getparam(&self, req: &mut GetParamRequest) -> (r: Result<()>)
        ensures
            final(req).param == old(req).param,
            match param_value(self@, old(req).param) {
                Some(v) => r == Ok::<(), Error>(()) && final(req).value == v,
                None => r == Err::<(), Error>(Error::Invalid) && final(req).value == old(
                    req,
                ).value,
            },
    {
        let p = req.param;
        let v: u64 = if p == param::CHIPSET_ID {
            self.device_id as u64
        } else if p == param::VRAM_SIZE {
            self.vram_size
        } else if p == param::DRIVER_VERSION {
            self.driver_version as u64
        } else if p == param::FIRMWARE_VERSION {
            self.firmware_version as u64
        } else {
            return Err(Error::Invalid);
        };
        req.value = v;
        Ok(())
    }

    /// Answers a GEM_CREATE request: a new object of the requested size gets
    /// the next handle, which is returned in the request. `Err(Invalid)` for
    /// a size of 0, the device and request then unchanged.
    pub fn handle_gem_create(&mut self, req: &mut GemCreateRequest) -> (r: Result<()>)
        requires
            old(self).wf(),
            old(req).size != 0 ==> old(self)@.next_handle < u32::MAX,
        ensures
            final(self).wf(),
            final(self)@.consistent(),
            final(req).size == old(req).size,
            final(req).flags == old(req).flags,
            old(req).size == 0 ==> {
                &&& r == Err::<(), Error>(Error::Invalid)
                &&& final(self)@ == old(self)@
                &&& final(req).handle == old(req).handle
            },
            old(req).size != 0 ==> {
                &&& r == Ok::<(), Error>(())
                &&& final(req).handle == old(self)@.next_handle
                &&& final(self)@ == old(self)@.with_new_object(old(req).size as usize)
            },
    {
        proof {
            self.lemma_wf_consistent();
        }
        if req.size == 0 {
            return Err(Error::Invalid);
        }
        let handle = GemHandle(self.next_gem_handle);
        self.next_gem_handle += 1;

        let gem_obj = GemObject::new(handle, req.size as usize);
        self.gem_objects.push(gem_obj);

        req.handle = handle.0;
        proof {
            assert(self@.gem_sizes =~= old(self)@.gem_sizes.insert(
                old(self)@.next_handle,
                old(req).size as usize,
            ));
            self.lemma_wf_consistent();
        }
        Ok(())
    }

    /// Position in the table of the first object with `handle`.
    fn find_gem(&self, handle: GemHandle) -> (r: Option<usize>)
        requires
            self.wf(),
        ensures
            match r {
                Some(i) => {
                    &&& i < self.gem_objects@.len()
                    &&& self.gem_objects@[i as int].gem_handle() == handle
                    &&& self@.gem_sizes.dom().contains(handle.0)
                    &&& self@.gem_sizes[handle.0] == self.gem_objects@[i as int].gem_size()
                },
                None => !self@.gem_sizes.dom().contains(handle.0),
            },
    {
        let mut i: usize = 0;
        while i < self.gem_objects.len()
            invariant
                self.wf(),
                i <= self.gem_objects@.len(),
                forall|j: int| 0 <= j < i ==> (#[trigger] self.gem_objects@[j]).gem_handle() != handle,
            decreases self.gem_objects@.len() - i,
        {
            if self.gem_objects[i].handle() == handle {
                return Some(i);
            }
            i = i + 1;
        }
        proof {
            if self@.gem_sizes.dom().contains(handle.0) {
                let j = handle.0 - 1;
                assert(self.gem_objects@[j].gem_handle().0 == handle.0);
            }
        }
        None
    }

    /// Answers a GEM_INFO request with the size of the object, offset 0;
    /// `Err(Invalid)` for an unknown handle, the request then unchanged.
    pub fn handle_gem_info(&self, req: &mut GemInfoRequest) -> (r: Result<()>)
        requires
            self.wf(),
        ensures
            final(req).handle == old(req).handle,
            self@.gem_sizes.dom().contains(old(req).handle) ==> {
                &&& r == Ok::<(), Error>(())
                &&& final(req).size == self@.gem_sizes[old(req).handle] as u64
                &&& final(req).offset == 0
            },
            !self@.gem_sizes.dom().contains(old(req).handle) ==> {
                &&& r == Err::<(), Error>(Error::Invalid)
                &&& *final(req) == *old(req)
            },
    {
        let handle = GemHandle(req.handle);
        let idx = match self.find_gem(handle) {
            Some(i) => i,
            None => return Err(Error::Invalid),
        };
        req.size = self.gem_objects[idx].size() as u64;
        req.offset = 0;
        Ok(())
    }

    /// Answers a GEM_MMAP request. `Err(Invalid)` for an unknown handle or a
    /// range `offset..offset + size` that does not lie inside the object,
    /// the request then unchanged; otherwise address 0 is returned.
    pub fn handle_gem_mmap(&self, req: &mut GemMmapRequest) -> (r: Result<()>)
        requires
            self.wf(),
        ensures
            ({
                let ok = mmap_fits(self@, old(req).handle, old(req).offset, old(req).size);
                &&& ok ==> r == Ok::<(), Error>(()) && *final(req) == GemMmapRequest {
                    addr: 0,
                    ..*old(req)
                }
                &&& !ok ==> r == Err::<(), Error>(Error::Invalid) && *final(req) == *old(req)
            }),
    {
        let handle = GemHandle(req.handle);
        let idx = match self.find_gem(handle) {
            Some(i) => i,
            None => return Err(Error::Invalid),
        };
        let object_size = self.gem_objects[idx].size() as u64;
        if req.offset > object_size || req.size > object_size - req.offset {
            return Err(Error::Invalid);
        }
        req.addr = 0;
        Ok(())
    }

    /// The PCI device id of the GPU.
    pub fn device_id(&self) -> (r: u16)
        ensures
            r == self@.device_id,
    {
        self.device_id
    }

    /// The amount of video memory in bytes.
    pub fn vram_size(&self) -> (r: u64)
        ensures
            r == self@.vram_size,
    {
        self.vram_size
    }

    /// The version of this driver.
    pub fn driver_version(&self) -> (r: u32)
        ensures
            r == self@.driver_version,
    {
        self.driver_version
    }

    /// The version of the loaded firmware.
    pub fn firmware_version(&self) -> (r: u32)
        ensures
            r == self@.firmware_version,
    {
        self.firmware_version
    }

    /// The number of GEM objects created.
    pub fn gem_object_count(&self) -> (r: usize)
        ensures
            r == self@.gem_count,
    {
        self.gem_objects.len()
    }
}

/// The operations of a DRM device driver.
pub trait DrmOps {
    /// Whether `ioctl(cmd, arg)` can be served without running out of
    /// resources the driver keeps count of.
    spec fn accepts_ioctl(&self, cmd: u32, arg: u64) -> bool;

    /// A file of the device was opened.
    fn open(&mut self, file: &mut DrmFile) -> Result<()>;

    /// A file of the device was closed.
    fn close(&mut self, file: &DrmFile) -> Result<()>;

    /// Serves ioctl `cmd` with argument `arg`.
    fn ioctl(&mut self, file: &DrmFile, cmd: u32, arg: u64) -> Result<()>
        requires
            old(self).accepts_ioctl(cmd, arg),
    ;
}

/// What `ioctl(cmd, arg)` returns on a device in state `s`, and the state
/// it leaves.
pub open spec fn ioctl_outcome(s: DrmState, cmd: u32, arg: u64) -> (Result<()>, DrmState) {
    if cmd == ioctl::GETPARAM {
        if param_value(s, arg as u32) is Some {
            (Ok(()), s)
        } else {
            (Err(Error::Invalid), s)
        }
    } else if cmd == ioctl::GEM_CREATE {
        if arg == 0 {
            (Err(Error::Invalid), s)
        } else {
            (Ok(()), s.with_new_object(arg as usize))
        }
    } else if cmd == ioctl::GEM_INFO {
        if s.gem_sizes.dom().contains(arg as u32) {
            (Ok(()), s)
        } else {
            (Err(Error::Invalid), s)
        }
    } else if cmd == ioctl::GEM_MMAP {
        if mmap_fits(s, arg as u32, 0, 0) {
            (Ok(()), s)
        } else {
            (Err(Error::Invalid), s)
        }
    } else {
        (Err(Error::NotSupported), s)
    }
}

impl DrmOps for NovaDrm {
    open spec fn accepts_ioctl(&self, cmd: u32, arg: u64) -> bool {
        &&& self.wf()
        &&& (cmd == ioctl::GEM_CREATE && arg != 0) ==> self@.next_handle < u32::MAX
    }

    fn open(&mut self, file: &mut DrmFile) -> (r: Result<()>)
        ensures
            r == Ok::<(), Error>(()),
            final(self)@ == old(self)@,
            final(self).wf() == old(self).wf(),
            final(file).fd == old(file).fd,
            final(file).authenticated == old(file).authenticated,
    {
        Ok(())
    }

    fn close(&mut self, file: &DrmFile) -> (r: Result<()>)
        ensures
            r == Ok::<(), Error>(()),
            final(self)@ == old(self)@,
            final(self).wf() == old(self).wf(),
    {
        Ok(())
    }

    fn ioctl(&mut self, file: &DrmFile, cmd: u32, arg: u64) -> (r: Result<()>)
        ensures
            final(self).wf(),
            (r, final(self)@) == ioctl_outcome(old(self)@, cmd, arg),
    {
        if cmd == ioctl::GETPARAM {
            let mut req = GetParamRequest { param: arg as u32, value: 0 };
            self.handle_getparam(&mut req)?;
            Ok(())
        } else if cmd == ioctl::GEM_CREATE {
            let mut req = GemCreateRequest { size: arg, handle: 0, flags: 0 };
            self.handle_gem_create(&mut req)?;
            Ok(())
        } else if cmd == ioctl::GEM_INFO {
            let mut req = GemInfoRequest { handle: arg as u32, size: 0, offset: 0 };
            self.handle_gem_info(&mut req)?;
            Ok(())
        } else if cmd == ioctl::GEM_MMAP {
            let mut req = GemMmapRequest { handle: arg as u32, offset: 0, size: 0, addr: 0 };
            self.handle_gem_mmap(&mut req)?;
            Ok(())
        } else {
            Err(Error::NotSupported)
        }
    }
}

/// A GEM handle is never reused: the handle a create hands out is not 0
/// and not in use, and the device stays consistent after the create.
pub proof fn lemma_create_gives_fresh_handle(s: DrmState, size: usize)
    requires
        s.consistent(),
        s.next_handle < u32::MAX,
    ensures
        s.next_handle != 0,
        !s.gem_sizes.dom().contains(s.next_handle),
        s.with_new_object(size).consistent(),
        s.with_new_object(size).next_handle > s.next_handle,
{
    let t = s.with_new_object(size);
    assert forall|h: u32| #[trigger] t.gem_sizes.dom().contains(h) <==> 1 <= h < t.next_handle by {
        if h == s.next_handle {
        } else {
            assert(t.gem_sizes.dom().contains(h) == s.gem_sizes.dom().contains(h));
        }
    }
}

/// What GEM_INFO reports of a create: after GEM_CREATE of `size` bytes
/// succeeds, GEM_INFO on the handle it returned succeeds with that size,
/// and every other object keeps its size.
pub proof fn lemma_info_after_create(s: DrmState, size: u64, h: u32)
    requires
        s.consistent(),
        size != 0,
        s.next_handle < u32::MAX,
    ensures
        ioctl_outcome(s, ioctl::GEM_CREATE, size).0 == Ok::<(), Error>(()),
        ioctl_outcome(ioctl_outcome(s, ioctl::GEM_CREATE, size).1, ioctl::GEM_INFO, s.next_handle as u64).0
            == Ok::<(), Error>(()),
        ioctl_outcome(s, ioctl::GEM_CREATE, size).1.gem_sizes[s.next_handle] == size as usize,
        s.gem_sizes.dom().contains(h) ==> ioctl_outcome(s, ioctl::GEM_CREATE, size).1.gem_sizes[h]
            == s.gem_sizes[h],
{
    lemma_create_gives_fresh_handle(s, size as usize);
    assert((s.next_handle as u64) as u32 == s.next_handle);
}

/// A refused ioctl leaves the device as it was.
pub proof fn lemma_refused_ioctl_changes_nothing(s: DrmState, cmd: u32, arg: u64)
    ensures
        ioctl_outcome(s, cmd, arg).0 is Err ==> ioctl_outcome(s, cmd, arg).1 == s,
{
}

/// Only GEM_CREATE changes the device.
pub proof fn lemma_only_create_changes_state(s: DrmState, cmd: u32, arg: u64)
    ensures
        cmd != ioctl::GEM_CREATE ==> ioctl_outcome(s, cmd, arg).1 == s,
{
}

/// What each ioctl command does, in terms of the request handlers:
/// GETPARAM succeeds exactly for parameters 0 to 3; GEM_CREATE has the
/// result and effect of `handle_gem_create` on a request of size `arg`;
/// GEM_INFO and GEM_MMAP succeed exactly when `arg` names an object in use;
/// any other command is `Err(NotSupported)`; only a successful GEM_CREATE
/// changes the device.
pub proof fn lemma_ioctl_commands(s: DrmState, arg: u64)
    ensures
        ioctl_outcome(s, ioctl::GETPARAM, arg) == (
            if (arg as u32) <= 3 {
                Ok::<(), Error>(())
            } else {
                Err(Error::Invalid)
            },
            s,
        ),
        arg == 0 ==> ioctl_outcome(s, ioctl::GEM_CREATE, arg) == (Err::<(), Error>(Error::Invalid), s),
        arg != 0 ==> ioctl_outcome(s, ioctl::GEM_CREATE, arg) == (
            Ok::<(), Error>(()),
            s.with_new_object(arg as usize),
        ),
        ioctl_outcome(s, ioctl::GEM_INFO, arg) == (
            if s.gem_sizes.dom().contains(arg as u32) {
                Ok::<(), Error>(())
            } else {
                Err(Error::Invalid)
            },
            s,
        ),
        ioctl_outcome(s, ioctl::GEM_MMAP, arg) == (
            if s.gem_sizes.dom().contains(arg as u32) {
                Ok::<(), Error>(())
            } else {
                Err(Error::Invalid)
            },
            s,
        ),
        forall|cmd: u32|
            cmd > 3 ==> #[trigger] ioctl_outcome(s, cmd, arg) == (
                Err::<(), Error>(Error::NotSupported),
                s,
            ),
{
    lemma_known_params(s, arg as u32);
}

/// GETPARAM knows exactly the parameters 0 to 3.
pub proof fn lemma_known_params(s: DrmState, param: u32)
    ensures
        param_value(s, param) is Some <==> param <= 3,
{
}

/// A call into the device, as one of its request handlers receives it.
pub enum DrmCall {
    GetParam { param: u32 },
    GemCreate { size: u64 },
    GemInfo { handle: u32 },
    GemMmap { handle: u32, offset: u64, size: u64 },
    Open,
    Close,
    Ioctl { cmd: u32, arg: u64 },
}

/// What a call returns and the state it leaves, as the handlers' contracts
/// state it.
pub open spec fn call_outcome(s: DrmState, c: DrmCall) -> (Result<()>, DrmState) {
    match c {
        DrmCall::GetParam { param } => ioctl_outcome(s, ioctl::GETPARAM, param as u64),
        DrmCall::GemCreate { size } => ioctl_outcome(s, ioctl::GEM_CREATE, size),
        DrmCall::GemInfo { handle } => ioctl_outcome(s, ioctl::GEM_INFO, handle as u64),
        DrmCall::GemMmap { handle, offset, size } => (
            if mmap_fits(s, handle, offset, size) {
                Ok(())
            } else {
                Err(Error::Invalid)
            },
            s,
        ),
        DrmCall::Open => (Ok(()), s),
        DrmCall::Close => (Ok(()), s),
        DrmCall::Ioctl { cmd, arg } => ioctl_outcome(s, cmd, arg),
    }
}

/// Whether a call asks for a new GEM object.
pub open spec fn is_create(c: DrmCall) -> bool {
    match c {
        DrmCall::GemCreate { .. } => true,
        DrmCall::Ioctl { cmd, .. } => cmd == ioctl::GEM_CREATE,
        _ => false,
    }
}

/// The state after the calls `cs`, one after the other.
pub open spec fn run_calls(s: DrmState, cs: Seq<DrmCall>) -> DrmState
    decreases cs.len(),
{
    if cs.len() == 0 {
        s
    } else {
        run_calls(call_outcome(s, cs[0]).1, cs.drop_first())
    }
}

/// How many of the calls `cs` are creates that succeeded.
pub open spec fn successful_creates(s: DrmState, cs: Seq<DrmCall>) -> nat
    decreases cs.len(),
{
    if cs.len() == 0 {
        0
    } else {
        (if is_create(cs[0]) && call_outcome(s, cs[0]).0 is Ok {
            1nat
        } else {
            0nat
        }) + successful_creates(call_outcome(s, cs[0]).1, cs.drop_first())
    }
}

/// The object count is the number of creates that succeeded: after any
/// calls, the device is consistent and holds one object more for each
/// successful create, and no other call changes it. Only the successful
/// creates are bounded, by the handles left below `u32::MAX`.
pub proof fn lemma_object_count(s: DrmState, cs: Seq<DrmCall>)
    requires
        s.consistent(),
        s.next_handle + successful_creates(s, cs) < u32::MAX,
    ensures
        run_calls(s, cs).consistent(),
        run_calls(s, cs).gem_count == s.gem_count + successful_creates(s, cs),
    decreases cs.len(),
{
    if cs.len() > 0 {
        let c = cs[0];
        let t = call_outcome(s, c).1;
        if is_create(c) && call_outcome(s, c).0 is Ok {
            let size: u64 = match c {
                DrmCall::GemCreate { size } => size,
                DrmCall::Ioctl { arg, .. } => arg,
                _ => 0,
            };
            lemma_create_gives_fresh_handle(s, size as usize);
        }
        lemma_object_count(t, cs.drop_first());
    }
}

/// GETPARAM reports the device's identity as the getters do: parameter 0
/// the PCI device id, 1 the video memory size, 2 the driver version and 3
/// the firmware version.
pub proof fn lemma_getparam_reports_identity(s: DrmState)
    ensures
        param_value(s, 0) == Some(s.device_id as u64),
        param_value(s, 1) == Some(s.vram_size),
        param_value(s, 2) == Some(s.driver_version as u64),
        param_value(s, 3) == Some(s.firmware_version as u64),
{
}

/// A mapping must lie inside its object: the whole object, and every range
/// ending at or before its end, can be mapped; no range reaching past its
/// end can; and nothing can be mapped of a handle not in use.
pub proof fn lemma_mmap_range(s: DrmState, handle: u32, offset: u64, size: u64)
    ensures
        s.gem_sizes.dom().contains(handle) && offset as int + size as int <= s.gem_sizes[handle] as int
            ==> mmap_fits(s, handle, offset, size),
        s.gem_sizes.dom().contains(handle) && offset as int + size as int > s.gem_sizes[handle] as int
            ==> !mmap_fits(s, handle, offset, size),
        !s.gem_sizes.dom().contains(handle) ==> !mmap_fits(s, handle, offset, size),
{
}

} // verus!
