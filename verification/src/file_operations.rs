//! File operations: the bridge between a driver's typed interface and the
//! host's file-operation convention.
//!
//! A driver implements [`FileOperations`] and declares in a [`ToUse`] record
//! which optional operations it wires up.  [`FileOperationsVtable::build`]
//! turns that declaration into the fixed-shape dispatch table the host
//! expects.  The per-call trampolines ([`open_callback`] and its siblings)
//! are the functions those table slots stand for: each converts the host's
//! raw arguments into bounded, validated values, invokes the driver, and
//! converts the typed result back into the host's numeric convention.

use std::boxed::Box;
use std::sync::Arc;

use vstd::prelude::*;

use crate::error::{Error, KernelResult};
use crate::user_ptr::{UserSlicePtr, UserSlicePtrReader, UserSlicePtrWriter};

verus! {

/// The host's flag bit for non-blocking file access.
pub const O_NONBLOCK: u32 = 2048;

/// A non-owning view of the host's per-file state, valid for the duration of
/// one call.  It exposes the two attributes driver code may read: the
/// current byte offset and the blocking-mode flag.
pub struct File {
    f_pos: i64,
    f_flags: u32,
}

impl File {
    /// Captures the host file state a trampoline was invoked with.
    pub fn new(f_pos: i64, f_flags: u32) -> (r: File)
        ensures
            r.pos_spec() == f_pos,
            r.flags_spec() == f_flags,
    {
        File { f_pos, f_flags }
    }

    /// The file's position, as the spec sees it.
    pub closed spec fn pos_spec(self) -> i64 {
        self.f_pos
    }

    /// The file's flag word, as the spec sees it.
    pub closed spec fn flags_spec(self) -> u32 {
        self.f_flags
    }

    /// Returns the current seek/cursor position, in the host's unsigned
    /// reading of its signed position field.
    pub fn pos(&self) -> (r: u64)
        ensures
            r == self.pos_spec() as u64,
    {
        #[verifier::truncate]
        let p = self.f_pos as u64;
        p
    }

    /// Returns whether the file is in blocking mode: the non-blocking flag
    /// bit is clear.
    pub fn is_blocking(&self) -> (r: bool)
        ensures
            r == (self.flags_spec() & O_NONBLOCK == 0),
    {
        self.f_flags & O_NONBLOCK == 0
    }
}

/// Where a seek starts from.
pub enum SeekFrom {
    /// From the start of the file, at the given absolute offset.
    Start(u64),
    /// From the end of the file, by the given signed delta.
    End(i64),
    /// From the current position, by the given signed delta.
    Current(i64),
}

/// A released driver instance: the opaque, stable address a per-open
/// instance becomes when ownership crosses into host storage.
///
/// Between release and reclaim the host holds the value and this layer
/// touches it only through [`ReleasedPtr::borrow`].  Which strategy released
/// it — exclusive ownership or shared, reference-counted ownership — is part
/// of the address, and only the matching strategy may reclaim it.
pub struct ReleasedPtr<T> {
    inner: PtrRepr<T>,
}

enum PtrRepr<T> {
    Exclusive(Box<T>),
    Shared(Arc<T>),
}

impl<T> ReleasedPtr<T> {
    /// The instance the address stands for.
    pub closed spec fn pointee(self) -> T {
        match self.inner {
            PtrRepr::Exclusive(b) => *b,
            PtrRepr::Shared(a) => *a,
        }
    }

    /// A non-owning reference to the instance, for use between release and
    /// reclaim.
    pub fn borrow(&self) -> (r: &T)
        ensures
            *r == self.pointee(),
    {
        match &self.inner {
            PtrRepr::Exclusive(b) => &**b,
            PtrRepr::Shared(a) => &**a,
        }
    }
}

/// The ownership-transfer contract: how a per-open driver instance crosses
/// from owned, inside driver code, into opaque host storage and back,
/// exactly once.
///
/// `into_pointer` releases: it converts the owned value into a stable
/// address and gives up ownership without deallocating.  `from_pointer`
/// reclaims: it consumes an address this same strategy produced and
/// reconstructs the owned value.  Reclaiming an address the strategy did not
/// produce is a contract violation, not a recoverable error, so
/// `from_pointer` refuses such an address outright.
pub trait PointerWrapper<T>: Sized {
    /// The address `self` releases to.
    spec fn wrap_spec(self) -> ReleasedPtr<T>;

    /// Whether this strategy produced the address, so reclaiming it is a
    /// matching reclaim.
    spec fn can_reclaim(p: ReleasedPtr<T>) -> bool;

    /// The owned value reclaiming the address reconstructs.
    spec fn unwrap_spec(p: ReleasedPtr<T>) -> Self;

    /// The instance the wrapper holds and dereferences to.
    spec fn pointee_of(self) -> T;

    /// Release followed by exactly one reclaim reconstructs the original
    /// owned value.
    proof fn lemma_release_reclaim(self)
        ensures
            Self::can_reclaim(self.wrap_spec()),
            Self::unwrap_spec(self.wrap_spec()) == self,
    ;

    /// The released address stands for the instance it was released from:
    /// what a borrow sees between release and reclaim is the original
    /// instance.
    proof fn lemma_wrap_pointee(self)
        ensures
            self.wrap_spec().pointee() == self.pointee_of(),
    ;

    /// Releases the owned value into an opaque address.  Does not
    /// deallocate: the instance stays alive behind the address.
    fn into_pointer(self) -> (p: ReleasedPtr<T>)
        ensures
            p == self.wrap_spec(),
            Self::can_reclaim(p),
    ;

    /// Reclaims the owned value from an address this strategy released.
    fn from_pointer(p: ReleasedPtr<T>) -> (r: Self)
        requires
            Self::can_reclaim(p),
        ensures
            r == Self::unwrap_spec(p),
    ;
}

/// Exclusive ownership: a single releaser and a single reclaimer.  The
/// reclaim takes the storage back, so dropping the reclaimed box frees it.
impl<T> PointerWrapper<T> for Box<T> {
    closed spec fn wrap_spec(self) -> ReleasedPtr<T> {
        ReleasedPtr { inner: PtrRepr::Exclusive(self) }
    }

    closed spec fn can_reclaim(p: ReleasedPtr<T>) -> bool {
        p.inner is Exclusive
    }

    closed spec fn unwrap_spec(p: ReleasedPtr<T>) -> Self {
        match p.inner {
            PtrRepr::Exclusive(b) => b,
            PtrRepr::Shared(_) => arbitrary(),
        }
    }

    closed spec fn pointee_of(self) -> T {
        *self
    }

    proof fn lemma_release_reclaim(self) {
    }

    proof fn lemma_wrap_pointee(self) {
    }

    fn into_pointer(self) -> (p: ReleasedPtr<T>) {
        ReleasedPtr { inner: PtrRepr::Exclusive(self) }
    }

    fn from_pointer(p: ReleasedPtr<T>) -> (r: Self) {
        match p.inner {
            PtrRepr::Exclusive(b) => b,
            PtrRepr::Shared(_) => vstd::pervasive::unreached(),
        }
    }
}

/// Shared ownership with reference counting: release and reclaim move one
/// logical ownership unit, and the underlying storage goes away only when
/// the last unit is dropped.
impl<T> PointerWrapper<T> for Arc<T> {
    closed spec fn wrap_spec(self) -> ReleasedPtr<T> {
        ReleasedPtr { inner: PtrRepr::Shared(self) }
    }

    closed spec fn can_reclaim(p: ReleasedPtr<T>) -> bool {
        p.inner is Shared
    }

    closed spec fn unwrap_spec(p: ReleasedPtr<T>) -> Self {
        match p.inner {
            PtrRepr::Exclusive(_) => arbitrary(),
            PtrRepr::Shared(a) => a,
        }
    }

    closed spec fn pointee_of(self) -> T {
        *self
    }

    proof fn lemma_release_reclaim(self) {
    }

    proof fn lemma_wrap_pointee(self) {
    }

    fn into_pointer(self) -> (p: ReleasedPtr<T>) {
        ReleasedPtr { inner: PtrRepr::Shared(self) }
    }

    fn from_pointer(p: ReleasedPtr<T>) -> (r: Self) {
        match p.inner {
            PtrRepr::Exclusive(_) => vstd::pervasive::unreached(),
            PtrRepr::Shared(a) => a,
        }
    }
}

/// The capability flags: which optional operations a driver wires up.
///
/// Declared once per driver type and immutable afterward; the table builder
/// reads them to decide which trampolines to install.  `open` and `release`
/// are not flags — every device supports being opened and released.
#[derive(Clone, Copy, PartialEq, Eq, Structural, Debug)]
pub struct ToUse {
    /// Wires up the `read` slot.
    pub read: bool,
    /// Wires up the `write` slot.
    pub write: bool,
    /// Wires up the `llseek` slot.
    pub seek: bool,
    /// Wires up the `unlocked_ioctl` slot.
    pub ioctl: bool,
    /// Wires up the `compat_ioctl` slot.
    pub compat_ioctl: bool,
    /// Wires up the `fsync` slot.
    pub fsync: bool,
}

impl ToUse {
    /// The declaration that wires up no optional operation at all.
    pub fn none() -> (r: ToUse)
        ensures
            r == (ToUse {
                read: false,
                write: false,
                seek: false,
                ioctl: false,
                compat_ioctl: false,
                fsync: false,
            }),
    {
        ToUse { read: false, write: false, seek: false, ioctl: false, compat_ioctl: false, fsync: false }
    }
}

/// The greatest file offset this layer accepts: offsets must stay in the
/// non-negative range of the host's signed 64-bit position type.
pub const MAX_OFFSET: u64 = 0x7fff_ffff_ffff_ffff;

/// The contract a driver implements: one method per operation of the host's
/// file convention, each optional method defaulting to "unsupported".
///
/// File descriptors may be used from many execution contexts concurrently,
/// so an implementing type must be `Sync`; every call gets only `&self`, and
/// any interior mutability is the driver's own business.
///
/// The contracts here are what the trampolines rely on and what driver code
/// must live up to: errors carry valid host codes, bounded views only ever
/// advance, and returned offsets and codes fit the host's signed domains.
pub trait FileOperations: Sync + Sized {
    /// The ownership strategy used to hold instances of this driver while
    /// they live in host storage.
    type Wrapper: PointerWrapper<Self>;

    /// The declared capability flags, as the spec sees them.  A driver that
    /// declares optional operations overrides this together with
    /// [`FileOperations::to_use`]; the default declares none.
    open spec fn to_use_spec() -> ToUse {
        ToUse {
            read: false,
            write: false,
            seek: false,
            ioctl: false,
            compat_ioctl: false,
            fsync: false,
        }
    }

    /// The declared capability flags.
    fn to_use() -> (r: ToUse)
        ensures
            r == Self::to_use_spec(),
    ;

    /// Creates a new per-open instance of this device.
    fn open() -> (r: KernelResult<Self::Wrapper>)
        ensures
            r matches Err(e) ==> e.wf(),
    ;

    /// Cleans up after the last reference to the file goes away.  The
    /// instance is moved in, so it is freed unless the driver stores it
    /// elsewhere.
    fn release(_obj: Self::Wrapper, _file: &File) {
    }

    /// Reads data from this device into the given bounded writer.  The
    /// trampoline computes the transferred byte count from the writer's
    /// remaining length afterward, so the driver only reports success or
    /// failure.
    fn read(&self, file: &File, data: &mut UserSlicePtrWriter, offset: u64) -> (r: KernelResult<
        (),
    >)
        requires
            offset <= MAX_OFFSET,
        ensures
            old(data).evolves_to(*final(data)),
            r matches Err(e) ==> e.wf(),
    {
        proof {
            use_type_invariant(&*data);
        }
        Err(Error::EINVAL)
    }

    /// Writes data from the given bounded reader to this device.  As with
    /// `read`, the transferred count the host sees is computed from the
    /// reader, not from the returned value.
    fn write(&self, data: &mut UserSlicePtrReader, offset: u64) -> (r: KernelResult<isize>)
        requires
            offset <= MAX_OFFSET,
        ensures
            old(data).evolves_to(*final(data)),
            r matches Err(e) ==> e.wf(),
    {
        proof {
            use_type_invariant(&*data);
        }
        Err(Error::EINVAL)
    }

    /// Changes the position of the file, returning the new position, which
    /// must stay in the supported offset domain.
    fn seek(&self, file: &File, offset: SeekFrom) -> (r: KernelResult<u64>)
        ensures
            r matches Ok(o) ==> o <= MAX_OFFSET,
            r matches Err(e) ==> e.wf(),
    {
        Err(Error::EINVAL)
    }

    /// Performs an IO control operation specific to this device, returning a
    /// non-negative code on success.
    fn ioctl(&self, file: &File, cmd: &mut IoctlCommand) -> (r: KernelResult<i32>)
        requires
            old(cmd).wf(),
        ensures
            r matches Ok(v) ==> v >= 0,
            r matches Err(e) ==> e.wf(),
    {
        Err(Error::EINVAL)
    }

    /// The 32-bit compatibility variant of [`FileOperations::ioctl`].
    fn compat_ioctl(&self, file: &File, cmd: &mut IoctlCommand) -> (r: KernelResult<i32>)
        requires
            old(cmd).wf(),
        ensures
            r matches Ok(v) ==> v >= 0,
            r matches Err(e) ==> e.wf(),
    {
        Err(Error::EINVAL)
    }

    /// Syncs pending changes in the given range, returning a count that fits
    /// the host's signed 32-bit return convention.
    fn fsync(&self, file: &File, start: u64, end: u64, datasync: bool) -> (r: KernelResult<u32>)
        requires
            start <= MAX_OFFSET,
            end <= MAX_OFFSET,
        ensures
            r matches Ok(n) ==> n <= 0x7fff_ffff,
            r matches Err(e) ==> e.wf(),
    {
        Err(Error::EINVAL)
    }
}

/// The fixed-shape dispatch table the host expects for this kind of device:
/// one named slot per entry point, in the host's layout.  A `true` slot
/// stands for a populated entry — the trampoline of that operation,
/// monomorphized for the driver type — and a `false` slot for a null entry,
/// which the host itself answers with its standard "not supported" error.
#[derive(Clone, Copy, PartialEq, Eq, Structural, Debug)]
pub struct FileOperationsVtable {
    /// Always populated: every device can be opened.
    pub open: bool,
    /// Always populated: every device can be released.
    pub release: bool,
    /// Populated exactly when the driver declares `read`.
    pub read: bool,
    /// Populated exactly when the driver declares `write`.
    pub write: bool,
    /// Populated exactly when the driver declares `seek`.
    pub llseek: bool,
    /// Populated exactly when the driver declares `ioctl`.
    pub unlocked_ioctl: bool,
    /// Populated exactly when the driver declares `compat_ioctl`.
    pub compat_ioctl: bool,
    /// Populated exactly when the driver declares `fsync`.
    pub fsync: bool,
    /// Must remain null for this design.
    pub check_flags: bool,
    /// Must remain null for this design.
    pub copy_file_range: bool,
    /// Must remain null for this design.
    pub fallocate: bool,
    /// Must remain null for this design.
    pub fadvise: bool,
    /// Must remain null for this design.
    pub fasync: bool,
    /// Must remain null for this design.
    pub flock: bool,
    /// Must remain null for this design.
    pub flush: bool,
    /// Must remain null for this design.
    pub get_unmapped_area: bool,
    /// Must remain null for this design.
    pub iterate: bool,
    /// Must remain null for this design.
    pub iterate_shared: bool,
    /// Must remain null for this design.
    pub iopoll: bool,
    /// Must remain null for this design.
    pub lock: bool,
    /// Must remain null for this design.
    pub mmap: bool,
    /// Must remain zero for this design.
    pub mmap_supported_flags: u64,
    /// Must remain null for this design.
    pub owner: bool,
    /// Must remain null for this design.
    pub poll: bool,
    /// Must remain null for this design.
    pub read_iter: bool,
    /// Must remain null for this design.
    pub remap_file_range: bool,
    /// Must remain null for this design.
    pub sendpage: bool,
    /// Must remain null for this design.
    pub setlease: bool,
    /// Must remain null for this design.
    pub show_fdinfo: bool,
    /// Must remain null for this design.
    pub splice_read: bool,
    /// Must remain null for this design.
    pub splice_write: bool,
    /// Must remain null for this design.
    pub write_iter: bool,
}

/// The table a given capability declaration builds: open and release always
/// populated, each optional slot populated exactly when declared, and every
/// other slot null.
pub open spec fn vtable_spec(u: ToUse) -> FileOperationsVtable {
    FileOperationsVtable {
        open: true,
        release: true,
        read: u.read,
        write: u.write,
        llseek: u.seek,
        unlocked_ioctl: u.ioctl,
        compat_ioctl: u.compat_ioctl,
        fsync: u.fsync,
        check_flags: false,
        copy_file_range: false,
        fallocate: false,
        fadvise: false,
        fasync: false,
        flock: false,
        flush: false,
        get_unmapped_area: false,
        iterate: false,
        iterate_shared: false,
        iopoll: false,
        lock: false,
        mmap: false,
        mmap_supported_flags: 0,
        owner: false,
        poll: false,
        read_iter: false,
        remap_file_range: false,
        sendpage: false,
        setlease: false,
        show_fdinfo: false,
        splice_read: false,
        splice_write: false,
        write_iter: false,
    }
}

impl FileOperationsVtable {
    /// Builds the dispatch table for a driver type from its declared
    /// capability flags.  Built once per device type, at registration time.
    pub fn build<T: FileOperations>() -> (t: FileOperationsVtable)
        ensures
            t == vtable_spec(T::to_use_spec()),
    {
        let u = T::to_use();
        FileOperationsVtable {
            open: true,
            release: true,
            read: u.read,
            write: u.write,
            llseek: u.seek,
            unlocked_ioctl: u.ioctl,
            compat_ioctl: u.compat_ioctl,
            fsync: u.fsync,
            check_flags: false,
            copy_file_range: false,
            fallocate: false,
            fadvise: false,
            fasync: false,
            flock: false,
            flush: false,
            get_unmapped_area: false,
            iterate: false,
            iterate_shared: false,
            iopoll: false,
            lock: false,
            mmap: false,
            mmap_supported_flags: 0,
            owner: false,
            poll: false,
            read_iter: false,
            remap_file_range: false,
            sendpage: false,
            setlease: false,
            show_fdinfo: false,
            splice_read: false,
            splice_write: false,
            write_iter: false,
        }
    }
}

/// For every declared capability-flag combination, the built dispatch table
/// has a populated slot exactly for each declared-true capability, open and
/// release are always populated, and every slot outside the declaration is
/// null.
pub proof fn lemma_vtable_slots(u: ToUse)
    ensures
        vtable_spec(u).open,
        vtable_spec(u).release,
        vtable_spec(u).read == u.read,
        vtable_spec(u).write == u.write,
        vtable_spec(u).llseek == u.seek,
        vtable_spec(u).unlocked_ioctl == u.ioctl,
        vtable_spec(u).compat_ioctl == u.compat_ioctl,
        vtable_spec(u).fsync == u.fsync,
        !vtable_spec(u).check_flags,
        !vtable_spec(u).copy_file_range,
        !vtable_spec(u).fallocate,
        !vtable_spec(u).fadvise,
        !vtable_spec(u).fasync,
        !vtable_spec(u).flock,
        !vtable_spec(u).flush,
        !vtable_spec(u).get_unmapped_area,
        !vtable_spec(u).iterate,
        !vtable_spec(u).iterate_shared,
        !vtable_spec(u).iopoll,
        !vtable_spec(u).lock,
        !vtable_spec(u).mmap,
        vtable_spec(u).mmap_supported_flags == 0,
        !vtable_spec(u).owner,
        !vtable_spec(u).poll,
        !vtable_spec(u).read_iter,
        !vtable_spec(u).remap_file_range,
        !vtable_spec(u).sendpage,
        !vtable_spec(u).setlease,
        !vtable_spec(u).show_fdinfo,
        !vtable_spec(u).splice_read,
        !vtable_spec(u).splice_write,
        !vtable_spec(u).write_iter,
{
}

/// Bit position of the direction field in a packed command word, fixed by
/// the host's command-encoding convention.
pub const IOC_DIR_SHIFT: u32 = 30;

/// Mask of the direction field, after shifting.
pub const IOC_DIR_MASK: u32 = 3;

/// Bit position of the payload-size field in a packed command word.
pub const IOC_SIZE_SHIFT: u32 = 16;

/// Mask of the payload-size field, after shifting.
pub const IOC_SIZE_MASK: u32 = 0x3fff;

/// Direction value: no buffer travels with the command.
pub const IOC_DIR_NONE: u32 = 0;

/// Direction value: userspace writes, the driver reads the buffer.
pub const IOC_DIR_WRITE: u32 = 1;

/// Direction value: userspace reads, the driver fills the buffer.
pub const IOC_DIR_READ: u32 = 2;

/// What a packed command word decodes to: its direction, and the payload
/// size whenever a direction implies a buffer.
///
/// The magic bit layout of the host convention is kept to [`decode_spec`]
/// and [`decode`] alone, so it can be audited in one place.
#[derive(Clone, Copy, PartialEq, Eq, Structural, Debug)]
pub enum IoctlKind {
    /// No buffer: the argument is a plain value.
    Pure,
    /// The driver fills a buffer of the given size for userspace to read.
    Read(u32),
    /// The driver reads a buffer of the given size that userspace wrote.
    Write(u32),
    /// Both directions at once, over one buffer of the given size.
    ReadWrite(u32),
    /// A direction value outside the host convention.
    Invalid,
}

/// Decodes a packed command word into direction and payload size, using
/// exactly the bit ranges the host convention fixes.
pub open spec fn decode_spec(cmd: u32) -> IoctlKind {
    let dir = (cmd >> IOC_DIR_SHIFT) & IOC_DIR_MASK;
    let size = (cmd >> IOC_SIZE_SHIFT) & IOC_SIZE_MASK;
    if dir == IOC_DIR_NONE {
        IoctlKind::Pure
    } else if dir == IOC_DIR_WRITE {
        IoctlKind::Write(size)
    } else if dir == IOC_DIR_READ {
        IoctlKind::Read(size)
    } else if dir == (IOC_DIR_READ | IOC_DIR_WRITE) {
        IoctlKind::ReadWrite(size)
    } else {
        IoctlKind::Invalid
    }
}

/// Decodes a packed command word.
pub fn decode(cmd: u32) -> (r: IoctlKind)
    ensures
        r == decode_spec(cmd),
{
    let dir = (cmd >> IOC_DIR_SHIFT) & IOC_DIR_MASK;
    let size = (cmd >> IOC_SIZE_SHIFT) & IOC_SIZE_MASK;
    if dir == IOC_DIR_NONE {
        IoctlKind::Pure
    } else if dir == IOC_DIR_WRITE {
        IoctlKind::Write(size)
    } else if dir == IOC_DIR_READ {
        IoctlKind::Read(size)
    } else if dir == (IOC_DIR_READ | IOC_DIR_WRITE) {
        IoctlKind::ReadWrite(size)
    } else {
        IoctlKind::Invalid
    }
}

/// The payload size a command word declares.
pub open spec fn decoded_size(cmd: u32) -> u32 {
    (cmd >> IOC_SIZE_SHIFT) & IOC_SIZE_MASK
}

/// For every packed command word, decoding routes by the direction field
/// alone: direction none decodes to the pure shape and no other, each
/// buffer-carrying direction decodes to its own shape carrying exactly the
/// declared payload size, and — the direction field being two bits wide —
/// no word of this convention decodes to an invalid direction.
pub proof fn lemma_decode_routes(cmd: u32)
    ensures
        (decode_spec(cmd) is Pure) <==> ((cmd >> IOC_DIR_SHIFT) & IOC_DIR_MASK == IOC_DIR_NONE),
        (decode_spec(cmd) matches IoctlKind::Read(s)) <==> ((cmd >> IOC_DIR_SHIFT) & IOC_DIR_MASK
            == IOC_DIR_READ),
        (decode_spec(cmd) matches IoctlKind::Write(s)) <==> ((cmd >> IOC_DIR_SHIFT) & IOC_DIR_MASK
            == IOC_DIR_WRITE),
        (decode_spec(cmd) matches IoctlKind::ReadWrite(s)) <==> ((cmd >> IOC_DIR_SHIFT)
            & IOC_DIR_MASK == (IOC_DIR_READ | IOC_DIR_WRITE)),
        decode_spec(cmd) matches IoctlKind::Read(s) ==> s == decoded_size(cmd),
        decode_spec(cmd) matches IoctlKind::Write(s) ==> s == decoded_size(cmd),
        decode_spec(cmd) matches IoctlKind::ReadWrite(s) ==> s == decoded_size(cmd),
        !(decode_spec(cmd) is Invalid),
{
    assert((cmd >> 30u32) & 3u32 <= 3) by (bit_vector);
    assert((2u32 | 1u32) == 3u32) by (bit_vector);
}

/// Handles device-control commands, one handler shape per direction.
///
/// Each default answers "unsupported", so a driver implements exactly the
/// shapes its commands use.  A handler returns a non-negative code on
/// success and a valid host error otherwise.
pub trait IoctlHandler: Sync + Sized {
    /// Handles a command that carries no buffer, only a plain argument.
    fn pure(&self, file: &File, cmd: u32, arg: usize) -> (r: KernelResult<i32>)
        ensures
            r matches Ok(v) ==> v >= 0,
            r matches Err(e) ==> e.wf(),
    {
        Err(Error::EINVAL)
    }

    /// Handles a command whose buffer the driver fills for userspace to
    /// read; the writer is bounded by the decoded payload size.
    fn read(&self, file: &File, cmd: u32, writer: &mut UserSlicePtrWriter) -> (r: KernelResult<
        i32,
    >)
        ensures
            old(writer).evolves_to(*final(writer)),
            r matches Ok(v) ==> v >= 0,
            r matches Err(e) ==> e.wf(),
    {
        proof {
            use_type_invariant(&*writer);
        }
        Err(Error::EINVAL)
    }

    /// Handles a command whose buffer userspace wrote for the driver to
    /// read; the reader is bounded by the decoded payload size.
    fn write(&self, file: &File, cmd: u32, reader: &mut UserSlicePtrReader) -> (r: KernelResult<
        i32,
    >)
        ensures
            old(reader).evolves_to(*final(reader)),
            r matches Ok(v) ==> v >= 0,
            r matches Err(e) ==> e.wf(),
    {
        proof {
            use_type_invariant(&*reader);
        }
        Err(Error::EINVAL)
    }

    /// Handles a command that travels with one buffer read and written in
    /// both directions; the handler draws its own reader and writer from the
    /// view it is handed.
    fn read_write(&self, file: &File, cmd: u32, data: UserSlicePtr) -> (r: KernelResult<i32>)
        ensures
            r matches Ok(v) ==> v >= 0,
            r matches Err(e) ==> e.wf(),
    {
        Err(Error::EINVAL)
    }
}

/// A device-control command: the packed word, the raw argument, and — when
/// the direction implies a buffer — the one bounded view materialized over
/// that argument.
///
/// The view is constructed exactly once, when the command is built, and
/// handed to exactly one handler by [`IoctlCommand::dispatch`]; no path
/// materializes it twice.
pub struct IoctlCommand {
    cmd: u32,
    arg: usize,
    user_slice: Option<UserSlicePtr>,
}

impl IoctlCommand {
    /// The packed command word.
    pub closed spec fn cmd_spec(self) -> u32 {
        self.cmd
    }

    /// The raw argument value.
    pub closed spec fn arg_spec(self) -> usize {
        self.arg
    }

    /// The buffer view travelling with the command, if any.
    pub closed spec fn slice_spec(self) -> Option<UserSlicePtr> {
        self.user_slice
    }

    /// A command's buffer, when present, is exactly as long as the size its
    /// word declares, and only a buffer-carrying direction has one.  Every
    /// command [`IoctlCommand::new`] builds is well-formed, and dispatch
    /// keeps it so.
    pub open spec fn wf(self) -> bool {
        self.slice_spec() matches Some(u) ==> {
            &&& !(decode_spec(self.cmd_spec()) is Pure)
            &&& u@.len() == decoded_size(self.cmd_spec())
        }
    }

    /// Builds a command from the host's raw `cmd` and `arg` values and the
    /// buffer the host made accessible at the argument address.
    ///
    /// When the decoded direction is none, no buffer is materialized and
    /// `mem` is ignored.  Otherwise the one view of this command is drawn
    /// over `mem`, bounded by the decoded size; if `mem` does not validate
    /// against that size the command carries no view and dispatch will
    /// report the addressing failure.
    pub fn new(cmd: u32, arg: usize, mem: Vec<u8>) -> (r: IoctlCommand)
        ensures
            r.wf(),
            r.cmd_spec() == cmd,
            r.arg_spec() == arg,
            decode_spec(cmd) is Pure ==> r.slice_spec() is None,
            !(decode_spec(cmd) is Pure) && mem@.len() == decoded_size(cmd) ==> (
            r.slice_spec() matches Some(u) && u@ == mem@),
            !(decode_spec(cmd) is Pure) && mem@.len() != decoded_size(cmd) ==> r.slice_spec()
                is None,
    {
        let kind = decode(cmd);
        let user_slice = match kind {
            IoctlKind::Pure => None,
            _ => {
                let size = (cmd >> IOC_SIZE_SHIFT) & IOC_SIZE_MASK;
                match UserSlicePtr::new(mem, size as usize) {
                    Ok(u) => Some(u),
                    Err(_) => None,
                }
            },
        };
        IoctlCommand { cmd, arg, user_slice }
    }

    /// Dispatches the command to the matching handler shape.
    ///
    /// A direction of none routes to the pure handler and touches no
    /// buffer.  Any buffer-carrying direction consumes this command's one
    /// view — dispatch owns it, the handler only borrows a reader or writer
    /// drawn from it — and a command whose view could not be validated fails
    /// with an addressing error.  A direction outside the convention fails
    /// as an invalid argument.
    pub fn dispatch<T: IoctlHandler>(&mut self, handler: &T, file: &File) -> (r: KernelResult<
        i32,
    >)
        requires
            old(self).wf(),
        ensures
            final(self).wf(),
            final(self).cmd_spec() == old(self).cmd_spec(),
            final(self).arg_spec() == old(self).arg_spec(),
            decode_spec(old(self).cmd_spec()) is Pure ==> final(self).slice_spec() == old(
                self,
            ).slice_spec(),
            !(decode_spec(old(self).cmd_spec()) is Pure) ==> final(self).slice_spec() is None,
            !(decode_spec(old(self).cmd_spec()) is Pure) && old(self).slice_spec() is None ==> (
            r matches Err(e) && e == Error::EFAULT),
            decode_spec(old(self).cmd_spec()) is Invalid ==> ((r matches Err(e) && e
                == Error::EINVAL) || (r matches Err(e) && e == Error::EFAULT)),
            r matches Ok(v) ==> v >= 0,
            r matches Err(e) ==> e.wf(),
            decode_spec(old(self).cmd_spec()) is Pure ==> T::pure.ensures(
                (handler, file, old(self).cmd_spec(), old(self).arg_spec()),
                r,
            ),
            decode_spec(old(self).cmd_spec()) matches IoctlKind::ReadWrite(s) ==> (old(
                self,
            ).slice_spec() matches Some(u) ==> T::read_write.ensures(
                (handler, file, old(self).cmd_spec(), u),
                r,
            )),
    {
        let kind = decode(self.cmd);
        if let IoctlKind::Pure = kind {
            return T::pure(handler, file, self.cmd, self.arg);
        }
        let data = match self.user_slice.take() {
            Some(d) => d,
            None => {
                return Err(Error::EFAULT);
            },
        };
        match kind {
            IoctlKind::Write(_) => {
                let mut reader = data.reader();
                T::write(handler, file, self.cmd, &mut reader)
            },
            IoctlKind::Read(_) => {
                let mut writer = data.writer();
                T::read(handler, file, self.cmd, &mut writer)
            },
            IoctlKind::ReadWrite(_) => T::read_write(handler, file, self.cmd, data),
            _ => Err(Error::EINVAL),
        }
    }

    /// Returns the raw 32-bit value of the command and the ptr-sized
    /// argument.
    pub fn raw(&self) -> (r: (u32, usize))
        ensures
            r.0 == self.cmd_spec(),
            r.1 == self.arg_spec(),
    {
        (self.cmd, self.arg)
    }
}

/// The host's per-file state a trampoline is invoked on: the position and
/// flag word the [`File`] handle exposes, and the opaque per-open slot that
/// holds the released driver instance between open and release.
///
/// `private_data` of `None` models the null marker: no released instance is
/// stored.  `Some` holds the one released address of this open.
pub struct HostFile<F> {
    /// The host's signed position field.
    pub f_pos: i64,
    /// The host's flag word.
    pub f_flags: u32,
    /// The per-open opaque slot.
    pub private_data: Option<ReleasedPtr<F>>,
}

/// Whether the host file's opaque slot holds an instance that the driver's
/// ownership strategy released, so the matching reclaim is permitted.  The
/// host guarantees this for every call it dispatches between a successful
/// open and the matching release.
pub open spec fn holds_released_instance<F: FileOperations>(file: HostFile<F>) -> bool {
    file.private_data matches Some(p) && F::Wrapper::can_reclaim(p)
}

/// The `open` slot's trampoline: creates a per-open driver instance,
/// releases it, and stores the released address into the host's opaque
/// slot.  Success is 0; a driver failure becomes its negative code and the
/// slot stays empty.
pub fn open_callback<F: FileOperations>(file: &mut HostFile<F>) -> (r: i32)
    requires
        old(file).private_data is None,
    ensures
        final(file).f_pos == old(file).f_pos,
        final(file).f_flags == old(file).f_flags,
        r == 0 ==> holds_released_instance(*final(file)),
        r != 0 ==> crate::error::MIN_ERRNO <= r < 0 && final(file).private_data is None,
        exists|res: KernelResult<F::Wrapper>|
            {
                &&& #[trigger] F::open.ensures((), res)
                &&& match res {
                    Ok(w) => r == 0 && final(file).private_data == Some(w.wrap_spec()),
                    Err(e) => r == e.errno_spec() && final(file).private_data is None,
                }
            },
{
    let res = F::open();
    match res {
        Ok(w) => {
            file.private_data = Some(w.into_pointer());
            0
        },
        Err(e) => e.to_kernel_errno(),
    }
}

/// The `release` slot's trampoline: takes the released address out of the
/// opaque slot, replaces it with the null marker so no other path can
/// reclaim it, reclaims ownership exactly once, and runs the driver's
/// release hook on the reclaimed instance.
pub fn release_callback<F: FileOperations>(file: &mut HostFile<F>) -> (r: i32)
    requires
        holds_released_instance(*old(file)),
    ensures
        r == 0,
        final(file).private_data is None,
        final(file).f_pos == old(file).f_pos,
        final(file).f_flags == old(file).f_flags,
{
    let ptr = match file.private_data.take() {
        Some(p) => p,
        None => vstd::pervasive::unreached(),
    };
    let f = File::new(file.f_pos, file.f_flags);
    F::release(F::Wrapper::from_pointer(ptr), &f);
    0
}

/// The `read` slot's trampoline.
///
/// It validates the buffer/length pair (an invalid pair is an addressing
/// failure before anything else runs), rejects offsets outside the
/// non-negative signed 64-bit domain before the driver executes, and only
/// then invokes the driver on a bounded writer over the buffer.  The
/// transferred count is computed from the writer's remaining length — the
/// driver never supplies it — and the host's position advances by exactly
/// that count.  Returns the count or a negative code, together with the
/// buffer's final contents; bytes past the transferred count are exactly as
/// the host supplied them.
pub fn read_callback<F: FileOperations>(
    file: &HostFile<F>,
    buf: Vec<u8>,
    len: usize,
    offset: &mut i64,
) -> (r: (isize, Vec<u8>))
    requires
        file.private_data is Some,
        len as int <= isize::MAX as int,
        *old(offset) >= 0 ==> *old(offset) + len <= i64::MAX,
    ensures
        len != buf@.len() ==> r.0 == -14 && r.1@ == buf@ && *final(offset) == *old(offset),
        len == buf@.len() && *old(offset) < 0 ==> r.0 == -22 && r.1@ == buf@ && *final(offset)
            == *old(offset),
        len == buf@.len() && *old(offset) >= 0 ==> {
            &&& r.1@.len() == len
            &&& (r.0 < 0 ==> crate::error::MIN_ERRNO <= r.0 && *final(offset) == *old(offset))
            &&& (r.0 >= 0 ==> {
                &&& r.0 <= len
                &&& *final(offset) == *old(offset) + r.0
                &&& (forall|i: int| r.0 <= i < len ==> r.1@[i] == buf@[i])
            })
        },
{
    // The validator consumes the buffer, and a failed validation must hand
    // the untouched buffer back to the host, so its condition is tested
    // before the buffer is given up; the validator then cannot fail.
    if len != buf.len() {
        let code = Error::EFAULT.to_kernel_errno();
        return (code as isize, buf);
    }
    if *offset < 0 {
        let code = Error::EINVAL.to_kernel_errno();
        return (code as isize, buf);
    }
    let data = match UserSlicePtr::new(buf, len) {
        Ok(u) => u,
        Err(_) => vstd::pervasive::unreached(),
    };
    let mut writer = data.writer();
    let ptr = match &file.private_data {
        Some(p) => p,
        None => vstd::pervasive::unreached(),
    };
    let f = File::new(file.f_pos, file.f_flags);
    let off = *offset as u64;
    match F::read(ptr.borrow(), &f, &mut writer, off) {
        Ok(_) => {
            let remaining = writer.len();
            let written = len - remaining;
            *offset = *offset + (written as i64);
            (written as isize, writer.into_data())
        },
        Err(e) => {
            let code = e.to_kernel_errno();
            (code as isize, writer.into_data())
        },
    }
}

/// The `write` slot's trampoline.
///
/// The mirror of [`read_callback`]: it validates the buffer/length pair,
/// rejects offsets outside the non-negative signed 64-bit domain before the
/// driver executes, and invokes the driver on a bounded reader over the
/// buffer.  The consumed count is computed from the reader's remaining
/// length, the position advances by exactly that count, and the driver's own
/// reported count is deliberately ignored.  As with reads, the host
/// guarantees the dispatched range fits the signed position domain.
pub fn write_callback<F: FileOperations>(
    file: &HostFile<F>,
    buf: Vec<u8>,
    len: usize,
    offset: &mut i64,
) -> (r: isize)
    requires
        file.private_data is Some,
        len as int <= isize::MAX as int,
        *old(offset) >= 0 ==> *old(offset) + len <= i64::MAX,
    ensures
        len != buf@.len() ==> r == -14 && *final(offset) == *old(offset),
        len == buf@.len() && *old(offset) < 0 ==> r == -22 && *final(offset) == *old(offset),
        len == buf@.len() && *old(offset) >= 0 ==> {
            &&& (r < 0 ==> crate::error::MIN_ERRNO <= r && *final(offset) == *old(offset))
            &&& (r >= 0 ==> r <= len && *final(offset) == *old(offset) + r)
        },
{
    // As in the read trampoline, the validation condition is tested before
    // the buffer moves into the validator, which then cannot fail.
    if len != buf.len() {
        let code = Error::EFAULT.to_kernel_errno();
        return code as isize;
    }
    if *offset < 0 {
        let code = Error::EINVAL.to_kernel_errno();
        return code as isize;
    }
    let data = match UserSlicePtr::new(buf, len) {
        Ok(u) => u,
        Err(_) => vstd::pervasive::unreached(),
    };
    let mut reader = data.reader();
    let ptr = match &file.private_data {
        Some(p) => p,
        None => vstd::pervasive::unreached(),
    };
    let off = *offset as u64;
    match F::write(ptr.borrow(), &mut reader, off) {
        Ok(_) => {
            let remaining = reader.len();
            let consumed = len - remaining;
            *offset = *offset + (consumed as i64);
            consumed as isize
        },
        Err(e) => {
            let code = e.to_kernel_errno();
            code as isize
        },
    }
}

/// Whether `r` is the host's fold of a result the driver's seek admits for
/// this file's stored instance, a handle carrying this file's position and
/// flags, and the given converted seek argument: the new position on
/// success, the negative code on failure.
pub open spec fn seek_result_linked<F: FileOperations>(
    file: HostFile<F>,
    arg: SeekFrom,
    r: i64,
) -> bool {
    exists|h: File, res: KernelResult<u64>|
        {
            &&& h.pos_spec() == file.f_pos
            &&& h.flags_spec() == file.f_flags
            &&& #[trigger] F::seek.ensures((&(file.private_data->Some_0).pointee(), &h, arg), res)
            &&& match res {
                Ok(o) => r == o,
                Err(e) => r == e.errno_spec(),
            }
        }
}

/// The host's whence value for an absolute seek.
pub const SEEK_SET: i32 = 0;

/// The host's whence value for a seek relative to the current position.
pub const SEEK_CUR: i32 = 1;

/// The host's whence value for a seek relative to the end.
pub const SEEK_END: i32 = 2;

/// The `llseek` slot's trampoline: turns the host's (offset, whence) pair
/// into a [`SeekFrom`], rejecting an absolute offset outside the
/// non-negative signed 64-bit domain and any whence outside the convention
/// before the driver executes.  Success returns the new position, which fits
/// the host's signed field.
pub fn llseek_callback<F: FileOperations>(file: &HostFile<F>, offset: i64, whence: i32) -> (r:
    i64)
    requires
        file.private_data is Some,
    ensures
        whence == SEEK_SET && offset < 0 ==> r == -22,
        whence != SEEK_SET && whence != SEEK_CUR && whence != SEEK_END ==> r == -22,
        r >= 0 ==> r <= MAX_OFFSET,
        r < 0 ==> crate::error::MIN_ERRNO <= r,
        whence == SEEK_SET && offset >= 0 ==> seek_result_linked(
            *file,
            SeekFrom::Start(offset as u64),
            r,
        ),
        whence == SEEK_CUR ==> seek_result_linked(*file, SeekFrom::Current(offset), r),
        whence == SEEK_END ==> seek_result_linked(*file, SeekFrom::End(offset), r),
{
    let off = match whence {
        SEEK_SET => {
            if offset < 0 {
                let code = Error::EINVAL.to_kernel_errno();
                return code as i64;
            }
            SeekFrom::Start(offset as u64)
        },
        SEEK_CUR => SeekFrom::Current(offset),
        SEEK_END => SeekFrom::End(offset),
        _ => {
            let code = Error::EINVAL.to_kernel_errno();
            return code as i64;
        },
    };
    let ptr = match &file.private_data {
        Some(p) => p,
        None => vstd::pervasive::unreached(),
    };
    let f = File::new(file.f_pos, file.f_flags);
    match F::seek(ptr.borrow(), &f, off) {
        Ok(o) => o as i64,
        Err(e) => {
            let code = e.to_kernel_errno();
            code as i64
        },
    }
}

/// The `unlocked_ioctl` slot's trampoline: builds the one [`IoctlCommand`]
/// of this call — materializing its buffer view exactly once, from the
/// memory the host made accessible at the argument — and hands it to the
/// driver.  Success is the driver's non-negative code; failure its negative
/// code.
pub fn unlocked_ioctl_callback<F: FileOperations>(
    file: &HostFile<F>,
    cmd: u32,
    arg: usize,
    mem: Vec<u8>,
) -> (r: i64)
    requires
        file.private_data is Some,
    ensures
        r < 0 ==> crate::error::MIN_ERRNO <= r,
        r >= 0 ==> r <= i32::MAX,
{
    let ptr = match &file.private_data {
        Some(p) => p,
        None => vstd::pervasive::unreached(),
    };
    let f = File::new(file.f_pos, file.f_flags);
    let mut command = IoctlCommand::new(cmd, arg, mem);
    match F::ioctl(ptr.borrow(), &f, &mut command) {
        Ok(v) => v as i64,
        Err(e) => {
            let code = e.to_kernel_errno();
            code as i64
        },
    }
}

/// The `compat_ioctl` slot's trampoline: as [`unlocked_ioctl_callback`],
/// routed to the driver's 32-bit compatibility handler.
pub fn compat_ioctl_callback<F: FileOperations>(
    file: &HostFile<F>,
    cmd: u32,
    arg: usize,
    mem: Vec<u8>,
) -> (r: i64)
    requires
        file.private_data is Some,
    ensures
        r < 0 ==> crate::error::MIN_ERRNO <= r,
        r >= 0 ==> r <= i32::MAX,
{
    let ptr = match &file.private_data {
        Some(p) => p,
        None => vstd::pervasive::unreached(),
    };
    let f = File::new(file.f_pos, file.f_flags);
    let mut command = IoctlCommand::new(cmd, arg, mem);
    match F::compat_ioctl(ptr.borrow(), &f, &mut command) {
        Ok(v) => v as i64,
        Err(e) => {
            let code = e.to_kernel_errno();
            code as i64
        },
    }
}

/// The `fsync` slot's trampoline: rejects range bounds outside the
/// non-negative signed 64-bit domain before the driver executes, then asks
/// the driver to sync the range.
pub fn fsync_callback<F: FileOperations>(
    file: &HostFile<F>,
    start: i64,
    end: i64,
    datasync: i32,
) -> (r: i32)
    requires
        file.private_data is Some,
    ensures
        start < 0 || end < 0 ==> r == -22,
        r < 0 ==> crate::error::MIN_ERRNO <= r,
        start >= 0 && end >= 0 ==> exists|h: File, data_only: bool, res: KernelResult<u32>|
            {
                &&& h.pos_spec() == file.f_pos
                &&& h.flags_spec() == file.f_flags
                &&& data_only == (datasync != 0)
                &&& #[trigger] F::fsync.ensures(
                    (
                        &(file.private_data->Some_0).pointee(),
                        &h,
                        start as u64,
                        end as u64,
                        data_only,
                    ),
                    res,
                )
                &&& match res {
                    Ok(n) => r == n,
                    Err(e) => r == e.errno_spec(),
                }
            },
{
    if start < 0 || end < 0 {
        return Error::EINVAL.to_kernel_errno();
    }
    let ptr = match &file.private_data {
        Some(p) => p,
        None => vstd::pervasive::unreached(),
    };
    let f = File::new(file.f_pos, file.f_flags);
    let data_only = datasync != 0;
    let res = F::fsync(ptr.borrow(), &f, start as u64, end as u64, data_only);
    proof {
        assert(F::fsync.ensures(
            (&(file.private_data->Some_0).pointee(), &f, start as u64, end as u64, data_only),
            res,
        ));
    }
    match res {
        Ok(n) => n as i32,
        Err(e) => e.to_kernel_errno(),
    }
}

/// A return value that can carry a host error code: the host's numeric
/// convention folds failures into the same integer a success count uses.
pub trait FromErrno: Sized {
    /// The value a given errno folds to, as the spec sees it.
    spec fn from_errno_spec(e: int) -> Self;

    /// Folds a negative host code into the return type.
    fn from_errno(e: i32) -> (r: Self)
        ensures
            r == Self::from_errno_spec(e as int),
    ;
}

impl FromErrno for i32 {
    open spec fn from_errno_spec(e: int) -> i32 {
        e as i32
    }

    fn from_errno(e: i32) -> (r: i32) {
        e
    }
}

impl FromErrno for i64 {
    open spec fn from_errno_spec(e: int) -> i64 {
        e as i64
    }

    fn from_errno(e: i32) -> (r: i64) {
        e as i64
    }
}

impl FromErrno for isize {
    open spec fn from_errno_spec(e: int) -> isize {
        e as isize
    }

    fn from_errno(e: i32) -> (r: isize) {
        e as isize
    }
}

/// Converts a typed result into the host's numeric convention: a success
/// value passes through, a failure becomes its negative error code.
pub fn from_kernel_result<T: FromErrno>(r: KernelResult<T>) -> (v: T)
    requires
        r matches Err(e) ==> e.wf(),
    ensures
        r matches Ok(t) ==> v == t,
        r matches Err(e) ==> v == T::from_errno_spec(e.errno_spec()),
{
    match r {
        Ok(v) => v,
        Err(e) => T::from_errno(e.to_kernel_errno()),
    }
}

} // verus!
