//! Files and file systems.

use vstd::prelude::*;
use crate::ffi;
use crate::ffi::PP_Resource;
use crate::code::{Code, code_of, is_known_code};
use crate::instance::Instance;
use crate::resource::{Resource, ResourceType, ToOption, handle_option};

verus! {

/// What kind of file system entry a file is.
#[derive(Clone, Copy, PartialEq, Eq, Structural, Debug, Hash)]
pub enum Type {
    Regular,
    Directory,
    Other,
}

pub open spec fn file_type_of(v: ffi::PP_FileType) -> Type {
    if v == ffi::PP_FILETYPE_REGULAR { Type::Regular }
    else if v == ffi::PP_FILETYPE_DIRECTORY { Type::Directory }
    else { Type::Other }
}

impl Type {
    /// Reads a file type the browser reports; unknown types are an error.
    pub fn from_ffi(v: ffi::PP_FileType) -> (t: Type)
        requires v <= ffi::PP_FILETYPE_OTHER,
        ensures t == file_type_of(v),
    {
        if v == ffi::PP_FILETYPE_REGULAR {
            Type::Regular
        } else if v == ffi::PP_FILETYPE_DIRECTORY {
            Type::Directory
        } else {
            Type::Other
        }
    }
}

/// What the browser reports about a file. The times are seconds, by the bits
/// of each double.
#[derive(Clone, Copy, PartialEq, Eq, Structural, Debug, Default)]
pub struct Info {
    pub size: i64,
    pub file_type: ffi::PP_FileType,
    pub system_type: ffi::PP_FileSystemType,
    pub creation_time: u64,
    pub last_access_time: u64,
    pub last_modified_time: u64,
}

/// The kinds of file systems.
#[derive(Clone, Copy, PartialEq, Eq, Structural, Debug)]
pub enum Kind {
    External,
    LocalPersistent,
    LocalTemp,
    Isolated,
}

pub open spec fn kind_value(k: Kind) -> ffi::PP_FileSystemType {
    match k {
        Kind::External => ffi::PP_FILESYSTEMTYPE_EXTERNAL,
        Kind::LocalPersistent => ffi::PP_FILESYSTEMTYPE_LOCALPERSISTENT,
        Kind::LocalTemp => ffi::PP_FILESYSTEMTYPE_LOCALTEMPORARY,
        Kind::Isolated => ffi::PP_FILESYSTEMTYPE_ISOLATED,
    }
}

pub open spec fn kind_of(v: ffi::PP_FileSystemType) -> Kind {
    if v == ffi::PP_FILESYSTEMTYPE_EXTERNAL { Kind::External }
    else if v == ffi::PP_FILESYSTEMTYPE_LOCALPERSISTENT { Kind::LocalPersistent }
    else if v == ffi::PP_FILESYSTEMTYPE_LOCALTEMPORARY { Kind::LocalTemp }
    else { Kind::Isolated }
}

impl Kind {
    pub fn to_ffi(&self) -> (v: ffi::PP_FileSystemType)
        ensures v == kind_value(*self),
    {
        match self {
            Kind::External => ffi::PP_FILESYSTEMTYPE_EXTERNAL,
            Kind::LocalPersistent => ffi::PP_FILESYSTEMTYPE_LOCALPERSISTENT,
            Kind::LocalTemp => ffi::PP_FILESYSTEMTYPE_LOCALTEMPORARY,
            Kind::Isolated => ffi::PP_FILESYSTEMTYPE_ISOLATED,
        }
    }

    /// Reads a file system type; the invalid type and unknown types are an
    /// error here.
    pub fn from_ffi(v: ffi::PP_FileSystemType) -> (k: Kind)
        requires ffi::PP_FILESYSTEMTYPE_EXTERNAL <= v <= ffi::PP_FILESYSTEMTYPE_ISOLATED,
        ensures k == kind_of(v),
    {
        if v == ffi::PP_FILESYSTEMTYPE_EXTERNAL {
            Kind::External
        } else if v == ffi::PP_FILESYSTEMTYPE_LOCALPERSISTENT {
            Kind::LocalPersistent
        } else if v == ffi::PP_FILESYSTEMTYPE_LOCALTEMPORARY {
            Kind::LocalTemp
        } else {
            Kind::Isolated
        }
    }
}

/// How a file is to be opened.
#[derive(Clone, Copy, PartialEq, Eq, Structural, Debug, Hash)]
pub struct OpenFlags {
    pub read: bool,
    pub write: bool,
    pub create: bool,
    pub truncate: bool,
    pub exclusive: bool,
    pub append: bool,
}

impl OpenFlags {
    /// Read only.
    pub fn new() -> (f: OpenFlags)
        ensures f == (OpenFlags { read: true, write: false, create: false, truncate: false, exclusive: false, append: false }),
    {
        OpenFlags { read: true, write: false, create: false, truncate: false, exclusive: false, append: false }
    }

    pub fn read(self, read: bool) -> (f: OpenFlags)
        ensures f == (OpenFlags { read, ..self }),
    {
        OpenFlags { read, ..self }
    }

    /// Setting write access drops appending.
    pub fn write(self, write: bool) -> (f: OpenFlags)
        ensures f == (OpenFlags { write, append: false, ..self }),
    {
        OpenFlags { write, append: false, ..self }
    }

    pub fn create(self, create: bool) -> (f: OpenFlags)
        ensures f == (OpenFlags { create, ..self }),
    {
        OpenFlags { create, ..self }
    }

    pub fn truncate(self, trunc: bool) -> (f: OpenFlags)
        ensures f == (OpenFlags { truncate: trunc, ..self }),
    {
        OpenFlags { truncate: trunc, ..self }
    }

    pub fn exclusive(self, exclusive: bool) -> (f: OpenFlags)
        ensures f == (OpenFlags { exclusive, ..self }),
    {
        OpenFlags { exclusive, ..self }
    }

    /// Appending drops plain write access.
    pub fn append(self, append: bool) -> (f: OpenFlags)
        ensures f == (OpenFlags { append, write: if append { false } else { self.write }, ..self }),
    {
        if append {
            OpenFlags { append, write: false, ..self }
        } else {
            OpenFlags { append, ..self }
        }
    }

    /// The flags as the browser takes them.
    pub open spec fn spec_bits(self) -> int {
        (if self.read { ffi::PP_FILEOPENFLAG_READ } else { 0 })
            + (if self.write { ffi::PP_FILEOPENFLAG_WRITE } else { 0 })
            + (if self.create { ffi::PP_FILEOPENFLAG_CREATE } else { 0 })
            + (if self.truncate { ffi::PP_FILEOPENFLAG_TRUNCATE } else { 0 })
            + (if self.exclusive { ffi::PP_FILEOPENFLAG_EXCLUSIVE } else { 0 })
            + (if self.append { ffi::PP_FILEOPENFLAG_APPEND } else { 0 })
    }

    pub fn bits(self) -> (b: i32)
        ensures b == self.spec_bits(),
    {
        let mut flags: i32 = 0;
        if self.read { flags = flags + ffi::PP_FILEOPENFLAG_READ; }
        if self.write { flags = flags + ffi::PP_FILEOPENFLAG_WRITE; }
        if self.create { flags = flags + ffi::PP_FILEOPENFLAG_CREATE; }
        if self.truncate { flags = flags + ffi::PP_FILEOPENFLAG_TRUNCATE; }
        if self.exclusive { flags = flags + ffi::PP_FILEOPENFLAG_EXCLUSIVE; }
        if self.append { flags = flags + ffi::PP_FILEOPENFLAG_APPEND; }
        flags
    }
}

impl Default for OpenFlags {
    fn default() -> (f: OpenFlags)
        ensures f == (OpenFlags { read: true, write: false, create: false, truncate: false, exclusive: false, append: false }),
    {
        OpenFlags::new()
    }
}

/// Write access and appending never hold together when flags are built with
/// the setters from any flags that do not already hold both.
pub proof fn lemma_write_append_exclusive(f: OpenFlags, b: bool)
    requires !(f.write && f.append),
    ensures
        !((OpenFlags { write: b, append: false, ..f }).write && (OpenFlags { write: b, append: false, ..f }).append),
        !((OpenFlags { append: b, write: if b { false } else { f.write }, ..f }).write
            && (OpenFlags { append: b, write: if b { false } else { f.write }, ..f }).append),
{
}

/// How a directory is to be made.
#[derive(Clone, Copy, PartialEq, Eq, Structural, Debug, Hash)]
pub struct MkDirFlags {
    pub ancestors: bool,
    pub exclusive: bool,
}

impl MkDirFlags {
    /// Making missing ancestors, not exclusive.
    pub fn new() -> (f: MkDirFlags)
        ensures f == (MkDirFlags { ancestors: true, exclusive: false }),
    {
        MkDirFlags { ancestors: true, exclusive: false }
    }

    pub fn ancestors(self, ancestors: bool) -> (f: MkDirFlags)
        ensures f == (MkDirFlags { ancestors, ..self }),
    {
        MkDirFlags { ancestors, ..self }
    }

    pub fn exclusive(self, exclusive: bool) -> (f: MkDirFlags)
        ensures f == (MkDirFlags { exclusive, ..self }),
    {
        MkDirFlags { exclusive, ..self }
    }

    pub open spec fn spec_bits(self) -> int {
        ffi::PP_MAKEDIRECTORYFLAG_NONE
            + (if self.ancestors { ffi::PP_MAKEDIRECTORYFLAG_WITH_ANCESTORS } else { 0 })
            + (if self.exclusive { ffi::PP_MAKEDIRECTORYFLAG_EXCLUSIVE } else { 0 })
    }

    /// The flags as the browser takes them.
    pub fn bits(self) -> (b: i32)
        ensures b == self.spec_bits(),
    {
        let mut flags: i32 = ffi::PP_MAKEDIRECTORYFLAG_NONE;
        if self.ancestors { flags = flags + ffi::PP_MAKEDIRECTORYFLAG_WITH_ANCESTORS; }
        if self.exclusive { flags = flags + ffi::PP_MAKEDIRECTORYFLAG_EXCLUSIVE; }
        flags
    }
}

impl Default for MkDirFlags {
    fn default() -> (f: MkDirFlags)
        ensures f == (MkDirFlags { ancestors: true, exclusive: false }),
    {
        MkDirFlags::new()
    }
}

#[derive(Clone, Copy, PartialEq, Eq, Structural, Debug, Hash)]
pub struct FileSystem(pub PP_Resource);
#[derive(Clone, Copy, PartialEq, Eq, Structural, Debug, Hash)]
pub struct FileRef(pub PP_Resource);
#[derive(Clone, Copy, PartialEq, Eq, Structural, Debug, Hash)]
pub struct FileIo(pub PP_Resource);

impl FileSystem {
    pub fn new(res: PP_Resource) -> (f: Self) ensures f.0 == res, { FileSystem(res) }

    /// The kind of the file system: `reply` is the answer of
    /// `PPB_FileSystem::GetType(self)`.
    pub fn kind(&self, reply: ffi::PP_FileSystemType) -> (k: Kind)
        requires ffi::PP_FILESYSTEMTYPE_EXTERNAL <= reply <= ffi::PP_FILESYSTEMTYPE_ISOLATED,
        ensures k == kind_of(reply),
    {
        Kind::from_ffi(reply)
    }

    /// Readies the file system for use; nothing else may be done with it
    /// before. `reply` is the code of `PPB_FileSystem::Open(self,
    /// expected_size, callback)`.
    pub fn open(&self, reply: i32) -> (c: Code)
        requires is_known_code(reply),
        ensures c == code_of(reply),
    {
        Code::from_i32(reply)
    }

    /// A file in the file system: `created` is the handle that
    /// `PPB_FileRef::Create(self, path)` returned, null on failure.
    pub fn create(&self, created: PP_Resource) -> (f: Option<FileRef>)
        ensures f == handle_option(created, |h: PP_Resource| FileRef(h)),
    {
        if created == 0 { None } else { Some(FileRef(created)) }
    }
}
impl FileRef {
    pub fn new(res: PP_Resource) -> (f: Self) ensures f.0 == res, { FileRef(res) }
}

/// A walk up from a file to the root, one parent at a time; the first step
/// gives the file's parent.
#[derive(Clone, Copy, PartialEq, Eq, Structural, Debug, Hash)]
pub struct ParentsIter {
    pub p: FileRef,
}

impl FileRef {
    /// The walk up from this file.
    pub fn parents_iter(self) -> (it: ParentsIter)
        ensures it.p == self,
    {
        ParentsIter { p: self }
    }
}

impl ParentsIter {
    /// The next parent: `parent` is the file that
    /// `PPB_FileRef::GetParent(p)` returned for the file the walk stands at.
    /// The walk ends at a file that is its own parent.
    pub fn next(&mut self, parent: FileRef) -> (r: Option<FileRef>)
        ensures
            parent == old(self).p ==> r is None && *final(self) == *old(self),
            parent != old(self).p ==> r == Some(parent) && final(self).p == parent,
    {
        if parent == self.p {
            None
        } else {
            self.p = parent;
            Some(parent)
        }
    }
}
impl FileIo {
    pub fn new(res: PP_Resource) -> (f: Self) ensures f.0 == res, { FileIo(res) }
}

impl Resource for FileSystem {
    open spec fn res(&self) -> PP_Resource { self.0 }
    open spec fn kind(&self) -> ResourceType { ResourceType::FileSystemRes }
    fn unwrap(&self) -> (r: PP_Resource) { self.0 }
    fn type_of(&self) -> (t: ResourceType) { ResourceType::FileSystemRes }
}
impl Resource for FileRef {
    open spec fn res(&self) -> PP_Resource { self.0 }
    open spec fn kind(&self) -> ResourceType { ResourceType::FileRefRes }
    fn unwrap(&self) -> (r: PP_Resource) { self.0 }
    fn type_of(&self) -> (t: ResourceType) { ResourceType::FileRefRes }
}
impl Resource for FileIo {
    open spec fn res(&self) -> PP_Resource { self.0 }
    open spec fn kind(&self) -> ResourceType { ResourceType::FileIoRes }
    fn unwrap(&self) -> (r: PP_Resource) { self.0 }
    fn type_of(&self) -> (t: ResourceType) { ResourceType::FileIoRes }
}
impl ToOption<PP_Resource> for FileSystem {
    fn to_option(from: &PP_Resource) -> (r: Option<Self>)
        ensures r == handle_option(*from, |h: PP_Resource| FileSystem(h)),
    { if *from == 0 { None } else { Some(FileSystem(*from)) } }
}
impl ToOption<PP_Resource> for FileRef {
    fn to_option(from: &PP_Resource) -> (r: Option<Self>)
        ensures r == handle_option(*from, |h: PP_Resource| FileRef(h)),
    { if *from == 0 { None } else { Some(FileRef(*from)) } }
}
impl ToOption<PP_Resource> for FileIo {
    fn to_option(from: &PP_Resource) -> (r: Option<Self>)
        ensures r == handle_option(*from, |h: PP_Resource| FileIo(h)),
    { if *from == 0 { None } else { Some(FileIo(*from)) } }
}

/// An entry of a directory listing.
#[derive(Clone, Copy, PartialEq, Eq, Structural, Debug, Hash)]
pub struct DirectoryEntry {
    pub file: FileRef,
    pub ty: Type,
}

/// A window onto an open file: the file, where the window starts and, if it
/// is bounded, where it stops.
#[derive(Clone, Copy, PartialEq, Eq, Structural, Debug, Hash)]
pub struct SliceIo(pub FileIo, pub u64, pub Option<u64>);

/// The length of a window from `start` to `stop`; empty if it stops before it
/// starts.
pub open spec fn window_len(start: u64, stop: Option<u64>) -> Option<u64> {
    match stop {
        Some(stop) => Some(if stop < start { 0 } else { (stop - start) as u64 }),
        None => None,
    }
}

/// Where to move a window's position.
#[derive(Clone, Copy, PartialEq, Eq, Structural, Debug)]
pub enum SeekFrom {
    Start(u64),
    End(i64),
    Current(i64),
}

/// Why a seek was refused.
#[derive(Clone, Copy, PartialEq, Eq, Structural, Debug)]
pub enum SeekError {
    /// Seeking from the end is not supported.
    NotSupported(Code),
    /// The seek would move before the start of the file.
    BeforeStart,
}

/// Views onto a file.
pub trait FileView {
    spec fn start_spec(&self) -> u64;
    spec fn stop_spec(&self) -> Option<u64>;
    spec fn absolute_start_spec(&self) -> int;
    spec fn io_spec(&self) -> FileIo;

    fn io(&self) -> (f: FileIo)
        ensures f == self.io_spec(),
    ;

    /// A window `[from, to)` relative to this view.
    fn view(&self, from: u64, to: Option<u64>) -> (s: SliceIo)
        requires
            to matches Some(t) ==> from <= t,
            self.start_spec() + from <= u64::MAX,
            to matches Some(t) ==> self.start_spec() + t <= u64::MAX,
        ensures
            s.0 == self.io_spec(),
            s.1 == self.start_spec() + from,
            s.2 == match to { Some(t) => Some((self.start_spec() + t) as u64), None => None },
    ;

    fn view_start(&self) -> (s: u64)
        ensures s == self.start_spec(),
    ;

    fn view_stop(&self) -> (s: Option<u64>)
        ensures s == self.stop_spec(),
    ;

    fn view_len(&self) -> (n: Option<u64>)
        ensures n == window_len(self.start_spec(), self.stop_spec()),
    {
        match self.view_stop() {
            Some(stop) => {
                let start = self.view_start();
                if stop < start { Some(0) } else { Some(stop - start) }
            },
            None => None,
        }
    }

    fn view_absolute_start(&self) -> (s: u64)
        requires self.absolute_start_spec() <= u64::MAX,
        ensures s == self.absolute_start_spec(),
    ;
}

impl FileView for FileIo {
    open spec fn start_spec(&self) -> u64 { 0 }
    open spec fn stop_spec(&self) -> Option<u64> { None }
    open spec fn absolute_start_spec(&self) -> int { 0 }
    open spec fn io_spec(&self) -> FileIo { *self }

    fn io(&self) -> (f: FileIo) { *self }

    fn view(&self, from: u64, to: Option<u64>) -> (s: SliceIo) {
        SliceIo(self.io(), from, to)
    }

    fn view_start(&self) -> (s: u64) { 0 }
    fn view_stop(&self) -> (s: Option<u64>) { None }
    fn view_absolute_start(&self) -> (s: u64) { 0 }
}

impl FileView for SliceIo {
    open spec fn start_spec(&self) -> u64 { self.1 }
    open spec fn stop_spec(&self) -> Option<u64> { self.2 }
    open spec fn absolute_start_spec(&self) -> int { self.1 as int }
    open spec fn io_spec(&self) -> FileIo { self.0 }

    fn io(&self) -> (f: FileIo) { self.0 }

    fn view(&self, from: u64, to: Option<u64>) -> (s: SliceIo) {
        let start = self.view_start();
        let to = match to {
            Some(t) => Some(start + t),
            None => None,
        };
        SliceIo(self.io(), start + from, to)
    }

    fn view_start(&self) -> (s: u64) { self.1 }
    fn view_stop(&self) -> (s: Option<u64>) { self.2 }
    fn view_absolute_start(&self) -> (s: u64) { self.0.view_absolute_start() + self.view_start() }
}

impl Resource for SliceIo {
    open spec fn res(&self) -> PP_Resource { self.0.0 }
    open spec fn kind(&self) -> ResourceType { ResourceType::FileIoRes }
    fn unwrap(&self) -> (r: PP_Resource) { self.io().unwrap() }
    fn type_of(&self) -> (t: ResourceType) { self.io().type_of() }
}

/// The report on a window: the file's report with the size cut to the window.
pub open spec fn slice_info(info: Info, start: u64, stop: Option<u64>) -> Info {
    let stop = match stop { Some(s) => s as int, None => u64::MAX as int };
    let end = if (info.size as u64) < stop { (info.size as u64) as int } else { stop };
    Info { size: (end - start) as i64, ..info }
}

/// The window fits within the file as reported.
pub open spec fn slice_fits(info: Info, start: u64, stop: Option<u64>) -> bool {
    let stop = match stop { Some(s) => s as int, None => u64::MAX as int };
    let end = if (info.size as u64) < stop { (info.size as u64) as int } else { stop };
    start <= end && end - start <= i64::MAX
}

impl SliceIo {
    /// Reports on the window: `queried` is what querying the file answered.
    /// The size is the part of the file inside the window.
    pub fn sync_query(&self, queried: Result<Info, Code>) -> (r: Result<Info, Code>)
        requires
            queried matches Ok(info) ==> slice_fits(info, self.1, self.2),
        ensures
            r == match queried {
                Ok(info) => Ok(slice_info(info, self.1, self.2)),
                Err(c) => Err::<Info, Code>(c),
            },
    {
        match queried {
            Ok(info) => {
                let slice_start = self.view_start();
                let slice_stop = match self.view_stop() {
                    Some(s) => s,
                    None => u64::MAX,
                };
                let size = info.size as u64;
                let end = if size < slice_stop { size } else { slice_stop };
                Ok(Info { size: (end - slice_start) as i64, ..info })
            },
            Err(c) => Err(c),
        }
    }

    /// Moves the window's start.
    pub fn seek(&mut self, from: SeekFrom) -> (r: Result<u64, SeekError>)
        requires
            from matches SeekFrom::Current(v) ==> v != i64::MIN,
            from matches SeekFrom::Current(v) ==> (v >= 0 ==> old(self).1 + v <= u64::MAX),
        ensures
            match from {
                SeekFrom::Start(v) => r == Ok::<u64, SeekError>(v) && *final(self) == SliceIo(old(self).0, v, old(self).2),
                SeekFrom::End(_) => r == Err::<u64, SeekError>(SeekError::NotSupported(Code::NotSupported))
                    && *final(self) == *old(self),
                SeekFrom::Current(v) =>
                    if v < 0 && -v > old(self).1 {
                        r == Err::<u64, SeekError>(SeekError::BeforeStart) && *final(self) == *old(self)
                    } else {
                        r == Ok::<u64, SeekError>((old(self).1 + v) as u64)
                            && *final(self) == SliceIo(old(self).0, (old(self).1 + v) as u64, old(self).2)
                    },
            },
    {
        match from {
            SeekFrom::Start(v) => {
                self.1 = v;
            },
            SeekFrom::End(_) => {
                return Err(SeekError::NotSupported(Code::NotSupported));
            },
            SeekFrom::Current(v) => {
                if v < 0 && (-v) as u64 > self.1 {
                    return Err(SeekError::BeforeStart);
                }
                if v < 0 {
                    self.1 = self.1 - (-v) as u64;
                } else {
                    self.1 = self.1 + v as u64;
                }
            },
        }
        Ok(self.1)
    }

    /// Where a read or write of up to `buf_len` bytes through the window goes
    /// in the file, and how many bytes it moves: no more than the window
    /// holds.
    pub fn transfer_span(&self, buf_len: usize) -> (r: (u64, usize))
        ensures
            r.0 == self.1,
            r.1 == match window_len(self.1, self.2) {
                Some(n) => if (buf_len as u64) < n { buf_len } else { n as usize },
                None => buf_len,
            },
    {
        let limit = match self.view_len() {
            Some(n) => n,
            None => u64::MAX,
        };
        let to_move = if (buf_len as u64) < limit { buf_len } else { limit as usize };
        (self.view_absolute_start(), to_move)
    }

    /// After a transfer of `moved` bytes the window starts that much later.
    pub fn advance(&mut self, moved: usize)
        requires old(self).1 + moved <= u64::MAX,
        ensures *final(self) == SliceIo(old(self).0, (old(self).1 + moved) as u64, old(self).2),
    {
        self.1 = self.1 + moved as u64;
    }
}

/// A file the local file system thread keeps open by reference count.
#[derive(Clone, Debug)]
pub struct FSThreadFileRef {
    pub path: String,
    pub refs: usize,
}

impl FSThreadFileRef {
    pub fn add_ref(&mut self)
        requires old(self).refs < usize::MAX,
        ensures final(self).refs == old(self).refs + 1, final(self).path == old(self).path,
    {
        self.refs = self.refs + 1;
    }

    /// Drops one reference. Answers true when the last reference is gone; the
    /// count is then left as it was.
    pub fn sub_ref(&mut self) -> (gone: bool)
        requires old(self).refs >= 1,
        ensures
            gone == (old(self).refs == 1),
            gone ==> final(self).refs == old(self).refs,
            !gone ==> final(self).refs == old(self).refs - 1,
            final(self).path == old(self).path,
    {
        if self.refs == 1 {
            true
        } else {
            self.refs = self.refs - 1;
            false
        }
    }
}

/// Adding a reference and dropping it again leaves the count as it was.
pub proof fn lemma_ref_add_sub(refs: usize)
    requires 1 <= refs < usize::MAX,
    ensures
        refs + 1 != 1,
        (refs + 1) - 1 == refs,
{
}

impl Instance {
    /// A new file system of a kind: `created` is the handle that
    /// `PPB_FileSystem::Create(self, kind)` returned, null on failure.
    pub fn create_file_system(&self, created: PP_Resource) -> (r: Option<FileSystem>)
        ensures r == handle_option(created, |h: PP_Resource| FileSystem(h)),
    {
        if created == 0 { None } else { Some(FileSystem(created)) }
    }
}

/// Each open flag reaches the browser as its own bit, and only then: the
/// bits ask to read, write, create, truncate, open exclusively or append
/// exactly when the flags say so.
pub proof fn lemma_open_bits_are_the_flags(f: OpenFlags)
    ensures
        0 <= f.spec_bits() < 64,
        (f.spec_bits() as i32) & ffi::PP_FILEOPENFLAG_READ != 0 <==> f.read,
        (f.spec_bits() as i32) & ffi::PP_FILEOPENFLAG_WRITE != 0 <==> f.write,
        (f.spec_bits() as i32) & ffi::PP_FILEOPENFLAG_CREATE != 0 <==> f.create,
        (f.spec_bits() as i32) & ffi::PP_FILEOPENFLAG_TRUNCATE != 0 <==> f.truncate,
        (f.spec_bits() as i32) & ffi::PP_FILEOPENFLAG_EXCLUSIVE != 0 <==> f.exclusive,
        (f.spec_bits() as i32) & ffi::PP_FILEOPENFLAG_APPEND != 0 <==> f.append,
{
    let r = f.read;
    let w = f.write;
    let c = f.create;
    let t = f.truncate;
    let e = f.exclusive;
    let a = f.append;
    let x: i32 = ((if r { 1i32 } else { 0i32 }) + (if w { 2i32 } else { 0i32 }) + (if c { 4i32 } else { 0i32 })
        + (if t { 8i32 } else { 0i32 }) + (if e { 16i32 } else { 0i32 }) + (if a { 32i32 } else { 0i32 })) as i32;
    assert(f.spec_bits() == x as int);
    assert(
        (x & 1 != 0 <==> r) && (x & 2 != 0 <==> w) && (x & 4 != 0 <==> c)
        && (x & 8 != 0 <==> t) && (x & 16 != 0 <==> e) && (x & 32 != 0 <==> a)
    ) by (bit_vector)
        requires
            x == ((if r { 1i32 } else { 0i32 }) + (if w { 2i32 } else { 0i32 }) + (if c { 4i32 } else { 0i32 })
                + (if t { 8i32 } else { 0i32 }) + (if e { 16i32 } else { 0i32 }) + (if a { 32i32 } else { 0i32 })) as i32;
}

/// Each value is given to the browser under the name of its own kind, and
/// no two kinds share a name.
pub proof fn lemma_kind_value_by_name(x: Kind)
    ensures
        kind_value(x) == ffi::PP_FILESYSTEMTYPE_EXTERNAL <==> x is External,
        kind_value(x) == ffi::PP_FILESYSTEMTYPE_LOCALPERSISTENT <==> x is LocalPersistent,
        kind_value(x) == ffi::PP_FILESYSTEMTYPE_LOCALTEMPORARY <==> x is LocalTemp,
        kind_value(x) == ffi::PP_FILESYSTEMTYPE_ISOLATED <==> x is Isolated,
{
}

/// A file type the browser reports reads as the type named for it, and a
/// file system kind given to the browser reads back as itself.
pub proof fn lemma_types_read_by_name(v: ffi::PP_FileType, x: Kind)
    requires
        v <= ffi::PP_FILETYPE_OTHER,
    ensures
        file_type_of(v) is Regular <==> v == ffi::PP_FILETYPE_REGULAR,
        file_type_of(v) is Directory <==> v == ffi::PP_FILETYPE_DIRECTORY,
        file_type_of(v) is Other <==> v == ffi::PP_FILETYPE_OTHER,
        kind_of(kind_value(x)) == x,
{
}

} // verus!
