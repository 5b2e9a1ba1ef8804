use ppapi::code::Code;
use ppapi::ffi;
use ppapi::fs::{FileIo, FileSystem, FileView, Info, OpenFlags, SeekError, SeekFrom, SliceIo};
use ppapi::instance::Instance;

#[test]
fn open_flags_bits() {
    assert_eq!(OpenFlags::new().bits(), ffi::PP_FILEOPENFLAG_READ);
    let f = OpenFlags::new().write(true).create(true).truncate(true);
    assert_eq!(f.bits(), ffi::PP_FILEOPENFLAG_READ | ffi::PP_FILEOPENFLAG_WRITE | ffi::PP_FILEOPENFLAG_CREATE | ffi::PP_FILEOPENFLAG_TRUNCATE);
    let g = f.append(true);
    assert!(!g.write && g.append);
    let h = g.write(true);
    assert!(h.write && !h.append);
}

#[test]
fn slice_window_and_seek() {
    let file = FileIo::new(3);
    let mut s = file.view(10, Some(20));
    assert_eq!(s.view_len(), Some(10));
    assert_eq!(s.transfer_span(4), (10, 4));
    assert_eq!(s.transfer_span(40), (10, 10));
    assert_eq!(s.seek(SeekFrom::Current(-4)), Ok(6));
    assert_eq!(s.seek(SeekFrom::Current(-7)), Err(SeekError::BeforeStart));
    assert_eq!(s.seek(SeekFrom::End(0)), Err(SeekError::NotSupported(Code::NotSupported)));
    assert_eq!(s.seek(SeekFrom::Start(2)), Ok(2));
    s.advance(3);
    assert_eq!(s, SliceIo(file, 5, Some(20)));
}

#[test]
fn slice_query_cuts_size() {
    let s = SliceIo(FileIo::new(3), 10, Some(20));
    let info = Info { size: 15, file_type: ffi::PP_FILETYPE_REGULAR, system_type: ffi::PP_FILESYSTEMTYPE_LOCALTEMPORARY,
                      creation_time: 0, last_access_time: 0, last_modified_time: 0 };
    assert_eq!(s.sync_query(Ok(info)).unwrap().size, 5);
    assert_eq!(s.sync_query(Err(Code::Failed)), Err(Code::Failed));
}

#[test]
fn file_system_answers() {
    let inst = Instance::new(1);
    assert_eq!(inst.create_file_system(0), None);
    let fsys = inst.create_file_system(5).unwrap();
    assert_eq!(fsys, FileSystem::new(5));
    assert_eq!(fsys.open(ffi::PP_OK_COMPLETIONPENDING), Code::CompletionPending);
    assert!(fsys.create(0).is_none());
}

#[test]
fn parent_walk_ends_at_the_root() {
    let mut walk = ppapi::fs::FileRef(5).parents_iter();
    assert_eq!(walk.next(ppapi::fs::FileRef(3)), Some(ppapi::fs::FileRef(3)));
    assert_eq!(walk.next(ppapi::fs::FileRef(1)), Some(ppapi::fs::FileRef(1)));
    assert_eq!(walk.next(ppapi::fs::FileRef(1)), None);
    assert_eq!(walk.p, ppapi::fs::FileRef(1));
}
