//! Owners, modes, access rules and attribute names.

use passthrough_fs::abi::{
    EACCES, EBADF, EINVAL, ENODATA, ENOTSUP, EPERM, S_IFDIR, S_IFLNK, S_IFMT, S_IFREG, S_ISGID,
    W_OK, X_OK,
};
use passthrough_fs::access::{check_stat_access, guest_create_gid};
use passthrough_fs::config::{CachePolicy, Config};
use passthrough_fs::guest_xattr::{
    guest_xattr_list_from_host, guest_xattr_name_from_host, host_xattr_name_for_guest,
};
use passthrough_fs::metadata::{
    get_override_xattr, has_override_xattr, set_override_xattr, stat, HasOverride, ReadOverride,
    StatFile, WriteOverride,
};
use passthrough_fs::model::{
    ebadf, einval, statx, Context, FsError, RawFd, Stat, Statx, StatxTimestamp, Timeout,
};
use passthrough_fs::override_stat::{
    apply_override_stat, clear_suid_sgid, get_xattr_common, is_missing_override_xattr_error,
    is_symlink, is_valid_owner, merge_override, override_xattr_value,
    should_store_override_stat_for_setattr_error, OverrideStat, OVERRIDE_SIZE, UID_MAX, XATTR_KEY,
};
use passthrough_fs::step::{
    fd_path, proc_fd_path, Reply, Step, Syscall, XattrName, XattrTarget, XattrValue,
};
use std::str::FromStr;

fn stat_with_owner(uid: u32, gid: u32, mode: u32) -> Stat {
    let mut st = Stat::zeroed();
    st.st_uid = uid;
    st.st_gid = gid;
    st.st_mode = S_IFREG | mode;
    st
}

/// One file of a host, with at most one attribute. An attribute can be reached through an open file
/// unless the file only stands for its place.
struct OneFile {
    st: Stat,
    place_only: bool,
    value: Option<Vec<u8>>,
    calls: Vec<Syscall>,
}

impl OneFile {
    fn new(mode: u32) -> OneFile {
        let mut st = Stat::zeroed();
        st.st_uid = 1000;
        st.st_gid = 1000;
        st.st_mode = mode;
        OneFile { st, place_only: false, value: None, calls: Vec::new() }
    }

    fn perform(&mut self, call: Syscall) -> Reply {
        self.calls.push(call);
        match call {
            Syscall::FstatAt { .. } => Reply::Stat(self.st),
            Syscall::GetXattr { target, name: XattrName::Override, size } => {
                if self.place_only && matches!(target, XattrTarget::Fd(_)) {
                    return Reply::Fail(EBADF);
                }
                match &self.value {
                    None => Reply::Fail(ENODATA),
                    Some(value) if size == 0 => Reply::Num(value.len() as u64),
                    Some(value) if value.len() > size => Reply::Fail(34),
                    Some(value) => Reply::Bytes(value.clone()),
                }
            }
            Syscall::SetXattr { target, value: XattrValue::Override(value), flags: 0, .. } => {
                if self.place_only && matches!(target, XattrTarget::Fd(_)) {
                    return Reply::Fail(EBADF);
                }
                if is_symlink(&self.st) {
                    return Reply::Fail(EPERM);
                }
                self.value = Some(override_xattr_value(value));
                Reply::Unit
            }
            call => panic!("unexpected {call:?}"),
        }
    }

    fn set(
        &mut self,
        fd: RawFd,
        owner: Option<(u32, u32)>,
        mode: Option<u32>,
    ) -> Result<(), FsError> {
        let mut step = set_override_xattr(fd, owner, mode);
        loop {
            match step {
                Step::Call(call, op) => step = op.resume(self.perform(call)),
                Step::Done(res) => return res,
            }
        }
    }

    fn get(&mut self, fd: RawFd) -> Result<OverrideStat, FsError> {
        let mut step = get_override_xattr(fd);
        loop {
            match step {
                Step::Call(call, op) => step = op.resume(self.perform(call)),
                Step::Done(res) => return res,
            }
        }
    }

    fn has(&mut self, fd: RawFd) -> Result<bool, FsError> {
        let mut step = has_override_xattr(fd);
        loop {
            match step {
                Step::Call(call, op) => step = op.resume(self.perform(call)),
                Step::Done(res) => return res,
            }
        }
    }

    fn stat(&mut self, fd: RawFd) -> Result<Stat, FsError> {
        let mut step = stat(fd, Some(1000), Some(1000));
        loop {
            match step {
                Step::Call(call, op) => step = op.resume(self.perform(call)),
                Step::Done(res) => return res,
            }
        }
    }
}

#[test]
fn override_stat_maps_host_owner_to_guest_root_by_default() {
    let st = stat_with_owner(1000, 1000, 0o644);

    let got = apply_override_stat(st, None, None, None, Some(1000), Some(1000));

    assert_eq!(got.st_uid, 0);
    assert_eq!(got.st_gid, 0);
    assert_eq!(got.st_mode & 0o777, 0o644);
}

#[test]
fn override_stat_uses_xattr_owner_and_octal_mode() {
    let st = stat_with_owner(1000, 1000, 0o644);

    let got = apply_override_stat(st, Some(33), Some(44), Some(0o755), Some(1000), Some(1000));

    assert_eq!(got.st_uid, 33);
    assert_eq!(got.st_gid, 44);
    assert_eq!(got.st_mode & libc::S_IFMT, libc::S_IFREG);
    assert_eq!(got.st_mode & 0o777, 0o755);
}

#[test]
fn override_xattr_parser_reads_mode_as_octal() {
    let (uid, gid, mode) = get_xattr_common(b"0:0:0755");

    assert_eq!(uid, Some(0));
    assert_eq!(gid, Some(0));
    assert_eq!(mode, Some(0o755));
}

#[test]
fn override_xattr_mode_update_keeps_existing_owner() {
    let mut file = OneFile::new(S_IFREG | 0o644);

    file.set(7, Some((33, 44)), None).unwrap();
    file.set(7, None, Some(0o4755)).unwrap();
    let (uid, gid, mode) = file.get(7).unwrap();

    assert_eq!(uid, Some(33));
    assert_eq!(gid, Some(44));
    assert_eq!(mode, Some(0o4755));
    assert_eq!(file.value, Some(b"33:44:04755".to_vec()));
}

#[test]
fn override_xattr_stores_inherited_setgid_metadata() {
    let mut dir = OneFile::new(S_IFDIR | 0o755);

    dir.set(7, Some((1000, 2000)), Some(0o2750)).unwrap();
    let (uid, gid, mode) = dir.get(7).unwrap();

    assert_eq!(uid, Some(1000));
    assert_eq!(gid, Some(2000));
    assert_eq!(mode, Some(0o2750));
}

#[test]
fn clear_suid_sgid_removes_only_setid_bits() {
    assert_eq!(clear_suid_sgid(0o6755), 0o0755);
    assert_eq!(clear_suid_sgid(libc::S_IFREG | 0o6755), libc::S_IFREG | 0o0755);
    assert_eq!(clear_suid_sgid(libc::S_IFDIR | 0o1777), libc::S_IFDIR | 0o1777);
}

#[test]
fn setattr_mode_fallback_is_limited_to_metadata_backend_errors() {
    assert!(should_store_override_stat_for_setattr_error(&FsError::from_raw_os_error(
        libc::EINVAL
    )));
    assert!(should_store_override_stat_for_setattr_error(&FsError::from_raw_os_error(
        libc::EPERM
    )));
    assert!(should_store_override_stat_for_setattr_error(&FsError::from_raw_os_error(
        libc::ENOTSUP
    )));
    assert!(!should_store_override_stat_for_setattr_error(&FsError::from_raw_os_error(
        libc::ENOENT
    )));
    assert!(!should_store_override_stat_for_setattr_error(&FsError::from_raw_os_error(libc::EIO)));
}

#[test]
fn supplementary_group_grants_directory_create_access() {
    let ctx = Context { uid: 1000, gid: 1001, pid: 1 };
    let mut st = Stat::zeroed();
    st.st_uid = 0;
    st.st_gid = 2000;
    st.st_mode = libc::S_IFDIR | 0o2770;

    check_stat_access(&ctx, &st, (libc::W_OK | libc::X_OK) as u32, &[2000]).unwrap();
    let err = check_stat_access(&ctx, &st, (libc::W_OK | libc::X_OK) as u32, &[]).unwrap_err();
    assert_eq!(err.raw_os_error(), Some(libc::EACCES));
}

#[test]
fn owner_permissions_do_not_fall_through_to_supplementary_group() {
    let ctx = Context { uid: 1000, gid: 1001, pid: 1 };
    let mut st = Stat::zeroed();
    st.st_uid = 1000;
    st.st_gid = 2000;
    st.st_mode = libc::S_IFDIR | 0o070;

    let err = check_stat_access(&ctx, &st, (libc::W_OK | libc::X_OK) as u32, &[2000]).unwrap_err();

    assert_eq!(err.raw_os_error(), Some(libc::EACCES));
}

#[test]
fn setgid_parent_selects_inherited_guest_group() {
    let ctx = Context { uid: 1000, gid: 1001, pid: 1 };
    let mut st = Stat::zeroed();
    st.st_gid = 2000;
    st.st_mode = libc::S_IFDIR | libc::S_ISGID;

    assert_eq!(guest_create_gid(&ctx, &st), 2000);

    st.st_mode = libc::S_IFDIR | 0o770;
    assert_eq!(guest_create_gid(&ctx, &st), 1001);
}

#[test]
fn guest_xattr_name_is_mapped_to_user_namespace() {
    let got = host_xattr_name_for_guest(b"security.capability");

    assert_eq!(
        got.as_slice(),
        b"user.containers.guest_xattr.73656375726974792e6361706162696c697479"
    );
}

#[test]
fn guest_xattr_list_decodes_only_mapped_names() {
    let raw = b"user.containers.override_stat\0user.containers.guest_xattr.73656375726974792e6361706162696c697479\0user.host-only\0";

    let got = guest_xattr_list_from_host(raw);

    assert_eq!(got, b"security.capability\0");
}

#[test]
fn override_xattr_ignores_symlink_owner() {
    let mut link = OneFile::new(S_IFLNK | 0o777);
    link.place_only = true;

    link.set(7, Some((33, 44)), None).unwrap();

    assert_eq!(link.value, None);
    assert_eq!(link.calls.len(), 1);
    assert_eq!(link.get(7), Ok((None, None, None)));
    assert_eq!(link.has(7), Ok(false));
}

#[test]
fn override_text_is_user_group_and_octal_mode() {
    assert_eq!(override_xattr_value((Some(0), Some(0), Some(0o755))), b"0:0:0755");
    assert_eq!(override_xattr_value((Some(33), None, None)), b"33:x:x");
    assert_eq!(override_xattr_value((None, Some(44), Some(0))), b"x:44:00");
    assert_eq!(
        override_xattr_value((Some(u32::MAX), Some(10), Some(u32::MAX))),
        b"4294967295:10:037777777777"
    );
    assert_eq!(XATTR_KEY.as_slice(), b"user.containers.override_stat");
}

#[test]
fn override_text_is_read_back() {
    let ids = [None, Some(0), Some(7), Some(1000), Some(u32::MAX)];
    for uid in ids {
        for gid in ids {
            for mode in [None, Some(0), Some(0o4755), Some(0o100644), Some(u32::MAX)] {
                let text = override_xattr_value((uid, gid, mode));
                assert_eq!(get_xattr_common(&text), (uid, gid, mode));
                if mode != Some(u32::MAX) {
                    assert!(text.len() <= OVERRIDE_SIZE);
                }
            }
        }
    }
}

#[test]
fn override_text_with_errors_is_read_as_far_as_it_goes() {
    assert_eq!(get_xattr_common(b""), (None, None, None));
    assert_eq!(get_xattr_common(b"12"), (Some(12), None, None));
    assert_eq!(get_xattr_common(b"+12:+3:+7"), (Some(12), Some(3), Some(7)));
    assert_eq!(get_xattr_common(b"-1:3:8"), (None, Some(3), None));
    assert_eq!(get_xattr_common(b"4294967296:3:0:5"), (None, Some(3), Some(0)));
    assert_eq!(get_xattr_common(b"+:\xff:x"), (None, None, None));
    assert_eq!(get_xattr_common(b"::17"), (None, None, Some(0o17)));
}

#[test]
fn override_is_reached_through_the_path_where_the_file_is_only_a_place() {
    let mut file = OneFile::new(S_IFREG | 0o644);
    file.place_only = true;

    assert_eq!(file.has(7), Ok(false));
    file.set(7, Some((33, 44)), Some(0o600)).unwrap();
    assert_eq!(file.has(7), Ok(true));
    assert_eq!(file.get(7), Ok((Some(33), Some(44), Some(0o600))));
    assert_eq!(
        file.calls.last(),
        Some(&Syscall::GetXattr {
            target: XattrTarget::Follow(7),
            name: XattrName::Override,
            size: 32,
        })
    );
}

#[test]
fn an_override_that_does_not_fit_the_buffer_counts_as_none() {
    let mut file = OneFile::new(S_IFREG | 0o644);
    file.set(7, Some((UID_MAX - 1, UID_MAX - 1)), Some(u32::MAX)).unwrap();
    assert_eq!(file.value.as_ref().map(|v| v.len()), Some(34));
    assert_eq!(file.get(7), Ok((None, None, None)));
    assert_eq!(file.has(7), Ok(true));
}

#[test]
fn attributes_are_seen_through_the_override() {
    let mut file = OneFile::new(S_IFREG | 0o644);
    let plain = file.stat(7).unwrap();
    assert_eq!((plain.st_uid, plain.st_gid, plain.st_mode), (0, 0, S_IFREG | 0o644));

    file.set(7, Some((33, 44)), Some(0o4711)).unwrap();
    let seen = file.stat(7).unwrap();
    assert_eq!((seen.st_uid, seen.st_gid, seen.st_mode), (33, 44, S_IFREG | 0o4711));

    file.set(7, None, Some(S_IFDIR | 0o700)).unwrap();
    assert_eq!(file.stat(7).unwrap().st_mode, S_IFDIR | 0o700);
}

#[test]
fn failures_of_the_host_are_passed_on() {
    let fd = 3;
    let read = ReadOverride::Kind { fd };
    assert!(matches!(read.resume(Reply::Fail(5)), Step::Done(Err(FsError::Os(5)))));
    let has = HasOverride::Kind { fd };
    assert!(matches!(has.resume(Reply::Fail(5)), Step::Done(Err(FsError::Os(5)))));
    let has = HasOverride::ByFd { fd };
    assert!(matches!(has.resume(Reply::Fail(5)), Step::Done(Err(FsError::Os(5)))));
    let has = HasOverride::ByPath { fd };
    assert!(matches!(has.resume(Reply::Fail(5)), Step::Done(Err(FsError::Os(5)))));
    let write = WriteOverride::Kind { fd, owner: None, mode: Some(0) };
    assert!(matches!(write.resume(Reply::Fail(5)), Step::Done(Err(FsError::Os(5)))));
    let write = WriteOverride::ByPath { fd, value: (None, None, None) };
    assert!(matches!(write.resume(Reply::Fail(5)), Step::Done(Err(FsError::Os(5)))));
    let stat = StatFile::Host { fd, host_uid: None, host_gid: None };
    assert!(matches!(stat.resume(Reply::Fail(5)), Step::Done(Err(FsError::Os(5)))));
}

#[test]
fn missing_attributes_are_told_from_other_errors() {
    for code in [libc::ENODATA, libc::ENOTSUP, libc::EOPNOTSUPP, libc::EBADF] {
        assert!(is_missing_override_xattr_error(&FsError::Os(code)));
    }
    for code in [libc::EIO, libc::EPERM, libc::ERANGE, 0] {
        assert!(!is_missing_override_xattr_error(&FsError::Os(code)));
    }
    let both = FsError::SymlinkRollback { owner: ENODATA, rollback: ENODATA };
    assert!(!is_missing_override_xattr_error(&both));
    assert!(!should_store_override_stat_for_setattr_error(&both));
    assert_eq!(both.raw_os_error(), None);
    assert_eq!(ebadf().raw_os_error(), Some(libc::EBADF));
    assert_eq!(einval().raw_os_error(), Some(libc::EINVAL));
    assert_eq!((EBADF, EINVAL, ENOTSUP), (libc::EBADF, libc::EINVAL, libc::ENOTSUP));
}

#[test]
fn numbers_that_name_nobody_keep_what_was_there() {
    assert!(is_valid_owner(Some((0, UID_MAX - 1))));
    assert!(!is_valid_owner(Some((UID_MAX, 0))));
    assert!(!is_valid_owner(Some((0, u32::MAX))));
    assert!(!is_valid_owner(None));
    let before = (Some(1), None, Some(0o700));
    assert_eq!(merge_override(Some((u32::MAX, 9)), None, before), (Some(1), Some(9), Some(0o700)));
    assert_eq!(merge_override(Some((5, UID_MAX)), Some(0o10), before), (Some(5), None, Some(0o10)));
    assert_eq!(merge_override(None, None, before), before);
}

#[test]
fn access_is_judged_by_owner_group_and_others() {
    let mut st = Stat::zeroed();
    st.st_uid = 10;
    st.st_gid = 20;
    st.st_mode = S_IFREG | 0o421;
    let owner = Context { uid: 10, gid: 20, pid: 1 };
    let member = Context { uid: 11, gid: 20, pid: 1 };
    let other = Context { uid: 11, gid: 21, pid: 1 };
    for (ctx, allowed) in [(owner, 4), (member, 2), (other, 1)] {
        for mask in 0..8 {
            let want = if mask & allowed == mask { Ok(()) } else { Err(FsError::Os(EACCES)) };
            assert_eq!(check_stat_access(&ctx, &st, mask, &[]), want);
            assert_eq!(check_stat_access(&ctx, &st, mask | 0x100, &[]), want);
        }
    }
}

#[test]
fn a_supplementary_group_counts_as_the_callers_own() {
    let mut st = Stat::zeroed();
    st.st_uid = 10;
    st.st_gid = 20;
    for mode in 0..0o1000 {
        st.st_mode = S_IFDIR | mode;
        for mask in 0..8 {
            let through_list = Context { uid: 11, gid: 21, pid: 1 };
            let own = Context { uid: 11, gid: 20, pid: 1 };
            assert_eq!(
                check_stat_access(&through_list, &st, mask, &[5, 20]),
                check_stat_access(&own, &st, mask, &[])
            );
        }
    }
}

#[test]
fn root_may_do_all_but_execute_what_nobody_may() {
    let root = Context { uid: 0, gid: 0, pid: 1 };
    let mut st = Stat::zeroed();
    st.st_uid = 10;
    st.st_mode = S_IFREG;
    assert_eq!(check_stat_access(&root, &st, (W_OK | 4) as u32, &[]), Ok(()));
    assert_eq!(check_stat_access(&root, &st, X_OK as u32, &[]), Err(FsError::Os(EACCES)));
    st.st_mode = S_IFREG | 0o001;
    assert_eq!(check_stat_access(&root, &st, X_OK as u32, &[]), Ok(()));
}

#[test]
fn guest_names_are_read_back_and_host_names_hidden() {
    for name in [b"user.a".as_slice(), b"\x01\xff".as_slice(), b"x".as_slice()] {
        let host = host_xattr_name_for_guest(name);
        assert_eq!(guest_xattr_name_from_host(&host), Some(name.to_vec()));
    }
    for host in [
        b"user.containers.guest_xattr.".as_slice(),
        b"user.containers.guest_xattr.6".as_slice(),
        b"user.containers.guest_xattr.6g".as_slice(),
        b"user.containers.guest_xattr.00".as_slice(),
        b"user.containers.guest_xattr.6100".as_slice(),
        b"user.containers.override_stat".as_slice(),
        b"security.capability".as_slice(),
        b"".as_slice(),
    ] {
        assert_eq!(guest_xattr_name_from_host(host), None);
    }
    assert_eq!(
        guest_xattr_name_from_host(b"user.containers.guest_xattr.4A4b"),
        Some(b"JK".to_vec())
    );
    assert_eq!(guest_xattr_list_from_host(b""), b"");
    let names = [b"security.capability".as_slice(), b"trusted.\xc3\xa9".as_slice(), b"u".as_slice()];
    let (mut on_host, mut expected) = (Vec::new(), Vec::new());
    for name in names {
        on_host.extend(host_xattr_name_for_guest(name));
        on_host.push(0);
        on_host.extend_from_slice(b"user.host-only\0");
        expected.extend_from_slice(name);
        expected.push(0);
    }
    assert_eq!(guest_xattr_list_from_host(&on_host), expected);
    assert_eq!(
        guest_xattr_list_from_host(
            b"user.containers.guest_xattr.61\0\0user.containers.guest_xattr.62"
        ),
        b"a\0b\0"
    );
}

#[test]
fn paths_of_files_are_written_in_decimal() {
    assert_eq!(fd_path(0), b"0");
    assert_eq!(fd_path(1234), b"1234");
    assert_eq!(fd_path(-1), b"-1");
    assert_eq!(fd_path(i32::MIN), b"-2147483648");
    assert_eq!(proc_fd_path(17), b"/proc/self/fd/17");
}

#[test]
fn statx_report_is_taken_apart() {
    let time = |s: i64, n: u32| StatxTimestamp { tv_sec: s, tv_nsec: n };
    let stx = Statx {
        stx_blksize: 4096,
        stx_nlink: 2,
        stx_uid: 3,
        stx_gid: 4,
        stx_mode: 0o100644,
        stx_ino: 6,
        stx_size: u64::MAX,
        stx_blocks: 8,
        stx_atime: time(-1, 10),
        stx_ctime: time(11, 12),
        stx_mtime: time(13, 14),
        stx_rdev_major: 0x12345,
        stx_rdev_minor: 0x6789a,
        stx_dev_major: 8,
        stx_dev_minor: 0x301,
        stx_mnt_id: 99,
    };
    let (st, mnt_id) = statx(&stx);
    assert_eq!(mnt_id, 99);
    assert_eq!(st.st_dev, libc::makedev(8, 0x301));
    assert_eq!(st.st_dev, 0x300801);
    assert_eq!(st.st_rdev, libc::makedev(0x12345, 0x6789a));
    assert_eq!(
        st,
        Stat {
            st_dev: st.st_dev,
            st_ino: 6,
            st_nlink: 2,
            st_mode: 0o100644,
            st_uid: 3,
            st_gid: 4,
            st_rdev: st.st_rdev,
            st_size: -1,
            st_blksize: 4096,
            st_blocks: 8,
            st_atime: -1,
            st_atime_nsec: 10,
            st_mtime: 13,
            st_mtime_nsec: 14,
            st_ctime: 11,
            st_ctime_nsec: 12,
        }
    );
    assert_eq!(st.st_mode & S_IFMT, S_IFREG);
    assert_eq!(st.st_mode & S_ISGID, 0);
}

#[test]
fn cache_policies_have_three_spellings() {
    for (policy, words) in [
        (CachePolicy::Never, ["never", "Never", "NEVER"]),
        (CachePolicy::Auto, ["auto", "Auto", "AUTO"]),
        (CachePolicy::Always, ["always", "Always", "ALWAYS"]),
    ] {
        for word in words {
            assert_eq!(CachePolicy::from_str(word), Ok(policy));
        }
    }
    for word in ["", "nEver", "automatic", "alway", "always "] {
        assert_eq!(CachePolicy::from_str(word), Err("invalid cache policy"));
    }
    assert_eq!(CachePolicy::default(), CachePolicy::Auto);
}

#[test]
fn default_options() {
    let cfg = Config::default().clone();
    assert_eq!(cfg.entry_timeout, Timeout { secs: 5, nanos: 0 });
    assert_eq!(cfg.attr_timeout, Timeout { secs: 5, nanos: 0 });
    assert_eq!(cfg.cache_policy, CachePolicy::Auto);
    assert!(!cfg.writeback);
    assert_eq!(cfg.root_dir, "/");
    assert!(!cfg.xattr);
    assert_eq!(cfg.proc_sfd_rawfd, None);
    assert_eq!(cfg.export_fsid, 0);
    assert!(!cfg.export_table);
    assert!(!cfg.allow_root_dir_delete);
}
