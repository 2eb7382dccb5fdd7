use errcode::table::errno_code;
use errcode::table::ext_errno_code;
use errcode::ErrorCode;
use errcode::Errno;
use errcode::ExtErrno;
use errcode::Platform;

#[test]
fn einval_scenario_on_the_build_platform() {
    let c = ErrorCode::EINVAL();
    assert!(c.eq_u32(22));
    assert!(c.eq_i64(22));
    assert!(!c.eq_i32(-22));
    assert!(!c.eq_u16(0));
    let n = c.negate();
    assert!(n.eq_i32(-22));
    assert!(!n.eq_u32(22));
    let back = n.negate();
    assert!(back.eq_u32(22));
    assert_eq!(back, c);
}

#[test]
fn named_constants_match_the_build_platform_table() {
    assert_eq!(ErrorCode::EPERM().as_u16(), 1);
    assert_eq!(ErrorCode::ENOENT().as_u16(), 2);
    assert_eq!(ErrorCode::EINTR().as_u16(), 4);
    assert_eq!(ErrorCode::EIO().as_u16(), 5);
    assert_eq!(ErrorCode::EAGAIN().as_u16(), 11);
    assert_eq!(ErrorCode::EWOULDBLOCK().as_u16(), 11);
    assert_eq!(ErrorCode::EINVAL().as_u16(), 22);
    assert_eq!(ErrorCode::EADDRINUSE().as_u16(), 98);
    assert_eq!(ErrorCode::ECANCELED().as_u16(), 125);
    assert_eq!(ErrorCode::ENOTRECOVERABLE().as_u16(), 131);
}

#[test]
fn extension_constants_match_the_build_platform_table() {
    assert_eq!(ErrorCode::ENODATA().as_u16(), 61);
    assert_eq!(ErrorCode::ENOSR().as_u16(), 63);
    assert_eq!(ErrorCode::ENOSTR().as_u16(), 60);
    assert_eq!(ErrorCode::ETIME().as_u16(), 62);
}

#[test]
fn tables_are_genuinely_platform_specific() {
    let linux = errno_code(Platform::LinuxX86, Errno::EADDRINUSE);
    let bsd = errno_code(Platform::FreeBsd, Errno::EADDRINUSE);
    assert_eq!(linux.as_u16(), 98);
    assert_eq!(bsd.as_u16(), 48);
    assert_ne!(linux, bsd);
    let mac = errno_code(Platform::MacOs, Errno::ETIMEDOUT);
    let lin = errno_code(Platform::LinuxX86, Errno::ETIMEDOUT);
    assert_eq!(mac.as_u16(), 60);
    assert_eq!(lin.as_u16(), 110);
}

#[test]
fn table_spot_checks_per_platform() {
    assert_eq!(errno_code(Platform::FreeBsd, Errno::ENOLCK).as_u16(), 77);
    assert_eq!(errno_code(Platform::FreeBsd, Errno::EOWNERDEAD).as_u16(), 96);
    assert_eq!(errno_code(Platform::LinuxX86, Errno::EDEADLK).as_u16(), 35);
    assert_eq!(errno_code(Platform::LinuxMips, Errno::EDQUOT).as_u16(), 1133);
    assert_eq!(errno_code(Platform::LinuxMips, Errno::ENOTRECOVERABLE).as_u16(), 166);
    assert_eq!(errno_code(Platform::MacOs, Errno::EOPNOTSUPP).as_u16(), 102);
    assert_eq!(errno_code(Platform::MacOs, Errno::ENOTSUP).as_u16(), 45);
    // The same name can share a value on one platform and not another.
    assert_eq!(
        errno_code(Platform::FreeBsd, Errno::ENOTSUP),
        errno_code(Platform::FreeBsd, Errno::EOPNOTSUPP)
    );
    assert_ne!(
        errno_code(Platform::MacOs, Errno::ENOTSUP),
        errno_code(Platform::MacOs, Errno::EOPNOTSUPP)
    );
}

#[test]
fn extension_lookup_is_absent_where_undefined() {
    assert!(ext_errno_code(Platform::FreeBsd, ExtErrno::ETIME).is_none());
    assert!(ext_errno_code(Platform::FreeBsd, ExtErrno::ENODATA).is_none());
    let mac = ext_errno_code(Platform::MacOs, ExtErrno::ENODATA).unwrap();
    assert_eq!(mac.as_u16(), 96);
    let lin = ext_errno_code(Platform::LinuxX86, ExtErrno::ENODATA).unwrap();
    assert_eq!(lin.as_u16(), 61);
    let mips = ext_errno_code(Platform::LinuxMips, ExtErrno::ETIME).unwrap();
    assert_eq!(mips.as_u16(), 62);
    assert_ne!(mac, lin);
}

#[test]
fn current_platform_is_the_build_platform() {
    assert_eq!(errcode::table::current_platform(), Platform::LinuxX86);
    let c = errno_code(errcode::table::current_platform(), Errno::EINVAL);
    assert_eq!(c, ErrorCode::EINVAL());
}
