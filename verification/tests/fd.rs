use easy_proxy::error::ErrorKind;
use easy_proxy::fd::{add_non_block, nix_error_to_io_error, set_non_block, IoError, NixError};
use nix::fcntl::OFlag;

#[test]
fn failed_calls_are_reported() {
    let invalid = IoError::Kind { kind: ErrorKind::InvalidInput };
    assert_eq!(nix_error_to_io_error(NixError::InvalidUtf8, libc::ENOTSUP), invalid);
    assert_eq!(nix_error_to_io_error(NixError::InvalidPath, libc::ENOTSUP), invalid);
    assert_eq!(
        nix_error_to_io_error(NixError::UnsupportedOperation, libc::ENOTSUP),
        IoError::Os { errno: libc::ENOTSUP }
    );
    assert_eq!(
        nix_error_to_io_error(NixError::Sys { errno: libc::EPIPE }, libc::ENOTSUP),
        IoError::Os { errno: libc::EPIPE }
    );
}

#[test]
fn flag_is_added() {
    assert_eq!(add_non_block(0b0011, 0b0100), 0b0111);
    assert_eq!(add_non_block(0b0111, 0b0100), 0b0111);
}

#[test]
fn known_flags_stay_and_the_others_go() {
    let bit = OFlag::O_NONBLOCK.bits();
    let known = (OFlag::O_RDWR | OFlag::O_APPEND).bits();
    assert_eq!(set_non_block(known, bit), known | bit);
    let unknown = !OFlag::all().bits();
    assert_ne!(unknown, 0);
    assert_eq!(set_non_block(known | unknown, bit), known | bit);
    assert_eq!(set_non_block(bit, bit), bit);
    for flags in [0, known, unknown, known | unknown, -1] {
        let once = set_non_block(flags, bit);
        assert_eq!(set_non_block(once, bit), once);
    }
    assert_eq!(set_non_block(-1, bit), OFlag::all().bits());
}
