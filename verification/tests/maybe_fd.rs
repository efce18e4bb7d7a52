use monoio_driver::maybe_fd::MaybeFd;

#[test]
fn maybe_fd_wrapping() {
    let fd = MaybeFd::new_fd(7);
    assert_eq!(fd.fd(), 7);
    assert_eq!(fd.fd_to_close(), Some(7));
    assert_eq!(fd.into_inner(), 7);
    let n = MaybeFd::new_non_fd(12);
    assert_eq!(n.fd_to_close(), None);
    assert_eq!(n.into_inner(), 12);
    let z = MaybeFd::zero();
    assert_eq!(z.fd(), 0);
    assert_eq!(z.fd_to_close(), None);
}

#[test]
fn maybe_fd_results() {
    let ok = MaybeFd::new_result(Ok(3), true).unwrap();
    assert_eq!(ok.fd_to_close(), Some(3));
    let plain = MaybeFd::new_non_fd_result(Ok(4)).unwrap();
    assert_eq!((plain.fd(), plain.fd_to_close()), (4, None));
    let owned = MaybeFd::new_fd_result(Ok(5)).unwrap();
    assert_eq!(owned.fd_to_close(), Some(5));
    let err = MaybeFd::new_result(Err(std::io::Error::from_raw_os_error(9)), true).unwrap_err();
    assert_eq!(err.raw_os_error(), Some(9));
}
