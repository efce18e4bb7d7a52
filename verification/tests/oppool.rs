use monoio_driver::oppool::AcceptPool;

#[test]
fn pool_lends_last_given_back_first() {
    let mut p = AcceptPool::new(vec![10u32, 20, 30]);
    assert_eq!(p.acquire_sockaddr(), Some(30));
    assert_eq!(p.acquire_sockaddr(), Some(20));
    p.release_sockaddr(99);
    assert_eq!(p.acquire_sockaddr(), Some(99));
    assert_eq!(p.acquire_sockaddr(), Some(10));
    assert_eq!(p.acquire_sockaddr(), None);
    p.release_sockaddr(1);
    assert_eq!(p.acquire_sockaddr(), Some(1));
}

#[test]
fn empty_pool_lends_nothing() {
    let mut p: AcceptPool<u8> = AcceptPool::new(Vec::new());
    assert_eq!(p.acquire_sockaddr(), None);
}

#[test]
fn release_gives_back_what_acquire_lent() {
    let mut p = monoio_driver::oppool::AcceptPool::new(vec![1u8, 2, 3]);
    let b = p.acquire_sockaddr().unwrap();
    assert_eq!(b, 3);
    p.release_sockaddr(b);
    assert_eq!(p.acquire_sockaddr(), Some(3));
}
