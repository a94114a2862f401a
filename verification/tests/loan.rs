use rcp::loan::{check_loan_size, BufferPool};
use rcp::RcpError;

#[test]
fn pool_created_with_count_zeroed_buffers() {
    let mut pool = BufferPool::new(3, 64);
    assert_eq!(pool.available(), 3);
    assert_eq!(pool.buffer_size(), 64);
    let b = pool.take().unwrap();
    assert_eq!(b, vec![0u8; 64]);
}

#[test]
fn take_reduces_available_and_empty_pool_gives_none() {
    let mut pool = BufferPool::new(1, 8);
    let _b = pool.take().unwrap();
    assert_eq!(pool.available(), 0);
    assert!(pool.take().is_none());
}

#[test]
fn given_back_buffer_is_available_again_and_taken_first() {
    let mut pool = BufferPool::new(2, 4);
    let mut b = pool.take().unwrap();
    b[..4].copy_from_slice(b"test");
    pool.give_back(b);
    assert_eq!(pool.available(), 2);
    assert_eq!(pool.take().unwrap(), b"test".to_vec());
}

#[test]
fn loan_size_check() {
    assert_eq!(check_loan_size(65, 64).unwrap_err(), RcpError::PayloadTooLarge);
    assert!(check_loan_size(64, 64).is_ok());
    assert!(check_loan_size(0, 64).is_ok());
}
