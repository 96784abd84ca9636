use serviceos_runtime::error::Error;
use serviceos_runtime::rng::{entropy, entropy_outcome, EntropyDraw, RNG_MAX_REQUEST_BYTES};

#[test]
fn empty_buffer_short_circuits_without_syscall() {
    let mut empty: [u8; 0] = [];
    // The empty fast path is done before any kernel request.
    assert_eq!(entropy(&mut empty), EntropyDraw::Ready(Ok(0)));
}

#[test]
fn large_buffers_ask_for_at_most_one_page() {
    let mut small = [7u8; 16];
    assert_eq!(entropy(&mut small), EntropyDraw::Request { length: 16 });
    assert_eq!(small, [7u8; 16]);
    let mut large = vec![0u8; RNG_MAX_REQUEST_BYTES + 5];
    assert_eq!(entropy(&mut large), EntropyDraw::Request { length: RNG_MAX_REQUEST_BYTES });
}

#[test]
fn kernel_answers_become_counts_or_errors() {
    assert_eq!(entropy_outcome(Ok(32)), Ok(32));
    assert_eq!(entropy_outcome(Err(Error::Busy)), Err(Error::Busy));
}
