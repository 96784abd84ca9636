use serviceos_runtime::abi::{SecurityStatus, SecurityTag};
use serviceos_runtime::error::Error;
use serviceos_runtime::message::{Exchange, RawMessage};
use serviceos_runtime::security::security_policy_count;
use serviceos_runtime::storage::write_chunks;

fn list_reply(words: &[u64]) -> RawMessage {
    let mut m = RawMessage::empty(SecurityTag::PolicyListReply.code());
    m.words[..words.len()].copy_from_slice(words);
    m.word_count = words.len() as u32;
    m
}

#[test]
fn write_chunks_cover_blob_in_request_sized_ranges() {
    assert_eq!(write_chunks(0), vec![]);
    assert_eq!(write_chunks(5), vec![(0, 5)]);
    assert_eq!(write_chunks(104), vec![(0, 104)]);
    assert_eq!(write_chunks(250), vec![(0, 104), (104, 208), (208, 250)]);
}

#[test]
fn policy_count_reads_until_past_the_end() {
    let mut count = 7usize;
    match security_policy_count(&mut count, None) {
        Exchange::Send(m) => {
            assert_eq!(m.tag, SecurityTag::PolicyListRequest.code());
            assert_eq!((m.word_count, m.words[0]), (1, 0));
        }
        Exchange::Done(_) => panic!("expected a request"),
    }
    assert_eq!(count, 0);
    let name = u64::from_le_bytes(*b"files\0\0\0");
    let listed = list_reply(&[SecurityStatus::Success.code() as u64, 0, 0, 0, 0, 5, name]);
    match security_policy_count(&mut count, Some(&listed)) {
        Exchange::Send(m) => assert_eq!((m.word_count, m.words[0]), (1, 1)),
        Exchange::Done(_) => panic!("expected the next request"),
    }
    assert_eq!(count, 1);
    let end = list_reply(&[SecurityStatus::NotFound.code() as u64, 0, 0, 0, 0, 0]);
    assert_eq!(security_policy_count(&mut count, Some(&end)), Exchange::Done(Ok(1)));
    let refused = list_reply(&[SecurityStatus::Denied.code() as u64, 0, 0, 0, 0, 0]);
    assert_eq!(security_policy_count(&mut count, Some(&refused)), Exchange::Done(Err(Error::PermissionDenied)));
    assert_eq!(count, 1);
}
