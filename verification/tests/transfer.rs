use xbridge::transfer::{after_send, received, send_all, SendStep};

fn sent_through(data: &[u8], most: usize) -> Option<Vec<u8>> {
    let mut sent = Vec::new();
    let mut step = send_all(data);
    loop {
        match step {
            SendStep::Done => return Some(sent),
            SendStep::WroteNothing => return None,
            SendStep::More(rest) => {
                let n = most.min(rest.len());
                sent.extend_from_slice(&rest[..n]);
                step = after_send(rest, n);
            }
        }
    }
}

#[test]
fn nothing_to_send_is_done_at_once() {
    assert!(matches!(send_all(b""), SendStep::Done));
}

#[test]
fn everything_is_sent_in_order_however_it_is_cut() {
    let data: Vec<u8> = (0..100).collect();
    for most in 1..=120 {
        assert_eq!(sent_through(&data, most), Some(data.clone()));
    }
}

#[test]
fn a_stream_that_takes_nothing_ends_the_sending() {
    assert!(matches!(after_send(b"abc", 0), SendStep::WroteNothing));
    assert_eq!(sent_through(b"abc", 0), None);
}

#[test]
fn the_rest_is_what_was_not_taken() {
    match after_send(b"abcdef", 2) {
        SendStep::More(rest) => assert_eq!(rest, b"cdef"),
        _ => panic!("four bytes are left"),
    }
    assert!(matches!(after_send(b"abcdef", 6), SendStep::Done));
}

#[test]
fn what_was_received_is_passed_on() {
    assert_eq!(received(b"abcdef", 4), Some(b"abcd".to_vec()));
    assert_eq!(received(b"abcdef", 6), Some(b"abcdef".to_vec()));
    assert_eq!(received(b"abcdef", 0), None);
    assert_eq!(received(b"", 0), None);
}
