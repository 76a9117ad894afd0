//! Driving the writer against a simulated backend.
//!
//! The harness plays the caller's shell: it keeps its own queue of pending
//! part uploads beside the writer's, resolves the head upload when asked
//! to, and injects failures to exercise the retry paths.

use std::collections::VecDeque;

use multipart_write::part::{MultipartPart, PartTask};
use multipart_write::writer::{AbortStep, CloseStep, MultipartWriter, WriteStep};

/// A small deterministic pseudo-random generator.
struct Lcg(u64);

impl Lcg {
    fn next(&mut self) -> u64 {
        self.0 = self
            .0
            .wrapping_mul(6364136223846793005)
            .wrapping_add(1442695040888963407);
        self.0 >> 33
    }

    fn below(&mut self, n: u64) -> u64 {
        self.next() % n
    }
}

/// What the simulated backend saw.
struct SimBackend {
    upload_id: String,
    /// Part numbers of successful part uploads, in completion order.
    part_numbers: Vec<usize>,
    /// Bytes across all successful uploads (parts and oneshot bodies).
    length: u64,
    init_calls: usize,
    write_once_calls: usize,
    write_once_bodies: Vec<Vec<u8>>,
    complete_calls: usize,
    abort_calls: usize,
}

impl SimBackend {
    fn new() -> SimBackend {
        SimBackend {
            upload_id: String::from("upload-1"),
            part_numbers: Vec::new(),
            length: 0,
            init_calls: 0,
            write_once_calls: 0,
            write_once_bodies: Vec::new(),
            complete_calls: 0,
            abort_calls: 0,
        }
    }
}

/// Check that the harness's pending queue mirrors the writer's and that the
/// concurrency bound is respected.
fn check_alignment(w: &MultipartWriter, pending: &VecDeque<PartTask>) {
    assert_eq!(pending.len(), w.in_flight());
    assert!(w.in_flight() <= w.concurrency());
    if let Some(front) = pending.front() {
        assert_eq!(front.part_number, w.head_part_number());
    }
}

/// Resolve the head pending upload. `fail` injects a transient failure:
/// the task is re-dispatched at the head with its number and bytes kept.
/// Returns whether the upload succeeded.
fn poll_head(
    w: &mut MultipartWriter,
    pending: &mut VecDeque<PartTask>,
    backend: &mut SimBackend,
    fail: bool,
) -> bool {
    let task = pending.pop_front().expect("a pending upload must exist");
    if fail {
        let retry = w.part_failed();
        assert_eq!(retry.part_number, task.part_number);
        assert_eq!(retry.bytes, task.bytes);
        pending.push_front(retry);
        check_alignment(w, pending);
        false
    } else {
        backend.part_numbers.push(task.part_number);
        backend.length += task.bytes.len() as u64;
        let part = MultipartPart {
            part_number: task.part_number,
            etag: String::from("etag"),
        };
        assert_eq!(part.part_number, w.head_part_number());
        w.part_succeeded(part);
        check_alignment(w, pending);
        true
    }
}

/// Drive one write call to acceptance, retrying it after each injected
/// failure, as a caller of a retryable primitive would.
fn drive_write(
    w: &mut MultipartWriter,
    pending: &mut VecDeque<PartTask>,
    backend: &mut SimBackend,
    bs: &Vec<u8>,
    should_fail: &mut dyn FnMut() -> bool,
) {
    loop {
        match w.write(bs) {
            WriteStep::Accepted { size } => {
                assert_eq!(size, bs.len());
                return;
            }
            WriteStep::Dispatched { task, size } => {
                assert_eq!(size, bs.len());
                pending.push_back(task);
                check_alignment(w, pending);
                return;
            }
            WriteStep::NeedInit => {
                backend.init_calls += 1;
                w.init_succeeded(backend.upload_id.clone());
            }
            WriteStep::NeedPoll => {
                let fail = should_fail();
                if !poll_head(w, pending, backend, fail) {
                    // the write call reports the error; retry the same bytes
                    continue;
                }
            }
        }
    }
}

/// Drive close to success, retrying it after each injected failure.
fn drive_close(
    w: &mut MultipartWriter,
    pending: &mut VecDeque<PartTask>,
    backend: &mut SimBackend,
    should_fail: &mut dyn FnMut() -> bool,
) {
    loop {
        match w.close() {
            CloseStep::Oneshot { size, body } => {
                backend.write_once_calls += 1;
                let bytes = body.unwrap_or_default();
                assert_eq!(size, bytes.len());
                backend.length += size as u64;
                backend.write_once_bodies.push(bytes);
                w.close_succeeded();
                return;
            }
            CloseStep::Dispatched { task } => {
                pending.push_back(task);
                check_alignment(w, pending);
            }
            CloseStep::NeedPoll => {
                let fail = should_fail();
                if !poll_head(w, pending, backend, fail) {
                    // the close call reports the error; close again
                    continue;
                }
            }
            CloseStep::Complete { upload_id, parts } => {
                assert_eq!(upload_id, backend.upload_id);
                backend.complete_calls += 1;
                for (i, p) in parts.iter().enumerate() {
                    assert_eq!(p.part_number, i);
                }
                w.close_succeeded();
                return;
            }
        }
    }
}

#[test]
fn test_multipart_upload_writer_with_concurrent_errors() {
    let mut rng = Lcg(0x9e3779b97f4a7c15);
    let mut w = MultipartWriter::new(8);
    let mut pending: VecDeque<PartTask> = VecDeque::new();
    let mut backend = SimBackend::new();
    let mut total_size = 0u64;

    for _ in 0..1000 {
        let size = (rng.below(1023) + 1) as usize;
        total_size += size as u64;
        let mut bs = vec![0u8; size];
        for b in bs.iter_mut() {
            *b = rng.below(256) as u8;
        }
        let mut fail_rng = Lcg(rng.next());
        drive_write(&mut w, &mut pending, &mut backend, &bs, &mut || {
            fail_rng.below(2) == 0
        });
    }

    let mut fail_rng = Lcg(rng.next());
    drive_close(&mut w, &mut pending, &mut backend, &mut || {
        fail_rng.below(2) == 0
    });

    let actual_parts: Vec<usize> = w
        .completed_parts()
        .iter()
        .map(|v| v.part_number)
        .collect();
    let expected_parts: Vec<usize> = (0..1000).collect();
    assert_eq!(actual_parts, expected_parts);

    assert_eq!(backend.length, total_size);
    assert_eq!(backend.init_calls, 1);
    assert_eq!(backend.complete_calls, 1);
    assert_eq!(backend.write_once_calls, 0);
}

#[test]
fn test_oneshot_single_write() {
    let mut w = MultipartWriter::new(4);
    let mut pending: VecDeque<PartTask> = VecDeque::new();
    let mut backend = SimBackend::new();
    let bs = vec![1u8, 2, 3, 4, 5];

    drive_write(&mut w, &mut pending, &mut backend, &bs, &mut || false);
    drive_close(&mut w, &mut pending, &mut backend, &mut || false);

    assert_eq!(backend.write_once_calls, 1);
    assert_eq!(backend.write_once_bodies, vec![vec![1u8, 2, 3, 4, 5]]);
    assert_eq!(backend.length, 5);
    assert_eq!(backend.init_calls, 0);
    assert_eq!(backend.complete_calls, 0);
    assert!(backend.part_numbers.is_empty());
}

#[test]
fn test_zero_write_close() {
    let mut w = MultipartWriter::new(4);
    let mut pending: VecDeque<PartTask> = VecDeque::new();
    let mut backend = SimBackend::new();

    drive_close(&mut w, &mut pending, &mut backend, &mut || false);

    assert_eq!(backend.write_once_calls, 1);
    assert_eq!(backend.write_once_bodies, vec![Vec::<u8>::new()]);
    assert_eq!(backend.length, 0);
    assert_eq!(backend.init_calls, 0);
    assert_eq!(backend.complete_calls, 0);
}

#[test]
fn test_abort_before_any_write() {
    let mut w = MultipartWriter::new(4);
    let mut backend = SimBackend::new();

    match w.abort() {
        AbortStep::Done => {}
        AbortStep::Abort { .. } => panic!("abort with no session must not reach the backend"),
    }

    assert_eq!(backend.abort_calls, 0);
    assert_eq!(backend.init_calls, 0);
    assert_eq!(backend.write_once_calls, 0);
    assert_eq!(backend.complete_calls, 0);
}

#[test]
fn test_abort_after_session() {
    let mut w = MultipartWriter::new(2);
    let mut pending: VecDeque<PartTask> = VecDeque::new();
    let mut backend = SimBackend::new();

    drive_write(&mut w, &mut pending, &mut backend, &vec![1u8, 2], &mut || false);
    drive_write(&mut w, &mut pending, &mut backend, &vec![3u8, 4], &mut || false);
    assert_eq!(backend.init_calls, 1);
    assert_eq!(w.in_flight(), 1);

    match w.abort() {
        AbortStep::Abort { upload_id } => {
            assert_eq!(upload_id, backend.upload_id);
            backend.abort_calls += 1;
            w.abort_finished();
        }
        AbortStep::Done => panic!("abort with a session must cancel it"),
    }

    assert_eq!(backend.abort_calls, 1);
    assert_eq!(w.in_flight(), 0);
    assert_eq!(backend.complete_calls, 0);
}

#[test]
fn test_retry_preserves_position() {
    let mut w = MultipartWriter::new(2);
    let mut pending: VecDeque<PartTask> = VecDeque::new();
    let mut backend = SimBackend::new();
    let chunks: Vec<Vec<u8>> = vec![vec![10u8; 3], vec![20u8; 4], vec![30u8; 5]];
    let mut failed_once = false;
    for bs in chunks.iter() {
        loop {
            match w.write(bs) {
                WriteStep::Accepted { .. } => break,
                WriteStep::Dispatched { task, .. } => {
                    pending.push_back(task);
                    break;
                }
                WriteStep::NeedInit => {
                    backend.init_calls += 1;
                    w.init_succeeded(backend.upload_id.clone());
                }
                WriteStep::NeedPoll => {
                    let head = w.head_part_number();
                    let fail = head == 1 && !failed_once;
                    if fail {
                        failed_once = true;
                    }
                    poll_head(&mut w, &mut pending, &mut backend, fail);
                }
            }
        }
    }
    loop {
        match w.close() {
            CloseStep::Dispatched { task } => {
                pending.push_back(task);
            }
            CloseStep::NeedPoll => {
                let head = w.head_part_number();
                let fail = head == 1 && !failed_once;
                if fail {
                    failed_once = true;
                }
                poll_head(&mut w, &mut pending, &mut backend, fail);
            }
            CloseStep::Complete { parts, .. } => {
                backend.complete_calls += 1;
                assert_eq!(parts.len(), 3);
                w.close_succeeded();
                break;
            }
            CloseStep::Oneshot { .. } => unreachable!(),
        }
    }

    assert!(failed_once, "part 1 must have failed once");
    let numbers: Vec<usize> = w
        .completed_parts()
        .iter()
        .map(|p| p.part_number)
        .collect();
    assert_eq!(numbers, vec![0, 1, 2]);
    // part 1 sits at index 1, not at the end
    assert_eq!(w.completed_parts()[1].part_number, 1);
    assert_eq!(backend.length, 12);
}

#[test]
fn test_close_complete_failure_retry() {
    let mut w = MultipartWriter::new(2);
    let mut pending: VecDeque<PartTask> = VecDeque::new();
    let mut backend = SimBackend::new();

    drive_write(&mut w, &mut pending, &mut backend, &vec![1u8, 2], &mut || false);
    drive_write(&mut w, &mut pending, &mut backend, &vec![3u8, 4], &mut || false);

    // Drain the pending uploads and reach the completion call, failing it
    // the first time around.
    let mut complete_seen: usize = 0;
    loop {
        match w.close() {
            CloseStep::Dispatched { task } => {
                pending.push_back(task);
            }
            CloseStep::NeedPoll => {
                poll_head(&mut w, &mut pending, &mut backend, false);
            }
            CloseStep::Complete { upload_id, parts } => {
                assert_eq!(upload_id, backend.upload_id);
                complete_seen += 1;
                if complete_seen == 1 {
                    // remote completion failed; the part list is kept
                    w.close_failed();
                    continue;
                }
                assert_eq!(parts.len(), 2);
                assert_eq!(parts[0].part_number, 0);
                assert_eq!(parts[1].part_number, 1);
                backend.complete_calls += 1;
                w.close_succeeded();
                break;
            }
            CloseStep::Oneshot { .. } => unreachable!(),
        }
    }

    assert_eq!(complete_seen, 2);
    assert_eq!(backend.complete_calls, 1);
    assert_eq!(backend.length, 4);
}

#[test]
fn test_oneshot_failure_retry_keeps_body() {
    let mut w = MultipartWriter::new(1);
    let mut pending: VecDeque<PartTask> = VecDeque::new();
    let mut backend = SimBackend::new();
    let bs = vec![7u8, 8, 9];

    drive_write(&mut w, &mut pending, &mut backend, &bs, &mut || false);

    // First oneshot attempt fails; the buffered chunk must be kept.
    match w.close() {
        CloseStep::Oneshot { size, body } => {
            assert_eq!(size, 3);
            assert_eq!(body, Some(vec![7u8, 8, 9]));
            w.close_failed();
        }
        _ => unreachable!(),
    }
    // The retried close carries the identical body.
    match w.close() {
        CloseStep::Oneshot { size, body } => {
            assert_eq!(size, 3);
            assert_eq!(body, Some(vec![7u8, 8, 9]));
            backend.write_once_calls += 1;
            backend.length += size as u64;
            w.close_succeeded();
        }
        _ => unreachable!(),
    }

    assert_eq!(backend.write_once_calls, 1);
    assert_eq!(backend.length, 3);
    assert_eq!(backend.init_calls, 0);
}

#[test]
fn test_init_failure_retry() {
    let mut w = MultipartWriter::new(2);
    let bs1 = vec![1u8];
    let bs2 = vec![2u8];

    assert!(matches!(w.write(&bs1), WriteStep::Accepted { size: 1 }));
    // A second chunk forces a session; let the opening call fail once.
    assert!(matches!(w.write(&bs2), WriteStep::NeedInit));
    w.init_failed();
    assert!(!w.has_session());
    // The retried write asks again, and this time the call succeeds.
    assert!(matches!(w.write(&bs2), WriteStep::NeedInit));
    w.init_succeeded(String::from("upload-1"));
    assert!(w.has_session());
    match w.write(&bs2) {
        WriteStep::Dispatched { task, size } => {
            assert_eq!(size, 1);
            assert_eq!(task.part_number, 0);
            assert_eq!(task.bytes, vec![1u8]);
        }
        _ => panic!("a free slot must dispatch the buffered chunk"),
    }
}

#[test]
fn test_byte_conservation_exact() {
    let mut w = MultipartWriter::new(3);
    let mut pending: VecDeque<PartTask> = VecDeque::new();
    let mut backend = SimBackend::new();

    let sizes: Vec<usize> = vec![3, 1, 4, 1, 5];
    let mut total: u64 = 0;
    for (i, n) in sizes.iter().enumerate() {
        total += *n as u64;
        let bs = vec![i as u8; *n];
        drive_write(&mut w, &mut pending, &mut backend, &bs, &mut || false);
    }
    drive_close(&mut w, &mut pending, &mut backend, &mut || false);

    assert_eq!(total, 14);
    assert_eq!(backend.length, total);
    assert_eq!(backend.part_numbers.len(), 5);
    assert_eq!(backend.complete_calls, 1);
}

#[test]
fn test_concurrency_bound_respected() {
    let mut rng = Lcg(42);
    let mut w = MultipartWriter::new(2);
    let mut pending: VecDeque<PartTask> = VecDeque::new();
    let mut backend = SimBackend::new();

    for i in 0..10 {
        let bs = vec![i as u8; (i + 1) as usize];
        let mut fail_rng = Lcg(rng.next());
        drive_write(&mut w, &mut pending, &mut backend, &bs, &mut || {
            fail_rng.below(3) == 0
        });
        assert!(w.in_flight() <= 2);
    }
    let mut fail_rng = Lcg(rng.next());
    drive_close(&mut w, &mut pending, &mut backend, &mut || {
        fail_rng.below(3) == 0
    });

    let numbers: Vec<usize> = w
        .completed_parts()
        .iter()
        .map(|p| p.part_number)
        .collect();
    let expected: Vec<usize> = (0..10).collect();
    assert_eq!(numbers, expected);
}

#[test]
fn test_concurrency_bound_minimum_is_one() {
    let w = MultipartWriter::new(0);
    assert_eq!(w.concurrency(), 1);
    let w8 = MultipartWriter::new(8);
    assert_eq!(w8.concurrency(), 8);
}
