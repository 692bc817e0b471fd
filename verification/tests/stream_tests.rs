use extractous_ffi::errors::{ERR_IO_ERROR, ERR_NULL_POINTER, ERR_OK};
use extractous_ffi::stream::{
    extractous_buffer_free, extractous_stream_free, extractous_stream_read,
    extractous_stream_read_all, stream_read_all_finish, stream_read_exact_begin,
    stream_read_exact_step, stream_read_finish, DrainOutcome, ReadOutcome, ReadStep,
};
use extractous_ffi::types::{CStreamReader, StreamState};

fn open() -> CStreamReader {
    CStreamReader { state: StreamState::Open }
}

fn exhausted() -> CStreamReader {
    CStreamReader { state: StreamState::Exhausted }
}

/// Reads from `source` in pieces of at most `piece` bytes, as a stream would.
fn pull(source: &[u8], position: &mut usize, piece: usize, window: &mut [u8]) -> ReadOutcome {
    let left = source.len() - *position;
    let n = left.min(piece).min(window.len());
    window[..n].copy_from_slice(&source[*position..*position + n]);
    *position += n;
    ReadOutcome::Data(n)
}

/// Fills `buffer` from `source` the way a caller of the two functions does.
fn read_exact(
    reader: &mut CStreamReader,
    source: &[u8],
    position: &mut usize,
    piece: usize,
    buffer: &mut [u8],
    bytes_read: &mut usize,
) -> i32 {
    let mut step = stream_read_exact_begin(Some(&*reader), Some(buffer.len()), Some(&mut *bytes_read));
    loop {
        match step {
            ReadStep::Done { code } => return code,
            ReadStep::Pull { offset, len } => {
                let outcome = pull(source, position, piece, &mut buffer[offset..offset + len]);
                step = stream_read_exact_step(reader, offset, len, outcome, bytes_read);
            }
        }
    }
}

#[test]
fn read_exact_of_4096_bytes_from_a_stream_of_10() {
    let source = b"0123456789";
    let mut reader = open();
    let mut position = 0;
    let mut buffer = vec![0xaau8; 4096];
    let mut bytes_read = usize::MAX;
    let code = read_exact(&mut reader, source, &mut position, 4096, &mut buffer, &mut bytes_read);
    assert_eq!(code, ERR_OK);
    assert_eq!(bytes_read, 10);
    assert_eq!(&buffer[..10], source);
    assert!(buffer[10..].iter().all(|b| *b == 0xaa));
    assert_eq!(reader.state, StreamState::Exhausted);
}

#[test]
fn read_exact_collects_short_reads_until_the_buffer_is_full() {
    let source: Vec<u8> = (0..100u8).collect();
    let mut reader = open();
    let mut position = 0;
    let mut buffer = vec![0u8; 32];
    let mut bytes_read = 0;
    let code = read_exact(&mut reader, &source, &mut position, 7, &mut buffer, &mut bytes_read);
    assert_eq!(code, ERR_OK);
    assert_eq!(bytes_read, 32);
    assert_eq!(buffer, source[..32].to_vec());
    assert_eq!(reader.state, StreamState::Open);
    let code = read_exact(&mut reader, &source, &mut position, 7, &mut buffer, &mut bytes_read);
    assert_eq!(code, ERR_OK);
    assert_eq!(bytes_read, 32);
    assert_eq!(buffer, source[32..64].to_vec());
}

#[test]
fn read_exact_on_an_exhausted_stream_reads_nothing() {
    let source = b"abc";
    let mut reader = open();
    let mut position = 0;
    let mut buffer = vec![0u8; 8];
    let mut bytes_read = 0;
    assert_eq!(read_exact(&mut reader, source, &mut position, 8, &mut buffer, &mut bytes_read), ERR_OK);
    assert_eq!(bytes_read, 3);
    bytes_read = 99;
    assert_eq!(
        stream_read_exact_begin(Some(&reader), Some(8), Some(&mut bytes_read)),
        ReadStep::Done { code: ERR_OK }
    );
    assert_eq!(bytes_read, 0);
}

#[test]
fn read_exact_begin_needs_every_pointer() {
    let reader = open();
    let mut n = 5usize;
    assert_eq!(
        stream_read_exact_begin(None, Some(8), Some(&mut n)),
        ReadStep::Done { code: ERR_NULL_POINTER }
    );
    assert_eq!(n, 5);
    assert_eq!(
        stream_read_exact_begin(Some(&reader), None, Some(&mut n)),
        ReadStep::Done { code: ERR_NULL_POINTER }
    );
    assert_eq!(n, 5);
    assert_eq!(
        stream_read_exact_begin(Some(&reader), Some(8), None),
        ReadStep::Done { code: ERR_NULL_POINTER }
    );
}

#[test]
fn read_exact_into_an_empty_buffer_is_a_success_with_zero_bytes() {
    let reader = open();
    let mut n = 5usize;
    assert_eq!(
        stream_read_exact_begin(Some(&reader), Some(0), Some(&mut n)),
        ReadStep::Done { code: ERR_OK }
    );
    assert_eq!(n, 0);
    assert_eq!(reader.state, StreamState::Open);
}

#[test]
fn read_exact_begin_asks_for_the_whole_buffer() {
    let reader = open();
    let mut n = 5usize;
    assert_eq!(
        stream_read_exact_begin(Some(&reader), Some(4096), Some(&mut n)),
        ReadStep::Pull { offset: 0, len: 4096 }
    );
    assert_eq!(n, 0);
}

#[test]
fn an_interruption_asks_for_the_same_window_again() {
    let mut reader = open();
    let mut n = 0usize;
    assert_eq!(
        stream_read_exact_step(&mut reader, 10, 4086, ReadOutcome::Interrupted, &mut n),
        ReadStep::Pull { offset: 10, len: 4086 }
    );
    assert_eq!(n, 0);
    assert_eq!(reader.state, StreamState::Open);
}

#[test]
fn a_failed_read_ends_read_exact_at_once() {
    let mut reader = open();
    let mut n = 0usize;
    assert_eq!(
        stream_read_exact_step(&mut reader, 10, 4086, ReadOutcome::Failed, &mut n),
        ReadStep::Done { code: ERR_IO_ERROR }
    );
    assert_eq!(n, 0);
    assert_eq!(reader.state, StreamState::Open);
}

#[test]
fn read_exact_moves_the_window_behind_what_was_read() {
    let mut reader = open();
    let mut n = 0usize;
    assert_eq!(
        stream_read_exact_step(&mut reader, 0, 4096, ReadOutcome::Data(10), &mut n),
        ReadStep::Pull { offset: 10, len: 4086 }
    );
    assert_eq!(n, 0);
    assert_eq!(
        stream_read_exact_step(&mut reader, 10, 4086, ReadOutcome::Data(4086), &mut n),
        ReadStep::Done { code: ERR_OK }
    );
    assert_eq!(n, 4096);
    assert_eq!(reader.state, StreamState::Open);
}

#[test]
fn a_count_beyond_the_window_is_an_io_error() {
    let mut reader = open();
    let mut n = 3usize;
    assert_eq!(
        stream_read_exact_step(&mut reader, 0, 16, ReadOutcome::Data(17), &mut n),
        ReadStep::Done { code: ERR_IO_ERROR }
    );
    assert_eq!(n, 3);
    let mut m = 3usize;
    assert_eq!(
        stream_read_finish(&mut reader, 16, ReadOutcome::Data(17), Some(&mut m)),
        ERR_IO_ERROR
    );
    assert_eq!(m, 3);
    let mut buffer = [0u8; 16];
    let code = extractous_stream_read(
        Some(&mut reader),
        Some(&mut buffer[..]),
        Some(&mut m),
        |_window: &mut [u8]| ReadOutcome::Data(17),
    );
    assert_eq!(code, ERR_IO_ERROR);
    assert_eq!(m, 0);
    assert_eq!(reader.state, StreamState::Open);
}

#[test]
fn a_single_read_reports_what_was_written() {
    let source = b"0123456789";
    let mut position = 0;
    let mut reader = open();
    let mut buffer = [0u8; 4];
    let mut n = 77usize;
    let code = extractous_stream_read(
        Some(&mut reader),
        Some(&mut buffer[..]),
        Some(&mut n),
        |window: &mut [u8]| pull(source, &mut position, 64, window),
    );
    assert_eq!(code, ERR_OK);
    assert_eq!(n, 4);
    assert_eq!(&buffer, b"0123");
    assert_eq!(reader.state, StreamState::Open);
    let mut wide = [0u8; 64];
    let code = extractous_stream_read(
        Some(&mut reader),
        Some(&mut wide[..]),
        Some(&mut n),
        |window: &mut [u8]| pull(source, &mut position, 64, window),
    );
    assert_eq!(code, ERR_OK);
    assert_eq!(n, 6);
    assert_eq!(&wide[..6], b"456789");
    assert_eq!(reader.state, StreamState::Open);
}

#[test]
fn a_single_read_of_zero_bytes_is_the_end_of_the_stream() {
    let mut reader = open();
    let mut buffer = [7u8; 8];
    let mut n = 77usize;
    let code = extractous_stream_read(
        Some(&mut reader),
        Some(&mut buffer[..]),
        Some(&mut n),
        |_window: &mut [u8]| ReadOutcome::Data(0),
    );
    assert_eq!(code, ERR_OK);
    assert_eq!(n, 0);
    assert_eq!(reader.state, StreamState::Exhausted);
}

#[test]
fn an_exhausted_stream_is_not_read_again() {
    let mut reader = exhausted();
    let mut buffer = [7u8; 8];
    let mut n = 77usize;
    let code = extractous_stream_read(
        Some(&mut reader),
        Some(&mut buffer[..]),
        Some(&mut n),
        |_window: &mut [u8]| -> ReadOutcome { panic!("the stream has ended") },
    );
    assert_eq!(code, ERR_OK);
    assert_eq!(n, 0);
    assert_eq!(buffer, [7u8; 8]);
    assert_eq!(reader.state, StreamState::Exhausted);
}

#[test]
fn a_single_read_into_an_empty_buffer_is_a_success_without_a_read() {
    let mut reader = open();
    let mut buffer: [u8; 0] = [];
    let mut n = 77usize;
    let code = extractous_stream_read(
        Some(&mut reader),
        Some(&mut buffer[..]),
        Some(&mut n),
        |_window: &mut [u8]| -> ReadOutcome { panic!("there is no room to read into") },
    );
    assert_eq!(code, ERR_OK);
    assert_eq!(n, 0);
    assert_eq!(reader.state, StreamState::Open);
}

#[test]
fn a_single_read_needs_the_handle_and_the_buffer_only() {
    let mut reader = open();
    let mut buffer = [0u8; 8];
    let mut n = 77usize;
    let code = extractous_stream_read(
        None,
        Some(&mut buffer[..]),
        Some(&mut n),
        |_window: &mut [u8]| -> ReadOutcome { panic!("there is no stream") },
    );
    assert_eq!(code, ERR_NULL_POINTER);
    assert_eq!(n, 77);
    assert_eq!(buffer, [0u8; 8]);
    let code = extractous_stream_read(
        Some(&mut reader),
        None,
        Some(&mut n),
        |_window: &mut [u8]| -> ReadOutcome { panic!("there is no buffer") },
    );
    assert_eq!(code, ERR_NULL_POINTER);
    assert_eq!(n, 77);
    assert_eq!(reader.state, StreamState::Open);
    let code = extractous_stream_read(
        Some(&mut reader),
        Some(&mut buffer[..]),
        None,
        |window: &mut [u8]| {
            window[0] = b'x';
            ReadOutcome::Data(1)
        },
    );
    assert_eq!(code, ERR_OK);
    assert_eq!(buffer[0], b'x');
}

#[test]
fn a_single_read_does_not_retry() {
    let mut reader = open();
    let mut buffer = [0u8; 8];
    let mut n = 77usize;
    let mut calls = 0;
    let code = extractous_stream_read(
        Some(&mut reader),
        Some(&mut buffer[..]),
        Some(&mut n),
        |_window: &mut [u8]| {
            calls += 1;
            ReadOutcome::Interrupted
        },
    );
    assert_eq!(code, ERR_IO_ERROR);
    assert_eq!(calls, 1);
    assert_eq!(n, 0);
    let code = extractous_stream_read(
        Some(&mut reader),
        Some(&mut buffer[..]),
        Some(&mut n),
        |_window: &mut [u8]| ReadOutcome::Failed,
    );
    assert_eq!(code, ERR_IO_ERROR);
    assert_eq!(n, 0);
    assert_eq!(reader.state, StreamState::Open);
}

#[test]
fn finishing_a_single_read_follows_what_the_read_reported() {
    let mut reader = open();
    let mut n = 77usize;
    assert_eq!(stream_read_finish(&mut reader, 64, ReadOutcome::Data(20), Some(&mut n)), ERR_OK);
    assert_eq!(n, 20);
    assert_eq!(stream_read_finish(&mut reader, 64, ReadOutcome::Data(64), Some(&mut n)), ERR_OK);
    assert_eq!(n, 64);
    assert_eq!(stream_read_finish(&mut reader, 64, ReadOutcome::Data(5), None), ERR_OK);
    assert_eq!(reader.state, StreamState::Open);
    assert_eq!(stream_read_finish(&mut reader, 64, ReadOutcome::Failed, Some(&mut n)), ERR_IO_ERROR);
    assert_eq!(n, 64);
    assert_eq!(stream_read_finish(&mut reader, 64, ReadOutcome::Data(0), Some(&mut n)), ERR_OK);
    assert_eq!(n, 0);
    assert_eq!(reader.state, StreamState::Exhausted);
}

#[test]
fn read_all_hands_out_every_byte_that_was_left() {
    let mut reader = open();
    let mut buffer = None;
    let mut size = 0usize;
    let code = extractous_stream_read_all(
        Some(&mut reader),
        Some(&mut buffer),
        Some(&mut size),
        || DrainOutcome::Data(b"all of it".to_vec()),
    );
    assert_eq!(code, ERR_OK);
    assert_eq!(buffer, Some(b"all of it".to_vec()));
    assert_eq!(size, 9);
    assert_eq!(reader.state, StreamState::Exhausted);
    extractous_buffer_free(buffer, size);
}

#[test]
fn read_all_of_an_empty_stream_is_an_empty_buffer() {
    let mut reader = open();
    let mut buffer = None;
    let mut size = 5usize;
    let code = stream_read_all_finish(&mut reader, DrainOutcome::Data(vec![]), &mut buffer, &mut size);
    assert_eq!(code, ERR_OK);
    assert_eq!(buffer, Some(vec![]));
    assert_eq!(size, 0);
    extractous_buffer_free(buffer, 0);
    extractous_buffer_free(None, 0);
}

#[test]
fn read_all_that_fails_hands_out_nothing() {
    let mut reader = open();
    let mut buffer = None;
    let mut size = 5usize;
    let code = extractous_stream_read_all(
        Some(&mut reader),
        Some(&mut buffer),
        Some(&mut size),
        || DrainOutcome::Failed,
    );
    assert_eq!(code, ERR_IO_ERROR);
    assert_eq!(buffer, None);
    assert_eq!(size, 5);
    assert_eq!(reader.state, StreamState::Open);
}

#[test]
fn read_all_needs_every_pointer() {
    let mut reader = open();
    let mut buffer = None;
    let mut size = 5usize;
    let refuse = || -> DrainOutcome { panic!("an argument is null") };
    assert_eq!(
        extractous_stream_read_all(None, Some(&mut buffer), Some(&mut size), refuse),
        ERR_NULL_POINTER
    );
    assert_eq!(
        extractous_stream_read_all(Some(&mut reader), None, Some(&mut size), refuse),
        ERR_NULL_POINTER
    );
    assert_eq!(
        extractous_stream_read_all(Some(&mut reader), Some(&mut buffer), None, refuse),
        ERR_NULL_POINTER
    );
    assert_eq!(buffer, None);
    assert_eq!(size, 5);
    assert_eq!(reader.state, StreamState::Open);
}

#[test]
fn read_all_of_an_exhausted_stream_is_empty_at_once() {
    let mut reader = exhausted();
    let mut buffer = None;
    let mut size = 5usize;
    let code = extractous_stream_read_all(
        Some(&mut reader),
        Some(&mut buffer),
        Some(&mut size),
        || -> DrainOutcome { panic!("the stream has ended") },
    );
    assert_eq!(code, ERR_OK);
    assert_eq!(buffer, Some(vec![]));
    assert_eq!(size, 0);
}

#[test]
fn a_stream_is_released_once() {
    extractous_stream_free(Some(Box::new(open())));
    extractous_stream_free(Some(Box::new(exhausted())));
    extractous_stream_free(None);
}

#[test]
fn a_single_read_reads_into_the_buffer_that_was_given() {
    let mut reader = open();
    let mut buffer = [0u8; 6];
    let mut n = 0usize;
    let code = extractous_stream_read(
        Some(&mut reader),
        Some(&mut buffer[..]),
        Some(&mut n),
        |window: &mut [u8]| {
            assert_eq!(window.len(), 6);
            window[..3].copy_from_slice(b"abc");
            ReadOutcome::Data(3)
        },
    );
    assert_eq!(code, ERR_OK);
    assert_eq!(n, 3);
    assert_eq!(&buffer, b"abc\0\0\0");
    assert_eq!(reader.state, StreamState::Open);
}
