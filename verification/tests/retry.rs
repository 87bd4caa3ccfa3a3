use retry_io::kind::IoErrorKind;
use retry_io::resource::{BufResource, ReadResource, WriteResource};
use retry_io::retry::Retry;
use retry_io::script::Op;
use retry_io::scripted_buf::ScriptedBufReader;
use retry_io::scripted_reader::ScriptedReader;
use retry_io::scripted_writer::ScriptedWriter;

#[test]
fn reads() {
    let input = &b"Read test"[..];
    let ops = vec![Op::Fail(IoErrorKind::Interrupted)];
    let mut reader = Retry::new(ScriptedReader::new(input.to_vec(), ops));
    let mut out = vec![0u8; input.len()];
    assert_eq!(reader.read(&mut out).unwrap(), input.len());
    assert_eq!(&out[..], input);
}

#[test]
fn reads_buffered() {
    let input = &b"Read test"[..];
    let ops = vec![Op::Fail(IoErrorKind::Interrupted)];
    let mut reader = Retry::new(ScriptedBufReader::new(input.to_vec(), input.len(), ops));
    assert_eq!(reader.fill_buf().unwrap(), input);
}

#[test]
fn writes() {
    let input = &b"Write test"[..];
    let ops = vec![Op::Fail(IoErrorKind::Interrupted)];
    let mut writer = Retry::new(ScriptedWriter::new(ops));
    assert_eq!(writer.write(input).unwrap(), input.len());
    assert_eq!(&writer.into_inner().into_inner()[..], input);
}

#[test]
fn read_counts_attempts() {
    let ops = vec![
        Op::Fail(IoErrorKind::Interrupted),
        Op::Fail(IoErrorKind::Interrupted),
        Op::Run,
    ];
    let mut reader = Retry::new(ScriptedReader::new(b"abc".to_vec(), ops));
    let mut out = vec![0u8; 3];
    assert_eq!(reader.read(&mut out).unwrap(), 3);
    assert_eq!(&out[..], b"abc");
    let inner = reader.into_inner();
    assert_eq!(inner.next_op, 3);
    assert_eq!(inner.pos, 3);
}

#[test]
fn read_error_returned_without_retry() {
    let ops = vec![Op::Fail(IoErrorKind::PermissionDenied), Op::Run];
    let mut reader = Retry::new(ScriptedReader::new(b"abc".to_vec(), ops));
    let mut out = vec![0u8; 3];
    assert_eq!(reader.read(&mut out), Err(IoErrorKind::PermissionDenied));
    assert_eq!(&out[..], &[0u8, 0u8, 0u8]);
    let inner = reader.into_inner();
    assert_eq!(inner.next_op, 1);
    assert_eq!(inner.pos, 0);
}

#[test]
fn read_without_script_entries() {
    let mut reader = Retry::new(ScriptedReader::new(b"abcdef".to_vec(), Vec::new()));
    let mut out = vec![0u8; 4];
    assert_eq!(reader.read(&mut out).unwrap(), 4);
    assert_eq!(&out[..], b"abcd");
    assert_eq!(reader.read(&mut out).unwrap(), 2);
    assert_eq!(&out[..], b"efcd");
    assert_eq!(reader.read(&mut out).unwrap(), 0);
}

#[test]
fn read_matches_direct_attempts() {
    let data = b"same state".to_vec();
    let ops = vec![Op::Fail(IoErrorKind::Interrupted), Op::Run];
    let mut wrapped = Retry::new(ScriptedReader::new(data.clone(), ops.clone()));
    let mut direct = ScriptedReader::new(data, ops);
    let mut out_wrapped = vec![0u8; 4];
    let mut out_direct = vec![0u8; 4];
    let r = wrapped.read(&mut out_wrapped);
    let mut d = direct.read_attempt(&mut out_direct);
    while d == Err(IoErrorKind::Interrupted) {
        d = direct.read_attempt(&mut out_direct);
    }
    assert_eq!(r, d);
    assert_eq!(out_wrapped, out_direct);
    let reclaimed = wrapped.into_inner();
    assert_eq!(reclaimed.pos, direct.pos);
    assert_eq!(reclaimed.next_op, direct.next_op);
    assert_eq!(reclaimed.data, direct.data);
}

#[test]
fn read_to_end_appends_remaining() {
    let mut reader = Retry::new(ScriptedReader::new(b"tail".to_vec(), Vec::new()));
    let mut out = b"head ".to_vec();
    assert_eq!(reader.read_to_end(&mut out).unwrap(), 4);
    assert_eq!(&out[..], b"head tail");
}

#[test]
fn read_exact_fills_whole_buffer() {
    let mut reader = Retry::new(ScriptedReader::new(b"abcdef".to_vec(), Vec::new()));
    let mut out = vec![0u8; 4];
    assert_eq!(reader.read_exact(&mut out), Ok(()));
    assert_eq!(&out[..], b"abcd");
}

#[test]
fn read_exact_reports_short_source() {
    let mut reader = Retry::new(ScriptedReader::new(b"ab".to_vec(), Vec::new()));
    let mut out = vec![0u8; 4];
    assert_eq!(reader.read_exact(&mut out), Err(IoErrorKind::UnexpectedEof));
    assert_eq!(&out[..], &[0u8, 0u8, 0u8, 0u8]);
}

#[test]
fn read_to_string_appends_text() {
    let mut reader = Retry::new(ScriptedReader::new(b"world".to_vec(), Vec::new()));
    let mut out = String::from("hello ");
    assert_eq!(reader.read_to_string(&mut out).unwrap(), 5);
    assert_eq!(out, "hello world");
}

#[test]
fn read_to_string_rejects_non_ascii() {
    let mut reader = Retry::new(ScriptedReader::new(vec![b'a', 0xFFu8], Vec::new()));
    let mut out = String::new();
    assert_eq!(reader.read_to_string(&mut out), Err(IoErrorKind::InvalidData));
    assert_eq!(out, "");
}

#[test]
fn fill_buf_refills_up_to_capacity() {
    let mut reader = Retry::new(ScriptedBufReader::new(b"abcdef".to_vec(), 4, Vec::new()));
    assert_eq!(reader.fill_buf().unwrap(), b"abcd");
    reader.consume(4);
    assert_eq!(reader.fill_buf().unwrap(), b"ef");
    reader.consume(2);
    assert_eq!(reader.fill_buf().unwrap(), b"");
}

#[test]
fn fill_buf_skips_refill_while_buffered() {
    let ops = vec![Op::Fail(IoErrorKind::PermissionDenied)];
    let mut reader = Retry::new(ScriptedBufReader::new(b"abcd".to_vec(), 2, Vec::new()));
    assert_eq!(reader.fill_buf().unwrap(), b"ab");
    let mut scripted = reader.into_inner();
    scripted.ops = ops;
    let mut reader = Retry::new(scripted);
    assert_eq!(reader.fill_buf().unwrap(), b"ab");
    reader.consume(2);
    assert_eq!(reader.fill_buf(), Err(IoErrorKind::PermissionDenied));
}

#[test]
fn fill_buf_error_returned_without_retry() {
    let ops = vec![Op::Fail(IoErrorKind::PermissionDenied), Op::Run];
    let mut reader = Retry::new(ScriptedBufReader::new(b"abcd".to_vec(), 4, ops));
    assert_eq!(reader.fill_buf(), Err(IoErrorKind::PermissionDenied));
    let inner = reader.into_inner();
    assert_eq!(inner.next_op, 1);
    assert_eq!(inner.filled, 0);
}

#[test]
fn consume_is_clamped_to_the_buffer() {
    let mut reader = Retry::new(ScriptedBufReader::new(b"abcd".to_vec(), 2, Vec::new()));
    assert_eq!(reader.fill_buf().unwrap(), b"ab");
    reader.consume(100);
    let inner = reader.into_inner();
    assert_eq!(inner.pos, 2);
    assert_eq!(inner.filled, 2);
}

#[test]
fn read_until_takes_through_delimiter() {
    let mut reader = Retry::new(ScriptedBufReader::new(b"ab\ncd".to_vec(), 2, Vec::new()));
    let mut out = Vec::new();
    assert_eq!(reader.read_until(b'\n', &mut out).unwrap(), 3);
    assert_eq!(&out[..], b"ab\n");
    assert_eq!(reader.read_until(b'\n', &mut out).unwrap(), 2);
    assert_eq!(&out[..], b"ab\ncd");
    assert_eq!(reader.read_until(b'\n', &mut out).unwrap(), 0);
}

#[test]
fn read_line_appends_one_line() {
    let mut reader = Retry::new(ScriptedBufReader::new(b"hi\nyo".to_vec(), 2, Vec::new()));
    let mut line = String::new();
    assert_eq!(reader.read_line(&mut line).unwrap(), 3);
    assert_eq!(line, "hi\n");
    assert_eq!(reader.read_line(&mut line).unwrap(), 2);
    assert_eq!(line, "hi\nyo");
}

#[test]
fn read_line_rejects_non_ascii() {
    let mut reader = Retry::new(ScriptedBufReader::new(vec![0xF0u8, b'\n'], 2, Vec::new()));
    let mut line = String::new();
    assert_eq!(reader.read_line(&mut line), Err(IoErrorKind::InvalidData));
    assert_eq!(line, "");
}

#[test]
fn write_counts_attempts() {
    let ops = vec![
        Op::Fail(IoErrorKind::Interrupted),
        Op::Fail(IoErrorKind::Interrupted),
        Op::Fail(IoErrorKind::Interrupted),
        Op::Run,
    ];
    let mut writer = Retry::new(ScriptedWriter::new(ops));
    assert_eq!(writer.write(b"xy").unwrap(), 2);
    let inner = writer.into_inner();
    assert_eq!(inner.next_op, 4);
    assert_eq!(&inner.sink[..], b"xy");
}

#[test]
fn write_error_returned_without_retry() {
    let ops = vec![Op::Fail(IoErrorKind::PermissionDenied), Op::Run];
    let mut writer = Retry::new(ScriptedWriter::new(ops));
    assert_eq!(writer.write(b"xy"), Err(IoErrorKind::PermissionDenied));
    let inner = writer.into_inner();
    assert_eq!(inner.next_op, 1);
    assert!(inner.sink.is_empty());
}

#[test]
fn write_matches_direct_attempts() {
    let ops = vec![Op::Fail(IoErrorKind::Interrupted), Op::Run];
    let mut wrapped = Retry::new(ScriptedWriter::new(ops.clone()));
    let mut direct = ScriptedWriter::new(ops);
    let r = wrapped.write(b"payload");
    let mut d = direct.write_attempt(b"payload");
    while d == Err(IoErrorKind::Interrupted) {
        d = direct.write_attempt(b"payload");
    }
    assert_eq!(r, d);
    let reclaimed = wrapped.into_inner();
    assert_eq!(reclaimed.sink, direct.sink);
    assert_eq!(reclaimed.next_op, direct.next_op);
}

#[test]
fn write_all_and_flush() {
    let mut writer = Retry::new(ScriptedWriter::new(Vec::new()));
    assert_eq!(writer.write_all(b"one "), Ok(()));
    assert_eq!(writer.write_all(b"two"), Ok(()));
    assert_eq!(writer.flush(), Ok(()));
    assert_eq!(&writer.into_inner().into_inner()[..], b"one two");
}

#[test]
fn write_fmt_appends_text_bytes() {
    let mut writer = Retry::new(ScriptedWriter::new(Vec::new()));
    let text = format!("{} + {} = {}", 2, 3, 5);
    assert_eq!(writer.write_fmt(&text), Ok(()));
    assert_eq!(&writer.into_inner().into_inner()[..], b"2 + 3 = 5");
}

#[test]
fn new_and_into_inner_round_trip() {
    let reader = ScriptedReader::new(b"data".to_vec(), vec![Op::Run]);
    let reclaimed = Retry::new(reader).into_inner();
    assert_eq!(reclaimed.data, b"data".to_vec());
    assert_eq!(reclaimed.pos, 0);
    assert_eq!(reclaimed.ops, vec![Op::Run]);
    assert_eq!(reclaimed.next_op, 0);
}
