use typey_pipe::logging_pipe::{LoggingPipe, PipeError, MAX_PIPE_BUFFER_SIZE};
use typey_pipe::plugins::PluginId;

#[test]
fn pipe_hands_back_complete_lines() {
    let mut pipe = LoggingPipe::new("plugin".to_string(), PluginId(7));
    assert_eq!(pipe.write(b"first\nsec"), Ok(9));
    assert_eq!(pipe.flush(), Ok(vec!["first".to_string()]));
    assert_eq!(pipe.buffer, b"sec".to_vec());
    pipe.write(b"ond\n\nthird\n").unwrap();
    assert_eq!(pipe.flush(), Ok(vec!["second".to_string(), "".to_string(), "third".to_string()]));
    assert!(pipe.buffer.is_empty());
}

#[test]
fn pipe_waits_for_whole_utf8() {
    let mut pipe = LoggingPipe::new("p".to_string(), PluginId(1));
    let bytes = "é\n".as_bytes();
    pipe.write(&[b'a', b'\n', bytes[0]]).unwrap();
    assert_eq!(pipe.flush(), Err(PipeError::InvalidUtf8));
    assert_eq!(pipe.buffer.len(), 3);
    pipe.write(&bytes[1..]).unwrap();
    assert_eq!(pipe.flush(), Ok(vec!["a".to_string(), "é".to_string()]));
}

#[test]
fn pipe_refuses_overflow_and_empties() {
    let mut pipe = LoggingPipe::new("p".to_string(), PluginId(1));
    let big = vec![b'x'; MAX_PIPE_BUFFER_SIZE];
    assert_eq!(pipe.write(&big), Ok(MAX_PIPE_BUFFER_SIZE));
    assert_eq!(pipe.write(b"y"), Err(PipeError::BufferExceeded));
    assert!(pipe.buffer.is_empty());
}
