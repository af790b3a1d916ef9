use elucidator::error::ElucidatorError;
use elucidator::util::Buffer;

#[test]
fn util_simple_ok() {
    let array = [1, 2, 3, 4];
    let mut buffer = Buffer::new(&array);
    let expected = Ok(array.to_vec());
    assert_eq!(expected, buffer.grab(4));
}

#[test]
fn series_of_chunks_ok() {
    let array = [1, 2, 3, 4, 5, 6, 7, 8, 9];
    let mut buffer = Buffer::new(&array);
    let expected = Ok(array[..3].to_vec());
    assert_eq!(expected, buffer.grab(3));
    let expected = Ok(array[3..4].to_vec());
    assert_eq!(expected, buffer.grab(1));
    let expected = Ok(array[4..].to_vec());
    assert_eq!(expected, buffer.grab(5));
}

#[test]
fn simple_err() {
    let array = [];
    let mut buffer = Buffer::new(&array);
    let expected = Err(ElucidatorError::BufferSizing {
        expected: 4,
        found: 0,
    });
    assert_eq!(expected, buffer.grab(4));
}

#[test]
fn off_by_one_err() {
    let array = [1];
    let mut buffer = Buffer::new(&array);
    let expected = Err(ElucidatorError::BufferSizing {
        expected: 2,
        found: 1,
    });
    assert_eq!(expected, buffer.grab(2));
}

#[test]
fn failed_grab_exhausts_buffer() {
    let array = [1, 2, 3];
    let mut buffer = Buffer::new(&array);
    assert!(buffer.grab(5).is_err());
    assert_eq!(
        buffer.grab(1),
        Err(ElucidatorError::BufferSizing { expected: 1, found: 0 })
    );
}
