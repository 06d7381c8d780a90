use opendal::services::Memory;
use opendal::Operator;
use opendal_reader::buffer::{AccessError, SeekFrom};
use opendal_reader::reader::OpendalReader;

fn memory_operator() -> Operator {
    let builder = Memory::default();
    Operator::new(builder).unwrap().finish()
}

fn reader_over(key: &str, data: &[u8]) -> OpendalReader {
    let op = memory_operator();
    op.blocking().write(key, data.to_vec()).unwrap();
    OpendalReader::new(op, String::from(key))
}

#[test]
fn test_csv() {
    let data = "col1,col2\na,c\nb,d\n";
    let mut reader = reader_over("test.csv", data.as_bytes());

    let viewed = reader.to_bytes().unwrap().to_vec();
    assert_eq!(viewed, data.as_bytes());

    assert_eq!(reader.seek(SeekFrom::Start(0)), Ok(0));
    let first = reader.read(5).unwrap();
    assert_eq!(first, b"col1,".to_vec());

    let mut whole = first;
    loop {
        let chunk = reader.read(4).unwrap();
        if chunk.is_empty() {
            break;
        }
        whole.extend_from_slice(&chunk);
    }
    assert_eq!(whole, data.as_bytes());
}

#[test]
fn test_json() {
    let data = "[\n    {\"col1\": \"a\", \"col2\": \"c\"},\n    {\"col1\": \"b\", \"col2\": \"d\"}\n]\n";
    let mut reader = reader_over("test.json", data.as_bytes());

    let viewed = reader.to_bytes().unwrap().to_vec();
    assert_eq!(viewed, data.as_bytes());

    let mut whole = Vec::new();
    loop {
        let chunk = reader.read(7).unwrap();
        if chunk.is_empty() {
            break;
        }
        whole.extend_from_slice(&chunk);
    }
    assert_eq!(whole, data.as_bytes());
}

#[test]
fn view_is_stable_across_accesses() {
    let data = b"some stable bytes";
    let mut reader = reader_over("stable.bin", data);

    let first = reader.to_bytes().unwrap().to_vec();
    let second = reader.to_bytes().unwrap().to_vec();
    let third = reader.to_bytes().unwrap().to_vec();
    assert_eq!(first, data.to_vec());
    assert_eq!(second, data.to_vec());
    assert_eq!(third, data.to_vec());
}

#[test]
fn missing_key_is_consistently_absent() {
    let op = memory_operator();
    let mut reader = OpendalReader::new(op, String::from("no/such/key"));

    assert!(reader.to_bytes().is_none());
    assert!(reader.to_bytes().is_none());
    assert_eq!(reader.read(4), Err(AccessError::SourceUnavailable));
    assert_eq!(
        reader.seek(SeekFrom::Start(0)),
        Err(AccessError::SourceUnavailable)
    );
    assert!(reader.to_bytes().is_none());
}

#[test]
fn seek_then_read_returns_the_slice() {
    let data = b"hello, random access";
    let mut reader = reader_over("slice.bin", data);

    assert_eq!(reader.seek(SeekFrom::Start(7)), Ok(7));
    let chunk = reader.read(6).unwrap();
    assert_eq!(chunk, b"random".to_vec());

    // A read larger than what remains returns exactly the remainder.
    assert_eq!(reader.seek(SeekFrom::Start(14)), Ok(14));
    let tail = reader.read(100).unwrap();
    assert_eq!(tail, b"access".to_vec());

    // A zero-length read copies nothing and does not move the cursor.
    assert_eq!(reader.seek(SeekFrom::Start(3)), Ok(3));
    assert_eq!(reader.read(0).unwrap(), Vec::<u8>::new());
    let after = reader.read(2).unwrap();
    assert_eq!(after, b"lo".to_vec());
}

#[test]
fn seek_end_zero_returns_length_and_read_returns_nothing() {
    let data = b"0123456789";
    let mut reader = reader_over("end.bin", data);

    assert_eq!(reader.seek(SeekFrom::End(0)), Ok(10));
    assert_eq!(reader.read(4).unwrap(), Vec::<u8>::new());

    // A negative offset from the end lands inside the content.
    assert_eq!(reader.seek(SeekFrom::End(-3)), Ok(7));
    assert_eq!(reader.read(10).unwrap(), b"789".to_vec());
}

#[test]
fn seek_past_end_succeeds_and_read_returns_nothing() {
    let data = b"short";
    let mut reader = reader_over("past.bin", data);

    assert_eq!(reader.seek(SeekFrom::Start(9999)), Ok(9999));
    assert_eq!(reader.read(1).unwrap(), Vec::<u8>::new());
    assert_eq!(reader.seek(SeekFrom::Current(5)), Ok(10004));
    assert_eq!(reader.read(1).unwrap(), Vec::<u8>::new());
}

#[test]
fn seek_to_negative_position_fails_and_keeps_the_cursor() {
    let data = b"abcdef";
    let mut reader = reader_over("neg.bin", data);

    assert_eq!(reader.seek(SeekFrom::Start(2)), Ok(2));
    assert_eq!(reader.seek(SeekFrom::Current(-3)), Err(AccessError::InvalidSeek));
    // The failed seek left the cursor at 2.
    assert_eq!(reader.read(2).unwrap(), b"cd".to_vec());
    assert_eq!(reader.seek(SeekFrom::End(-7)), Err(AccessError::InvalidSeek));
    assert_eq!(reader.seek(SeekFrom::End(-6)), Ok(0));
    assert_eq!(reader.read(1).unwrap(), b"a".to_vec());
}

#[test]
fn empty_object_views_empty_and_reads_nothing() {
    let mut reader = reader_over("empty.bin", b"");

    let viewed = reader.to_bytes().unwrap().to_vec();
    assert_eq!(viewed, Vec::<u8>::new());
    assert_eq!(reader.seek(SeekFrom::End(0)), Ok(0));
    assert_eq!(reader.read(8).unwrap(), Vec::<u8>::new());
}

#[test]
fn read_advances_the_cursor_sequentially() {
    let data = b"abcdefgh";
    let mut reader = reader_over("seq.bin", data);

    assert_eq!(reader.read(3).unwrap(), b"abc".to_vec());
    assert_eq!(reader.read(3).unwrap(), b"def".to_vec());
    assert_eq!(reader.read(3).unwrap(), b"gh".to_vec());
    assert_eq!(reader.read(3).unwrap(), Vec::<u8>::new());
    assert_eq!(reader.seek(SeekFrom::Current(-8)), Ok(0));
    assert_eq!(reader.read(8).unwrap(), data.to_vec());
}
