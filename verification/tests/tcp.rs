use sockets::error::Error;
use sockets::tcp::{read_outcome, ReadEvent};

#[test]
fn read_outcomes() {
    assert!(matches!(read_outcome(ReadEvent::Completed(Ok(5))), Ok(5)));
    assert!(matches!(read_outcome(ReadEvent::Cancelled), Err(Error::Canceled)));
    let io = std::io::Error::new(std::io::ErrorKind::BrokenPipe, "gone");
    match read_outcome(ReadEvent::Completed(Err(io))) {
        Err(Error::IOError(e)) => assert_eq!(e.kind(), std::io::ErrorKind::BrokenPipe),
        other => panic!("unexpected outcome {:?}", other),
    }
}

