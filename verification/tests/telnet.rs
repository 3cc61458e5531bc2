use std::cell::RefCell;
use std::collections::VecDeque;
use std::io;
use std::rc::Rc;
use std::time::Duration;
use telnet::{
    Action, Stream, SubnegotiationType, Telnet, TelnetError, TelnetEvent, TelnetOption, ZCStream,
};

struct MockStream {
    test_data: Vec<u8>,
}

impl MockStream {
    fn new(data: Vec<u8>) -> MockStream {
        MockStream { test_data: data }
    }
}

impl Stream for MockStream {
    fn read(&mut self, buf: &mut [u8]) -> io::Result<usize> {
        let mut offset = 0;
        while offset < buf.len() && offset < self.test_data.len() {
            buf[offset] = self.test_data[offset];
            offset += 1;
        }
        Ok(offset)
    }

    fn write_all(&mut self, _buf: &[u8]) -> io::Result<()> {
        Ok(())
    }

    fn flush(&mut self) -> io::Result<()> {
        Ok(())
    }

    fn set_nonblocking(&self, _nonblocking: bool) -> io::Result<()> {
        Ok(())
    }

    fn set_read_timeout(&self, _dur: Option<Duration>) -> io::Result<()> {
        Ok(())
    }
}

#[derive(Default)]
struct Log {
    written: Vec<Vec<u8>>,
    nonblocking: Vec<bool>,
    timeouts: Vec<Option<Duration>>,
    zlib: Vec<bool>,
    reads: usize,
}

struct Scripted {
    reads: VecDeque<Result<Vec<u8>, io::ErrorKind>>,
    fail_write: Option<usize>,
    fail_settings: bool,
    log: Rc<RefCell<Log>>,
}

impl Scripted {
    fn new(reads: Vec<Result<Vec<u8>, io::ErrorKind>>) -> (Scripted, Rc<RefCell<Log>>) {
        let log = Rc::new(RefCell::new(Log::default()));
        let stream = Scripted {
            reads: reads.into_iter().collect(),
            fail_write: None,
            fail_settings: false,
            log: log.clone(),
        };
        (stream, log)
    }
}

impl Stream for Scripted {
    fn read(&mut self, buf: &mut [u8]) -> io::Result<usize> {
        self.log.borrow_mut().reads += 1;
        match self.reads.pop_front() {
            Some(Ok(bytes)) => {
                buf[..bytes.len()].copy_from_slice(&bytes);
                Ok(bytes.len())
            }
            Some(Err(kind)) => Err(io::Error::from(kind)),
            None => Ok(0),
        }
    }

    fn write_all(&mut self, buf: &[u8]) -> io::Result<()> {
        let mut log = self.log.borrow_mut();
        if self.fail_write == Some(log.written.len()) {
            return Err(io::Error::from(io::ErrorKind::BrokenPipe));
        }
        log.written.push(buf.to_vec());
        Ok(())
    }

    fn flush(&mut self) -> io::Result<()> {
        Ok(())
    }

    fn set_nonblocking(&self, nonblocking: bool) -> io::Result<()> {
        if self.fail_settings {
            return Err(io::Error::from(io::ErrorKind::Unsupported));
        }
        self.log.borrow_mut().nonblocking.push(nonblocking);
        Ok(())
    }

    fn set_read_timeout(&self, dur: Option<Duration>) -> io::Result<()> {
        self.log.borrow_mut().timeouts.push(dur);
        Ok(())
    }
}

impl ZCStream for Scripted {
    fn begin_zlib(&mut self) {
        self.log.borrow_mut().zlib.push(true);
    }

    fn end_zlib(&mut self) {
        self.log.borrow_mut().zlib.push(false);
    }
}

fn data_event(bytes: &[u8]) -> TelnetEvent {
    TelnetEvent::Data(bytes.to_vec().into_boxed_slice())
}

fn wire(log: &Rc<RefCell<Log>>) -> Vec<u8> {
    log.borrow().written.concat()
}

#[test]
fn escapes_double_iac_correctly() {
    let stream = MockStream::new(vec![0x40, 0x5a, 0xff, 0xff, 0x31, 0x34]);

    let mut telnet = Telnet::from_stream(stream, 6);

    let expected_bytes_1: [u8; 2] = [0x40, 0x5a];
    let expected_bytes_2: [u8; 3] = [0xff, 0x31, 0x34];

    let event_1 = telnet.read_nonblocking().unwrap();
    if let TelnetEvent::Data(buffer) = event_1 {
        assert_eq!(buffer.as_ref(), &expected_bytes_1);
    } else {
        panic!();
    }

    let event_2 = telnet.read_nonblocking().unwrap();
    if let TelnetEvent::Data(buffer) = event_2 {
        assert_eq!(buffer.as_ref(), &expected_bytes_2);
    } else {
        panic!();
    }
}

#[test]
fn telnet_reads_one_buffer_at_a_time() {
    let stream = MockStream::new(vec![1, 2, 3, 4]);
    let mut telnet = Telnet::from_stream(stream, 2);
    assert_eq!(telnet.read_nonblocking().unwrap(), data_event(&[1, 2]));
    assert_eq!(telnet.read_nonblocking().unwrap(), data_event(&[1, 2]));
}

#[test]
fn telnet_buffer_size_zero_reads_one_byte() {
    let stream = MockStream::new(vec![7, 8]);
    let mut telnet = Telnet::from_stream(stream, 0);
    assert_eq!(telnet.read_nonblocking().unwrap(), data_event(&[7]));
}

#[test]
fn telnet_queues_the_events_of_one_read() {
    let (stream, log) = Scripted::new(vec![Ok(vec![1, 0xFF, 0xFB, 1, 2])]);
    let mut telnet = Telnet::from_stream(stream, 16);
    assert_eq!(telnet.read_nonblocking().unwrap(), data_event(&[1]));
    assert_eq!(
        telnet.read_timeout(Duration::from_secs(1)).unwrap(),
        TelnetEvent::Negotiation(Action::Will, TelnetOption::Echo)
    );
    assert_eq!(telnet.read().unwrap(), Some(data_event(&[2])));
    assert_eq!(log.borrow().reads, 1);
}

#[test]
fn telnet_command_split_over_two_reads() {
    let (stream, _log) = Scripted::new(vec![Ok(vec![5, 0xFF]), Ok(vec![0xFD, 24])]);
    let mut telnet = Telnet::from_stream(stream, 16);
    assert_eq!(telnet.read().unwrap(), Some(data_event(&[5])));
    assert_eq!(
        telnet.read().unwrap(),
        Some(TelnetEvent::Negotiation(Action::Do, TelnetOption::TTYPE))
    );
}

#[test]
fn telnet_blocking_pass_without_an_event() {
    let (stream, log) = Scripted::new(vec![Ok(vec![0xFF]), Ok(vec![0xFF])]);
    let mut telnet = Telnet::from_stream(stream, 16);
    assert_eq!(telnet.read().unwrap(), None);
    assert_eq!(telnet.read().unwrap(), Some(data_event(&[0xFF])));
    assert_eq!(log.borrow().nonblocking, vec![false, false]);
    assert_eq!(log.borrow().timeouts, vec![None, None]);
}

#[test]
fn telnet_read_without_an_event_reports_the_empty_queue() {
    let (stream, _log) = Scripted::new(vec![Ok(vec![0xFF, 0xFA]), Ok(Vec::new())]);
    let mut telnet = Telnet::from_stream(stream, 16);
    assert_eq!(
        telnet.read_nonblocking().unwrap(),
        TelnetEvent::Error(TelnetError::InternalQueueErr)
    );
    assert_eq!(
        telnet.read_timeout(Duration::from_millis(5)).unwrap(),
        TelnetEvent::Error(TelnetError::InternalQueueErr)
    );
}

#[test]
fn telnet_nonblocking_read_without_data() {
    let (stream, log) = Scripted::new(vec![Err(io::ErrorKind::WouldBlock), Ok(vec![3])]);
    let mut telnet = Telnet::from_stream(stream, 16);
    assert_eq!(telnet.read_nonblocking().unwrap(), TelnetEvent::NoData);
    assert_eq!(telnet.read_nonblocking().unwrap(), data_event(&[3]));
    assert_eq!(log.borrow().nonblocking, vec![true, true]);
    assert_eq!(log.borrow().timeouts, vec![None, None]);
}

#[test]
fn telnet_nonblocking_read_hands_on_other_errors() {
    let (stream, _log) = Scripted::new(vec![
        Err(io::ErrorKind::TimedOut),
        Err(io::ErrorKind::ConnectionReset),
    ]);
    let mut telnet = Telnet::from_stream(stream, 16);
    assert_eq!(
        telnet.read_nonblocking().unwrap_err().kind(),
        io::ErrorKind::TimedOut
    );
    assert_eq!(
        telnet.read_nonblocking().unwrap_err().kind(),
        io::ErrorKind::ConnectionReset
    );
}

#[test]
fn telnet_timed_read_runs_out_of_time() {
    let (stream, log) = Scripted::new(vec![
        Err(io::ErrorKind::WouldBlock),
        Err(io::ErrorKind::TimedOut),
        Err(io::ErrorKind::ConnectionReset),
    ]);
    let mut telnet = Telnet::from_stream(stream, 16);
    let wait = Duration::from_millis(20);
    assert_eq!(telnet.read_timeout(wait).unwrap(), TelnetEvent::TimedOut);
    assert_eq!(telnet.read_timeout(wait).unwrap(), TelnetEvent::TimedOut);
    assert_eq!(
        telnet.read_timeout(wait).unwrap_err().kind(),
        io::ErrorKind::ConnectionReset
    );
    assert_eq!(log.borrow().nonblocking, vec![false, false, false]);
    assert_eq!(log.borrow().timeouts, vec![Some(wait), Some(wait), Some(wait)]);
}

#[test]
fn telnet_timed_out_read_keeps_the_parser_state() {
    let (stream, _log) = Scripted::new(vec![
        Ok(vec![0xFF, 0xFA, 24, 1]),
        Err(io::ErrorKind::TimedOut),
        Ok(vec![2, 0xFF, 0xF0]),
    ]);
    let mut telnet = Telnet::from_stream(stream, 16);
    assert_eq!(telnet.read().unwrap(), None);
    assert_eq!(
        telnet.read_timeout(Duration::from_millis(1)).unwrap(),
        TelnetEvent::TimedOut
    );
    assert_eq!(
        telnet.read().unwrap(),
        Some(TelnetEvent::Subnegotiation(
            TelnetOption::TTYPE,
            vec![1, 2].into_boxed_slice()
        ))
    );
}

#[test]
fn telnet_read_hands_on_errors() {
    let (stream, _log) = Scripted::new(vec![Err(io::ErrorKind::WouldBlock)]);
    let mut telnet = Telnet::from_stream(stream, 16);
    assert_eq!(telnet.read().unwrap_err().kind(), io::ErrorKind::WouldBlock);
}

#[test]
fn telnet_read_hands_on_a_failed_setting() {
    let (mut stream, log) = Scripted::new(vec![Ok(vec![1])]);
    stream.fail_settings = true;
    let mut telnet = Telnet::from_stream(stream, 16);
    assert_eq!(
        telnet.read_nonblocking().unwrap_err().kind(),
        io::ErrorKind::Unsupported
    );
    assert_eq!(log.borrow().reads, 0);
}

#[test]
fn telnet_write_doubles_iac() {
    let (stream, log) = Scripted::new(Vec::new());
    let mut telnet = Telnet::from_stream(stream, 16);
    assert_eq!(telnet.write(&[83, 0xFF, 76, 0xFF]).unwrap(), 4);
    assert_eq!(wire(&log), vec![83, 0xFF, 0xFF, 76, 0xFF, 0xFF]);
    assert_eq!(telnet.write(&[]).unwrap(), 0);
}

#[test]
fn telnet_write_hands_on_errors() {
    let (mut stream, _log) = Scripted::new(Vec::new());
    stream.fail_write = Some(0);
    let mut telnet = Telnet::from_stream(stream, 16);
    assert_eq!(
        telnet.write(&[1]).unwrap_err().kind(),
        io::ErrorKind::BrokenPipe
    );
}

#[test]
fn telnet_negotiate() {
    let (stream, log) = Scripted::new(Vec::new());
    let mut telnet = Telnet::from_stream(stream, 16);
    assert_eq!(telnet.negotiate(&Action::Will, TelnetOption::Echo), Ok(()));
    assert_eq!(wire(&log), vec![0xFF, 0xFB, 1]);
}

#[test]
fn telnet_negotiate_fails() {
    let (mut stream, _log) = Scripted::new(Vec::new());
    stream.fail_write = Some(0);
    let mut telnet = Telnet::from_stream(stream, 16);
    assert_eq!(
        telnet.negotiate(&Action::Do, TelnetOption::TTYPE),
        Err(TelnetError::NegotiationErr)
    );
}

#[test]
fn telnet_subnegotiate() {
    let (stream, log) = Scripted::new(Vec::new());
    let mut telnet = Telnet::from_stream(stream, 16);
    assert_eq!(telnet.subnegotiate(TelnetOption::TTYPE, &[1, 0xFF, 3]), Ok(()));
    assert_eq!(
        log.borrow().written,
        vec![vec![0xFF, 0xFA, 24], vec![1, 0xFF, 0xFF, 3], vec![0xFF, 0xF0]]
    );
}

#[test]
fn telnet_subnegotiate_fails_in_each_phase() {
    let phases = [
        SubnegotiationType::Start,
        SubnegotiationType::Data,
        SubnegotiationType::End,
    ];
    for (index, phase) in phases.into_iter().enumerate() {
        let (mut stream, log) = Scripted::new(Vec::new());
        stream.fail_write = Some(index);
        let mut telnet = Telnet::from_stream(stream, 16);
        assert_eq!(
            telnet.subnegotiate(TelnetOption::NAWS, &[0, 80, 0, 24]),
            Err(TelnetError::SubnegotiationErr(phase))
        );
        assert_eq!(log.borrow().written.len(), index);
    }
}

#[test]
fn telnet_zlib_is_handed_to_the_transport() {
    let (stream, log) = Scripted::new(vec![Ok(vec![0xFF, 0xFA, 86, 0xFF, 0xF0])]);
    let mut telnet = Telnet::from_stream(stream, 16);
    assert_eq!(
        telnet.read().unwrap(),
        Some(TelnetEvent::Subnegotiation(
            TelnetOption::Compress2,
            Vec::new().into_boxed_slice()
        ))
    );
    telnet.begin_zlib();
    telnet.end_zlib();
    assert_eq!(log.borrow().zlib, vec![true, false]);
}

#[test]
fn telnet_read_count_beyond_the_buffer_is_cut() {
    struct Liar;
    impl Stream for Liar {
        fn read(&mut self, buf: &mut [u8]) -> io::Result<usize> {
            for byte in buf.iter_mut() {
                *byte = 65;
            }
            Ok(buf.len() + 10)
        }
        fn write_all(&mut self, _buf: &[u8]) -> io::Result<()> {
            Ok(())
        }
        fn flush(&mut self) -> io::Result<()> {
            Ok(())
        }
        fn set_nonblocking(&self, _nonblocking: bool) -> io::Result<()> {
            Ok(())
        }
        fn set_read_timeout(&self, _dur: Option<Duration>) -> io::Result<()> {
            Ok(())
        }
    }
    let mut telnet = Telnet::from_stream(Liar, 3);
    assert_eq!(telnet.read_nonblocking().unwrap(), data_event(&[65, 65, 65]));
}

#[test]
fn telnet_process_takes_bytes_without_a_read() {
    let (stream, log) = Scripted::new(Vec::new());
    let mut telnet = Telnet::from_stream(stream, 4);
    telnet.process(&[1, 2, 0xFF, 0xFD, 31, 0xFF]);
    telnet.process(&[0xFF, 3]);
    assert_eq!(telnet.read_nonblocking().unwrap(), data_event(&[1, 2]));
    assert_eq!(
        telnet.read_nonblocking().unwrap(),
        TelnetEvent::Negotiation(Action::Do, TelnetOption::NAWS)
    );
    assert_eq!(telnet.read_nonblocking().unwrap(), data_event(&[0xFF, 3]));
    assert_eq!(log.borrow().reads, 0);
}
