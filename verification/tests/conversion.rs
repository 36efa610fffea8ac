//! Bulk and streaming conversions, driven as a caller drives them, with a small
//! table-driven engine standing in for the platform's.

use iconv::{
    classify_code, convert_bytes, decoded_text, BulkConversion, BulkError, BulkStep, CallShape,
    ConfigurationError, ConversionResult, ConversionStatus, Converter, EngineFailure, FillBuffer,
    IconvDecodable, IconvEncodable, IconvReader, Phase, ReadError, ReadStep, SourceSignal,
    BUFFER_SIZE, INVALID_DESCRIPTOR, SCRATCH_SIZE,
};

// ---------------------------------------------------------------------------------
// The stand-in engine. It speaks the raw interface of the platform's: descriptors,
// bytes left in each window, a failure flag and an error number.

#[derive(Clone, Copy, PartialEq, Debug)]
enum Charset {
    Utf8,
    Gbk,
    Big5,
    Latin1,
    Utf32,
}

fn charset(name: &str) -> Option<Charset> {
    match name {
        "UTF-8" => Some(Charset::Utf8),
        "GBK" | "CP936" => Some(Charset::Gbk),
        "BIG5" => Some(Charset::Big5),
        "LATIN1" => Some(Charset::Latin1),
        "UTF-32BE" => Some(Charset::Utf32),
        _ => None,
    }
}

/// The characters that the stand-in knows beyond ASCII: UTF-8, GBK, BIG5.
fn known() -> Vec<(Vec<u8>, Option<Vec<u8>>, Option<Vec<u8>>)> {
    vec![
        (vec![0xe5, 0x93, 0x88], Some(vec![0xb9, 0xfe]), None),
        (vec![0xe5, 0x99, 0x97], Some(vec![0xe0, 0xdb]), None),
        (vec![0xe5, 0x8f, 0x98], Some(vec![0xb1, 0xe4]), None),
        (vec![0xe5, 0xb7, 0xa8], Some(vec![0xbe, 0xde]), None),
        (vec![0xe6, 0x9b, 0xb9], None, Some(vec![0xb1, 0xe4])),
        (vec![0xe6, 0x93, 0x8d], None, Some(vec![0xbe, 0xde])),
    ]
}

fn in_charset(entry: &(Vec<u8>, Option<Vec<u8>>, Option<Vec<u8>>), set: Charset) -> Option<Vec<u8>> {
    match set {
        Charset::Utf8 => Some(entry.0.clone()),
        Charset::Gbk => entry.1.clone(),
        Charset::Big5 => entry.2.clone(),
        Charset::Latin1 | Charset::Utf32 => None,
    }
}

enum Head {
    Whole(usize, Vec<u8>),
    Invalid,
    Incomplete,
}

/// How many bytes the character at the head of `bytes` takes in `set`; 0 for a byte
/// that starts none.
fn width(bytes: &[u8], set: Charset) -> usize {
    let lead = bytes[0];
    match set {
        Charset::Utf8 => {
            if lead < 0x80 {
                1
            } else if (0xc2..=0xdf).contains(&lead) {
                2
            } else if (0xe0..=0xef).contains(&lead) {
                3
            } else if (0xf0..=0xf4).contains(&lead) {
                4
            } else {
                0
            }
        }
        Charset::Gbk | Charset::Big5 => {
            if lead < 0x80 {
                1
            } else if lead == 0xff || lead == 0x80 {
                0
            } else {
                2
            }
        }
        Charset::Latin1 => 1,
        Charset::Utf32 => 4,
    }
}

fn head(bytes: &[u8], from: Charset, to: Charset) -> Head {
    let w = width(bytes, from);
    if w == 0 {
        return Head::Invalid;
    }
    if from == Charset::Utf8 {
        for b in bytes.iter().take(w).skip(1) {
            if !(0x80..=0xbf).contains(b) {
                return Head::Invalid;
            }
        }
    }
    if bytes.len() < w {
        return Head::Incomplete;
    }
    if w == 1 && bytes[0] < 0x80 {
        return match to {
            Charset::Utf32 => Head::Whole(1, vec![0, 0, 0, bytes[0]]),
            _ => Head::Whole(1, vec![bytes[0]]),
        };
    }
    for entry in known().iter() {
        if in_charset(entry, from).as_deref() == Some(&bytes[..w]) {
            return match in_charset(entry, to) {
                Some(image) => Head::Whole(w, image),
                None => Head::Invalid,
            };
        }
    }
    Head::Invalid
}

struct Platform {
    handles: Vec<Option<(Charset, Charset)>>,
    closes: Vec<usize>,
    calls: usize,
}

struct Raw {
    failed: bool,
    errno: i32,
    input_left: usize,
    output_left: usize,
}

impl Platform {
    fn new() -> Platform {
        Platform { handles: Vec::new(), closes: Vec::new(), calls: 0 }
    }

    fn open(&mut self, to: &str, from: &str) -> usize {
        match (charset(from), charset(to)) {
            (Some(f), Some(t)) => {
                self.handles.push(Some((f, t)));
                self.handles.len() - 1
            }
            _ => INVALID_DESCRIPTOR,
        }
    }

    fn close(&mut self, descriptor: usize) {
        self.handles[descriptor] = None;
        self.closes.push(descriptor);
    }

    fn call(&mut self, descriptor: usize, shape: CallShape, input: &[u8], output: &mut [u8]) -> Raw {
        self.calls += 1;
        let (from, to) = self.handles[descriptor].expect("open handle");
        let ok = Raw { failed: false, errno: 0, input_left: input.len(), output_left: output.len() };
        if shape != CallShape::Convert {
            return ok;
        }
        let mut at = 0;
        let mut out = 0;
        while at < input.len() {
            let errno = match head(&input[at..], from, to) {
                Head::Whole(w, image) => {
                    if image.len() <= output.len() - out {
                        output[out..out + image.len()].copy_from_slice(&image);
                        at += w;
                        out += image.len();
                        continue;
                    }
                    libc::E2BIG
                }
                Head::Invalid => libc::EILSEQ,
                Head::Incomplete => libc::EINVAL,
            };
            return Raw {
                failed: true,
                errno,
                input_left: input.len() - at,
                output_left: output.len() - out,
            };
        }
        Raw { failed: false, errno: 0, input_left: 0, output_left: output.len() - out }
    }

    fn convert(&mut self, conv: &Converter, input: &[u8], output: &mut [u8]) -> ConversionResult {
        let descriptor = conv.descriptor().expect("open converter");
        let shape = Converter::shape(input.len(), output.len());
        let raw = self.call(descriptor, shape, input, output);
        let status = ConversionStatus::from_call(raw.failed, raw.errno);
        conv.convert(input.len(), output.len(), raw.input_left, raw.output_left, status)
            .expect("engine result")
    }

    fn converter(&mut self, from: &str, to: &str) -> Result<Converter, ConfigurationError> {
        let descriptor = self.open(to, from);
        Converter::new(from, to, descriptor)
    }
}

/// Runs a bulk conversion to its end.
fn run(job: BulkConversion) -> Result<Option<Vec<u8>>, ConfigurationError> {
    let mut platform = Platform::new();
    run_on(&mut platform, job)
}

fn run_on(platform: &mut Platform, job: BulkConversion) -> Result<Option<Vec<u8>>, ConfigurationError> {
    let mut job = job;
    let mut conv = platform.converter(job.from_encoding(), job.to_encoding())?;
    while job.step() == BulkStep::Convert {
        let input = job.input_window();
        let result = platform.convert(&conv, input, job.output_window());
        job.converted(result);
    }
    if let Some(descriptor) = conv.release() {
        platform.close(descriptor);
    }
    Ok(job.finish())
}

fn encode<T: IconvEncodable>(value: &T, encoding: &str) -> Result<Option<Vec<u8>>, ConfigurationError> {
    run(value.encode_with_encoding(encoding))
}

fn decode<T: IconvDecodable>(value: &T, encoding: &str) -> Result<Option<String>, ConfigurationError> {
    Ok(decoded_text(run(value.decode_with_encoding(encoding))?))
}

/// A source that hands out its bytes at most `chunk` at a time, then ends or fails.
struct Source<'a> {
    data: &'a [u8],
    at: usize,
    chunk: usize,
    fails_with: Option<u32>,
    pulls: usize,
}

impl<'a> Source<'a> {
    fn new(data: &'a [u8], chunk: usize) -> Source<'a> {
        Source { data, at: 0, chunk, fails_with: None, pulls: 0 }
    }

    fn pull(&mut self, window: &mut [u8]) -> SourceSignal<u32> {
        self.pulls += 1;
        let n = self.chunk.min(window.len()).min(self.data.len() - self.at);
        if n == 0 {
            return match self.fails_with {
                Some(code) => SourceSignal::Error(code),
                None => SourceSignal::End,
            };
        }
        window[..n].copy_from_slice(&self.data[self.at..self.at + n]);
        self.at += n;
        SourceSignal::Data(n)
    }
}

/// A streaming reader with its source and its engine, as a caller puts them together.
struct Stream<'a> {
    reader: IconvReader<u32>,
    source: Source<'a>,
    platform: Platform,
    conv: Converter,
}

impl<'a> Stream<'a> {
    fn new(source: Source<'a>, from: &str, to: &str) -> Stream<'a> {
        let mut platform = Platform::new();
        let conv = platform.converter(from, to).expect("known encodings");
        Stream { reader: IconvReader::new(), source, platform, conv }
    }

    /// One read: `Ok(0)` stands for the end of input.
    fn read(&mut self, dst: &mut [u8]) -> Result<usize, ReadError> {
        let mut step = self.reader.read(dst);
        loop {
            step = match step {
                ReadStep::Return(n) => return Ok(n),
                ReadStep::Eof => return Ok(0),
                ReadStep::Fail(e) => return Err(e),
                ReadStep::Pull => {
                    let signal = self.source.pull(self.reader.fill_buf());
                    self.reader.filled(signal)
                }
                ReadStep::Convert => {
                    let result = self.platform.convert(&self.conv, self.reader.unconverted(), dst);
                    self.reader.converted(result, dst.len())
                }
                ReadStep::ConvertScratch => {
                    let mut scratch = [0u8; SCRATCH_SIZE];
                    let result =
                        self.platform.convert(&self.conv, self.reader.unconverted(), &mut scratch);
                    self.reader.scratch_converted(result, &scratch, dst)
                }
            };
        }
    }

    /// Reads until `n` bytes are there or the input has ended.
    fn read_exact(&mut self, n: usize) -> Result<Vec<u8>, ReadError> {
        let mut out = vec![0u8; n];
        let mut filled = 0;
        let mut idle = 0;
        while filled < n {
            let got = self.read(&mut out[filled..])?;
            if got == 0 {
                if self.reader.phase() == Phase::Eof {
                    break;
                }
                idle += 1;
                assert!(idle < 4, "the reader makes no progress");
            } else {
                idle = 0;
            }
            filled += got;
        }
        out.truncate(filled);
        Ok(out)
    }

    /// Everything the reader gives when asked for `size` bytes at a time.
    fn read_all(&mut self, size: usize) -> Result<Vec<u8>, ReadError> {
        let mut all = Vec::new();
        loop {
            let piece = self.read_exact(size)?;
            let done = piece.len() < size;
            all.extend_from_slice(&piece);
            if done {
                return Ok(all);
            }
        }
    }
}

// ---------------------------------------------------------------------------------
// The library's own scenarios.

#[test]
fn test_reader() {
    let a = "噗哈";
    let cont = a.repeat(1024);

    let mut cr = Stream::new(Source::new(cont.as_bytes(), 8192), "UTF-8", "GBK");

    let mut nread = 0;
    loop {
        let seg = cr.read_exact(4).unwrap();
        if seg.len() == 4 {
            assert_eq!(seg, vec![224, 219, 185, 254]);
            nread += 4;
        } else {
            assert!(seg.is_empty());
            assert_eq!(cr.reader.phase(), Phase::Eof);
            break;
        }
    }
    assert_eq!(nread, 1024 * 4);
}

#[test]
fn test_encoder_normal() {
    assert!(encode(&"", "LATIN1").unwrap().unwrap().is_empty());

    let a = "哈哈";
    assert_eq!(encode(&a, "GBK").unwrap().unwrap(), vec![0xb9, 0xfe, 0xb9, 0xfe]);

    let b = a.repeat(1024);
    for ch in encode(&b, "GBK").unwrap().unwrap().as_slice().chunks(4) {
        assert_eq!(ch, vec![0xb9, 0xfe, 0xb9, 0xfe].as_slice());
    }

    let c: Vec<u8> = vec![0xe5, 0x93, 0x88, 0xe5, 0x93, 0x88]; // utf8 bytes
    assert_eq!(encode(&c, "GBK").unwrap().unwrap(), vec![0xb9, 0xfe, 0xb9, 0xfe]);
}

#[test]
fn test_encoder_fail_creating_converter() {
    let e = encode(&"", "NOT_EXISTS").unwrap_err();
    assert_eq!(e.from, "UTF-8");
    assert_eq!(e.to, "NOT_EXISTS");
}

#[test]
fn test_encoder_ilseq() {
    let a: Vec<u8> = vec![0xff, 0xff, 0xff];
    assert_eq!(encode(&a, "GBK").unwrap(), None);
}

#[test]
fn test_encoder_invalid() {
    let a: Vec<u8> = vec![0xe5, 0x93, 0x88, 0xe5, 0x88]; // incomplete utf8 bytes
    assert_eq!(encode(&a, "GBK").unwrap(), None);
}

#[test]
fn test_decoder_normal() {
    let empty: &[u8] = b"";
    assert_eq!(decode(&empty, "CP936").unwrap().unwrap(), "".to_string());

    let a: Vec<u8> = vec![0xb9, 0xfe, 0xb9, 0xfe];
    assert_eq!(decode(&a, "GBK").unwrap().unwrap(), "哈哈".to_string());

    let b: Vec<u8> = (0..1000).map(|i| a[i % 4]).collect(); // grow to 1000 bytes and fill with a

    let text = decode(&b, "GBK").unwrap().unwrap();
    assert_eq!(text.chars().count(), 500);
    for c in text.chars() {
        assert_eq!(c, '哈');
    }
}

#[test]
fn test_decoder_fail_creating_converter() {
    let empty: &[u8] = b"";
    let e = decode(&empty, "NOT_EXSITS").unwrap_err();
    assert_eq!(e.from, "NOT_EXSITS");
    assert_eq!(e.to, "UTF-8");
}

#[test]
fn test_decoder_ilseq() {
    let a: Vec<u8> = vec![0xff, 0xff, 0xff];
    assert_eq!(decode(&a, "GBK").unwrap(), None);
}

#[test]
fn test_decoder_invalid() {
    let a: Vec<u8> = vec![0xb9, 0xfe, 0xb9]; // incomplete gbk bytes
    assert_eq!(decode(&a, "GBK").unwrap(), None);
}

#[test]
fn test_caocao_joke() {
    let a = "曹操";
    let b = "变巨";
    assert_eq!(encode(&a, "BIG5").unwrap().unwrap(), encode(&b, "GBK").unwrap().unwrap());
    assert_eq!(encode(&a, "BIG5").unwrap().unwrap(), vec![0xb1, 0xe4, 0xbe, 0xde]);
}

// ---------------------------------------------------------------------------------
// Engine statuses and calls.

#[test]
fn errno_numbers_map_to_statuses() {
    assert_eq!(ConversionStatus::from_errno(0), Some(ConversionStatus::Complete));
    assert_eq!(ConversionStatus::from_errno(libc::E2BIG), Some(ConversionStatus::OutputTooSmall));
    assert_eq!(ConversionStatus::from_errno(libc::EILSEQ), Some(ConversionStatus::InvalidSequence));
    assert_eq!(
        ConversionStatus::from_errno(libc::EINVAL),
        Some(ConversionStatus::IncompleteSequence)
    );
    assert_eq!(ConversionStatus::from_errno(libc::ENOMEM), None);
    assert_eq!(ConversionStatus::from_errno(-1), None);
}

#[test]
fn errno_counts_only_for_a_failed_call() {
    assert_eq!(ConversionStatus::from_call(false, libc::EILSEQ), Some(ConversionStatus::Complete));
    assert_eq!(
        ConversionStatus::from_call(true, libc::EILSEQ),
        Some(ConversionStatus::InvalidSequence)
    );
    assert_eq!(ConversionStatus::from_call(true, 0), Some(ConversionStatus::Complete));
    assert_eq!(ConversionStatus::from_call(true, libc::EBADF), None);
}

#[test]
fn codes_are_classified_in_order() {
    assert_eq!(classify_code(0, 7, 84, 22), Some(ConversionStatus::Complete));
    assert_eq!(classify_code(7, 7, 84, 22), Some(ConversionStatus::OutputTooSmall));
    assert_eq!(classify_code(84, 7, 84, 22), Some(ConversionStatus::InvalidSequence));
    assert_eq!(classify_code(22, 7, 84, 22), Some(ConversionStatus::IncompleteSequence));
    assert_eq!(classify_code(5, 7, 84, 22), None);
    assert_eq!(classify_code(0, 0, 0, 0), Some(ConversionStatus::Complete));
    assert_eq!(classify_code(9, 9, 9, 9), Some(ConversionStatus::OutputTooSmall));
}

#[test]
fn result_counts_are_held_to_the_windows() {
    let r = ConversionResult { consumed: 3, produced: 2, status: ConversionStatus::Complete };
    assert!(r.is_within(3, 2));
    assert!(r.is_within(10, 10));
    assert!(!r.is_within(2, 2));
    assert!(!r.is_within(3, 1));
}

#[test]
fn call_shape_follows_the_windows() {
    assert_eq!(Converter::shape(3, 4), CallShape::Convert);
    assert_eq!(Converter::shape(0, 4), CallShape::Flush);
    assert_eq!(Converter::shape(3, 0), CallShape::Probe);
    assert_eq!(Converter::shape(0, 0), CallShape::Probe);
}

#[test]
fn converter_reads_back_a_call() {
    let conv = Converter::new("UTF-8", "GBK", 5).unwrap();
    assert_eq!(conv.from_encoding(), "UTF-8");
    assert_eq!(conv.to_encoding(), "GBK");
    assert_eq!(conv.descriptor(), Some(5));
    let too_small = Some(ConversionStatus::OutputTooSmall);
    assert_eq!(
        conv.convert(6, 3, 3, 1, too_small),
        Ok(ConversionResult { consumed: 3, produced: 2, status: ConversionStatus::OutputTooSmall })
    );
    // A flush has no input window: nothing counts as consumed.
    assert_eq!(
        conv.convert(0, 4, 0, 1, Some(ConversionStatus::Complete)),
        Ok(ConversionResult { consumed: 0, produced: 3, status: ConversionStatus::Complete })
    );
    // A probe has no window at all.
    assert_eq!(
        conv.convert(6, 0, 6, 0, too_small),
        Ok(ConversionResult { consumed: 0, produced: 0, status: ConversionStatus::OutputTooSmall })
    );
    assert_eq!(conv.convert(6, 3, 7, 1, too_small), Err(EngineFailure::OutOfWindow));
    assert_eq!(conv.convert(6, 3, 3, 4, too_small), Err(EngineFailure::OutOfWindow));
    assert_eq!(conv.convert(0, 3, 0, 4, too_small), Err(EngineFailure::OutOfWindow));
    assert_eq!(conv.convert(6, 3, 3, 1, None), Err(EngineFailure::Unrecognized));
}

#[test]
fn converter_rejects_the_invalid_descriptor() {
    let e = Converter::new("UTF-8", "KLINGON", INVALID_DESCRIPTOR).unwrap_err();
    assert_eq!(e.from, "UTF-8");
    assert_eq!(e.to, "KLINGON");
    assert!(Converter::new("UTF-8", "GBK", 0).is_ok());
    assert!(Converter::new("UTF-8", "GBK", INVALID_DESCRIPTOR - 1).is_ok());
}

#[test]
fn release_is_idempotent() {
    let mut conv = Converter::new("UTF-8", "GBK", 42).unwrap();
    assert_eq!(conv.release(), Some(42));
    assert_eq!(conv.release(), None);
    assert_eq!(conv.release(), None);
    assert_eq!(conv.descriptor(), None);
    assert_eq!(conv.from_encoding(), "UTF-8");
    assert_eq!(
        conv.convert(6, 3, 3, 1, Some(ConversionStatus::Complete)),
        Err(EngineFailure::Released)
    );
}

#[test]
fn bulk_conversion_closes_its_handle_once() {
    let mut platform = Platform::new();
    let out = run_on(&mut platform, "哈".encode_with_encoding("GBK")).unwrap();
    assert_eq!(out, Some(vec![0xb9, 0xfe]));
    assert_eq!(platform.closes, vec![0]);
    let out = run_on(&mut platform, vec![0xffu8].encode_with_encoding("GBK")).unwrap();
    assert_eq!(out, None);
    assert_eq!(platform.closes, vec![0, 1]);
}

// ---------------------------------------------------------------------------------
// Bulk conversion.

#[test]
fn bulk_starts_with_twice_the_input() {
    let input = [b'a', b'b', b'c'];
    let mut job = convert_bytes(&input, "UTF-8", "LATIN1");
    assert_eq!(job.from_encoding(), "UTF-8");
    assert_eq!(job.to_encoding(), "LATIN1");
    assert_eq!(job.step(), BulkStep::Convert);
    assert_eq!(job.input_window(), &input[..]);
    assert_eq!(job.output_window(), &[0u8; 6][..]);
}

#[test]
fn bulk_of_nothing_is_done_at_once() {
    let mut job = convert_bytes(&[], "UTF-8", "GBK");
    assert_eq!(job.step(), BulkStep::Done);
    assert!(job.output_window().is_empty());
    assert_eq!(job.finish(), Some(vec![]));
}

#[test]
fn bulk_grows_by_the_input_length() {
    let input = [b'a', b'b', b'c'];
    let mut job = convert_bytes(&input, "UTF-8", "UTF-32BE");
    job.output_window()[..4].copy_from_slice(&[0, 0, 0, b'a']);
    let step = job.converted(ConversionResult {
        consumed: 1,
        produced: 4,
        status: ConversionStatus::OutputTooSmall,
    });
    assert_eq!(step, BulkStep::Convert);
    assert_eq!(job.input_window(), &input[1..]);
    // 6 - 4 bytes were left, 3 more came.
    assert_eq!(job.output_window().len(), 5);
    let step = job.converted(ConversionResult {
        consumed: 0,
        produced: 0,
        status: ConversionStatus::OutputTooSmall,
    });
    assert_eq!(step, BulkStep::Convert);
    assert_eq!(job.output_window().len(), 8);
    job.output_window().copy_from_slice(&[0, 0, 0, b'b', 0, 0, 0, b'c']);
    let step = job.converted(ConversionResult {
        consumed: 2,
        produced: 8,
        status: ConversionStatus::Complete,
    });
    assert_eq!(step, BulkStep::Done);
    assert_eq!(job.finish(), Some(vec![0, 0, 0, b'a', 0, 0, 0, b'b', 0, 0, 0, b'c']));
}

#[test]
fn bulk_output_longer_than_twice_the_input() {
    let text = "grow".repeat(100);
    let out = encode(&text, "UTF-32BE").unwrap().unwrap();
    assert_eq!(out.len(), 1600);
    for (i, quad) in out.chunks(4).enumerate() {
        assert_eq!(quad, &[0, 0, 0, text.as_bytes()[i]]);
    }
}

#[test]
fn bulk_fails_on_invalid_and_on_incomplete() {
    let input = [0xb9, 0xfe, 0xb9];
    let mut job = convert_bytes(&input, "GBK", "UTF-8");
    let step = job.converted(ConversionResult {
        consumed: 2,
        produced: 3,
        status: ConversionStatus::IncompleteSequence,
    });
    assert_eq!(step, BulkStep::Failed(BulkError::IncompleteSequence));
    assert_eq!(job.step(), BulkStep::Failed(BulkError::IncompleteSequence));
    assert_eq!(job.finish(), None);

    let mut job = convert_bytes(&input, "GBK", "UTF-8");
    let step = job.converted(ConversionResult {
        consumed: 0,
        produced: 0,
        status: ConversionStatus::InvalidSequence,
    });
    assert_eq!(step, BulkStep::Failed(BulkError::InvalidSequence));
    assert_eq!(job.finish(), None);
}

#[test]
fn bulk_gives_nothing_before_the_input_is_consumed() {
    let input = [b'a', b'b'];
    let mut job = convert_bytes(&input, "UTF-8", "LATIN1");
    job.output_window()[0] = b'a';
    let step = job.converted(ConversionResult {
        consumed: 1,
        produced: 1,
        status: ConversionStatus::Complete,
    });
    assert_eq!(step, BulkStep::Convert);
    assert_eq!(job.finish(), None);
}

#[test]
fn decoded_text_wants_utf8() {
    assert_eq!(decoded_text(Some(vec![0xe5, 0x93, 0x88])), Some("哈".to_string()));
    assert_eq!(decoded_text(Some(vec![])), Some(String::new()));
    assert_eq!(decoded_text(Some(vec![0xe5, 0x93])), None);
    assert_eq!(decoded_text(Some(vec![0xff])), None);
    assert_eq!(decoded_text(None), None);
}

#[test]
fn round_trip_gives_the_text_back() {
    for text in ["", "a", "哈哈", "噗哈 and ASCII 变巨"] {
        let there = encode(&text, "GBK").unwrap().unwrap();
        let back = decode(&there, "GBK").unwrap().unwrap();
        assert_eq!(back, text);
    }
}

#[test]
fn string_and_str_and_bytes_encode_alike() {
    let text = "变巨".to_string();
    let expected = Some(vec![0xb1, 0xe4, 0xbe, 0xde]);
    assert_eq!(encode(&text, "GBK").unwrap(), expected);
    assert_eq!(encode(&text.as_str(), "GBK").unwrap(), expected);
    assert_eq!(encode(&text.as_bytes(), "GBK").unwrap(), expected);
    assert_eq!(encode(&text.as_bytes().to_vec(), "GBK").unwrap(), expected);
}

// ---------------------------------------------------------------------------------
// The fill buffer.

#[test]
fn fill_buffer_compacts_before_it_fills() {
    let mut fill = FillBuffer::new();
    assert!(fill.is_drained());
    assert_eq!(fill.spare_len(), BUFFER_SIZE);
    let window = fill.fill_window();
    assert_eq!(window.len(), BUFFER_SIZE);
    window[..5].copy_from_slice(b"hello");
    fill.commit(5);
    assert_eq!(fill.window(), b"hello");
    assert_eq!(fill.spare_len(), BUFFER_SIZE - 5);
    fill.consume(3);
    assert_eq!(fill.window(), b"lo");
    assert_eq!(fill.spare_len(), BUFFER_SIZE - 5);
    fill.compact();
    assert_eq!(fill.window(), b"lo");
    assert_eq!(fill.spare_len(), BUFFER_SIZE - 2);
    let window = fill.fill_window();
    assert_eq!(window.len(), BUFFER_SIZE - 2);
    window[0] = b'!';
    fill.commit(1);
    assert_eq!(fill.window(), b"lo!");
    fill.consume(3);
    assert!(fill.is_drained());
}

// ---------------------------------------------------------------------------------
// The streaming reader.

#[test]
fn reader_starts_empty() {
    let mut reader: IconvReader<u32> = IconvReader::new();
    assert_eq!(reader.phase(), Phase::Idle);
    assert!(reader.unconverted().is_empty());
    assert_eq!(reader.pending_len(), 0);
    assert_eq!(reader.source_error(), None);
    assert_eq!(reader.fill_buf().len(), BUFFER_SIZE);
}

#[test]
fn reader_walks_through_one_read() {
    let mut reader: IconvReader<u32> = IconvReader::new();
    let mut dst = [0u8; 4];
    assert_eq!(reader.read(&mut dst), ReadStep::Pull);
    assert_eq!(reader.phase(), Phase::Filling);
    reader.fill_buf()[..6].copy_from_slice(&[0xe5, 0x93, 0x88, 0xe5, 0x93, 0x88]);
    assert_eq!(reader.filled(SourceSignal::Data(6)), ReadStep::Convert);
    assert_eq!(reader.phase(), Phase::Converting);
    assert_eq!(reader.unconverted(), &[0xe5, 0x93, 0x88, 0xe5, 0x93, 0x88]);
    let step = reader.converted(
        ConversionResult { consumed: 6, produced: 4, status: ConversionStatus::Complete },
        4,
    );
    assert_eq!(step, ReadStep::Return(4));
    assert_eq!(reader.phase(), Phase::Idle);
    assert!(reader.unconverted().is_empty());
    assert_eq!(reader.read(&mut dst), ReadStep::Pull);
    assert_eq!(reader.filled(SourceSignal::End), ReadStep::Eof);
    assert_eq!(reader.phase(), Phase::Eof);
    assert_eq!(reader.read(&mut dst), ReadStep::Eof);
    assert_eq!(reader.read(&mut dst), ReadStep::Eof);
}

#[test]
fn reader_pulls_again_after_an_empty_pull() {
    let mut reader: IconvReader<u32> = IconvReader::new();
    let mut dst = [0u8; 4];
    assert_eq!(reader.read(&mut dst), ReadStep::Pull);
    assert_eq!(reader.filled(SourceSignal::Data(0)), ReadStep::Pull);
    assert_eq!(reader.phase(), Phase::Filling);
}

#[test]
fn reader_retries_a_character_cut_short() {
    let mut reader: IconvReader<u32> = IconvReader::new();
    let mut dst = [0u8; 16];
    assert_eq!(reader.read(&mut dst), ReadStep::Pull);
    reader.fill_buf()[..4].copy_from_slice(&[0xe5, 0x93, 0x88, 0xe5]);
    assert_eq!(reader.filled(SourceSignal::Data(4)), ReadStep::Convert);
    let step = reader.converted(
        ConversionResult { consumed: 3, produced: 2, status: ConversionStatus::IncompleteSequence },
        16,
    );
    assert_eq!(step, ReadStep::Pull);
    assert_eq!(reader.phase(), Phase::Retrying(2));
    let window = reader.fill_buf();
    assert_eq!(window.len(), BUFFER_SIZE - 1);
    window[..2].copy_from_slice(&[0x93, 0x88]);
    assert_eq!(reader.filled(SourceSignal::Data(2)), ReadStep::Return(2));
    assert_eq!(reader.phase(), Phase::Idle);
    assert_eq!(reader.unconverted(), &[0xe5, 0x93, 0x88]);
    assert_eq!(reader.read(&mut dst), ReadStep::Convert);
}

#[test]
fn reader_fails_on_an_invalid_sequence_for_good() {
    let mut reader: IconvReader<u32> = IconvReader::new();
    let mut dst = [0u8; 16];
    reader.read(&mut dst);
    reader.fill_buf()[..3].copy_from_slice(&[0xff, 0xff, 0xff]);
    reader.filled(SourceSignal::Data(3));
    let step = reader.converted(
        ConversionResult { consumed: 0, produced: 0, status: ConversionStatus::InvalidSequence },
        16,
    );
    assert_eq!(step, ReadStep::Fail(ReadError::InvalidInput));
    assert_eq!(reader.phase(), Phase::Failed(ReadError::InvalidInput));
    assert_eq!(reader.read(&mut dst), ReadStep::Fail(ReadError::InvalidInput));
    assert_eq!(reader.read(&mut dst), ReadStep::Fail(ReadError::InvalidInput));
}

#[test]
fn reader_rescues_a_destination_of_one_byte() {
    let mut reader: IconvReader<u32> = IconvReader::new();
    let mut dst = [0u8; 1];
    reader.read(&mut dst);
    reader.fill_buf()[..6].copy_from_slice(&[0xe5, 0x93, 0x88, 0xe5, 0x99, 0x97]);
    reader.filled(SourceSignal::Data(6));
    let step = reader.converted(
        ConversionResult { consumed: 0, produced: 0, status: ConversionStatus::OutputTooSmall },
        1,
    );
    assert_eq!(step, ReadStep::ConvertScratch);
    assert_eq!(reader.phase(), Phase::Rescuing);
    let scratch = [0xb9, 0xfe, 0xe0, 0xdb, 0, 0, 0, 0];
    let step = reader.scratch_converted(
        ConversionResult { consumed: 6, produced: 4, status: ConversionStatus::Complete },
        &scratch,
        &mut dst,
    );
    assert_eq!(step, ReadStep::Return(1));
    assert_eq!(dst, [0xb9]);
    assert_eq!(reader.pending_len(), 3);
    assert!(reader.unconverted().is_empty());
    // Pending bytes are drained before anything else happens.
    let mut two = [0u8; 2];
    assert_eq!(reader.read(&mut two), ReadStep::Return(2));
    assert_eq!(two, [0xfe, 0xe0]);
    assert_eq!(reader.pending_len(), 1);
    let mut wide = [7u8; 4];
    assert_eq!(reader.read(&mut wide), ReadStep::Return(1));
    assert_eq!(wide, [0xdb, 7, 7, 7]);
    assert_eq!(reader.pending_len(), 0);
    assert_eq!(reader.read(&mut wide), ReadStep::Pull);
}

#[test]
fn reader_returns_what_fit_when_some_did() {
    let mut reader: IconvReader<u32> = IconvReader::new();
    let mut dst = [0u8; 3];
    reader.read(&mut dst);
    reader.fill_buf()[..6].copy_from_slice(&[0xe5, 0x93, 0x88, 0xe5, 0x99, 0x97]);
    reader.filled(SourceSignal::Data(6));
    let step = reader.converted(
        ConversionResult { consumed: 3, produced: 2, status: ConversionStatus::OutputTooSmall },
        3,
    );
    assert_eq!(step, ReadStep::Return(2));
    assert_eq!(reader.unconverted(), &[0xe5, 0x99, 0x97]);
    // With an empty destination there is nothing to rescue.
    let mut none = [0u8; 0];
    assert_eq!(reader.read(&mut none), ReadStep::Convert);
    let step = reader.converted(
        ConversionResult { consumed: 0, produced: 0, status: ConversionStatus::OutputTooSmall },
        0,
    );
    assert_eq!(step, ReadStep::Return(0));
}

#[test]
fn reader_fails_when_the_scratch_run_meets_an_invalid_sequence() {
    let mut reader: IconvReader<u32> = IconvReader::new();
    let mut dst = [0u8; 1];
    reader.read(&mut dst);
    reader.fill_buf()[..4].copy_from_slice(&[0xe5, 0x93, 0x88, 0xff]);
    reader.filled(SourceSignal::Data(4));
    reader.converted(
        ConversionResult { consumed: 0, produced: 0, status: ConversionStatus::OutputTooSmall },
        1,
    );
    let scratch = [0xb9, 0xfe, 0, 0, 0, 0, 0, 0];
    let step = reader.scratch_converted(
        ConversionResult { consumed: 3, produced: 2, status: ConversionStatus::InvalidSequence },
        &scratch,
        &mut dst,
    );
    assert_eq!(step, ReadStep::Fail(ReadError::InvalidInput));
    assert_eq!(reader.read(&mut dst), ReadStep::Fail(ReadError::InvalidInput));
}

#[test]
fn reader_defers_a_source_error_until_the_buffer_is_drained() {
    let text = "哈哈";
    let mut source = Source::new(text.as_bytes(), 6);
    source.fails_with = Some(5);
    let mut stream = Stream::new(source, "UTF-8", "GBK");
    let mut dst = [0u8; 2];
    assert_eq!(stream.read(&mut dst), Ok(2));
    assert_eq!(dst, [0xb9, 0xfe]);
    assert_eq!(stream.read(&mut dst), Ok(2));
    assert_eq!(dst, [0xb9, 0xfe]);
    assert_eq!(stream.reader.source_error(), None);
    assert_eq!(stream.read(&mut dst), Err(ReadError::Source));
    assert_eq!(stream.reader.source_error(), Some(&5));
    assert_eq!(stream.reader.phase(), Phase::Failed(ReadError::Source));
    assert_eq!(stream.read(&mut dst), Err(ReadError::Source));
}

#[test]
fn reader_converts_what_it_holds_before_it_reports_the_error() {
    let mut reader: IconvReader<u32> = IconvReader::new();
    let mut dst = [0u8; 16];
    reader.read(&mut dst);
    reader.fill_buf()[..4].copy_from_slice(&[0xe5, 0x93, 0x88, 0xe5]);
    reader.filled(SourceSignal::Data(4));
    let step = reader.converted(
        ConversionResult { consumed: 3, produced: 2, status: ConversionStatus::IncompleteSequence },
        16,
    );
    assert_eq!(step, ReadStep::Pull);
    // The error is kept, and the read still ends with the two bytes it has.
    assert_eq!(reader.filled(SourceSignal::Error(9)), ReadStep::Return(2));
    assert_eq!(reader.source_error(), Some(&9));
    // One byte is still unconverted, so the error is not reported yet.
    assert_eq!(reader.read(&mut dst), ReadStep::Convert);
}

#[test]
fn reader_keeps_the_first_error_of_the_source() {
    let mut reader: IconvReader<u32> = IconvReader::new();
    let mut dst = [0u8; 16];
    reader.read(&mut dst);
    reader.fill_buf()[0] = 0xe5;
    reader.filled(SourceSignal::Data(1));
    let cut = ConversionResult { consumed: 0, produced: 0, status: ConversionStatus::IncompleteSequence };
    assert_eq!(reader.converted(cut, 16), ReadStep::Pull);
    assert_eq!(reader.filled(SourceSignal::End), ReadStep::Return(0));
    assert_eq!(reader.source_error(), None);
    // An error takes the place of the end that was kept.
    assert_eq!(reader.read(&mut dst), ReadStep::Convert);
    assert_eq!(reader.converted(cut, 16), ReadStep::Pull);
    assert_eq!(reader.filled(SourceSignal::Error(3)), ReadStep::Return(0));
    assert_eq!(reader.source_error(), Some(&3));
    // Neither a later error nor a later end takes the place of an error.
    assert_eq!(reader.read(&mut dst), ReadStep::Convert);
    assert_eq!(reader.converted(cut, 16), ReadStep::Pull);
    assert_eq!(reader.filled(SourceSignal::Error(4)), ReadStep::Return(0));
    assert_eq!(reader.source_error(), Some(&3));
    assert_eq!(reader.read(&mut dst), ReadStep::Convert);
    assert_eq!(reader.converted(cut, 16), ReadStep::Pull);
    assert_eq!(reader.filled(SourceSignal::End), ReadStep::Return(0));
    assert_eq!(reader.source_error(), Some(&3));
    // The error is reported once the buffer is drained.
    assert_eq!(reader.read(&mut dst), ReadStep::Convert);
    let all = ConversionResult { consumed: 1, produced: 0, status: ConversionStatus::Complete };
    assert_eq!(reader.converted(all, 16), ReadStep::Return(0));
    assert_eq!(reader.read(&mut dst), ReadStep::Fail(ReadError::Source));
}

#[test]
fn reads_of_any_size_give_what_the_bulk_conversion_gives() {
    let text = "噗哈 mixed with ASCII 变巨, ".repeat(700);
    let bulk = encode(&text, "GBK").unwrap().unwrap();
    for size in [1, 2, 3, 4, 5, 7, 8, 9, 64, 1000, 8192, 20000] {
        for chunk in [1, 3, 4096, 8192] {
            if size < 4 && chunk < 4096 {
                continue;
            }
            let mut stream = Stream::new(Source::new(text.as_bytes(), chunk), "UTF-8", "GBK");
            let streamed = stream.read_all(size).unwrap();
            assert_eq!(streamed, bulk, "read size {} with source chunks of {}", size, chunk);
        }
    }
}

#[test]
fn reads_of_one_byte_always_move_on() {
    let text = "哈a噗";
    let mut stream = Stream::new(Source::new(text.as_bytes(), 2), "UTF-8", "GBK");
    let mut out = Vec::new();
    let mut idle = 0;
    loop {
        let mut dst = [0u8; 1];
        let pulls = stream.source.pulls;
        let held = stream.reader.unconverted().len();
        match stream.read(&mut dst) {
            Ok(0) => {
                if stream.reader.phase() == Phase::Eof {
                    break;
                }
                // A read that returns nothing has pulled from the source or consumed input.
                assert!(stream.source.pulls > pulls || stream.reader.unconverted().len() < held);
                idle += 1;
                assert!(idle < 8);
            }
            Ok(n) => {
                assert_eq!(n, 1);
                out.push(dst[0]);
                idle = 0;
            }
            Err(e) => panic!("unexpected failure {:?}", e),
        }
    }
    assert_eq!(out, vec![0xb9, 0xfe, b'a', 0xe0, 0xdb]);
}

#[test]
fn invalid_input_fails_at_the_same_offset_whatever_the_chunking() {
    let mut input = "哈哈噗".as_bytes().to_vec();
    input.extend_from_slice(&[0xff, 0xff]);
    input.extend_from_slice("哈".as_bytes());
    assert_eq!(encode(&input, "GBK").unwrap(), None);
    for size in [1, 2, 3, 4, 6, 64] {
        for chunk in [1, 2, 5, 8192] {
            let mut stream = Stream::new(Source::new(&input, chunk), "UTF-8", "GBK");
            let mut out = Vec::new();
            let failure = loop {
                let mut dst = vec![0u8; size];
                match stream.read(&mut dst) {
                    Ok(n) => {
                        assert!(stream.reader.phase() != Phase::Eof);
                        out.extend_from_slice(&dst[..n]);
                    }
                    Err(e) => break e,
                }
            };
            assert_eq!(failure, ReadError::InvalidInput);
            // Nine bytes were consumed before the failure: what is left starts at the
            // invalid byte.
            assert_eq!(stream.source.at - stream.reader.unconverted().len(), 9);
            assert!(out.len() <= 6);
            assert_eq!(out[..], [0xb9, 0xfe, 0xb9, 0xfe, 0xe0, 0xdb][..out.len()]);
        }
    }
}

#[test]
fn a_character_cut_short_at_the_end_is_never_delivered() {
    let input = [0xb9, 0xfe, 0xb9];
    let mut stream = Stream::new(Source::new(&input, 8192), "GBK", "UTF-8");
    let mut dst = [0u8; 16];
    assert_eq!(stream.read(&mut dst), Ok(3));
    assert_eq!(&dst[..3], "哈".as_bytes());
    // The last byte stays in the buffer: each read asks the source again and returns
    // nothing.
    assert_eq!(stream.read(&mut dst), Ok(0));
    assert_eq!(stream.read(&mut dst), Ok(0));
    assert_eq!(stream.reader.unconverted(), &[0xb9]);
    assert_eq!(stream.reader.phase(), Phase::Idle);
}
