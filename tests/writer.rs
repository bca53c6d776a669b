use acap::error::CaptureError;
use acap::format::StreamVariant;
use acap::sample::Sample;
use acap::writer::StreamWriter;

#[test]
fn accepted_buffer_is_written_whole_and_in_order() {
    let mut w = StreamWriter::new(StreamVariant::I16);
    let input = vec![Sample::I16(1), Sample::I16(-2), Sample::I8(3)];
    let out = w.write_input_data(&input, true);
    assert_eq!(out, vec![Sample::I16(1), Sample::I16(-2), Sample::I16(768)]);
    assert_eq!(w.samples_written(), 3);
}

#[test]
fn contended_buffer_is_dropped() {
    let mut w = StreamWriter::new(StreamVariant::I32);
    let out = w.write_input_data(&vec![Sample::I32(7); 16], false);
    assert!(out.is_empty());
    assert_eq!(w.samples_written(), 0);
    assert!(w.is_open());
}

#[test]
fn finalize_twice_is_a_defined_failure() {
    let mut w = StreamWriter::new(StreamVariant::F32);
    w.write_input_data(&vec![Sample::F32Bits(0); 4], true);
    assert_eq!(w.finalize(), Ok(4));
    assert!(!w.is_open());
    assert_eq!(w.finalize(), Err(CaptureError::FinalizeFailure));
    assert_eq!(w.samples_written(), 4);
}

#[test]
fn nothing_is_written_after_finalize() {
    let mut w = StreamWriter::new(StreamVariant::I8);
    assert_eq!(w.finalize(), Ok(0));
    let out = w.write_input_data(&vec![Sample::I8(1); 8], true);
    assert!(out.is_empty());
    assert_eq!(w.samples_written(), 0);
}

#[test]
fn rapid_deliveries_under_contention_never_exceed_what_was_delivered() {
    let mut w = StreamWriter::new(StreamVariant::I16);
    let mut delivered = 0u64;
    let mut handed = Vec::new();
    for n in 0..100u16 {
        let buffer: Vec<Sample> = (0..32).map(|k| Sample::I16((n * 32 + k) as i16)).collect();
        delivered += buffer.len() as u64;
        let acquired = n % 3 != 0;
        let out = w.write_input_data(&buffer, acquired);
        if acquired && n <= 60 {
            assert_eq!(out, buffer);
        } else {
            assert!(out.is_empty());
        }
        handed.extend(out);
        if n == 60 {
            assert!(w.finalize().is_ok());
        }
    }
    assert!(w.samples_written() <= delivered);
    assert_eq!(w.samples_written(), handed.len() as u64);
    for pair in handed.windows(2) {
        match (pair[0], pair[1]) {
            (Sample::I16(a), Sample::I16(b)) => assert!(a < b),
            _ => panic!("unexpected variant"),
        }
    }
}
