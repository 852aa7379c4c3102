use rest_client::compressor::{Bzip2Error, Compressor};

#[test]
fn create_compressor() {
    let dest: Vec<u8> = vec![];
    let got = Compressor::new();
    assert!(got.is_ok());
    assert!(dest.is_empty());
}

#[test]
fn try_compress() {
    let src = "Hello World".to_string();
    let mut compressor = Compressor::new().unwrap();

    let got = compressor.compress(src.as_bytes());
    println!("{:?}", got);
    assert!(got.is_ok());
}

#[test]
fn compressed_output_has_input_length_and_bzip2_magic() {
    let input = vec![b'a'; 4096];
    let mut compressor = Compressor::new().unwrap();
    let out = compressor.compress(&input).unwrap();
    assert_eq!(out.len(), input.len());
    assert_eq!(&out[..3], b"BZh");
}

#[test]
fn error_codes() {
    assert_eq!(Bzip2Error::from_code(-9), Some(Bzip2Error::Config));
    assert_eq!(Bzip2Error::from_code(-2), Some(Bzip2Error::Params));
    assert_eq!(Bzip2Error::from_code(-3), Some(Bzip2Error::Memory));
    assert_eq!(Bzip2Error::from_code(-1), Some(Bzip2Error::InvalidSequence));
    assert_eq!(Bzip2Error::from_code(0), None);
}

#[test]
fn round_trip_compression_decompression() {
    let text = "[package]\nname = \"bzip2\"\nversion = \"0.1.0\"\n[dependencies]\n".repeat(20);
    let input = text.as_bytes();
    let mut decompressed_output: Vec<u8> = vec![0; input.len()];

    let mut compressor = Compressor::new().unwrap();
    let compressed_output = compressor.compress(input).unwrap();

    let mut stream = bzip2::Decompress::new(false);
    let status = stream.decompress(&compressed_output, &mut decompressed_output).unwrap();
    assert_eq!(status, bzip2::Status::StreamEnd);

    assert_eq!(input, &decompressed_output[..]);
}
