use std::io::Write;
use std::path::PathBuf;

use illustrator_rs::error::Error;
use illustrator_rs::parser::container::{
    decode_ascii85, decode_eps_private_data, decode_pgf, decode_zstandard, detect_format,
    expand_ai12_compressed, extract_pgf_from_bytes, extract_script_section, safe_zlib_decompress,
    AiContainer, AiFormat, decode_pgf_bytes,
};

fn zlib(data: &[u8]) -> Vec<u8> {
    let mut e = flate2::write::ZlibEncoder::new(Vec::new(), flate2::Compression::default());
    e.write_all(data).unwrap();
    e.finish().unwrap()
}

#[test]
fn detects_pdf_eps_and_postscript() {
    assert_eq!(detect_format(b"%PDF-1.5\n%rest").unwrap(), AiFormat::Pdf);
    assert_eq!(detect_format(&[0xC5, 0xD0, 0xD3, 0xC6, 0, 0]).unwrap(), AiFormat::Eps);
    assert_eq!(
        detect_format(b"%!PS-Adobe-3.0 EPSF-3.0\n%%BoundingBox: 0 0 10 10\n").unwrap(),
        AiFormat::Eps
    );
    assert_eq!(detect_format(b"%!PS-Adobe-3.0\n%%Title: x\n").unwrap(), AiFormat::PostScript);
}

#[test]
fn bounding_box_after_first_2048_bytes_is_not_seen() {
    let mut raw = b"%!PS-Adobe-3.0\n".to_vec();
    raw.extend(std::iter::repeat(b' ').take(2100));
    raw.extend_from_slice(b"%%BoundingBox: 0 0 1 1");
    assert_eq!(detect_format(&raw).unwrap(), AiFormat::PostScript);
}

#[test]
fn unknown_format_names_the_first_bytes() {
    match detect_format(b"hello") {
        Err(Error::Container(m)) => assert_eq!(
            m,
            "Unrecognized file format. Expected %PDF- or %!PS-Adobe header, got: [104, 101, 108, 108, 111]"
        ),
        _ => panic!("expected a container error"),
    }
    match detect_format(b"") {
        Err(Error::Container(m)) => assert!(m.ends_with("got: []")),
        _ => panic!("expected a container error"),
    }
}

#[test]
fn script_section_starts_at_the_first_marker_found() {
    assert_eq!(extract_script_section("head %%EndSetup body"), "%%EndSetup body");
    assert_eq!(extract_script_section("a %AI5_BeginLayer b %%BeginScript c"), "%AI5_BeginLayer b %%BeginScript c");
    assert_eq!(extract_script_section("x %%EndProlog y"), "%%EndProlog y");
    assert_eq!(extract_script_section("plain"), "plain");
}

#[test]
fn ascii85_decodes_groups_and_padding() {
    assert_eq!(decode_ascii85("<~87cURD]i,\"Ebo7~>").unwrap(), b"Hello World".to_vec());
    assert_eq!(decode_ascii85("<~z~>").unwrap(), vec![0, 0, 0, 0]);
    assert_eq!(decode_ascii85("  <~ 87cU\nRD]i,\"Ebo7 ~>  ").unwrap(), b"Hello World".to_vec());
    assert_eq!(decode_ascii85("<~~>").unwrap(), Vec::<u8>::new());
}

#[test]
fn ascii85_refuses_bytes_outside_the_alphabet() {
    match decode_ascii85("<~v~>") {
        Err(Error::Container(m)) => assert_eq!(m, "Invalid ASCII85 character: 118 (v)"),
        _ => panic!("expected a container error"),
    }
}

#[test]
fn zlib_round_trip_and_limit() {
    let data = b"%AI5_BeginLayer\n1 0 m\n%AI5_EndLayer--\n";
    let packed = zlib(data);
    assert_eq!(safe_zlib_decompress(&packed, 1 << 20).unwrap(), data.to_vec());
    assert_eq!(safe_zlib_decompress(&packed, 5).unwrap(), data[..5].to_vec());
    assert!(matches!(safe_zlib_decompress(b"not zlib", 100), Err(Error::Io(_))));
}

#[test]
fn zstandard_payload_decodes() {
    let packed = zstd::encode_all(&b"1 0 0 1 0 0 Tm"[..], 3).unwrap();
    assert_eq!(decode_zstandard(&packed).unwrap(), "1 0 0 1 0 0 Tm");
    assert!(matches!(decode_zstandard(b"garbage"), Err(Error::Zstd(_))));
}

#[test]
fn plain_pgf_passes_through_decoding() {
    assert_eq!(decode_pgf("%AI5_BeginLayer\n0 0 m").unwrap(), "%AI5_BeginLayer\n0 0 m");
    assert_eq!(expand_ai12_compressed("no marker").unwrap(), "no marker");
    assert_eq!(
        expand_ai12_compressed("pre%AI12_CompressedData@@@").unwrap(),
        "pre%AI12_CompressedData@@@"
    );
}

#[test]
fn eps_private_data_drops_comments_and_decodes_ascii85() {
    assert_eq!(decode_eps_private_data("%%skip\n%abc\n  def  \n").unwrap(), "abc\ndef");
    assert_eq!(decode_eps_private_data("%<~87cURD]i,\"Ebo7~>\n").unwrap(), "Hello World");
    let packed = "<~Gaq]ToJDPO8kmXUo1?#W/`JNb0MojP!WYo`#\"S~>";
    assert_eq!(decode_eps_private_data(packed).unwrap(), "%AI5_BeginLayer\n1 0 m\n");
}

#[test]
fn pdf_extraction_takes_the_layer_section() {
    let raw = b"%PDF-1.5\n1 0 obj\n%AI5_BeginLayer\n1 1 m\n%AI5_EndLayer--\nmore\n%%EOF\n";
    assert_eq!(extract_pgf_from_bytes(raw).unwrap(), "%AI5_BeginLayer\n1 1 m\n");
    assert!(matches!(extract_pgf_from_bytes(b"%PDF-1.5\nnothing"), Err(Error::Container(_))));
}

#[test]
fn postscript_and_eps_extraction() {
    let ps = b"%!PS-Adobe-3.0\n%%BeginProlog\n%%EndSetup\n0 0 m\n";
    assert_eq!(extract_pgf_from_bytes(ps).unwrap(), "%%EndSetup\n0 0 m\n");
    let eps = b"%!PS-Adobe-3.0\n%%BoundingBox: 0 0 1 1\n%AI9_PrivateDataBegin\n%abc\n%AI9_PrivateDataEnd\n";
    assert_eq!(extract_pgf_from_bytes(eps).unwrap(), "\nabc");
}

#[test]
fn dos_eps_header_locates_the_postscript() {
    let body = b"%!PS-Adobe-3.0\n%%EndSetup\nX";
    let mut raw = vec![0xC5, 0xD0, 0xD3, 0xC6];
    raw.extend_from_slice(&(30u32).to_le_bytes());
    raw.extend_from_slice(&(body.len() as u32).to_le_bytes());
    raw.resize(30, 0);
    raw.extend_from_slice(body);
    assert_eq!(extract_pgf_from_bytes(&raw).unwrap(), "%%EndSetup\nX");
    let mut bad = vec![0xC5, 0xD0, 0xD3, 0xC6];
    bad.extend_from_slice(&(100u32).to_le_bytes());
    bad.extend_from_slice(&(100u32).to_le_bytes());
    assert!(matches!(extract_pgf_from_bytes(&bad), Err(Error::Container(_))));
    assert!(matches!(extract_pgf_from_bytes(&[0xC5, 0xD0, 0xD3, 0xC6, 1]), Err(Error::Container(_))));
}

#[test]
fn container_keeps_its_path_and_extracts_bytes() {
    let c = AiContainer::new(PathBuf::from("design.ai"));
    assert_eq!(c.path, PathBuf::from("design.ai"));
    assert_eq!(c.format, AiFormat::PostScript);
    assert_eq!(c.extract(b"%!PS-Adobe-3.0\n%%EndSetup\nZ").unwrap(), "%%EndSetup\nZ");
}

#[test]
fn compressed_pgf_in_a_pdf_is_expanded() {
    let d = b"1 0 0 1 0 0 Tm\n0 g\n";
    let z = zlib(d);
    assert!(z.iter().any(|&b| b >= 0x80));
    let mut raw = b"%PDF-1.5\n%%EndSetup\n%AI12_CompressedData".to_vec();
    raw.extend_from_slice(&z);
    raw.extend_from_slice(b"\n%%EOF\n");
    assert_eq!(extract_pgf_from_bytes(&raw).unwrap(), "%%EndSetup\n1 0 0 1 0 0 Tm\n0 g\n");
}

#[test]
fn compressed_pgf_bytes_are_decoded() {
    let z = zstd::encode_all(&b"%AI5_BeginLayer\n1 1 m\n"[..], 3).unwrap();
    let mut whole = b"%AI24_ZStandard_Data".to_vec();
    whole.extend_from_slice(&z);
    assert_eq!(decode_pgf_bytes(&whole).unwrap(), "%AI5_BeginLayer\n1 1 m\n");
    let zl = zlib(b"0 0 m\n");
    assert_eq!(decode_pgf_bytes(&zl).unwrap(), "0 0 m\n");
    let mut ps = b"%!PS-Adobe-3.0\n%%EndSetup\n%AI12_CompressedData".to_vec();
    ps.extend_from_slice(&zlib(b"2 2 l\n%AI12_EndCompressedData tail"));
    assert_eq!(extract_pgf_from_bytes(&ps).unwrap(), "%%EndSetup\n2 2 l\n");
}

#[test]
fn standard_ascii85_encodings_decode_to_their_bytes() {
    assert_eq!(decode_ascii85("<~87cURD_*#4DfTZ)+T~>").unwrap(), b"Hello, World!".to_vec());
    assert_eq!(decode_ascii85("<~z!<N?+\"T~>").unwrap(), vec![0, 0, 0, 0, 1, 2, 3, 4, 5]);
    assert_eq!(decode_ascii85("<~s8W-!rr~>").unwrap(), vec![255, 255, 255, 255, 255]);
    assert_eq!(decode_ascii85("<~ s8W-\n!r r~>").unwrap(), vec![255, 255, 255, 255, 255]);
}

#[test]
fn ascii85_group_above_32_bits_is_refused() {
    match decode_ascii85("<~uuuuu~>") {
        Err(Error::Container(m)) => assert_eq!(m, "ASCII85 group out of range"),
        _ => panic!("expected a container error"),
    }
    assert_eq!(decode_ascii85("<~s8W-!~>").unwrap(), vec![255, 255, 255, 255]);
    match decode_ascii85("<~s8W-\"~>") {
        Err(Error::Container(m)) => assert_eq!(m, "ASCII85 group out of range"),
        _ => panic!("expected a container error"),
    }
}
