use illustrator_rs::error::Error;
use illustrator_rs::writer::container::{
    chunk_pgf_data, latin1_decode, minimal_pdf, rebuild_with_original, DEFAULT_CHUNK_SIZE,
};
use illustrator_rs::writer::pgf::{
    extract_version_num, font_comment_name, header_lines, kept_prolog, layer_open_lines, program_text,
    ps_escape, trailer_lines, validate_ps_section, write_plan, HeaderFields,
};

#[test]
fn chunks_cover_the_data() {
    let data: Vec<u8> = (0..10u8).collect();
    let c = chunk_pgf_data(&data, 4);
    assert_eq!(c, vec![vec![0, 1, 2, 3], vec![4, 5, 6, 7], vec![8, 9]]);
    assert_eq!(chunk_pgf_data(&data, 10), vec![data.clone()]);
    assert_eq!(chunk_pgf_data(&[], 4), vec![Vec::<u8>::new()]);
    assert_eq!(chunk_pgf_data(&[], 0), vec![Vec::<u8>::new()]);
    let joined: Vec<u8> = chunk_pgf_data(&data, 3).concat();
    assert_eq!(joined, data);
}

#[test]
fn latin1_keeps_every_byte() {
    let s = latin1_decode(&[0x41, 0xE9, 0xFF, 0x00]);
    let codes: Vec<u32> = s.chars().map(|c| c as u32).collect();
    assert_eq!(codes, vec![0x41, 0xE9, 0xFF, 0x00]);
}

#[test]
fn rebuild_replaces_the_pgf_section() {
    let original = b"%PDF-1.5 head %%EndSetup old pgf %%EOF tail";
    assert_eq!(
        rebuild_with_original(original, "NEW ").unwrap(),
        "%PDF-1.5 head NEW %%EOF tail"
    );
    assert!(matches!(rebuild_with_original(b"no markers", "x"), Err(Error::Container(_))));
    assert!(matches!(rebuild_with_original(b"%AI5_ but no end", "x"), Err(Error::Container(_))));
}

#[test]
fn minimal_pdf_layout() {
    let pdf = minimal_pdf("PGF", 612, 792);
    let expected_body = [
        "%PDF-1.5\n",
        "1 0 obj\n<< /Type /Catalog /Pages 2 0 R >>\nendobj\n",
        "2 0 obj\n<< /Type /Pages /Kids [3 0 R] /Count 1 >>\nendobj\n",
        "3 0 obj\n<< /Type /Page /Parent 2 0 R /MediaBox [0 0 612 792] /PieceInfo << /Illustrator << /Private << /AIPrivateData1 4 0 R >> >> >>\nendobj\n",
        "4 0 obj\n<< /Length 3 >>\nstream\nPGFendstream\nendobj\n",
    ]
    .concat();
    assert!(pdf.starts_with(&expected_body));
    let o1 = 9;
    let o2 = o1 + "1 0 obj\n<< /Type /Catalog /Pages 2 0 R >>\nendobj\n".len();
    let o3 = o2 + "2 0 obj\n<< /Type /Pages /Kids [3 0 R] /Count 1 >>\nendobj\n".len();
    let o4 = expected_body.len() - "4 0 obj\n<< /Length 3 >>\nstream\nPGFendstream\nendobj\n".len();
    let xref = format!(
        "xref\n0 5\n0000000000 65535 f \n{:010} 00000 n {:010} 00000 n {:010} 00000 n {:010} 00000 n trailer\n<< /Size 5 /Root 1 0 R >>\nstartxref\n{}\n%%EOF\n",
        o1, o2, o3, o4, expected_body.len()
    );
    assert_eq!(&pdf[expected_body.len()..], xref);
}

#[test]
fn minimal_pdf_chunks_large_data() {
    let pgf = "a".repeat(DEFAULT_CHUNK_SIZE + 10);
    let pdf = minimal_pdf(&pgf, 10, 20);
    assert!(pdf.contains("/AIPrivateData1 4 0 R /AIPrivateData2 5 0 R"));
    assert!(pdf.contains("5 0 obj\n<< /Length 10 >>\nstream\naaaaaaaaaaendstream"));
    assert!(pdf.contains("xref\n0 6\n"));
}

#[test]
fn postscript_strings_are_escaped() {
    assert_eq!(ps_escape("a(b)c\\"), "a\\(b\\)c\\\\");
    assert_eq!(ps_escape("\n\r\t\u{8}\u{c}\u{1}"), "\\n\\r\\t\\b\\f\\001");
    assert_eq!(ps_escape("plain é"), "plain é");
}

#[test]
fn untrusted_sections_keep_only_comments_and_blank_lines() {
    assert_eq!(validate_ps_section("%ok\nevil op\n\n  %fine\nx"), "%ok\n\n  %fine");
}

#[test]
fn version_numbers() {
    assert_eq!(extract_version_num("AI 24.1"), "24.1");
    assert_eq!(extract_version_num("v3.0beta"), "3.0");
    assert_eq!(extract_version_num("none"), "14.0");
}

#[test]
fn font_names_in_comments() {
    assert_eq!(font_comment_name("Myriad Pro-Bold!"), "MyriadPro-Bold");
}

fn fields() -> HeaderFields {
    HeaderFields {
        title: "T(1)".to_string(),
        creator: String::new(),
        bbox: (0, -5, 612, 792),
        hires: "0.0000 -5.5000 612.0000 792.0000".to_string(),
        color_mode: "CMYK".to_string(),
        spot_colors: vec![("Gold".to_string(), "0 0.2 1 0".to_string())],
        fonts: vec!["Arial Bold".to_string(), "Times".to_string()],
        version: String::new(),
        layer_count: 2,
    }
}

#[test]
fn header_comments_of_a_new_program() {
    assert_eq!(
        header_lines(&fields()),
        vec![
            "%!PS-Adobe-3.0",
            "%%Title: (T\\(1\\))",
            "%%Creator: ai-exporter",
            "%%BoundingBox: 0 -5 612 792",
            "%%HiResBoundingBox: 0.0000 -5.5000 612.0000 792.0000",
            "%%DocumentProcessColors: Cyan Magenta Yellow Black",
            "%%DocumentCustomColors: (Gold)",
            "%%CMYKCustomColor: 0 0.2 1 0 (Gold)",
            "%%DocumentFonts: ArialBold Times",
            "%AI5_FileFormat 14.0",
            "%AI9_ColorModel: 2",
            "%AI5_NumLayers: 2",
            "%%EndComments",
        ]
    );
}

#[test]
fn header_of_an_rgb_program_without_extras() {
    let mut h = fields();
    h.title = String::new();
    h.creator = "Me".to_string();
    h.color_mode = "RGB".to_string();
    h.spot_colors = Vec::new();
    h.fonts = Vec::new();
    h.version = "AI 24.0".to_string();
    let lines = header_lines(&h);
    assert_eq!(lines[1], "%%Creator: Me");
    assert_eq!(lines[4], "%%DocumentProcessColors: Red Green Blue");
    assert_eq!(lines[5], "%AI5_FileFormat 24.0");
    assert_eq!(lines[6], "%AI9_ColorModel: 1");
    assert_eq!(lines.len(), 9);
}

#[test]
fn layer_opening_lines() {
    let (a, b) = layer_open_lines(true, false, true, (79, 128, 255), "Art (1)");
    assert_eq!(a, "1 1 1 1 0 0 1 0 79 128 255 0 50 0 Lb");
    assert_eq!(b, "(Art \\(1\\)) Ln");
    let (c, _) = layer_open_lines(false, true, false, (0, 0, 0), "");
    assert_eq!(c, "0 1 0 0 0 0 1 0 0 0 0 0 50 0 Lb");
}

#[test]
fn trailers() {
    assert_eq!(
        trailer_lines(None, false),
        vec!["%%PageTrailer", "gsave annotatepage grestore showpage", "%%Trailer", "%%EOF"]
    );
    assert_eq!(trailer_lines(Some("%%EOF\nx y"), true), vec!["%%EOF\nx y"]);
    assert_eq!(trailer_lines(Some("%%EOF\nx y"), false), vec!["%%EOF"]);
}

#[test]
fn kept_prologs_lose_trailing_space() {
    assert_eq!(kept_prolog("%%BeginProlog\nop\n  \n", true), "%%BeginProlog\nop");
    assert_eq!(kept_prolog("%%BeginProlog\nop\n", false), "%%BeginProlog");
}

#[test]
fn program_text_line_endings() {
    let lines = vec!["a".to_string(), "b".to_string()];
    assert_eq!(program_text(&lines, false, None), "a\nb\n");
    assert_eq!(program_text(&lines, true, Some("x\r\ny")), "a\r\nb\r\n");
    assert_eq!(program_text(&lines, false, Some("x\r\ny")), "a\nb\n");
    assert_eq!(program_text(&lines, true, Some("x\ny")), "a\nb\n");
    assert_eq!(program_text(&Vec::new(), false, None), "\n");
}

#[test]
fn sidecar_decides_how_a_program_is_written() {
    let p = write_plan(None);
    assert!(!p.lossless && !p.trusted);
    let p = write_plan(Some((true, 2)));
    assert!(p.lossless && p.trusted);
    let p = write_plan(Some((true, 0)));
    assert!(!p.lossless && p.trusted);
    let p = write_plan(Some((false, 3)));
    assert!(!p.lossless && !p.trusted);
}

#[test]
fn untrusted_sidecar_keeps_only_comments() {
    let a = "%!PS\n/evil { deletefile } def\n% note\n\nshowpage";
    let b = "%!PS\nquit\n% note\n\n";
    assert_eq!(kept_prolog(a, false), kept_prolog(b, false));
    assert_eq!(kept_prolog(a, false), "%!PS\n% note");
    assert_eq!(trailer_lines(Some(a), false), trailer_lines(Some(b), false));
    assert_eq!(kept_prolog(a, true), a);
}
