use interlock::agent::docx::{
    document_blocks, inline_runs, markdown_blocks, process_text_content, word_doc_blocks, Block,
    DocElement, MdEvent, ParagraphSpec, RunSpec,
};
use interlock::agent::render::{
    generate_docx_from_fetched, picture_readable, pictures_readable, word_doc_bytes, MAX_PICTURE_PX,
};

fn run_texts(p: &ParagraphSpec) -> Vec<(String, bool, bool)> {
    p.runs
        .iter()
        .map(|r| match r {
            RunSpec::Text { text, bold, italic } => (text.clone(), *bold, *italic),
            RunSpec::Break => ("<br>".to_string(), false, false),
            RunSpec::Image { .. } => ("<img>".to_string(), false, false),
        })
        .collect()
}

fn t(s: &str, b: bool, i: bool) -> (String, bool, bool) {
    (s.to_string(), b, i)
}

fn png_1x1() -> Vec<u8> {
    vec![
        0x89, 0x50, 0x4E, 0x47, 0x0D, 0x0A, 0x1A, 0x0A, 0x00, 0x00, 0x00, 0x0D, 0x49, 0x48, 0x44,
        0x52, 0x00, 0x00, 0x00, 0x01, 0x00, 0x00, 0x00, 0x01, 0x08, 0x06, 0x00, 0x00, 0x00, 0x1F,
        0x15, 0xC4, 0x89, 0x00, 0x00, 0x00, 0x0D, 0x49, 0x44, 0x41, 0x54, 0x78, 0x9C, 0x63, 0xF8,
        0xCF, 0xC0, 0xF0, 0x1F, 0x00, 0x05, 0x00, 0x01, 0xFF, 0x89, 0x99, 0x3D, 0x1D, 0x00, 0x00,
        0x00, 0x00, 0x49, 0x45, 0x4E, 0x44, 0xAE, 0x42, 0x60, 0x82,
    ]
}

#[test]
fn inline_markdown_runs() {
    let p = process_text_content("Hello **bold** and *it*");
    assert_eq!(
        run_texts(&p),
        vec![t("Hello ", false, false), t("bold", true, false), t(" and ", false, false), t("it", false, true)]
    );
    assert!(p.style.is_none());
    assert!(!p.centered);
}

#[test]
fn inline_events_fold() {
    let ev = vec![
        MdEvent::StartParagraph,
        MdEvent::StartStrong,
        MdEvent::StartEmphasis,
        MdEvent::Text("x".to_string()),
        MdEvent::EndEmphasis,
        MdEvent::EndStrong,
        MdEvent::SoftBreak,
        MdEvent::Text("y".to_string()),
        MdEvent::EndParagraph,
    ];
    let runs = inline_runs(&ev);
    let p = ParagraphSpec { runs, style: None, centered: false };
    assert_eq!(run_texts(&p), vec![t("x", true, true), t("<br>", false, false), t("y", false, false)]);
}

#[test]
fn markdown_headings_and_items() {
    let ev = vec![
        MdEvent::StartHeading(2),
        MdEvent::Text("Title".to_string()),
        MdEvent::EndHeading,
        MdEvent::StartOther,
        MdEvent::StartItem,
        MdEvent::Text("one".to_string()),
        MdEvent::EndItem,
        MdEvent::EndOther,
        MdEvent::Text("loose".to_string()),
    ];
    let blocks = markdown_blocks(&ev);
    assert_eq!(blocks.len(), 3);
    match &blocks[0] {
        Block::Paragraph(p) => {
            assert_eq!(p.style, Some("Heading2".to_string()));
            assert_eq!(run_texts(p), vec![t("Title", false, false)]);
        }
        _ => panic!("expected a paragraph"),
    }
    match &blocks[1] {
        Block::Paragraph(p) => {
            assert_eq!(run_texts(p), vec![t("\u{2022} ", false, false), t("one", false, false)]);
        }
        _ => panic!("expected a paragraph"),
    }
    match &blocks[2] {
        Block::Paragraph(p) => assert_eq!(run_texts(p), vec![t("loose", false, false)]),
        _ => panic!("expected a paragraph"),
    }
}

#[test]
fn deep_heading_style() {
    let blocks = word_doc_blocks("##### Deep", None);
    assert_eq!(blocks.len(), 1);
    match &blocks[0] {
        Block::Paragraph(p) => assert_eq!(p.style, Some("Heading4".to_string())),
        _ => panic!("expected a paragraph"),
    }
}

#[test]
fn word_doc_with_picture_last() {
    let blocks = word_doc_blocks("# Title\n\nText", Some(vec![1, 2, 3]));
    assert_eq!(blocks.len(), 3);
    match &blocks[2] {
        Block::Paragraph(p) => {
            assert_eq!(p.runs.len(), 1);
            assert!(matches!(&p.runs[0], RunSpec::Image { data, size: None } if data == &vec![1, 2, 3]));
        }
        _ => panic!("expected the picture paragraph"),
    }
}

#[test]
fn elements_to_blocks() {
    let elements = vec![
        DocElement::Heading { text: "H".to_string(), level: 1 },
        DocElement::Table {
            rows: vec![vec!["a".to_string(), "**b**".to_string()]],
            headers: Some(vec!["X".to_string(), "Y".to_string()]),
        },
        DocElement::Image { image_id: 7, width: Some(10), height: Some(20), caption: Some("cap".to_string()) },
        DocElement::Image { image_id: 8, width: None, height: None, caption: None },
    ];
    let fetched = vec![None, None, Some(vec![9u8]), None];
    let blocks = document_blocks(&elements, &fetched);
    assert_eq!(blocks.len(), 3);
    match &blocks[0] {
        Block::Paragraph(p) => {
            assert_eq!(p.style, Some("Heading1".to_string()));
            assert_eq!(run_texts(p), vec![t("H", false, false)]);
        }
        _ => panic!("expected a heading"),
    }
    match &blocks[1] {
        Block::Table(rows) => {
            assert_eq!(rows.len(), 2);
            assert_eq!(run_texts(&rows[0][0]), vec![t("X", true, false)]);
            assert_eq!(run_texts(&rows[1][1]), vec![t("b", true, false)]);
        }
        _ => panic!("expected a table"),
    }
    match &blocks[2] {
        Block::Paragraph(p) => {
            assert!(p.centered);
            assert!(matches!(&p.runs[0], RunSpec::Image { size: Some((10, 20)), .. }));
            assert_eq!(run_texts(p)[1..].to_vec(), vec![t("<br>", false, false), t("cap", false, false)]);
        }
        _ => panic!("expected a picture"),
    }
}

#[test]
fn generated_document_is_a_zip() {
    let elements = vec![
        DocElement::Paragraph { text: "Hello *there*".to_string(), style: None },
        DocElement::Image { image_id: 1, width: None, height: None, caption: Some("c".to_string()) },
    ];
    let fetched = vec![None, Some(png_1x1())];
    let bytes = generate_docx_from_fetched(&elements, &fetched).unwrap().unwrap();
    assert_eq!(&bytes[0..2], b"PK");
}

#[test]
fn unreadable_picture_is_reported() {
    let elements = vec![DocElement::Image { image_id: 1, width: None, height: None, caption: None }];
    let fetched = vec![Some(vec![1u8, 2, 3])];
    assert!(generate_docx_from_fetched(&elements, &fetched).is_none());
    assert!(!pictures_readable(&document_blocks(&elements, &fetched)));
    assert!(word_doc_bytes("text", Some(vec![0u8; 4])).is_none());
}

#[test]
fn markdown_document_bytes() {
    let bytes = word_doc_bytes("# T\n\n- a\n- b", None).unwrap().unwrap();
    assert_eq!(&bytes[0..4], b"PK\x03\x04");
}

#[test]
fn test_generate_docx_with_table() {
    let elements = vec![
        DocElement::Heading { text: "Test Report".to_string(), level: 1 },
        DocElement::Paragraph { text: "This is a **bold** paragraph.".to_string(), style: None },
        DocElement::Table {
            rows: vec![
                vec!["Row 1 Col 1".to_string(), "Row 1 Col 2".to_string()],
                vec!["Row 2 Col 1".to_string(), "Row 2 Col 2".to_string()],
            ],
            headers: Some(vec!["Header 1".to_string(), "Header 2".to_string()]),
        },
    ];
    let fetched = vec![None, None, None];
    let result = generate_docx_from_fetched(&elements, &fetched).unwrap();
    assert!(result.is_ok(), "Failed to generate DOCX: {:?}", result.err());
    let bytes = result.unwrap();
    assert!(bytes.len() > 0);
    let text = interlock::agent::files::extract_text_from_docx(&bytes).unwrap();
    assert!(text.contains("Test Report"));
    assert!(text.contains("This is a bold paragraph."));
    assert!(text.contains("Row 2 Col 2"));
}

#[test]
fn test_deserialize_and_generate_list() {
    let elements = vec![
        DocElement::Heading { text: "Mass Production Plan: SpinBrush Electric Toothbrush".to_string(), level: 1 },
        DocElement::Paragraph { text: "This document outlines...".to_string(), style: None },
        DocElement::List {
            items: vec![
                "Phase 1: Pilot...".to_string(),
                "Phase 2: Ramp-up...".to_string(),
                "Phase 3: Mass...".to_string(),
            ],
        },
    ];
    let fetched = vec![None, None, None];
    let res = generate_docx_from_fetched(&elements, &fetched).unwrap();
    assert!(res.is_ok(), "Failed to generate docx: {:?}", res.err());
    let data = res.unwrap();
    assert!(!data.is_empty());
    assert_eq!(&data[0..2], b"PK");
}

#[test]
fn list_document_holds_its_items() {
    let elements = vec![DocElement::List { items: vec!["Phase 1".to_string(), "Phase 2".to_string()] }];
    let bytes = generate_docx_from_fetched(&elements, &vec![None]).unwrap().unwrap();
    let text = interlock::agent::files::extract_text_from_docx(&bytes).unwrap();
    assert!(text.contains("Phase 1"));
    assert!(text.contains("Phase 2"));
}

#[test]
fn list_items_become_bullet_paragraphs() {
    let elements = vec![DocElement::List { items: vec!["one **two**".to_string(), "three".to_string()] }];
    let blocks = document_blocks(&elements, &vec![None]);
    assert_eq!(blocks.len(), 2);
    match &blocks[0] {
        Block::Paragraph(p) => {
            assert_eq!(run_texts(p), vec![t("\u{2022} ", false, false), t("one ", false, false), t("two", true, false)]);
        }
        _ => panic!("expected a paragraph"),
    }
    match &blocks[1] {
        Block::Paragraph(p) => assert_eq!(run_texts(p), vec![t("\u{2022} ", false, false), t("three", false, false)]),
        _ => panic!("expected a paragraph"),
    }
}

#[test]
fn picture_checks() {
    assert!(picture_readable(&png_1x1()));
    assert!(!picture_readable(&[1, 2, 3]));
    let mut broken = png_1x1();
    broken.truncate(12);
    assert!(!picture_readable(&broken));
    assert_eq!(MAX_PICTURE_PX as u64 * 9525 <= u32::MAX as u64, true);
    assert_eq!((MAX_PICTURE_PX as u64 + 1) * 9525 > u32::MAX as u64, true);
}

#[test]
fn picture_is_written_when_readable() {
    let bytes = word_doc_bytes("# T", Some(png_1x1())).unwrap().unwrap();
    assert_eq!(&bytes[0..2], b"PK");
}
