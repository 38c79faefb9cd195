use interlock::agent::tools::{
    choose_sheet, creation_notice, image_parts, csv_text, decode_image_data, decode_tool_input, file_kind,
    list_files_text, pdf_paragraphs, search_report, sheets_text, strip_line_breaks, table_of_rows,
    BlobInfo, CsvCell, FileKind, ImageError, InlineData, SearchItem, ToolInput, ToolRequest,
};

use interlock::agent::parse::parse_json;

const ID: u128 = 0x67e5504410b1426f9247bb680e5fe0c8;
const ID_TEXT: &str = "67e55044-10b1-426f-9247-bb680e5fe0c8";

fn empty_input() -> ToolInput {
    ToolInput {
        blob_id: None,
        sheet_name: None,
        file_name: None,
        content: None,
        image_id: None,
        url: None,
        prompt: None,
        replace_existing: None,
        rows: None,
    }
}

#[test]
fn unknown_tool_is_not_decoded() {
    assert!(decode_tool_input("make_coffee", &empty_input()).is_none());
}

#[test]
fn list_files_needs_no_arguments() {
    let r = decode_tool_input("list_files", &empty_input());
    assert!(matches!(r, Some(Ok(ToolRequest::ListFiles))));
}

#[test]
fn read_file_without_blob_id_is_refused() {
    match decode_tool_input("read_file", &empty_input()) {
        Some(Err(m)) => assert_eq!(m, "Missing blob_id"),
        _ => panic!("expected an error"),
    }
}

#[test]
fn read_file_with_bad_blob_id_is_refused() {
    let mut input = empty_input();
    input.blob_id = Some("123".to_string());
    assert!(matches!(decode_tool_input("read_file", &input), Some(Err(_))));
}

#[test]
fn excel_to_csv_reads_id_and_sheet() {
    let mut input = empty_input();
    input.blob_id = Some(ID_TEXT.to_string());
    input.sheet_name = Some("Data".to_string());
    match decode_tool_input("excel_to_csv", &input) {
        Some(Ok(ToolRequest::ExcelToCsv { blob_id, sheet_name })) => {
            assert_eq!(blob_id, ID);
            assert_eq!(sheet_name, Some("Data".to_string()));
        }
        _ => panic!("expected an excel_to_csv request"),
    }
}

#[test]
fn create_text_file_uses_defaults() {
    let mut input = empty_input();
    input.content = Some("hello".to_string());
    match decode_tool_input("create_text_file", &input) {
        Some(Ok(ToolRequest::CreateTextFile { file_name, content, replace_existing })) => {
            assert_eq!(file_name, "output.txt");
            assert_eq!(content, "hello");
            assert!(!replace_existing);
        }
        _ => panic!("expected a text file request"),
    }
}

#[test]
fn create_word_doc_without_content_is_refused() {
    match decode_tool_input("create_word_doc", &empty_input()) {
        Some(Err(m)) => assert_eq!(m, "Missing content"),
        _ => panic!("expected an error"),
    }
}

#[test]
fn create_word_doc_reads_image_and_flag() {
    let mut input = empty_input();
    input.content = Some("# Title".to_string());
    input.file_name = Some("report.docx".to_string());
    input.image_id = Some(ID_TEXT.to_string());
    input.replace_existing = Some(true);
    match decode_tool_input("create_word_doc", &input) {
        Some(Ok(ToolRequest::CreateWordDoc { file_name, content, image_id, replace_existing })) => {
            assert_eq!(file_name, "report.docx");
            assert_eq!(content, "# Title");
            assert_eq!(image_id, Some(ID));
            assert!(replace_existing);
        }
        _ => panic!("expected a word doc request"),
    }
}

#[test]
fn create_excel_without_rows_is_refused() {
    match decode_tool_input("create_excel", &empty_input()) {
        Some(Err(m)) => assert_eq!(m, "Missing rows"),
        _ => panic!("expected an error"),
    }
}

#[test]
fn rows_default_to_empty_text() {
    let rows = vec![
        Some(vec![Some("a".to_string()), None]),
        None,
    ];
    let t = table_of_rows(&rows);
    assert_eq!(t, vec![vec!["a".to_string(), "".to_string()], vec![]]);
}

#[test]
fn download_and_image_errors() {
    match decode_tool_input("download_from_url", &empty_input()) {
        Some(Err(m)) => assert_eq!(m, "Missing url"),
        _ => panic!("expected an error"),
    }
    match decode_tool_input("generate_image", &empty_input()) {
        Some(Err(m)) => assert_eq!(m, "Missing prompt"),
        _ => panic!("expected an error"),
    }
}

#[test]
fn generate_image_default_name() {
    let mut input = empty_input();
    input.prompt = Some("a cat".to_string());
    match decode_tool_input("generate_image", &input) {
        Some(Ok(ToolRequest::GenerateImage { prompt, file_name, .. })) => {
            assert_eq!(prompt, "a cat");
            assert_eq!(file_name, "generated_image.png");
        }
        _ => panic!("expected an image request"),
    }
}

#[test]
fn file_list_text() {
    let files = vec![BlobInfo {
        id: ID,
        session_id: 1,
        file_name: "a.txt".to_string(),
        content_type: "text/plain".to_string(),
        size: 3,
        storage_key: "k".to_string(),
    }];
    assert_eq!(
        list_files_text(&files),
        format!("Files in this session:\n- a.txt (ID: {}, Type: text/plain)\n", ID_TEXT)
    );
    assert_eq!(list_files_text(&vec![]), "Files in this session:\n");
}

#[test]
fn sheet_names_text() {
    let names = vec!["One".to_string(), "Two".to_string()];
    assert_eq!(sheets_text(&names), "Sheets: [\"One\", \"Two\"]");
}

#[test]
fn creation_notices() {
    let req = ToolRequest::CreatePdfDoc {
        file_name: "x.pdf".to_string(),
        content: "c".to_string(),
        replace_existing: false,
    };
    assert_eq!(
        creation_notice(&req, ID),
        Some(format!("Success: New PDF 'x.pdf' created. ID: {}.", ID_TEXT))
    );
    assert_eq!(creation_notice(&ToolRequest::ListFiles, ID), None);
}

#[test]
fn csv_of_cells() {
    let rows = vec![
        vec![CsvCell::Text("a".to_string()), CsvCell::Int(-12), CsvCell::Bool(true)],
        vec![CsvCell::Other, CsvCell::FloatText("1.5".to_string())],
    ];
    assert_eq!(csv_text(&rows), "a,-12,true\n,1.5\n");
    assert_eq!(csv_text(&vec![]), "");
}

#[test]
fn sheet_choice() {
    let names = vec!["First".to_string(), "Second".to_string()];
    assert_eq!(choose_sheet(Some("Second".to_string()), &names), Ok("Second".to_string()));
    assert_eq!(choose_sheet(None, &names), Ok("First".to_string()));
    assert_eq!(
        choose_sheet(None, &vec![]),
        Err("No sheets found in Excel file".to_string())
    );
}

#[test]
fn kinds_of_files() {
    assert!(file_kind("Report.DOCX") == FileKind::Docx);
    assert!(file_kind("a.pdf") == FileKind::Pdf);
    assert!(file_kind("notes.md") == FileKind::Text);
}

#[test]
fn pdf_paragraphs_split_at_blank_lines() {
    assert_eq!(pdf_paragraphs("one\n\ntwo\nthree"), vec!["one", "two\nthree"]);
    assert_eq!(pdf_paragraphs("single"), vec!["single"]);
}

#[test]
fn search_results_report() {
    let items = Some(vec![
        SearchItem {
            title: Some("T".to_string()),
            link: Some("http://x".to_string()),
            snippet: Some("a\nb".to_string()),
        },
        SearchItem { title: None, link: None, snippet: None },
    ]);
    assert_eq!(
        search_report("q", &items),
        Ok("Search Results for 'q':\n1. T (http://x)\n   a b\n2. No Title (No Link)\n   No Snippet\n"
            .to_string())
    );
    assert_eq!(
        search_report("q", &None),
        Err("No items found in search response".to_string())
    );
}

#[test]
fn search_report_keeps_five() {
    let item = || SearchItem { title: None, link: None, snippet: None };
    let items = Some(vec![item(), item(), item(), item(), item(), item()]);
    let r = search_report("q", &items).unwrap();
    assert!(r.contains("5. No Title"));
    assert!(!r.contains("6. "));
}

#[test]
fn line_breaks_are_stripped() {
    assert_eq!(strip_line_breaks("aG\r\nk=\n"), "aGk=");
}

#[test]
fn image_data_is_decoded() {
    let parts = vec![InlineData::Absent, InlineData::Data(Some("aG\nk=".to_string()))];
    assert_eq!(decode_image_data(&parts).ok(), Some(b"hi".to_vec()));
}

#[test]
fn image_data_errors() {
    assert!(matches!(decode_image_data(&vec![InlineData::Absent]), Err(ImageError::NoImage)));
    assert!(matches!(decode_image_data(&vec![InlineData::Data(None)]), Err(ImageError::NoImage)));
    match decode_image_data(&vec![InlineData::Data(Some("!!!".to_string()))]) {
        Err(ImageError::Decode(m)) => assert!(m.starts_with("Failed to decode base64 image: ")),
        _ => panic!("expected a decode error"),
    }
}

#[test]
fn image_reply_parts_are_read() {
    let reply = parse_json(
        r#"{"candidates":[{"content":{"parts":[{"text":"x"},{"inlineData":{"data":"aGk="}},{"inlineData":{"data":5}}]}}]}"#,
    )
    .unwrap();
    let parts = image_parts(&reply).unwrap();
    assert_eq!(parts.len(), 3);
    assert!(matches!(&parts[0], InlineData::Absent));
    assert!(matches!(&parts[1], InlineData::Data(Some(t)) if t == "aGk="));
    assert!(matches!(&parts[2], InlineData::Data(None)));
    assert_eq!(decode_image_data(&parts).ok(), Some(b"hi".to_vec()));
}

#[test]
fn image_reply_without_parts_is_refused() {
    assert!(image_parts(&parse_json(r#"{"candidates":[]}"#).unwrap()).is_err());
    assert!(image_parts(&parse_json(r#"{"candidates":[{"content":{"parts":{}}}]}"#).unwrap()).is_err());
    assert!(image_parts(&parse_json("[1]").unwrap()).is_err());
}
