use std::io::Write;

use interlock::agent::files::{
    create_excel_bytes, excel_csv, excel_sheet_names, excel_workbook, extract_text_from_docx,
    extract_text_from_pdf, read_file_text, text_of_items, XmlItem,
};
use interlock::agent::render::word_doc_bytes;
use lopdf::content::{Content, Operation};
use lopdf::{Dictionary, Document, Object, Stream};

fn table(rows: &[&[&str]]) -> Vec<Vec<String>> {
    rows.iter().map(|r| r.iter().map(|c| c.to_string()).collect()).collect()
}

fn hello_pdf(text: &str) -> Vec<u8> {
    let mut doc = Document::with_version("1.5");
    let pages_id = doc.new_object_id();
    let mut font = Dictionary::new();
    font.set("Type", Object::Name(b"Font".to_vec()));
    font.set("Subtype", Object::Name(b"Type1".to_vec()));
    font.set("BaseFont", Object::Name(b"Courier".to_vec()));
    let font_id = doc.add_object(font);
    let mut fonts = Dictionary::new();
    fonts.set("F1", Object::Reference(font_id));
    let mut resources = Dictionary::new();
    resources.set("Font", Object::Dictionary(fonts));
    let resources_id = doc.add_object(resources);
    let content = Content {
        operations: vec![
            Operation::new("BT", vec![]),
            Operation::new("Tf", vec![Object::Name(b"F1".to_vec()), Object::Integer(24)]),
            Operation::new("Td", vec![Object::Integer(100), Object::Integer(600)]),
            Operation::new("Tj", vec![Object::string_literal(text)]),
            Operation::new("ET", vec![]),
        ],
    };
    let content_id = doc.add_object(Stream::new(Dictionary::new(), content.encode().unwrap()));
    let mut page = Dictionary::new();
    page.set("Type", Object::Name(b"Page".to_vec()));
    page.set("Parent", Object::Reference(pages_id));
    page.set("Contents", Object::Reference(content_id));
    let page_id = doc.add_object(page);
    let mut pages = Dictionary::new();
    pages.set("Type", Object::Name(b"Pages".to_vec()));
    pages.set("Kids", Object::Array(vec![Object::Reference(page_id)]));
    pages.set("Count", Object::Integer(1));
    pages.set("Resources", Object::Reference(resources_id));
    pages.set(
        "MediaBox",
        Object::Array(vec![
            Object::Integer(0),
            Object::Integer(0),
            Object::Integer(595),
            Object::Integer(842),
        ]),
    );
    doc.objects.insert(pages_id, Object::Dictionary(pages));
    let mut catalog = Dictionary::new();
    catalog.set("Type", Object::Name(b"Catalog".to_vec()));
    catalog.set("Pages", Object::Reference(pages_id));
    let catalog_id = doc.add_object(catalog);
    doc.trailer.set("Root", Object::Reference(catalog_id));
    let mut buf = Vec::new();
    doc.save_to(&mut buf).unwrap();
    buf
}

fn zip_with(name: &str, body: &str) -> Vec<u8> {
    let mut w = zip::ZipWriter::new(std::io::Cursor::new(Vec::new()));
    w.start_file(name, zip::write::SimpleFileOptions::default()).unwrap();
    w.write_all(body.as_bytes()).unwrap();
    w.finish().unwrap().into_inner()
}

#[test]
fn written_spreadsheet_reads_back() {
    let rows = table(&[&["a", "b"], &["1", "x,y"]]);
    let bytes = create_excel_bytes(&rows).unwrap();
    assert_eq!(&bytes[0..4], b"PK\x03\x04");
    assert_eq!(excel_sheet_names(&bytes).unwrap(), vec!["Sheet1".to_string()]);
    assert_eq!(excel_csv(&bytes, None).unwrap(), "a,b\n1,x,y\n");
    assert_eq!(excel_csv(&bytes, Some("Sheet1".to_string())).unwrap(), "a,b\n1,x,y\n");
}

#[test]
fn missing_sheet_is_an_error() {
    let bytes = create_excel_bytes(&table(&[&["a"]])).unwrap();
    assert!(excel_csv(&bytes, Some("Nope".to_string())).is_err());
}

#[test]
fn not_a_workbook() {
    assert!(excel_sheet_names(b"hello").is_err());
    assert!(excel_csv(b"hello", None).is_err());
}

#[test]
fn overlong_cell_is_refused() {
    let long = "a".repeat(40000);
    assert!(excel_workbook(&vec![vec![long.clone()]]).is_err());
    assert!(create_excel_bytes(&vec![vec![long]]).is_err());
    assert!(excel_workbook(&vec![vec!["a".repeat(16383)]]).is_ok());
}

#[test]
fn pdf_text_is_extracted() {
    let text = extract_text_from_pdf(&hello_pdf("Hello World")).unwrap();
    assert!(text.contains("Hello World"));
}

#[test]
fn not_a_pdf() {
    assert!(extract_text_from_pdf(b"not a pdf").is_err());
}

#[test]
fn word_text_is_extracted() {
    let bytes = word_doc_bytes("Fish & chips", None).unwrap().unwrap();
    assert_eq!(extract_text_from_docx(&bytes).unwrap(), "Fish & chips");
}

#[test]
fn word_text_resolves_references() {
    let xml = "<w:document><w:t>a &lt; b &#x41;</w:t></w:document>";
    let bytes = zip_with("word/document.xml", xml);
    assert_eq!(extract_text_from_docx(&bytes).unwrap(), "a < b A");
}

#[test]
fn word_file_without_body() {
    let bytes = zip_with("other.xml", "<a/>");
    assert_eq!(
        extract_text_from_docx(&bytes),
        Err("Invalid DOCX: missing word/document.xml".to_string())
    );
    assert!(extract_text_from_docx(b"not a zip").is_err());
}

#[test]
fn unknown_reference_stops_the_text() {
    let items = vec![
        XmlItem::Text("a".to_string()),
        XmlItem::Other,
        XmlItem::Ref(Ok("&".to_string())),
        XmlItem::Failed,
        XmlItem::Ref(Err("bad".to_string())),
        XmlItem::Text("z".to_string()),
    ];
    assert_eq!(text_of_items(&items), Err("bad".to_string()));
    assert_eq!(text_of_items(&items[0..4].iter().map(clone_item).collect()), Ok("a&".to_string()));
}

fn clone_item(i: &XmlItem) -> XmlItem {
    match i {
        XmlItem::Text(s) => XmlItem::Text(s.clone()),
        XmlItem::Ref(r) => XmlItem::Ref(r.clone()),
        XmlItem::Failed => XmlItem::Failed,
        XmlItem::Other => XmlItem::Other,
    }
}

#[test]
fn read_file_by_kind() {
    assert_eq!(read_file_text("notes.md", b"hi there"), Ok("hi there".to_string()));
    match read_file_text("bad.txt", &[0xff, 0xfe]) {
        Err(m) => assert!(m.starts_with("Failed to read text file: invalid utf-8")),
        Ok(_) => panic!("expected an error"),
    }
    let doc = word_doc_bytes("Body", None).unwrap().unwrap();
    assert_eq!(read_file_text("Report.DOCX", &doc), Ok("Body".to_string()));
    assert!(read_file_text("scan.pdf", b"%PDF-broken").is_err());
}
