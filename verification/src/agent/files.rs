//! The contents of stored files as the tools read them: the sheets and
//! cells of a spreadsheet, and the text of PDF and Word files.
use vstd::prelude::*;
use crate::agent::tools::{
    CsvCell, FileKind, cell_table, choose_sheet, csv_rows, csv_text, file_kind, file_kind_spec,
};
use crate::text::{chars_of, join_lines, join_spec, push_all, push_str, string_of, views};
use calamine::Data as Cell;
use quick_xml::events::Event as XmlEvent;

verus! {

// ---------------------------------------------------------------- spreadsheets

/// What the `calamine` crate reads as the sheet names of workbook `data`,
/// or the text of its error.
pub uninterp spec fn xlsx_sheets(data: Seq<u8>) -> Result<Seq<Seq<char>>, Seq<char>>;

/// What the `calamine` crate reads as the cells of sheet `sheet` of
/// workbook `data`, row by row over the sheet's used range, or the text of
/// its error.
pub uninterp spec fn xlsx_cells(data: Seq<u8>, sheet: Seq<char>) -> Result<Seq<Seq<CsvCell>>, Seq<char>>;

/// `calamine::open_workbook_from_rs` (as `Xlsx`) then `Reader::sheet_names`;
/// claimed to give `xlsx_sheets(data@)`, an error as its text.
#[verifier::external_body]
fn xlsx_sheet_names(data: &[u8]) -> (r: Result<Vec<String>, String>)
    ensures
        match r {
            Ok(v) => xlsx_sheets(data@) == Ok::<Seq<Seq<char>>, Seq<char>>(v@.map_values(|s: String| s@)),
            Err(e) => xlsx_sheets(data@) == Err::<Seq<Seq<char>>, Seq<char>>(e@),
        },
{
    let wb: calamine::Xlsx<_> = calamine::open_workbook_from_rs(std::io::Cursor::new(data))
        .map_err(|e: calamine::XlsxError| e.to_string())?;
    Ok(calamine::Reader::sheet_names(&wb))
}

/// `calamine::open_workbook_from_rs` (as `Xlsx`) then
/// `Reader::worksheet_range`, each cell of each row converted to a
/// `CsvCell` (a float written by its `to_string`, a date, duration, error
/// or empty cell as `Other`); claimed to give
/// `xlsx_cells(data@, sheet@)`, an error as its text.
#[verifier::external_body]
fn xlsx_sheet_cells(data: &[u8], sheet: &str) -> (r: Result<Vec<Vec<CsvCell>>, String>)
    ensures
        match r {
            Ok(v) => xlsx_cells(data@, sheet@) == Ok::<Seq<Seq<CsvCell>>, Seq<char>>(cell_table(v@)),
            Err(e) => xlsx_cells(data@, sheet@) == Err::<Seq<Seq<CsvCell>>, Seq<char>>(e@),
        },
{
    let mut wb: calamine::Xlsx<_> = calamine::open_workbook_from_rs(std::io::Cursor::new(data))
        .map_err(|e: calamine::XlsxError| e.to_string())?;
    let range = calamine::Reader::worksheet_range(&mut wb, sheet).map_err(|e| e.to_string())?;
    Ok(range.rows().map(|row| row.iter().map(|c| match c {
        Cell::String(s) => CsvCell::Text(s.clone()),
        Cell::Float(f) => CsvCell::FloatText(f.to_string()),
        Cell::Int(i) => CsvCell::Int(i.clone()),
        Cell::Bool(b) => CsvCell::Bool(b.clone()),
        _ => CsvCell::Other,
    }).collect()).collect())
}

/// The sheet names of workbook `data`.
pub fn excel_sheet_names(data: &[u8]) -> (r: Result<Vec<String>, String>)
    ensures
        match xlsx_sheets(data@) {
            Ok(names) => r matches Ok(v) && v@.map_values(|s: String| s@) == names,
            Err(e) => r matches Err(m) && m@ == e,
        },
{
    xlsx_sheet_names(data)
}

/// What `excel_to_csv` gives for workbook `data` and the requested sheet:
/// the workbook's error; else, without a requested sheet, the first sheet
/// (or the error `No sheets found in Excel file`); then that sheet's error,
/// or its cells as CSV.
pub open spec fn excel_csv_spec(data: Seq<u8>, sheet: Option<Seq<char>>) -> Result<Seq<char>, Seq<char>> {
    match xlsx_sheets(data) {
        Err(e) => Err(e),
        Ok(names) => {
            let chosen = match sheet {
                Some(s) => Some(s),
                None => if names.len() > 0 {
                    Some(names[0])
                } else {
                    None
                },
            };
            match chosen {
                None => Err("No sheets found in Excel file"@),
                Some(s) => match xlsx_cells(data, s) {
                    Err(e) => Err(e),
                    Ok(rows) => Ok(csv_rows(rows, rows.len() as int)),
                },
            }
        },
    }
}

/// The CSV text of a sheet of workbook `data` (see `excel_csv_spec`).
pub fn excel_csv(data: &[u8], sheet_name: Option<String>) -> (r: Result<String, String>)
    ensures
        match excel_csv_spec(
            data@,
            match sheet_name {
                Some(s) => Some(s@),
                None => None,
            },
        ) {
            Ok(t) => r matches Ok(s) && s@ == t,
            Err(t) => r matches Err(s) && s@ == t,
        },
{
    let names = match xlsx_sheet_names(data) {
        Ok(v) => v,
        Err(e) => return Err(e),
    };
    let sheet = match choose_sheet(sheet_name, &names) {
        Ok(s) => s,
        Err(e) => return Err(e),
    };
    match xlsx_sheet_cells(data, sheet.as_str()) {
        Ok(rows) => Ok(csv_text(&rows)),
        Err(e) => Err(e),
    }
}

/// `rust_xlsxwriter::Workbook`, carried opaquely.
#[verifier::external_type_specification]
#[verifier::external_body]
pub struct ExWorkbook(rust_xlsxwriter::Workbook);

/// The text cells of the first worksheet of `wb`, by row and column (a
/// blank cell counts as empty text).
pub uninterp spec fn sheet_cells(wb: rust_xlsxwriter::Workbook) -> Map<(u32, u16), Seq<char>>;

/// No cells at all.
pub open spec fn no_cells() -> Map<(u32, u16), Seq<char>> {
    Map::empty()
}

/// The workbook `wb` has a worksheet at index 0.
pub uninterp spec fn has_first_sheet(wb: rust_xlsxwriter::Workbook) -> bool;

/// `rust_xlsxwriter::Workbook::new` and `Workbook::add_worksheet`; claimed:
/// the workbook has a first worksheet, and it has no cells.
#[verifier::external_body]
fn new_workbook() -> (r: rust_xlsxwriter::Workbook)
    ensures
        has_first_sheet(r),
        sheet_cells(r) == no_cells(),
{
    let mut wb = rust_xlsxwriter::Workbook::new();
    wb.add_worksheet();
    wb
}

/// `Worksheet::write_string_with_format` with the default format on the
/// first worksheet (`Workbook::worksheet_from_index`), at `row` and `col`
/// cast to the crate's row and column types. Claimed, as the crate's
/// worksheet lookup, dimension and length checks show: in a workbook with a
/// first worksheet, a cell within 1048576 rows and 16384 columns with at
/// most 16383 characters is written; a written cell holds `text`; a failed
/// write changes no cell; writing keeps the worksheets.
#[verifier::external_body]
fn write_cell(wb: &mut rust_xlsxwriter::Workbook, row: usize, col: usize, text: &str) -> (r: Result<(), String>)
    ensures
        has_first_sheet(*old(wb)) && row < 1048576 && col < 16384 && text@.len() <= 16383 ==> r is Ok,
        has_first_sheet(*final(wb)) == has_first_sheet(*old(wb)),
        r is Ok ==> sheet_cells(*final(wb)) == sheet_cells(*old(wb)).insert((row as u32, col as u16), text@),
        r is Err ==> sheet_cells(*final(wb)) == sheet_cells(*old(wb)),
{
    let sheet = wb.worksheet_from_index(0).map_err(|e| e.to_string())?;
    sheet.write_string_with_format(row as u32, col as u16, text, &rust_xlsxwriter::Format::default())
        .map_err(|e| e.to_string())?;
    Ok(())
}

/// The bytes open with a zip local file header (`PK`, 3, 4): a zip
/// archive whose first entry starts the file.
pub open spec fn zip_archive_start(b: Seq<u8>) -> bool {
    b.len() >= 4 && b[0] == 0x50u8 && b[1] == 0x4bu8 && b[2] == 3u8 && b[3] == 4u8
}

/// The text cells of the first worksheet of the spreadsheet file `file`,
/// by row and column, as its worksheet and shared-string parts hold them.
pub uninterp spec fn xlsx_file_cells(file: Seq<u8>) -> Map<(u32, u16), Seq<char>>;

/// `Workbook::save_to_buffer`, the error as its text. Claimed: the bytes
/// saved are a zip archive written from its start by the `zip` crate's
/// `ZipWriter`, which opens with the local header of its first entry, and
/// the file's first worksheet holds the workbook's text cells. Nothing more
/// is claimed of the bytes (the file records the time it was written), nor
/// when saving succeeds.
#[verifier::external_body]
fn workbook_bytes(wb: &mut rust_xlsxwriter::Workbook) -> (r: Result<Vec<u8>, String>)
    ensures
        r matches Ok(b) ==> zip_archive_start(b@) && xlsx_file_cells(b@) == sheet_cells(*old(wb)),
{
    wb.save_to_buffer().map_err(|e| e.to_string())
}

/// The table fits a worksheet: at most 1048576 rows, at most 16384 cells a
/// row, at most 16383 characters a cell.
pub open spec fn table_fits(rows: Seq<Vec<String>>) -> bool {
    &&& rows.len() <= 1048576
    &&& forall|i: int| 0 <= i < rows.len() ==> (#[trigger] rows[i])@.len() <= 16384
    &&& forall|i: int, j: int|
        0 <= i < rows.len() && 0 <= j < rows[i]@.len() ==> (#[trigger] rows[i]@[j])@.len() <= 16383
}

/// The cells of the table's rows before row `i`, and of row `i` before
/// column `j`: row `r`, column `c` holds `rows[r][c]`.
pub open spec fn cells_before(rows: Seq<Vec<String>>, i: int, j: int) -> Map<(u32, u16), Seq<char>> {
    Map::new(
        |k: (u32, u16)|
            (k.0 < i && k.0 < rows.len() && k.1 < rows[k.0 as int]@.len()) || (k.0 == i && k.1 < j),
        |k: (u32, u16)| rows[k.0 as int]@[k.1 as int]@,
    )
}

/// The cells of the whole table.
pub open spec fn table_cells(rows: Seq<Vec<String>>) -> Map<(u32, u16), Seq<char>> {
    cells_before(rows, rows.len() as int, 0)
}

/// A workbook whose first worksheet holds `rows` as text cells, row by
/// row. A table that fits a worksheet is always written; a failure is the
/// text of the first cell's error.
pub fn excel_workbook(rows: &Vec<Vec<String>>) -> (r: Result<rust_xlsxwriter::Workbook, String>)
    ensures
        table_fits(rows@) ==> (r matches Ok(wb) && sheet_cells(wb) == table_cells(rows@)),
{
    let mut wb = new_workbook();
    let mut i: usize = 0;
    assert(cells_before(rows@, 0, 0) =~= no_cells());
    while i < rows.len()
        invariant
            0 <= i <= rows.len(),
            has_first_sheet(wb),
            table_fits(rows@) ==> sheet_cells(wb) == cells_before(rows@, i as int, 0),
        decreases rows.len() - i,
    {
        let row = &rows[i];
        let mut j: usize = 0;
        while j < row.len()
            invariant
                0 <= i < rows.len(),
                row@ == rows@[i as int]@,
                0 <= j <= row.len(),
                has_first_sheet(wb),
                table_fits(rows@) ==> sheet_cells(wb) == cells_before(rows@, i as int, j as int),
            decreases row.len() - j,
        {
            let ghost before = sheet_cells(wb);
            match write_cell(&mut wb, i, j, row[j].as_str()) {
                Ok(()) => {},
                Err(e) => {
                    proof {
                        if table_fits(rows@) {
                            assert(rows@[i as int]@[j as int]@.len() <= 16383);
                            assert(rows@[i as int]@.len() <= 16384);
                        }
                    }
                    return Err(e);
                },
            }
            proof {
                if table_fits(rows@) {
                    assert(rows@[i as int]@.len() <= 16384);
                    assert(sheet_cells(wb) =~= cells_before(rows@, i as int, j + 1));
                }
            }
            j = j + 1;
        }
        proof {
            if table_fits(rows@) {
                assert(cells_before(rows@, i as int, j as int) =~= cells_before(rows@, i + 1, 0));
            }
        }
        i = i + 1;
    }
    Ok(wb)
}

/// The bytes of a spreadsheet file holding `rows` (see `excel_workbook`):
/// a zip archive (an `.xlsx` package) whose first worksheet holds the
/// table's cells when the table fits a worksheet.
pub fn create_excel_bytes(rows: &Vec<Vec<String>>) -> (r: Result<Vec<u8>, String>)
    ensures
        r matches Ok(b) ==> zip_archive_start(b@) && (table_fits(rows@) ==> xlsx_file_cells(b@) == table_cells(
            rows@,
        )),
{
    match excel_workbook(rows) {
        Ok(mut wb) => workbook_bytes(&mut wb),
        Err(e) => Err(e),
    }
}

// ---------------------------------------------------------------- PDF

/// What the `lopdf` crate reads from PDF `data`: per page, in page order,
/// the page's text or the text of the error extracting it; or the text of
/// the error loading the document.
pub uninterp spec fn pdf_page_texts(data: Seq<u8>) -> Result<Seq<Result<Seq<char>, Seq<char>>>, Seq<char>>;

/// The view of a page's extraction result.
pub open spec fn page_view(p: Result<String, String>) -> Result<Seq<char>, Seq<char>> {
    match p {
        Ok(t) => Ok(t@),
        Err(e) => Err(e@),
    }
}

/// `lopdf::Document::load_mem`, then `Document::extract_text` of each page
/// of `get_pages` in page order; claimed to give `pdf_page_texts(data@)`,
/// errors as their texts.
#[verifier::external_body]
fn pdf_pages(data: &[u8]) -> (r: Result<Vec<Result<String, String>>, String>)
    ensures
        match r {
            Ok(v) => pdf_page_texts(data@) == Ok::<Seq<Result<Seq<char>, Seq<char>>>, Seq<char>>(
                v@.map_values(|p: Result<String, String>| page_view(p)),
            ),
            Err(e) => pdf_page_texts(data@) == Err::<Seq<Result<Seq<char>, Seq<char>>>, Seq<char>>(e@),
        },
{
    let doc = lopdf::Document::load_mem(data).map_err(|e| e.to_string())?;
    Ok(doc.get_pages().keys().map(|p| doc.extract_text(&[*p]).map_err(|e| e.to_string())).collect())
}

/// The texts of the pages whose text could be extracted, in page order.
pub open spec fn readable_texts(pages: Seq<Result<Seq<char>, Seq<char>>>) -> Seq<Seq<char>>
    decreases pages.len(),
{
    if pages.len() == 0 {
        Seq::empty()
    } else {
        let rest = readable_texts(pages.drop_last());
        match pages.last() {
            Ok(t) => rest.push(t),
            Err(_) => rest,
        }
    }
}

/// The text of PDF `data`: the texts of its readable pages separated by a
/// blank line; a document that cannot be loaded gives the loading error.
pub open spec fn pdf_text_spec(data: Seq<u8>) -> Result<Seq<char>, Seq<char>> {
    match pdf_page_texts(data) {
        Err(e) => Err(e),
        Ok(pages) => Ok(join_spec(readable_texts(pages), "\n\n"@)),
    }
}

/// The text of PDF `data` (see `pdf_text_spec`).
pub fn extract_text_from_pdf(data: &[u8]) -> (r: Result<String, String>)
    ensures
        match pdf_text_spec(data@) {
            Ok(t) => r matches Ok(s) && s@ == t,
            Err(t) => r matches Err(s) && s@ == t,
        },
{
    let pages = match pdf_pages(data) {
        Ok(v) => v,
        Err(e) => return Err(e),
    };
    let ghost all = pages@.map_values(|p: Result<String, String>| page_view(p));
    let mut texts: Vec<Vec<char>> = Vec::new();
    let mut i: usize = 0;
    while i < pages.len()
        invariant
            0 <= i <= pages.len(),
            all == pages@.map_values(|p: Result<String, String>| page_view(p)),
            views(texts@) == readable_texts(all.take(i as int)),
        decreases pages.len() - i,
    {
        assert(all.take(i + 1).drop_last() =~= all.take(i as int));
        assert(all.take(i + 1).last() == page_view(pages@[i as int]));
        match &pages[i] {
            Ok(t) => {
                texts.push(chars_of(t.as_str()));
                assert(views(texts@) =~= readable_texts(all.take(i as int)).push(t@));
            },
            Err(_) => {},
        }
        i = i + 1;
    }
    assert(all.take(pages.len() as int) =~= all);
    Ok(string_of(&join_lines(&texts, &chars_of("\n\n"))))
}

// ---------------------------------------------------------------- Word

/// An XML event as the Word text extraction reads it.
pub enum XmlItem {
    /// Character data, as written in the document.
    Text(String),
    /// An entity or character reference: what it stands for, or the text of
    /// the error resolving it.
    Ref(Result<String, String>),
    /// Input that the reader could not read.
    Failed,
    /// Any other event (markup, comments, declarations).
    Other,
}

/// What the `zip` crate reads as entry `entry` of archive `data`: its text;
/// `None` when the archive has no readable entry of that name; or the text
/// of the error opening the archive or reading the entry.
pub uninterp spec fn zip_entry(data: Seq<u8>, entry: Seq<char>) -> Result<Option<Seq<char>>, Seq<char>>;

/// The events that the `quick_xml` reader reads from `xml` until its end.
pub uninterp spec fn xml_item_seq(xml: Seq<char>) -> Seq<XmlItem>;

/// `zip::ZipArchive::new`, `ZipArchive::by_name` and `Read::read_to_string`;
/// claimed to give `zip_entry(data@, entry@)`: `None` when `by_name` fails,
/// errors as their texts.
#[verifier::external_body]
fn zip_entry_text(data: &[u8], entry: &str) -> (r: Result<Option<String>, String>)
    ensures
        match r {
            Ok(Some(t)) => zip_entry(data@, entry@) == Ok::<Option<Seq<char>>, Seq<char>>(Some(t@)),
            Ok(None) => zip_entry(data@, entry@) == Ok::<Option<Seq<char>>, Seq<char>>(None),
            Err(e) => zip_entry(data@, entry@) == Err::<Option<Seq<char>>, Seq<char>>(e@),
        },
{
    let mut zip = zip::ZipArchive::new(std::io::Cursor::new(data)).map_err(|e| e.to_string())?;
    let mut file = match zip.by_name(entry) {
        Ok(f) => f,
        Err(_) => return Ok(None),
    };
    let mut text = String::new();
    std::io::Read::read_to_string(&mut file, &mut text).map_err(|e| e.to_string())?;
    Ok(Some(text))
}

/// `quick_xml::Reader::from_str` and `read_event` until `Eof`: a text event
/// as its raw content, a reference resolved by `quick_xml::escape::unescape`
/// of its escaped form; claimed to give `xml_item_seq(xml@)`. The reader
/// ends (answers `Eof`) after any error but an ill-formed construct; after
/// an ill-formed construct it has already consumed the bad input and reads
/// on, as the loop does. That every such input lets the loop end is not
/// claimed beyond this.
#[verifier::external_body]
fn xml_items(xml: &str) -> (r: Vec<XmlItem>)
    ensures
        r@ == xml_item_seq(xml@),
{
    let mut reader = quick_xml::Reader::from_str(xml);
    std::iter::from_fn(|| match reader.read_event() {
        Ok(XmlEvent::Eof) => None,
        Ok(XmlEvent::Text(e)) => Some(XmlItem::Text(e.into_inner().into_owned())),
        Ok(XmlEvent::GeneralRef(e)) => Some(XmlItem::Ref(quick_xml::escape::unescape(&format!("&{};", &*e))
            .map(|s| s.into_owned()).map_err(|x| x.to_string()))),
        Ok(_) => Some(XmlItem::Other),
        Err(_) => Some(XmlItem::Failed),
    }).collect()
}

/// The text of a Word document body: its character data and resolved
/// references in order; the first reference that cannot be resolved stops
/// it with its error; unreadable input and markup are skipped.
pub open spec fn xml_text(items: Seq<XmlItem>) -> Result<Seq<char>, Seq<char>>
    decreases items.len(),
{
    if items.len() == 0 {
        Ok(Seq::empty())
    } else {
        match xml_text(items.drop_last()) {
            Err(e) => Err(e),
            Ok(t) => match items.last() {
                XmlItem::Text(s) => Ok(t + s@),
                XmlItem::Ref(Ok(s)) => Ok(t + s@),
                XmlItem::Ref(Err(e)) => Err(e@),
                _ => Ok(t),
            },
        }
    }
}

/// The text of Word file `data`: the text of its `word/document.xml`;
/// without that entry, `Invalid DOCX: missing word/document.xml`.
pub open spec fn docx_text_spec(data: Seq<u8>) -> Result<Seq<char>, Seq<char>> {
    match zip_entry(data, "word/document.xml"@) {
        Err(e) => Err(e),
        Ok(None) => Err("Invalid DOCX: missing word/document.xml"@),
        Ok(Some(xml)) => xml_text(xml_item_seq(xml)),
    }
}

/// The text of the events `items` (see `xml_text`).
pub fn text_of_items(items: &Vec<XmlItem>) -> (r: Result<String, String>)
    ensures
        match xml_text(items@) {
            Ok(t) => r matches Ok(s) && s@ == t,
            Err(t) => r matches Err(s) && s@ == t,
        },
{
    let mut out: Vec<char> = Vec::new();
    let mut i: usize = 0;
    while i < items.len()
        invariant
            0 <= i <= items.len(),
            xml_text(items@.take(i as int)) == Ok::<Seq<char>, Seq<char>>(out@),
        decreases items.len() - i,
    {
        assert(items@.take(i + 1).drop_last() =~= items@.take(i as int));
        assert(items@.take(i + 1).last() == items@[i as int]);
        match &items[i] {
            XmlItem::Text(s) => push_all(&mut out, &chars_of(s.as_str())),
            XmlItem::Ref(Ok(s)) => push_all(&mut out, &chars_of(s.as_str())),
            XmlItem::Ref(Err(e)) => {
                proof {
                    lemma_xml_text_stops(items@, i as int);
                }
                return Err(string_of(&chars_of(e.as_str())));
            },
            _ => {},
        }
        i = i + 1;
    }
    assert(items@.take(items.len() as int) =~= items@);
    Ok(string_of(&out))
}

/// Once a prefix of the events fails, every longer prefix fails the same way.
proof fn lemma_xml_text_stops(items: Seq<XmlItem>, i: int)
    requires
        0 <= i < items.len(),
        xml_text(items.take(i)) is Ok,
        items[i] matches XmlItem::Ref(Err(_)),
    ensures
        xml_text(items) == xml_text(items.take(i + 1)),
    decreases items.len() - i,
{
    assert(items.take(i + 1).drop_last() =~= items.take(i));
    if i + 1 < items.len() {
        let d = items.drop_last();
        assert(d.take(i) =~= items.take(i));
        assert(d.take(i + 1) =~= items.take(i + 1));
        lemma_xml_text_stops(d, i);
    } else {
        assert(items.take(i + 1) =~= items);
    }
}

/// The text of Word file `data` (see `docx_text_spec`).
pub fn extract_text_from_docx(data: &[u8]) -> (r: Result<String, String>)
    ensures
        match docx_text_spec(data@) {
            Ok(t) => r matches Ok(s) && s@ == t,
            Err(t) => r matches Err(s) && s@ == t,
        },
{
    match zip_entry_text(data, "word/document.xml") {
        Err(e) => Err(e),
        Ok(None) => Err(string_of(&chars_of("Invalid DOCX: missing word/document.xml"))),
        Ok(Some(xml)) => text_of_items(&xml_items(xml.as_str())),
    }
}

// ---------------------------------------------------------------- any file

/// What `String::from_utf8` gives for `data`: its text, or the text of
/// its error.
pub uninterp spec fn utf8_decoded(data: Seq<u8>) -> Result<Seq<char>, Seq<char>>;

/// `String::from_utf8`, the error as its text; claimed to give
/// `utf8_decoded(data@)`.
#[verifier::external_body]
fn utf8_text(data: &[u8]) -> (r: Result<String, String>)
    ensures
        match r {
            Ok(t) => utf8_decoded(data@) == Ok::<Seq<char>, Seq<char>>(t@),
            Err(e) => utf8_decoded(data@) == Err::<Seq<char>, Seq<char>>(e@),
        },
{
    String::from_utf8(data.to_vec()).map_err(|e| e.to_string())
}

/// What `read_file` reports of the file `file_name` with contents `data`:
/// the text of a Word or PDF file by its name (see `file_kind_spec`), else
/// the contents as UTF-8 text, or `Failed to read text file: {error}`.
pub open spec fn read_file_spec(file_name: Seq<char>, data: Seq<u8>) -> Result<Seq<char>, Seq<char>> {
    match file_kind_spec(file_name) {
        FileKind::Docx => docx_text_spec(data),
        FileKind::Pdf => pdf_text_spec(data),
        FileKind::Text => match utf8_decoded(data) {
            Ok(t) => Ok(t),
            Err(e) => Err("Failed to read text file: "@ + e),
        },
    }
}

/// The text of the stored file `file_name` with contents `data` (see
/// `read_file_spec`).
pub fn read_file_text(file_name: &str, data: &[u8]) -> (r: Result<String, String>)
    ensures
        match read_file_spec(file_name@, data@) {
            Ok(t) => r matches Ok(s) && s@ == t,
            Err(t) => r matches Err(s) && s@ == t,
        },
{
    match file_kind(file_name) {
        FileKind::Docx => extract_text_from_docx(data),
        FileKind::Pdf => extract_text_from_pdf(data),
        FileKind::Text => match utf8_text(data) {
            Ok(t) => Ok(t),
            Err(e) => {
                let mut m = chars_of("Failed to read text file: ");
                push_str(&mut m, e.as_str());
                Err(string_of(&m))
            },
        },
    }
}

} // verus!
