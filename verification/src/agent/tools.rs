//! The agent's tools: reading their arguments, and the texts they report
//! back (file lists, CSV, search results, creation notices).
use vstd::prelude::*;
use base64::Engine;
use crate::ids::{parse_uuid, uuid_parse, uuid_text, uuid_to_string};
use crate::agent::parse::{Json, json_field, json_field_of, json_item, json_item_of};
use crate::agent::registry::debug_string_list;
use crate::text::{
    chars_of, decimal, decimal_spec, ends_with, ends_with_spec, join_lines, join_spec, push_all,
    push_str, signed_decimal, signed_decimal_spec, split, split_spec, string_of, to_lowercase,
    unicode_lowercase, views,
};

verus! {

/// The stored fields of an uploaded or generated file.
pub struct BlobInfo {
    pub id: u128,
    pub session_id: u128,
    pub file_name: String,
    pub content_type: String,
    pub size: i64,
    pub storage_key: String,
}

/// The arguments that the tools read from the model's JSON input: each is
/// present only when the input holds a value of the right kind there.
pub struct ToolInput {
    pub blob_id: Option<String>,
    pub sheet_name: Option<String>,
    pub file_name: Option<String>,
    pub content: Option<String>,
    pub image_id: Option<String>,
    pub url: Option<String>,
    pub prompt: Option<String>,
    pub replace_existing: Option<bool>,
    /// `rows`, when it is an array: per row, its cells when it is an array;
    /// per cell, its text when it is a string.
    pub rows: Option<Vec<Option<Vec<Option<String>>>>>,
}

/// A text member of a JSON argument: its text when it is a string.
pub open spec fn text_member(v: Json, key: Seq<char>) -> Option<Seq<char>> {
    match json_field(v, key) {
        Some(Json::Str(t)) => Some(t@),
        _ => None,
    }
}

/// A flag member of a JSON argument: its value when it is a boolean.
pub open spec fn flag_member(v: Json, key: Seq<char>) -> Option<bool> {
    match json_field(v, key) {
        Some(Json::Bool(b)) => Some(b),
        _ => None,
    }
}

/// A cell of `rows`: its text when it is a string.
pub open spec fn cell_member(c: Json) -> Option<Seq<char>> {
    match c {
        Json::Str(t) => Some(t@),
        _ => None,
    }
}

/// A row of `rows`: its cells when it is an array.
pub open spec fn row_member(r: Json) -> Option<Seq<Option<Seq<char>>>> {
    match r {
        Json::Array(cells) => Some(Seq::new(cells@.len(), |j: int| cell_member(cells@[j]))),
        _ => None,
    }
}

/// The `rows` member of a JSON argument, when it is an array.
pub open spec fn rows_member(v: Json) -> Option<Seq<Option<Seq<Option<Seq<char>>>>>> {
    match json_field(v, "rows"@) {
        Some(Json::Array(rs)) => Some(Seq::new(rs@.len(), |i: int| row_member(rs@[i]))),
        _ => None,
    }
}

/// The text of an optional string.
pub open spec fn opt_text(o: Option<String>) -> Option<Seq<char>> {
    match o {
        Some(t) => Some(t@),
        None => None,
    }
}

/// The texts of an optional row.
pub open spec fn row_view(o: Option<Vec<Option<String>>>) -> Option<Seq<Option<Seq<char>>>> {
    match o {
        Some(cells) => Some(Seq::new(cells@.len(), |j: int| opt_text(cells@[j]))),
        None => None,
    }
}

/// The texts of optional rows.
pub open spec fn rows_view(o: Option<Vec<Option<Vec<Option<String>>>>>) -> Option<Seq<Option<Seq<Option<Seq<char>>>>>> {
    match o {
        Some(rows) => Some(Seq::new(rows@.len(), |i: int| row_view(rows@[i]))),
        None => None,
    }
}

fn copy_string(t: &String) -> (r: String)
    ensures
        r@ == t@,
{
    string_of(&chars_of(t.as_str()))
}

/// The text member `key` of the JSON argument `v` (see `text_member`).
pub fn text_member_of(v: &Json, key: &str) -> (r: Option<String>)
    ensures
        opt_text(r) == text_member(*v, key@),
{
    match json_field_of(v, key) {
        Some(Json::Str(t)) => Some(copy_string(t)),
        _ => None,
    }
}

fn flag_member_of(v: &Json, key: &str) -> (r: Option<bool>)
    ensures
        r == flag_member(*v, key@),
{
    match json_field_of(v, key) {
        Some(Json::Bool(b)) => Some(*b),
        _ => None,
    }
}

fn row_of(r: &Json) -> (out: Option<Vec<Option<String>>>)
    ensures
        row_view(out) == row_member(*r),
{
    match r {
        Json::Array(cells) => {
            let mut row: Vec<Option<String>> = Vec::new();
            let mut j: usize = 0;
            while j < cells.len()
                invariant
                    0 <= j <= cells.len(),
                    row@.len() == j,
                    forall|k: int| 0 <= k < j ==> opt_text(#[trigger] row@[k]) == cell_member(cells@[k]),
                decreases cells.len() - j,
            {
                let c = match &cells[j] {
                    Json::Str(t) => Some(copy_string(t)),
                    _ => None,
                };
                row.push(c);
                j = j + 1;
            }
            assert(row_view(Some(row)).unwrap() =~= row_member(*r).unwrap());
            Some(row)
        },
        _ => None,
    }
}

fn rows_of(v: &Json) -> (out: Option<Vec<Option<Vec<Option<String>>>>>)
    ensures
        rows_view(out) == rows_member(*v),
{
    match json_field_of(v, "rows") {
        Some(Json::Array(rs)) => {
            let mut rows: Vec<Option<Vec<Option<String>>>> = Vec::new();
            let mut i: usize = 0;
            while i < rs.len()
                invariant
                    0 <= i <= rs.len(),
                    rows@.len() == i,
                    forall|k: int| 0 <= k < i ==> row_view(#[trigger] rows@[k]) == row_member(rs@[k]),
                decreases rs.len() - i,
            {
                rows.push(row_of(&rs[i]));
                i = i + 1;
            }
            proof {
                reveal_strlit("rows");
            }
            assert(rows_view(Some(rows)).unwrap() =~= rows_member(*v).unwrap());
            Some(rows)
        },
        _ => None,
    }
}

/// The arguments that the tools read from the JSON argument `v`: each text
/// member when it is a string, `replace_existing` when it is a boolean, and
/// `rows` when it is an array.
pub fn tool_input_of(v: &Json) -> (r: ToolInput)
    ensures
        opt_text(r.blob_id) == text_member(*v, "blob_id"@),
        opt_text(r.sheet_name) == text_member(*v, "sheet_name"@),
        opt_text(r.file_name) == text_member(*v, "file_name"@),
        opt_text(r.content) == text_member(*v, "content"@),
        opt_text(r.image_id) == text_member(*v, "image_id"@),
        opt_text(r.url) == text_member(*v, "url"@),
        opt_text(r.prompt) == text_member(*v, "prompt"@),
        r.replace_existing == flag_member(*v, "replace_existing"@),
        rows_view(r.rows) == rows_member(*v),
{
    ToolInput {
        blob_id: text_member_of(v, "blob_id"),
        sheet_name: text_member_of(v, "sheet_name"),
        file_name: text_member_of(v, "file_name"),
        content: text_member_of(v, "content"),
        image_id: text_member_of(v, "image_id"),
        url: text_member_of(v, "url"),
        prompt: text_member_of(v, "prompt"),
        replace_existing: flag_member_of(v, "replace_existing"),
        rows: rows_of(v),
    }
}

/// A tool call with its arguments read.
pub enum ToolRequest {
    ListFiles,
    ExcelSheets { blob_id: u128 },
    ExcelToCsv { blob_id: u128, sheet_name: Option<String> },
    ReadFile { blob_id: u128 },
    CreateExcel { file_name: String, rows: Vec<Vec<String>>, replace_existing: bool },
    CreateWordDoc { file_name: String, content: String, image_id: Option<u128>, replace_existing: bool },
    CreatePdfDoc { file_name: String, content: String, replace_existing: bool },
    CreateTextFile { file_name: String, content: String, replace_existing: bool },
    DownloadFromUrl { url: String, file_name: String, replace_existing: bool },
    GenerateImage { prompt: String, file_name: String, replace_existing: bool },
    SearchInternet { query: String },
}

/// A text argument, or `default` when absent.
pub open spec fn text_or(v: Option<String>, default: Seq<char>) -> Seq<char> {
    match v {
        Some(s) => s@,
        None => default,
    }
}

/// A flag argument, false when absent.
pub open spec fn flag(v: Option<bool>) -> bool {
    match v {
        Some(b) => b,
        None => false,
    }
}

/// The rows of a spreadsheet request: a row that is not an array is empty,
/// a cell that is not a string is empty text.
pub open spec fn rows_spec(rows: Seq<Option<Vec<Option<String>>>>) -> Seq<Seq<Seq<char>>> {
    Seq::new(
        rows.len(),
        |i: int|
            match rows[i] {
                Some(cells) => Seq::new(cells@.len(), |j: int| text_or(cells@[j], Seq::empty())),
                None => Seq::empty(),
            },
    )
}

/// The texts of a table of strings.
pub open spec fn table_texts(rows: Seq<Vec<String>>) -> Seq<Seq<Seq<char>>> {
    Seq::new(rows.len(), |i: int| rows[i]@.map_values(|s: String| s@))
}

/// A blob id argument as the tools read it: missing is `Missing blob_id`,
/// else what the `uuid` crate makes of it.
pub open spec fn blob_id_spec(v: Option<String>) -> Result<u128, Seq<char>> {
    match v {
        None => Err("Missing blob_id"@),
        Some(s) => uuid_parse(s@),
    }
}

/// `r` is the request that tool `action` reads from `input`, or the error
/// it stops with; `None` for a name that is not one of the tools.
pub open spec fn decoded(action: Seq<char>, input: ToolInput, r: Option<Result<ToolRequest, String>>) -> bool {
    if action == "list_files"@ {
        r matches Some(Ok(ToolRequest::ListFiles))
    } else if action == "get_excel_sheets"@ || action == "read_file"@ || action == "excel_to_csv"@ {
        match blob_id_spec(input.blob_id) {
            Err(e) => r matches Some(Err(m)) && m@ == e,
            Ok(id) => if action == "get_excel_sheets"@ {
                r matches Some(Ok(ToolRequest::ExcelSheets { blob_id })) && blob_id == id
            } else if action == "read_file"@ {
                r matches Some(Ok(ToolRequest::ReadFile { blob_id })) && blob_id == id
            } else {
                r matches Some(Ok(ToolRequest::ExcelToCsv { blob_id, sheet_name })) && blob_id == id
                    && sheet_name == input.sheet_name
            },
        }
    } else if action == "create_excel"@ {
        match input.rows {
            None => r matches Some(Err(m)) && m@ == "Missing rows"@,
            Some(rows) => r matches Some(Ok(ToolRequest::CreateExcel { file_name, rows: out, replace_existing }))
                && file_name@ == text_or(input.file_name, "output.xlsx"@) && table_texts(out@) == rows_spec(rows@)
                && replace_existing == flag(input.replace_existing),
        }
    } else if action == "create_word_doc"@ || action == "create_pdf_doc"@ || action == "create_text_file"@ {
        match input.content {
            None => r matches Some(Err(m)) && m@ == "Missing content"@,
            Some(c) => if action == "create_word_doc"@ {
                r matches Some(Ok(ToolRequest::CreateWordDoc { file_name, content, image_id, replace_existing }))
                    && file_name@ == text_or(input.file_name, "output.docx"@) && content@ == c@
                    && image_id == match input.image_id {
                        Some(s) => match uuid_parse(s@) {
                            Ok(v) => Some(v),
                            Err(_) => None,
                        },
                        None => None,
                    } && replace_existing == flag(input.replace_existing)
            } else if action == "create_pdf_doc"@ {
                r matches Some(Ok(ToolRequest::CreatePdfDoc { file_name, content, replace_existing }))
                    && file_name@ == text_or(input.file_name, "output.pdf"@) && content@ == c@
                    && replace_existing == flag(input.replace_existing)
            } else {
                r matches Some(Ok(ToolRequest::CreateTextFile { file_name, content, replace_existing }))
                    && file_name@ == text_or(input.file_name, "output.txt"@) && content@ == c@
                    && replace_existing == flag(input.replace_existing)
            },
        }
    } else if action == "download_from_url"@ {
        match input.url {
            None => r matches Some(Err(m)) && m@ == "Missing url"@,
            Some(u) => r matches Some(Ok(ToolRequest::DownloadFromUrl { url, file_name, replace_existing }))
                && url@ == u@ && file_name@ == text_or(input.file_name, "downloaded_file"@)
                && replace_existing == flag(input.replace_existing),
        }
    } else if action == "generate_image"@ {
        match input.prompt {
            None => r matches Some(Err(m)) && m@ == "Missing prompt"@,
            Some(p) => r matches Some(Ok(ToolRequest::GenerateImage { prompt, file_name, replace_existing }))
                && prompt@ == p@ && file_name@ == text_or(input.file_name, "generated_image.png"@)
                && replace_existing == flag(input.replace_existing),
        }
    } else {
        r is None
    }
}

fn text_arg(v: &Option<String>, default: &str) -> (r: String)
    ensures
        r@ == text_or(*v, default@),
{
    match v {
        Some(s) => string_of(&chars_of(s.as_str())),
        None => string_of(&chars_of(default)),
    }
}

fn flag_arg(v: Option<bool>) -> (r: bool)
    ensures
        r == flag(v),
{
    match v {
        Some(b) => b,
        None => false,
    }
}

fn blob_id_arg(v: &Option<String>) -> (r: Result<u128, String>)
    ensures
        match blob_id_spec(*v) {
            Ok(id) => r == Ok::<u128, String>(id),
            Err(e) => r matches Err(m) && m@ == e,
        },
{
    match v {
        None => Err(string_of(&chars_of("Missing blob_id"))),
        Some(s) => parse_uuid(s.as_str()),
    }
}

/// The rows of a spreadsheet request, with the defaults of `rows_spec`.
pub fn table_of_rows(rows: &Vec<Option<Vec<Option<String>>>>) -> (r: Vec<Vec<String>>)
    ensures
        table_texts(r@) == rows_spec(rows@),
{
    proof {
        reveal_strlit("");
        assert(""@ =~= Seq::<char>::empty());
    }
    let mut out: Vec<Vec<String>> = Vec::new();
    let mut i: usize = 0;
    while i < rows.len()
        invariant
            0 <= i <= rows.len(),
            out@.len() == i,
            ""@ == Seq::<char>::empty(),
            forall|k: int| 0 <= k < i ==> (#[trigger] out@[k])@.map_values(|s: String| s@) == rows_spec(rows@)[k],
        decreases rows.len() - i,
    {
        let mut row: Vec<String> = Vec::new();
        match &rows[i] {
            Some(cells) => {
                let mut j: usize = 0;
                while j < cells.len()
                    invariant
                        0 <= j <= cells.len(),
                        row@.len() == j,
                        ""@ == Seq::<char>::empty(),
                        forall|k: int| 0 <= k < j ==> (#[trigger] row@[k])@ == text_or(cells@[k], Seq::empty()),
                    decreases cells.len() - j,
                {
                    row.push(text_arg(&cells[j], ""));
                    j = j + 1;
                }
                assert(row@.map_values(|s: String| s@) =~= rows_spec(rows@)[i as int]);
            },
            None => {
                assert(row@.map_values(|s: String| s@) =~= rows_spec(rows@)[i as int]);
            },
        }
        out.push(row);
        i = i + 1;
    }
    assert(table_texts(out@) =~= rows_spec(rows@));
    out
}

fn optional_id(v: &Option<String>) -> (r: Option<u128>)
    ensures
        r == match *v {
            Some(s) => match uuid_parse(s@) {
                Ok(x) => Some(x),
                Err(_) => None,
            },
            None => None,
        },
{
    match v {
        Some(s) => match parse_uuid(s.as_str()) {
            Ok(x) => Some(x),
            Err(_) => None,
        },
        None => None,
    }
}

fn is_name(action: &str, name: &str) -> (b: bool)
    ensures
        b == (action@ == name@),
{
    crate::text::same_text(action, name)
}

/// Reads the arguments of tool `action` from `input` (see `decoded`).
pub fn decode_tool_input(action: &str, input: &ToolInput) -> (r: Option<Result<ToolRequest, String>>)
    ensures
        decoded(action@, *input, r),
{
    if is_name(action, "list_files") {
        Some(Ok(ToolRequest::ListFiles))
    } else if is_name(action, "get_excel_sheets") || is_name(action, "read_file") || is_name(
        action,
        "excel_to_csv",
    ) {
        match blob_id_arg(&input.blob_id) {
            Err(e) => Some(Err(e)),
            Ok(id) => {
                if is_name(action, "get_excel_sheets") {
                    Some(Ok(ToolRequest::ExcelSheets { blob_id: id }))
                } else if is_name(action, "read_file") {
                    Some(Ok(ToolRequest::ReadFile { blob_id: id }))
                } else {
                    Some(Ok(ToolRequest::ExcelToCsv { blob_id: id, sheet_name: input.sheet_name.clone() }))
                }
            },
        }
    } else if is_name(action, "create_excel") {
        let file_name = text_arg(&input.file_name, "output.xlsx");
        match &input.rows {
            None => Some(Err(string_of(&chars_of("Missing rows")))),
            Some(rows) => Some(
                Ok(
                    ToolRequest::CreateExcel {
                        file_name,
                        rows: table_of_rows(rows),
                        replace_existing: flag_arg(input.replace_existing),
                    },
                ),
            ),
        }
    } else if is_name(action, "create_word_doc") || is_name(action, "create_pdf_doc") || is_name(
        action,
        "create_text_file",
    ) {
        match &input.content {
            None => Some(Err(string_of(&chars_of("Missing content")))),
            Some(c) => {
                let content = string_of(&chars_of(c.as_str()));
                let replace_existing = flag_arg(input.replace_existing);
                if is_name(action, "create_word_doc") {
                    Some(
                        Ok(
                            ToolRequest::CreateWordDoc {
                                file_name: text_arg(&input.file_name, "output.docx"),
                                content,
                                image_id: optional_id(&input.image_id),
                                replace_existing,
                            },
                        ),
                    )
                } else if is_name(action, "create_pdf_doc") {
                    Some(
                        Ok(
                            ToolRequest::CreatePdfDoc {
                                file_name: text_arg(&input.file_name, "output.pdf"),
                                content,
                                replace_existing,
                            },
                        ),
                    )
                } else {
                    Some(
                        Ok(
                            ToolRequest::CreateTextFile {
                                file_name: text_arg(&input.file_name, "output.txt"),
                                content,
                                replace_existing,
                            },
                        ),
                    )
                }
            },
        }
    } else if is_name(action, "download_from_url") {
        match &input.url {
            None => Some(Err(string_of(&chars_of("Missing url")))),
            Some(u) => Some(
                Ok(
                    ToolRequest::DownloadFromUrl {
                        url: string_of(&chars_of(u.as_str())),
                        file_name: text_arg(&input.file_name, "downloaded_file"),
                        replace_existing: flag_arg(input.replace_existing),
                    },
                ),
            ),
        }
    } else if is_name(action, "generate_image") {
        match &input.prompt {
            None => Some(Err(string_of(&chars_of("Missing prompt")))),
            Some(p) => Some(
                Ok(
                    ToolRequest::GenerateImage {
                        prompt: string_of(&chars_of(p.as_str())),
                        file_name: text_arg(&input.file_name, "generated_image.png"),
                        replace_existing: flag_arg(input.replace_existing),
                    },
                ),
            ),
        }
    } else {
        None
    }
}

/// One line of the file list: `- {name} (ID: {id}, Type: {type})` and a newline.
pub open spec fn file_line(b: BlobInfo) -> Seq<char> {
    "- "@ + b.file_name@ + " (ID: "@ + uuid_text(b.id) + ", Type: "@ + b.content_type@ + ")\n"@
}

/// The concatenation of the lines of the first `n` files.
pub open spec fn file_lines(files: Seq<BlobInfo>, n: int) -> Seq<char>
    decreases n,
{
    if n <= 0 {
        Seq::empty()
    } else {
        file_lines(files, n - 1) + file_line(files[n - 1])
    }
}

/// What `list_files` reports for the session's files.
pub open spec fn file_list_spec(files: Seq<BlobInfo>) -> Seq<char> {
    "Files in this session:\n"@ + file_lines(files, files.len() as int)
}

/// The file list that `list_files` reports.
pub fn list_files_text(files: &Vec<BlobInfo>) -> (r: String)
    ensures
        r@ == file_list_spec(files@),
{
    let mut out = chars_of("Files in this session:\n");
    let mut i: usize = 0;
    while i < files.len()
        invariant
            0 <= i <= files.len(),
            out@ == "Files in this session:\n"@ + file_lines(files@, i as int),
        decreases files.len() - i,
    {
        push_str(&mut out, "- ");
        push_str(&mut out, files[i].file_name.as_str());
        push_str(&mut out, " (ID: ");
        push_str(&mut out, uuid_to_string(files[i].id).as_str());
        push_str(&mut out, ", Type: ");
        push_str(&mut out, files[i].content_type.as_str());
        push_str(&mut out, ")\n");
        i = i + 1;
        assert(out@ =~= "Files in this session:\n"@ + file_lines(files@, i as int));
    }
    string_of(&out)
}

/// What `get_excel_sheets` reports: `Sheets: {names:?}`.
pub fn sheets_text(sheets: &Vec<String>) -> (r: String)
    ensures
        r@ == "Sheets: "@ + debug_string_list(sheets@.map_values(|s: String| s@)),
{
    let listed = crate::agent::registry::debug_names_of(sheets);
    let mut t = chars_of("Sheets: ");
    push_str(&mut t, listed.as_str());
    string_of(&t)
}

/// The notice that a creating tool reports for the new file `id`.
pub open spec fn creation_notice_spec(req: ToolRequest, id: u128) -> Option<Seq<char>> {
    let tail = uuid_text(id) + "."@;
    match req {
        ToolRequest::CreateExcel { file_name, .. } => Some(
            "Success: New Excel file '"@ + file_name@ + "' created. ID: "@ + tail,
        ),
        ToolRequest::CreateWordDoc { file_name, .. } => Some(
            "Success: New Word doc '"@ + file_name@ + "' created. ID: "@ + tail,
        ),
        ToolRequest::CreatePdfDoc { file_name, .. } => Some(
            "Success: New PDF '"@ + file_name@ + "' created. ID: "@ + tail,
        ),
        ToolRequest::CreateTextFile { file_name, .. } => Some(
            "Success: New text file '"@ + file_name@ + "' created. ID: "@ + tail,
        ),
        ToolRequest::DownloadFromUrl { file_name, .. } => Some(
            "Success: File downloaded as '"@ + file_name@ + "'. ID: "@ + tail,
        ),
        ToolRequest::GenerateImage { file_name, .. } => Some(
            "Success: Image '"@ + file_name@ + "' generated. ID: "@ + tail,
        ),
        _ => None,
    }
}

fn notice(head: &str, file_name: &str, middle: &str, id: u128) -> (r: String)
    ensures
        r@ == head@ + file_name@ + middle@ + uuid_text(id) + "."@,
{
    let mut t = chars_of(head);
    push_str(&mut t, file_name);
    push_str(&mut t, middle);
    push_str(&mut t, uuid_to_string(id).as_str());
    push_str(&mut t, ".");
    string_of(&t)
}

/// The notice that a creating tool reports for the new file `id`; `None`
/// for the tools that create nothing.
pub fn creation_notice(req: &ToolRequest, id: u128) -> (r: Option<String>)
    ensures
        match creation_notice_spec(*req, id) {
            Some(t) => r matches Some(s) && s@ == t,
            None => r is None,
        },
{
    match req {
        ToolRequest::CreateExcel { file_name, .. } => Some(
            notice("Success: New Excel file '", file_name.as_str(), "' created. ID: ", id),
        ),
        ToolRequest::CreateWordDoc { file_name, .. } => Some(
            notice("Success: New Word doc '", file_name.as_str(), "' created. ID: ", id),
        ),
        ToolRequest::CreatePdfDoc { file_name, .. } => Some(
            notice("Success: New PDF '", file_name.as_str(), "' created. ID: ", id),
        ),
        ToolRequest::CreateTextFile { file_name, .. } => Some(
            notice("Success: New text file '", file_name.as_str(), "' created. ID: ", id),
        ),
        ToolRequest::DownloadFromUrl { file_name, .. } => Some(
            notice("Success: File downloaded as '", file_name.as_str(), "'. ID: ", id),
        ),
        ToolRequest::GenerateImage { file_name, .. } => Some(
            notice("Success: Image '", file_name.as_str(), "' generated. ID: ", id),
        ),
        _ => None,
    }
}

/// A spreadsheet cell as the CSV export reads it.
pub enum CsvCell {
    Text(String),
    Int(i64),
    Bool(bool),
    /// A floating-point cell, already written in decimal.
    FloatText(String),
    /// Any other cell (empty, error, date): written as nothing.
    Other,
}

/// The text of a cell in the CSV export.
pub open spec fn cell_text_spec(c: CsvCell) -> Seq<char> {
    match c {
        CsvCell::Text(s) => s@,
        CsvCell::Int(i) => signed_decimal_spec(i as int),
        CsvCell::Bool(b) => if b {
            "true"@
        } else {
            "false"@
        },
        CsvCell::FloatText(s) => s@,
        CsvCell::Other => Seq::empty(),
    }
}

/// One CSV line: the cell texts joined by commas.
pub open spec fn csv_line(row: Seq<CsvCell>) -> Seq<char> {
    join_spec(Seq::new(row.len(), |j: int| cell_text_spec(row[j])), ","@)
}

/// The CSV text of the first `n` rows: each row's line and a newline.
pub open spec fn csv_rows(rows: Seq<Seq<CsvCell>>, n: int) -> Seq<char>
    decreases n,
{
    if n <= 0 {
        Seq::empty()
    } else {
        csv_rows(rows, n - 1) + csv_line(rows[n - 1]) + "\n"@
    }
}

/// A boolean cell is exported as the word for its value, never as
/// nothing: `true` exactly when it is true, `false` when it is false; so the
/// line of a text cell and a boolean cell is the text, a comma and that word.
pub proof fn law_bool_cell_text(b: bool, s: String)
    ensures
        cell_text_spec(CsvCell::Bool(b)).len() > 0,
        (cell_text_spec(CsvCell::Bool(b)) == "true"@) == b,
        !b ==> cell_text_spec(CsvCell::Bool(b)) == "false"@,
        csv_line(seq![CsvCell::Text(s), CsvCell::Bool(true)]) == s@ + ",true"@,
        csv_line(seq![CsvCell::Text(s), CsvCell::Bool(false)]) == s@ + ",false"@,
{
    reveal_strlit("true");
    reveal_strlit("false");
    reveal_strlit(",");
    reveal_strlit(",true");
    reveal_strlit(",false");
    assert("true"@ != "false"@) by {
        assert("true"@.len() != "false"@.len());
    }
    let rt = seq![CsvCell::Text(s), CsvCell::Bool(true)];
    let lt = Seq::new(rt.len(), |j: int| cell_text_spec(rt[j]));
    assert(lt.drop_last() =~= seq![s@]);
    assert(lt.last() == "true"@);
    assert(join_spec(seq![s@], ","@) == s@);
    assert(s@ + ","@ + "true"@ =~= s@ + ",true"@);
    let rf = seq![CsvCell::Text(s), CsvCell::Bool(false)];
    let lf = Seq::new(rf.len(), |j: int| cell_text_spec(rf[j]));
    assert(lf.drop_last() =~= seq![s@]);
    assert(lf.last() == "false"@);
    assert(s@ + ","@ + "false"@ =~= s@ + ",false"@);
}

/// The cells of a sheet, row by row.
pub open spec fn cell_table(rows: Seq<Vec<CsvCell>>) -> Seq<Seq<CsvCell>> {
    rows.map_values(|r: Vec<CsvCell>| r@)
}

/// The text of a cell in the CSV export.
pub fn cell_text(c: &CsvCell) -> (r: Vec<char>)
    ensures
        r@ == cell_text_spec(*c),
{
    match c {
        CsvCell::Text(s) => chars_of(s.as_str()),
        CsvCell::Int(i) => signed_decimal(*i),
        CsvCell::Bool(b) => if *b {
            chars_of("true")
        } else {
            chars_of("false")
        },
        CsvCell::FloatText(s) => chars_of(s.as_str()),
        CsvCell::Other => Vec::new(),
    }
}

/// The CSV text of a sheet: one line per row, cells joined by commas.
pub fn csv_text(rows: &Vec<Vec<CsvCell>>) -> (r: String)
    ensures
        r@ == csv_rows(cell_table(rows@), rows@.len() as int),
{
    let mut out: Vec<char> = Vec::new();
    let mut i: usize = 0;
    while i < rows.len()
        invariant
            0 <= i <= rows.len(),
            out@ == csv_rows(cell_table(rows@), i as int),
        decreases rows.len() - i,
    {
        let row = &rows[i];
        let mut cells: Vec<Vec<char>> = Vec::new();
        let mut j: usize = 0;
        while j < row.len()
            invariant
                0 <= j <= row.len(),
                cells@.len() == j,
                forall|k: int| 0 <= k < j ==> (#[trigger] cells@[k])@ == cell_text_spec(row@[k]),
            decreases row.len() - j,
        {
            cells.push(cell_text(&row[j]));
            j = j + 1;
        }
        assert(views(cells@) =~= Seq::new(row@.len(), |j: int| cell_text_spec(row@[j])));
        let line = join_lines(&cells, &chars_of(","));
        push_all(&mut out, &line);
        push_str(&mut out, "\n");
        i = i + 1;
        assert(cell_table(rows@)[i - 1] == rows@[i - 1]@);
        assert(out@ =~= csv_rows(cell_table(rows@), i as int));
    }
    string_of(&out)
}

/// The sheet to export: the requested one, else the first sheet, else the
/// error `No sheets found in Excel file`.
pub fn choose_sheet(requested: Option<String>, names: &Vec<String>) -> (r: Result<String, String>)
    ensures
        match requested {
            Some(s) => r == Ok::<String, String>(s),
            None => if names@.len() > 0 {
                r matches Ok(s) && s@ == names@[0]@
            } else {
                r matches Err(e) && e@ == "No sheets found in Excel file"@
            },
        },
{
    match requested {
        Some(s) => Ok(s),
        None => if names.len() > 0 {
            Ok(string_of(&chars_of(names[0].as_str())))
        } else {
            Err(string_of(&chars_of("No sheets found in Excel file")))
        },
    }
}

/// How `read_file` reads a file.
#[derive(PartialEq, Eq, Structural)]
pub enum FileKind {
    Docx,
    Pdf,
    Text,
}

/// The kind of a file by its name: lowercased, `.docx` then `.pdf`, else text.
pub open spec fn file_kind_spec(file_name: Seq<char>) -> FileKind {
    let n = unicode_lowercase(file_name);
    if ends_with_spec(n, ".docx"@) {
        FileKind::Docx
    } else if ends_with_spec(n, ".pdf"@) {
        FileKind::Pdf
    } else {
        FileKind::Text
    }
}

/// How a file is read depends on its name only through the name's
/// lowercase form: names with the same lowercase form are read alike, a
/// name whose lowercase form ends with `.docx` as a Word file, one ending
/// with `.pdf` (and not `.docx`) as a PDF, and any other as text.
pub proof fn law_file_kind_by_lowercase_name(a: Seq<char>, b: Seq<char>)
    ensures
        unicode_lowercase(a) == unicode_lowercase(b) ==> file_kind_spec(a) == file_kind_spec(b),
        ends_with_spec(unicode_lowercase(a), ".docx"@) ==> file_kind_spec(a) == FileKind::Docx,
        !ends_with_spec(unicode_lowercase(a), ".docx"@) && ends_with_spec(unicode_lowercase(a), ".pdf"@)
            ==> file_kind_spec(a) == FileKind::Pdf,
        !ends_with_spec(unicode_lowercase(a), ".docx"@) && !ends_with_spec(unicode_lowercase(a), ".pdf"@)
            ==> file_kind_spec(a) == FileKind::Text,
{
}

/// How `read_file` reads the file named `file_name`.
pub fn file_kind(file_name: &str) -> (r: FileKind)
    ensures
        r == file_kind_spec(file_name@),
{
    let lower = to_lowercase(file_name);
    let n = chars_of(lower.as_str());
    if ends_with(&n, &chars_of(".docx")) {
        FileKind::Docx
    } else if ends_with(&n, &chars_of(".pdf")) {
        FileKind::Pdf
    } else {
        FileKind::Text
    }
}

/// The paragraphs of a generated PDF: the content split at blank lines.
pub fn pdf_paragraphs(content: &str) -> (r: Vec<String>)
    ensures
        r@.map_values(|s: String| s@) == split_spec(content@, "\n\n"@),
{
    let sep = chars_of("\n\n");
    proof {
        reveal_strlit("\n\n");
    }
    let pieces = split(&chars_of(content), &sep);
    let mut out: Vec<String> = Vec::new();
    let mut i: usize = 0;
    while i < pieces.len()
        invariant
            0 <= i <= pieces.len(),
            out@.len() == i,
            forall|k: int| 0 <= k < i ==> (#[trigger] out@[k])@ == pieces@[k]@,
        decreases pieces.len() - i,
    {
        out.push(string_of(&pieces[i]));
        i = i + 1;
    }
    assert(out@.map_values(|s: String| s@) =~= views(pieces@));
    out
}

/// One result of the web search as the search tool reads it.
pub struct SearchItem {
    pub title: Option<String>,
    pub link: Option<String>,
    pub snippet: Option<String>,
}

/// `s` with every newline replaced by a space.
pub open spec fn newlines_to_spaces(s: Seq<char>) -> Seq<char> {
    Seq::new(s.len(), |i: int| if s[i] == '\n' { ' ' } else { s[i] })
}

/// One entry of the search report:
/// `{n}. {title} ({link})\n   {snippet}\n`.
pub open spec fn search_line(i: int, item: SearchItem) -> Seq<char> {
    decimal_spec((i + 1) as nat) + ". "@ + text_or(item.title, "No Title"@) + " ("@ + text_or(
        item.link,
        "No Link"@,
    ) + ")\n   "@ + newlines_to_spaces(text_or(item.snippet, "No Snippet"@)) + "\n"@
}

/// The entries of the first `n` results.
pub open spec fn search_lines(items: Seq<SearchItem>, n: int) -> Seq<char>
    decreases n,
{
    if n <= 0 {
        Seq::empty()
    } else {
        search_lines(items, n - 1) + search_line(n - 1, items[n - 1])
    }
}

/// The search report for `query`: a heading and the first five results;
/// without a result list, the error `No items found in search response`.
pub open spec fn search_report_spec(query: Seq<char>, items: Option<Vec<SearchItem>>) -> Result<Seq<char>, Seq<char>> {
    match items {
        None => Err("No items found in search response"@),
        Some(v) => Ok(
            "Search Results for '"@ + query + "':\n"@ + search_lines(
                v@,
                if v@.len() < 5 {
                    v@.len() as int
                } else {
                    5
                },
            ),
        ),
    }
}

/// `s` with every newline replaced by a space.
pub fn replace_newlines(s: &Vec<char>) -> (r: Vec<char>)
    ensures
        r@ == newlines_to_spaces(s@),
{
    let mut out: Vec<char> = Vec::new();
    let mut i: usize = 0;
    while i < s.len()
        invariant
            0 <= i <= s.len(),
            out@ == newlines_to_spaces(s@).take(i as int),
        decreases s.len() - i,
    {
        if s[i] == '\n' {
            out.push(' ');
        } else {
            out.push(s[i]);
        }
        i = i + 1;
        assert(out@ =~= newlines_to_spaces(s@).take(i as int));
    }
    assert(newlines_to_spaces(s@).take(s.len() as int) =~= newlines_to_spaces(s@));
    out
}

/// The report of the web search tool (see `search_report_spec`).
pub fn search_report(query: &str, items: &Option<Vec<SearchItem>>) -> (r: Result<String, String>)
    ensures
        match search_report_spec(query@, *items) {
            Ok(t) => r matches Ok(s) && s@ == t,
            Err(t) => r matches Err(s) && s@ == t,
        },
{
    match items {
        None => Err(string_of(&chars_of("No items found in search response"))),
        Some(v) => {
            let mut out = chars_of("Search Results for '");
            push_str(&mut out, query);
            push_str(&mut out, "':\n");
            let n: usize = if v.len() < 5 {
                v.len()
            } else {
                5
            };
            let ghost head = out@;
            let mut i: usize = 0;
            while i < n
                invariant
                    0 <= i <= n <= v.len(),
                    n <= 5,
                    out@ == head + search_lines(v@, i as int),
                decreases n - i,
            {
                let item = &v[i];
                let mut line = decimal((i as u64) + 1);
                push_str(&mut line, ". ");
                push_all(&mut line, &chars_of(text_arg(&item.title, "No Title").as_str()));
                push_str(&mut line, " (");
                push_all(&mut line, &chars_of(text_arg(&item.link, "No Link").as_str()));
                push_str(&mut line, ")\n   ");
                let snippet = chars_of(text_arg(&item.snippet, "No Snippet").as_str());
                push_all(&mut line, &replace_newlines(&snippet));
                push_str(&mut line, "\n");
                assert(line@ =~= search_line(i as int, v@[i as int]));
                push_all(&mut out, &line);
                i = i + 1;
                assert(out@ =~= head + search_lines(v@, i as int));
            }
            Ok(string_of(&out))
        },
    }
}

/// One part of the image model's reply: whether it has `inlineData.data`,
/// and its text when that is a string.
pub enum InlineData {
    Absent,
    Data(Option<String>),
}

/// The parts of the image model's reply: `candidates[0].content.parts`,
/// when that is an array.
pub open spec fn response_parts(response: Json) -> Option<Seq<Json>> {
    match json_field(response, "candidates"@) {
        Some(c) => match json_item(c, 0) {
            Some(c0) => match json_field(c0, "content"@) {
                Some(ct) => match json_field(ct, "parts"@) {
                    Some(Json::Array(a)) => Some(a@),
                    _ => None,
                },
                None => None,
            },
            None => None,
        },
        None => None,
    }
}

/// `x` is what part `part` says of its image: no `inlineData.data`
/// member, or that member and its text when it is a string.
pub open spec fn inline_data_of(x: InlineData, part: Json) -> bool {
    match json_field(part, "inlineData"@) {
        Some(d) => match json_field(d, "data"@) {
            Some(Json::Str(s)) => x matches InlineData::Data(Some(t)) && t@ == s@,
            Some(_) => x matches InlineData::Data(None),
            None => x is Absent,
        },
        None => x is Absent,
    }
}

fn part_inline_data(part: &Json) -> (r: InlineData)
    ensures
        inline_data_of(r, *part),
{
    match json_field_of(part, "inlineData") {
        Some(d) => match json_field_of(d, "data") {
            Some(Json::Str(s)) => InlineData::Data(Some(copy_string(s))),
            Some(_) => InlineData::Data(None),
            None => InlineData::Absent,
        },
        None => InlineData::Absent,
    }
}

/// The parts of the image model's reply (see `response_parts`), each read
/// for its image data; `Err` when the reply has no parts array.
pub fn image_parts(response: &Json) -> (r: Result<Vec<InlineData>, ()>)
    ensures
        match response_parts(*response) {
            None => r is Err,
            Some(a) => r matches Ok(v) && v@.len() == a.len() && (forall|i: int|
                0 <= i < a.len() ==> inline_data_of(#[trigger] v@[i], a[i])),
        },
{
    let parts = match json_field_of(response, "candidates") {
        Some(c) => match json_item_of(c, 0) {
            Some(c0) => match json_field_of(c0, "content") {
                Some(ct) => match json_field_of(ct, "parts") {
                    Some(Json::Array(a)) => a,
                    _ => return Err(()),
                },
                None => return Err(()),
            },
            None => return Err(()),
        },
        None => return Err(()),
    };
    let mut out: Vec<InlineData> = Vec::new();
    let mut i: usize = 0;
    while i < parts.len()
        invariant
            0 <= i <= parts.len(),
            response_parts(*response) == Some(parts@),
            out@.len() == i,
            forall|k: int| 0 <= k < i ==> inline_data_of(#[trigger] out@[k], parts@[k]),
        decreases parts.len() - i,
    {
        out.push(part_inline_data(&parts[i]));
        i = i + 1;
    }
    Ok(out)
}

/// Why no image came out of the image model's reply.
pub enum ImageError {
    /// No part carries image data as text.
    NoImage,
    /// The image data is not valid base64; the message to report.
    Decode(String),
}

/// The image data of the first part that has `inlineData.data`, if that is text.
pub open spec fn first_inline_data_spec(parts: Seq<InlineData>) -> Option<Seq<char>>
    decreases parts.len(),
{
    if parts.len() == 0 {
        None
    } else {
        match parts[0] {
            InlineData::Data(d) => match d {
                Some(t) => Some(t@),
                None => None,
            },
            InlineData::Absent => first_inline_data_spec(parts.drop_first()),
        }
    }
}

/// `s` without its line breaks (`\n`, `\r`).
pub open spec fn without_line_breaks(s: Seq<char>) -> Seq<char>
    decreases s.len(),
{
    if s.len() == 0 {
        s
    } else {
        let rest = without_line_breaks(s.drop_last());
        if s.last() != '\n' && s.last() != '\r' {
            rest.push(s.last())
        } else {
            rest
        }
    }
}

/// What the `base64` crate's standard engine decodes from `text`, or the
/// text of its error.
pub uninterp spec fn base64_standard_decode(text: Seq<char>) -> Result<Seq<u8>, Seq<char>>;

/// `base64::engine::general_purpose::STANDARD.decode`; claimed to give
/// `base64_standard_decode(text@)`, the error as its text.
#[verifier::external_body]
fn decode_base64(text: &str) -> (r: Result<Vec<u8>, String>)
    ensures
        match r {
            Ok(b) => base64_standard_decode(text@) == Ok::<Seq<u8>, Seq<char>>(b@),
            Err(e) => base64_standard_decode(text@) == Err::<Seq<u8>, Seq<char>>(e@),
        },
{
    base64::engine::general_purpose::STANDARD.decode(text).map_err(|e| e.to_string())
}

/// The image data of the first part that has `inlineData.data`.
pub fn first_inline_data(parts: &Vec<InlineData>) -> (r: Option<String>)
    ensures
        match first_inline_data_spec(parts@) {
            Some(t) => r matches Some(s) && s@ == t,
            None => r is None,
        },
{
    let mut i: usize = 0;
    assert(parts@.skip(0) =~= parts@);
    while i < parts.len()
        invariant
            0 <= i <= parts.len(),
            first_inline_data_spec(parts@) == first_inline_data_spec(parts@.skip(i as int)),
        decreases parts.len() - i,
    {
        assert(parts@.skip(i as int)[0] == parts@[i as int]);
        match &parts[i] {
            InlineData::Data(d) => {
                return match d {
                    Some(t) => Some(string_of(&chars_of(t.as_str()))),
                    None => None,
                };
            },
            InlineData::Absent => {
                assert(parts@.skip(i as int).drop_first() =~= parts@.skip(i + 1));
            },
        }
        i = i + 1;
    }
    None
}

/// `s` without its line breaks.
pub fn strip_line_breaks(s: &str) -> (r: String)
    ensures
        r@ == without_line_breaks(s@),
{
    let v = chars_of(s);
    let mut out: Vec<char> = Vec::new();
    let mut i: usize = 0;
    while i < v.len()
        invariant
            0 <= i <= v.len(),
            out@ == without_line_breaks(v@.take(i as int)),
        decreases v.len() - i,
    {
        proof {
            assert(v@.take(i + 1).drop_last() =~= v@.take(i as int));
        }
        if v[i] != '\n' && v[i] != '\r' {
            out.push(v[i]);
        }
        i = i + 1;
    }
    assert(v@.take(v.len() as int) =~= v@);
    string_of(&out)
}

/// The picture in the image model's reply: the first inline data, without
/// line breaks, decoded from base64.
pub fn decode_image_data(parts: &Vec<InlineData>) -> (r: Result<Vec<u8>, ImageError>)
    ensures
        match first_inline_data_spec(parts@) {
            None => r matches Err(ImageError::NoImage),
            Some(t) => match base64_standard_decode(without_line_breaks(t)) {
                Ok(b) => r matches Ok(v) && v@ == b,
                Err(e) => r matches Err(ImageError::Decode(m)) && m@ == "Failed to decode base64 image: "@ + e,
            },
        },
{
    match first_inline_data(parts) {
        None => Err(ImageError::NoImage),
        Some(t) => {
            let clean = strip_line_breaks(t.as_str());
            match decode_base64(clean.as_str()) {
                Ok(b) => Ok(b),
                Err(e) => {
                    let mut m = chars_of("Failed to decode base64 image: ");
                    push_str(&mut m, e.as_str());
                    Err(ImageError::Decode(string_of(&m)))
                },
            }
        },
    }
}

} // verus!
