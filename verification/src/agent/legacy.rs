//! The first generation of the agent loop, still served by the older
//! backend: a fixed tool list in the prompt, the whole reply kept in the
//! conversation, and errors reported per tool.
use vstd::prelude::*;
use crate::agent::cycle::{
    GeminiContent, MODEL_ACK, entry, extends, holds, observation_text, record_observation,
    replay_role_of, replayed,
};
use crate::agent::parse::{Json, clean_json_input, clean_json_text, json_parse, json_parse_outcome, parse_json_value};
use crate::agent::tools::{ToolInput, ToolRequest, text_or, flag};
use crate::ids::{parse_uuid, uuid_parse};
use crate::text::{
    chars_of, contains, contains_spec, push_str, split, split_spec, string_of, trim, trim_spec,
    views,
};

verus! {

/// The system prompt of the first-generation agent, before the file list.
pub const LEGACY_PROMPT_HEAD: &'static str = r##"You are an industrial data assistant specialized in Tech Transfer and processing technical documents (BOMs, SOPs, Reports).

Available files in this session:
"##;

/// The system prompt of the first-generation agent, after the file list.
pub const LEGACY_PROMPT_TAIL: &'static str = r##"

GUIDELINES:
1. You are an AGENT running in a ReAct (Reasoning + Acting) loop.
2. You must achieve the user's goal by using the available tools.
3. You cannot "see" file contents directly. You MUST use tools like `read_file` (for PDF, DOCX, Text) or `excel_to_csv` (for Excel) to inspect them.
4. When you create a result file, you MUST output a "Final Answer" telling the user the file name and that it is ready.
5. If the user asks for a diagram (e.g. Mermaid), you can include the Mermaid code in your response or in a generated text/markdown file.
6. MANDATORY OUTPUTS (unless explicitly told otherwise):
   - ALWAYS generate a CSV summary of any extracted data lists (e.g., BOMs, Part Lists).
   - ALWAYS generate at least 1-2 visual diagrams or illustrations using `generate_image`, related to the subject matter.
   - ALWAYS create a final Word report (`Summary_Report.docx`) aggregating the key findings, data, and context.
7. Use `generate_image` liberally.
8. USE `create_word_doc` for ALL formal documents (Reports, Proposals, Instructions). DO NOT use `create_text_file` for these; use Word (.docx).
   - For COMPLEX documents, especially those with TABLES, you MUST use the JSON DSL format serialized as a string in `content`.
   - JSON DSL Structure: `[ { "type": "heading", "level": 1, "text": "Title" }, { "type": "paragraph", "text": "Text with **bold**." }, { "type": "table", "headers": ["H1", "H2"], "rows": [["R1C1", "R1C2"]] } ]`
   - Only use plain Markdown for very simple text-only documents.
9. Return the result files when ready.


RESPONSE FORMAT:
You MUST format your output strictly as follows:

Thought: [Your reasoning about what to do next]
Action: [The exact name of the tool to use]
Action Input: [A valid JSON object containing the arguments, and ONLY the JSON object]

OR, if you are done:

Final Answer: [Your response to the user, summarizing what you did]

TOOLS:
1. list_files(): Lists all files available in the current session.
2. get_excel_sheets(blob_id: string): Returns a list of sheet names in an Excel file.
3. excel_to_csv(blob_id: string, sheet_name: string?): Converts a specific sheet of an Excel file to CSV text.
4. read_file(blob_id: string): Reads the text content of a file (PDF, DOCX, or Text).
5. create_excel(file_name: string, rows: string[][]): Creates a new Excel file. 'rows' must be a 2D array of strings.
6. create_word_doc(file_name: string, content: string, image_id: string?): Creates a new Word document. optionally embedding an image by ID.
7. create_pdf_doc(file_name: string, content: string): Creates a new PDF document.
8. create_text_file(file_name: string, content: string): Creates a text file.
9. download_from_url(url: string, file_name: string): Downloads a file from a URL.
10. generate_image(prompt: string, file_name: string): Generates an image based on the prompt.
11. search_internet(query: string): Searches the internet for information about parts, components, or items.

EXAMPLES:

Example 1 (Checking a file):
Thought: I need to read the SOP document to understand the process.
Action: read_file
Action Input: { "blob_id": "uuid-of-file" }

Example 2 (Creating result with Tables):
Thought: I need to create a report with a table of data. I will use the JSON DSL for `create_word_doc` to ensure the table is formatted correctly.
Action: create_word_doc
Action Input: { "file_name": "Data_Summary.docx", "content": "[{\"type\":\"heading\",\"level\":1,\"text\":\"Data Summary\"},{\"type\":\"paragraph\",\"text\":\"Here is the extracted data:\"},{\"type\":\"table\",\"headers\":[\"Item\",\"Value\"],\"rows\":[[\"Part A\",\"10\"],[\"Part B\",\"20\"]]}]" }

Example 3 (Done):
Final Answer: I have created the report 'Tech_Transfer_Report.docx'.

Begin!
"##;

/// How many model turns one first-generation run may take.
pub const LEGACY_MAX_CYCLES: usize = 15;

/// What the first-generation loop answers an action without an argument.
pub const MISSING_INPUT_OBSERVATION: &'static str = "Error: Found 'Action:' but missing 'Action Input:'. Please provide the arguments in JSON format.";

/// The captured tool name of the first line `Action: {name}` (no leading
/// space, case as written) that the `regex` crate finds in `text`.
pub uninterp spec fn legacy_action_match(text: Seq<char>) -> Option<Seq<char>>;

/// Runs the `regex` crate's `Regex::captures` with the pattern
/// `(?m)^Action:\s*(?P<action>\w+)\s*$` on `text`; claimed to give the
/// capture named by `legacy_action_match(text@)`.
#[verifier::external_body]
fn legacy_match_action(text: &str) -> (r: Option<String>)
    ensures
        match legacy_action_match(text@) {
            Some(a) => r matches Some(s) && s@ == a,
            None => r is None,
        },
{
    let re = regex::Regex::new(r"(?m)^Action:\s*(?P<action>\w+)\s*$").unwrap();
    re.captures(text).map(|caps| caps.name("action").unwrap().as_str().to_string())
}

/// The first-generation system prompt for the file list `blobs`.
pub open spec fn legacy_prompt_spec(blobs: Seq<char>) -> Seq<char> {
    LEGACY_PROMPT_HEAD@ + blobs + LEGACY_PROMPT_TAIL@
}

/// The first-generation system prompt for the file list `blobs_str`.
pub fn legacy_system_prompt(blobs_str: &str) -> (r: String)
    ensures
        r@ == legacy_prompt_spec(blobs_str@),
{
    let mut out = chars_of(LEGACY_PROMPT_HEAD);
    push_str(&mut out, blobs_str);
    push_str(&mut out, LEGACY_PROMPT_TAIL);
    string_of(&out)
}

/// The conversation that opens a first-generation run: the system prompt,
/// the model's acknowledgement, and the stored (role, content) messages.
pub fn legacy_opening_history(prompt: String, messages: &Vec<(String, String)>) -> (h: Vec<GeminiContent>)
    ensures
        holds(h@, seq![("user"@, prompt@), ("model"@, MODEL_ACK@)] + replayed(messages@)),
{
    let ghost p = prompt@;
    let mut h: Vec<GeminiContent> = Vec::new();
    h.push(entry("user", prompt));
    h.push(entry("model", string_of(&chars_of(MODEL_ACK))));
    let ghost base0 = seq![("user"@, p), ("model"@, MODEL_ACK@)];
    let mut i: usize = 0;
    while i < messages.len()
        invariant
            0 <= i <= messages.len(),
            holds(h@, base0 + replayed(messages@).take(i as int)),
        decreases messages.len() - i,
    {
        let role = replay_role_of(messages[i].0.as_str());
        let content = string_of(&chars_of(messages[i].1.as_str()));
        h.push(entry(role, content));
        i = i + 1;
        proof {
            let m = base0 + replayed(messages@).take(i as int);
            let m0 = base0 + replayed(messages@).take(i - 1);
            assert(m =~= m0.push((crate::agent::cycle::replay_role(messages@[i - 1].0@), messages@[i - 1].1@)));
            assert forall|k: int| 0 <= k < h@.len() implies crate::agent::cycle::is_entry(#[trigger] h@[k], m[k].0, m[k].1) by {
                if k < h@.len() - 1 {
                    assert(m[k] == m0[k]);
                }
            }
        }
    }
    assert(replayed(messages@).take(messages.len() as int) =~= replayed(messages@));
    h
}

/// What the first-generation loop does after a model reply.
pub enum LegacyStep {
    /// The reply holds `Final Answer:`: the run ends with the whole reply.
    Finish { answer: String },
    /// The reply asks for tool `action` with argument `input`.
    CallTool { action: String, input: Json },
    /// The step could not be run; an observation saying why was added.
    Observed,
    /// The reply has no action: the run ends with it.
    Reply { text: String },
}

/// The argument text of a first-generation reply: after the last
/// `Action Input:`, trimmed and cleaned of code fences and a `json` tag.
pub open spec fn legacy_argument(t: Seq<char>) -> Option<Seq<char>> {
    let parts = split_spec(t, "Action Input:"@);
    if parts.len() < 2 {
        None
    } else {
        Some(clean_json_input(trim_spec(parts.last())))
    }
}

/// What the first-generation loop does with reply `ai_text`. The trimmed
/// reply is always recorded first; then a final answer ends the run with
/// it, a reply without an action line ends the run with it, an action
/// without argument or with an argument that is not JSON adds an error
/// observation, and a readable step asks for the tool.
pub fn legacy_step(history: &mut Vec<GeminiContent>, ai_text: &str) -> (step: LegacyStep)
    ensures
        ({
            let t = trim_spec(ai_text@);
            &&& final(history)@.len() > old(history)@.len()
            &&& extends(final(history)@.take(old(history)@.len() + 1int), old(history)@, seq![("model"@, t)])
            &&& match step {
                LegacyStep::Finish { answer } => contains_spec(t, "Final Answer:"@) && answer@ == t
                    && final(history)@.len() == old(history)@.len() + 1,
                LegacyStep::Reply { text } => !contains_spec(t, "Final Answer:"@)
                    && legacy_action_match(t) is None && text@ == t
                    && final(history)@.len() == old(history)@.len() + 1,
                LegacyStep::CallTool { action, input } => !contains_spec(t, "Final Answer:"@)
                    && legacy_action_match(t) == Some(action@)
                    && final(history)@.len() == old(history)@.len() + 1
                    && (legacy_argument(t) matches Some(j) && json_parse(j) == Ok::<Json, Seq<char>>(input)),
                LegacyStep::Observed => !contains_spec(t, "Final Answer:"@)
                    && legacy_action_match(t) is Some
                    && extends(
                        final(history)@,
                        final(history)@.take(old(history)@.len() + 1int),
                        seq![
                            (
                                "user"@,
                                observation_text(
                                    match legacy_argument(t) {
                                        None => MISSING_INPUT_OBSERVATION@,
                                        Some(j) => match json_parse_outcome(j) {
                                            Err(e) => "Error: Failed to parse JSON arguments: "@ + e
                                                + ". Ensure 'Action Input' is valid JSON."@,
                                            Ok(_) => Seq::empty(),
                                        },
                                    },
                                ),
                            ),
                        ],
                    ),
            }
        }),
{
    let t = trim(&chars_of(ai_text));
    let ts = string_of(&t);
    history.push(entry("model", string_of(&t)));
    let ghost mid = history@;
    proof {
        assert(history@.take(old(history)@.len() as int) =~= old(history)@);
        assert(history@.take(old(history)@.len() + 1int) =~= history@);
    }
    if contains(&t, &chars_of("Final Answer:")) {
        return LegacyStep::Finish { answer: ts };
    }
    match legacy_match_action(ts.as_str()) {
        None => LegacyStep::Reply { text: ts },
        Some(action) => {
            let sep = chars_of("Action Input:");
            proof {
                reveal_strlit("Action Input:");
            }
            let parts = split(&t, &sep);
            if parts.len() < 2 {
                record_observation(history, MISSING_INPUT_OBSERVATION);
                proof {
                    assert(final(history)@.take(old(history)@.len() + 1int) =~= mid);
                }
                return LegacyStep::Observed;
            }
            let last = trim(&parts[parts.len() - 1]);
            assert(views(parts@).last() == parts@[parts.len() - 1]@);
            let cleaned = clean_json_text(&last);
            match parse_json_value(string_of(&cleaned).as_str()) {
                Ok(v) => LegacyStep::CallTool { action, input: v },
                Err(e) => {
                    let mut m = chars_of("Error: Failed to parse JSON arguments: ");
                    push_str(&mut m, e.as_str());
                    push_str(&mut m, ". Ensure 'Action Input' is valid JSON.");
                    record_observation(history, string_of(&m).as_str());
                    proof {
                        assert(final(history)@.take(old(history)@.len() + 1int) =~= mid);
                    }
                    LegacyStep::Observed
                },
            }
        },
    }
}

/// What the first-generation loop does with a readable tool step.
pub enum LegacyCall {
    /// Run the tool.
    Run(ToolRequest),
    /// Report this observation instead.
    Observe(String),
}

/// The tool names that the first-generation loop knows, as it lists them.
pub open spec fn legacy_unknown(action: Seq<char>) -> Seq<char> {
    "Error: Unknown action '"@ + action
        + "'. Available tools are: list_files, get_excel_sheets, excel_to_csv, read_file, create_excel, create_word_doc, create_pdf_doc, create_text_file, download_from_url, generate_image, search_internet."@
}

/// `c` is the first-generation handling of tool `action` with the
/// arguments `input` and the search query `query`.
pub open spec fn legacy_decoded(action: Seq<char>, input: ToolInput, query: Option<String>, c: LegacyCall) -> bool {
    if action == "list_files"@ {
        c matches LegacyCall::Run(ToolRequest::ListFiles)
    } else if action == "get_excel_sheets"@ || action == "read_file"@ || action == "excel_to_csv"@ {
        match input.blob_id {
            None => c matches LegacyCall::Observe(m) && m@ == "Error: Missing 'blob_id' in arguments"@,
            Some(s) => match uuid_parse(s@) {
                Err(_) => c matches LegacyCall::Observe(m) && m@ == "Error: Invalid UUID for blob_id"@,
                Ok(id) => if action == "get_excel_sheets"@ {
                    c matches LegacyCall::Run(ToolRequest::ExcelSheets { blob_id }) && blob_id == id
                } else if action == "read_file"@ {
                    c matches LegacyCall::Run(ToolRequest::ReadFile { blob_id }) && blob_id == id
                } else {
                    c matches LegacyCall::Run(ToolRequest::ExcelToCsv { blob_id, sheet_name })
                        && blob_id == id && sheet_name == input.sheet_name
                },
            },
        }
    } else if action == "create_excel"@ {
        match input.rows {
            None => c matches LegacyCall::Observe(m) && m@ == "Error: 'rows' must be an array of arrays"@,
            Some(rows) => c matches LegacyCall::Run(ToolRequest::CreateExcel { file_name, rows: out, replace_existing })
                && file_name@ == text_or(input.file_name, "output.xlsx"@)
                && crate::agent::tools::table_texts(out@) == crate::agent::tools::rows_spec(rows@)
                && !replace_existing,
        }
    } else if action == "create_word_doc"@ || action == "create_pdf_doc"@ || action == "create_text_file"@ {
        match input.content {
            None => c matches LegacyCall::Observe(m) && m@ == "Error: Missing 'content' argument"@,
            Some(body) => if action == "create_word_doc"@ {
                c matches LegacyCall::Run(ToolRequest::CreateWordDoc { file_name, content, image_id, replace_existing })
                    && file_name@ == text_or(input.file_name, "output.docx"@) && content@ == body@
                    && image_id == match input.image_id {
                        Some(s) => match uuid_parse(s@) {
                            Ok(v) => Some(v),
                            Err(_) => None,
                        },
                        None => None,
                    } && !replace_existing
            } else if action == "create_pdf_doc"@ {
                c matches LegacyCall::Run(ToolRequest::CreatePdfDoc { file_name, content, replace_existing })
                    && file_name@ == text_or(input.file_name, "output.pdf"@) && content@ == body@
                    && !replace_existing
            } else {
                c matches LegacyCall::Run(ToolRequest::CreateTextFile { file_name, content, replace_existing })
                    && file_name@ == text_or(input.file_name, "output.txt"@) && content@ == body@
                    && !replace_existing
            },
        }
    } else if action == "download_from_url"@ {
        match input.url {
            None => c matches LegacyCall::Observe(m) && m@ == "Error: Missing 'url' argument"@,
            Some(u) => c matches LegacyCall::Run(ToolRequest::DownloadFromUrl { url, file_name, replace_existing })
                && url@ == u@ && file_name@ == text_or(input.file_name, "downloaded_file"@) && !replace_existing,
        }
    } else if action == "generate_image"@ {
        match input.prompt {
            None => c matches LegacyCall::Observe(m) && m@ == "Error: Missing 'prompt' argument"@,
            Some(p) => c matches LegacyCall::Run(ToolRequest::GenerateImage { prompt, file_name, replace_existing })
                && prompt@ == p@ && file_name@ == text_or(input.file_name, "generated_image.png"@)
                && !replace_existing,
        }
    } else if action == "search_internet"@ {
        match query {
            None => c matches LegacyCall::Observe(m) && m@ == "Error: Missing 'query' argument"@,
            Some(q) => c matches LegacyCall::Run(ToolRequest::SearchInternet { query: rq }) && rq@ == q@,
        }
    } else {
        c matches LegacyCall::Observe(m) && m@ == legacy_unknown(action)
    }
}

fn same(a: &str, b: &str) -> (r: bool)
    ensures
        r == (a@ == b@),
{
    crate::text::same_text(a, b)
}

fn copy(s: &String) -> (r: String)
    ensures
        r@ == s@,
{
    string_of(&chars_of(s.as_str()))
}

fn name_or(v: &Option<String>, default: &str) -> (r: String)
    ensures
        r@ == text_or(*v, default@),
{
    match v {
        Some(s) => copy(s),
        None => string_of(&chars_of(default)),
    }
}

fn observe(m: &str) -> (c: LegacyCall)
    ensures
        c matches LegacyCall::Observe(t) && t@ == m@,
{
    LegacyCall::Observe(string_of(&chars_of(m)))
}

/// How the first-generation loop handles tool `action` with `input` and
/// the search query `query` (see `legacy_decoded`).
pub fn legacy_tool_call(action: &str, input: &ToolInput, query: &Option<String>) -> (c: LegacyCall)
    ensures
        legacy_decoded(action@, *input, *query, c),
{
    if same(action, "list_files") {
        LegacyCall::Run(ToolRequest::ListFiles)
    } else if same(action, "get_excel_sheets") || same(action, "read_file") || same(action, "excel_to_csv") {
        match &input.blob_id {
            None => observe("Error: Missing 'blob_id' in arguments"),
            Some(s) => match parse_uuid(s.as_str()) {
                Err(_) => observe("Error: Invalid UUID for blob_id"),
                Ok(id) => if same(action, "get_excel_sheets") {
                    LegacyCall::Run(ToolRequest::ExcelSheets { blob_id: id })
                } else if same(action, "read_file") {
                    LegacyCall::Run(ToolRequest::ReadFile { blob_id: id })
                } else {
                    LegacyCall::Run(ToolRequest::ExcelToCsv { blob_id: id, sheet_name: input.sheet_name.clone() })
                },
            },
        }
    } else if same(action, "create_excel") {
        match &input.rows {
            None => observe("Error: 'rows' must be an array of arrays"),
            Some(rows) => LegacyCall::Run(
                ToolRequest::CreateExcel {
                    file_name: name_or(&input.file_name, "output.xlsx"),
                    rows: crate::agent::tools::table_of_rows(rows),
                    replace_existing: false,
                },
            ),
        }
    } else if same(action, "create_word_doc") || same(action, "create_pdf_doc") || same(action, "create_text_file") {
        match &input.content {
            None => observe("Error: Missing 'content' argument"),
            Some(body) => if same(action, "create_word_doc") {
                let image_id = match &input.image_id {
                    Some(s) => match parse_uuid(s.as_str()) {
                        Ok(v) => Some(v),
                        Err(_) => None,
                    },
                    None => None,
                };
                LegacyCall::Run(
                    ToolRequest::CreateWordDoc {
                        file_name: name_or(&input.file_name, "output.docx"),
                        content: copy(body),
                        image_id,
                        replace_existing: false,
                    },
                )
            } else if same(action, "create_pdf_doc") {
                LegacyCall::Run(
                    ToolRequest::CreatePdfDoc {
                        file_name: name_or(&input.file_name, "output.pdf"),
                        content: copy(body),
                        replace_existing: false,
                    },
                )
            } else {
                LegacyCall::Run(
                    ToolRequest::CreateTextFile {
                        file_name: name_or(&input.file_name, "output.txt"),
                        content: copy(body),
                        replace_existing: false,
                    },
                )
            },
        }
    } else if same(action, "download_from_url") {
        match &input.url {
            None => observe("Error: Missing 'url' argument"),
            Some(u) => LegacyCall::Run(
                ToolRequest::DownloadFromUrl {
                    url: copy(u),
                    file_name: name_or(&input.file_name, "downloaded_file"),
                    replace_existing: false,
                },
            ),
        }
    } else if same(action, "generate_image") {
        match &input.prompt {
            None => observe("Error: Missing 'prompt' argument"),
            Some(p) => LegacyCall::Run(
                ToolRequest::GenerateImage {
                    prompt: copy(p),
                    file_name: name_or(&input.file_name, "generated_image.png"),
                    replace_existing: false,
                },
            ),
        }
    } else if same(action, "search_internet") {
        match query {
            None => observe("Error: Missing 'query' argument"),
            Some(q) => LegacyCall::Run(ToolRequest::SearchInternet { query: copy(q) }),
        }
    } else {
        let mut m = chars_of("Error: Unknown action '");
        push_str(&mut m, action);
        push_str(
            &mut m,
            "'. Available tools are: list_files, get_excel_sheets, excel_to_csv, read_file, create_excel, create_word_doc, create_pdf_doc, create_text_file, download_from_url, generate_image, search_internet.",
        );
        LegacyCall::Observe(string_of(&m))
    }
}

/// The observation that the first-generation loop reports when tool
/// request `req` failed with `error`; `None` for the file list, whose
/// failure ends the run.
pub open spec fn legacy_failure_spec(req: ToolRequest, error: Seq<char>) -> Option<Seq<char>> {
    match req {
        ToolRequest::ListFiles => None,
        ToolRequest::ExcelSheets { .. } => Some("Error reading sheets: "@ + error),
        ToolRequest::ExcelToCsv { .. } => Some("Error converting excel: "@ + error),
        ToolRequest::ReadFile { .. } => Some("Error reading file: "@ + error),
        ToolRequest::CreateExcel { .. } => Some("Error creating excel: "@ + error),
        ToolRequest::CreateWordDoc { .. } => Some("Error creating word doc: "@ + error),
        ToolRequest::CreatePdfDoc { .. } => Some("Error creating PDF: "@ + error),
        ToolRequest::CreateTextFile { .. } => Some("Error creating file: "@ + error),
        ToolRequest::DownloadFromUrl { .. } => Some("Error downloading: "@ + error),
        ToolRequest::GenerateImage { .. } => Some("Error generating image: "@ + error),
        ToolRequest::SearchInternet { .. } => Some("Error searching: "@ + error),
    }
}

fn prefixed(head: &str, error: &str) -> (r: Option<String>)
    ensures
        r matches Some(s) && s@ == head@ + error@,
{
    let mut m = chars_of(head);
    push_str(&mut m, error);
    Some(string_of(&m))
}

/// The observation for a failed first-generation tool run (see
/// `legacy_failure_spec`).
pub fn legacy_failure_observation(req: &ToolRequest, error: &str) -> (r: Option<String>)
    ensures
        match legacy_failure_spec(*req, error@) {
            Some(t) => r matches Some(s) && s@ == t,
            None => r is None,
        },
{
    match req {
        ToolRequest::ListFiles => None,
        ToolRequest::ExcelSheets { .. } => prefixed("Error reading sheets: ", error),
        ToolRequest::ExcelToCsv { .. } => prefixed("Error converting excel: ", error),
        ToolRequest::ReadFile { .. } => prefixed("Error reading file: ", error),
        ToolRequest::CreateExcel { .. } => prefixed("Error creating excel: ", error),
        ToolRequest::CreateWordDoc { .. } => prefixed("Error creating word doc: ", error),
        ToolRequest::CreatePdfDoc { .. } => prefixed("Error creating PDF: ", error),
        ToolRequest::CreateTextFile { .. } => prefixed("Error creating file: ", error),
        ToolRequest::DownloadFromUrl { .. } => prefixed("Error downloading: ", error),
        ToolRequest::GenerateImage { .. } => prefixed("Error generating image: ", error),
        ToolRequest::SearchInternet { .. } => prefixed("Error searching: ", error),
    }
}

} // verus!
