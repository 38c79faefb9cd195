//! One pass of the agent loop: the system prompt, the conversation sent to
//! the model, and what each model reply asks the loop to do next.
use vstd::prelude::*;
use crate::agent::parse::{Json, action_parts, json_parse, json_text_accepted, parse_agent_response};
use crate::text::{
    chars_of, contains, contains_spec, copy_range, find, find_from, find_spec, join_lines, join_spec,
    push_all, push_str, same_text, string_of, trim, trim_spec, views,
};

verus! {

/// One part of a message in the model's conversation format.
pub struct GeminiPart {
    pub text: Option<String>,
}

/// One message of the conversation: a role (`user` or `model`) and its parts.
pub struct GeminiContent {
    pub role: String,
    pub parts: Vec<GeminiPart>,
}

/// One candidate answer of the model.
pub struct GeminiCandidate {
    pub content: GeminiContent,
}

/// The model's reply to one request.
pub struct GeminiResponse {
    pub candidates: Vec<GeminiCandidate>,
}

/// The text of the system prompt before the list of session files.
pub const PROMPT_HEAD: &'static str = r##"You are an industrial data assistant specialized in Tech Transfer and processing technical documents (BOMs, SOPs, Reports).

Available files in this session:
"##;

/// The text of the system prompt between the file list and the tool list.
pub const PROMPT_MIDDLE: &'static str = r##"

GUIDELINES:
1. You are an AGENT running in a ReAct (Reasoning + Acting) loop. 
2. You must achieve the user's goal by using the available tools.
3. You cannot "see" file contents directly. You MUST use tools like `read_file` (for PDF, DOCX, Text) or `excel_to_csv` (for Excel) to inspect them.
4. IMAGE GENERATION: Use `generate_image` to create technical illustrations, flowcharts, or visual aids. 
   - When you call `generate_image`, the tool returns an ID (UUID) in the observation.
   - You can then use this ID as the `image_id` argument in `create_word_doc` to embed that image into the document.
5. UPDATING FILES: If you need to update a file that might already exist (e.g. "metadata.json" or a draft report), always set `replace_existing: true` in the tool arguments. This prevents creating duplicate files with the same name.
6. If the user asks for a diagram (e.g. Mermaid), you can include the Mermaid code in your response or in a generated text/markdown file.
7. MANDATORY OUTPUTS:
   - Follow the specific instructions provided in the user's current request.
   - If the user asks for files, create them.
   - If the user asks for analysis, provide it.
   - **ACTION BIAS**: If the request is vague, MAKE REASONABLE ASSUMPTIONS and proceed with generation. Do not stop to ask for clarification unless absolutely necessary.
8. COMPOSING DOCUMENTS: You can use multiple tools in sequence. For example, read session files -> analyze data -> `generate_image` for a visual -> `create_word_doc` using the generated image ID.
9. USE `create_word_doc` for ALL formal documents (Reports, Proposals, Instructions). DO NOT use `create_text_file` for these; use Word (.docx).
   - For COMPLEX documents, especially those with TABLES, you MUST use the JSON DSL format serialized as a string in `content`.
   - JSON DSL Structure: `[ { "type": "heading", "level": 1, "text": "Title" }, { "type": "paragraph", "text": "Text with **bold**." }, { "type": "table", "headers": ["H1", "H2"], "rows": [["R1C1", "R1C2"]] } ]`
   - Only use plain Markdown for very simple text-only documents.


RESPONSE FORMAT:
You MUST format your output as follows.

To use a tool:
Thought: I need to [reasoning]
Action: [tool_name]
Action Input: { [valid_json_arguments] }

To provide the final response to the user:
Final Answer: [your response]

IMPORTANT:
1. "Action:" must match a tool name exactly (e.g. `read_file`).
2. "Action Input:" must be a valid JSON object. Do not add markdown backticks.
3. When you provide a "Final Answer", the agent loop stops. Ensure you have completed the task.

TOOLS:
"##;

/// The text of the system prompt after the tool list.
pub const PROMPT_TAIL: &'static str = r##"

Begin!
"##;

/// The model's acknowledgement that opens every conversation.
pub const MODEL_ACK: &'static str = "Understood. I will interpret the user's request and use the tools step-by-step.";

/// What the loop answers a reply that mentions `Action:` in a form it cannot read.
pub const FORMAT_ERROR_OBSERVATION: &'static str = "Error: I detected 'Action:' but the format was incorrect. usage:\nAction: <tool_name>\nAction Input: <json>";

/// What the loop answers a reply with neither a final answer nor an action.
pub const NO_ACTION_OBSERVATION: &'static str = "System Warning: You did not provide a 'Final Answer:' or an 'Action:'. Please format your response strictly. If you are done or asking a question, use 'Final Answer:'.";

/// How many model turns one agent run may take.
pub const MAX_AGENT_CYCLES: usize = 25;

/// How many times a request refused for its rate is sent again.
pub const MAX_RATE_LIMIT_RETRIES: u32 = 3;

/// `c` is a message with role `role` and the single text part `text`.
pub open spec fn is_entry(c: GeminiContent, role: Seq<char>, text: Seq<char>) -> bool {
    &&& c.role@ == role
    &&& c.parts@.len() == 1
    &&& c.parts@[0].text matches Some(t) && t@ == text
}

/// The conversation `h` holds exactly the (role, text) messages `m`.
pub open spec fn holds(h: Seq<GeminiContent>, m: Seq<(Seq<char>, Seq<char>)>) -> bool {
    &&& h.len() == m.len()
    &&& forall|i: int| 0 <= i < h.len() ==> is_entry(#[trigger] h[i], m[i].0, m[i].1)
}

/// `h` is `old` with the messages `m` appended.
pub open spec fn extends(h: Seq<GeminiContent>, old: Seq<GeminiContent>, m: Seq<(Seq<char>, Seq<char>)>) -> bool {
    &&& h.len() == old.len() + m.len()
    &&& h.take(old.len() as int) == old
    &&& forall|i: int|
        old.len() <= i < h.len() ==> is_entry(#[trigger] h[i], m[i - old.len()].0, m[i - old.len()].1)
}

/// The system prompt for the file list `blobs` and the tool list `tools`.
pub open spec fn system_prompt_spec(blobs: Seq<char>, tools: Seq<char>) -> Seq<char> {
    PROMPT_HEAD@ + blobs + PROMPT_MIDDLE@ + tools + PROMPT_TAIL@
}

/// One line of the file list: `- {name} (ID: {id})`.
pub open spec fn blob_line(id: Seq<char>, name: Seq<char>) -> Seq<char> {
    "- "@ + name + " (ID: "@ + id + ")"@
}

/// The lines of the file list for the (id, name) pairs `blobs`.
pub open spec fn blob_lines(blobs: Seq<(String, String)>) -> Seq<Seq<char>> {
    Seq::new(blobs.len(), |i: int| blob_line(blobs[i].0@, blobs[i].1@))
}

/// The role under which a stored message is replayed to the model.
pub open spec fn replay_role(role: Seq<char>) -> Seq<char> {
    if role == "assistant"@ {
        "model"@
    } else {
        "user"@
    }
}

/// The stored messages, as the model sees them.
pub open spec fn replayed(messages: Seq<(String, String)>) -> Seq<(Seq<char>, Seq<char>)> {
    Seq::new(messages.len(), |i: int| (replay_role(messages[i].0@), messages[i].1@))
}

/// The conversation that opens an agent run: the system prompt, the model's
/// acknowledgement, the stored messages, and the user's query unless the
/// stored messages already end with it.
pub open spec fn opening_messages(
    prompt: Seq<char>,
    messages: Seq<(String, String)>,
    query: Seq<char>,
) -> Seq<(Seq<char>, Seq<char>)> {
    let base = seq![("user"@, prompt), ("model"@, MODEL_ACK@)] + replayed(messages);
    if base.last() == ("user"@, query) {
        base
    } else {
        base.push(("user"@, query))
    }
}

/// The text of the model's reply: the first part of the first candidate.
pub open spec fn reply_text(resp: GeminiResponse) -> Option<Seq<char>> {
    if resp.candidates@.len() > 0 && resp.candidates@[0].content.parts@.len() > 0 {
        match resp.candidates@[0].content.parts@[0].text {
            Some(t) => Some(t@),
            None => None,
        }
    } else {
        None
    }
}

/// An observation message as the loop sends it back.
pub open spec fn observation_text(obs: Seq<char>) -> Seq<char> {
    "Observation: "@ + obs
}

/// What the loop does after a model reply.
pub enum AgentStep {
    /// The reply holds a final answer: the run ends with `answer`.
    Finish { answer: String },
    /// The reply asks for tool `action` with argument `input`.
    CallTool { action: String, input: Json },
    /// The reply could not be acted on; a corrective observation was added.
    Retry,
}

/// The message `role: text`.
pub fn entry(role: &str, text: String) -> (c: GeminiContent)
    ensures
        is_entry(c, role@, text@),
{
    let mut parts: Vec<GeminiPart> = Vec::new();
    parts.push(GeminiPart { text: Some(text) });
    GeminiContent { role: string_of(&chars_of(role)), parts }
}

/// The file list of the system prompt: one `- {name} (ID: {id})` line per
/// (id, name) pair, joined by newlines.
pub fn blob_listing(blobs: &Vec<(String, String)>) -> (r: String)
    ensures
        r@ == join_spec(blob_lines(blobs@), "\n"@),
{
    let mut lines: Vec<Vec<char>> = Vec::new();
    let mut i: usize = 0;
    while i < blobs.len()
        invariant
            0 <= i <= blobs.len(),
            lines@.len() == i,
            forall|k: int| 0 <= k < i ==> (#[trigger] lines@[k])@ == blob_line(blobs@[k].0@, blobs@[k].1@),
        decreases blobs.len() - i,
    {
        let mut line = chars_of("- ");
        push_str(&mut line, blobs[i].1.as_str());
        push_str(&mut line, " (ID: ");
        push_str(&mut line, blobs[i].0.as_str());
        push_str(&mut line, ")");
        lines.push(line);
        i = i + 1;
    }
    assert(views(lines@) =~= blob_lines(blobs@));
    let r = join_lines(&lines, &chars_of("\n"));
    string_of(&r)
}

/// The system prompt for the file list `blobs_str` and the tool list
/// `tool_descriptions`.
pub fn system_prompt(blobs_str: &str, tool_descriptions: &str) -> (r: String)
    ensures
        r@ == system_prompt_spec(blobs_str@, tool_descriptions@),
{
    let mut out = chars_of(PROMPT_HEAD);
    push_str(&mut out, blobs_str);
    push_str(&mut out, PROMPT_MIDDLE);
    push_str(&mut out, tool_descriptions);
    push_str(&mut out, PROMPT_TAIL);
    string_of(&out)
}

/// The role under which a stored message with role `role` is replayed.
pub fn replay_role_of(role: &str) -> (r: &'static str)
    ensures
        r@ == replay_role(role@),
{
    if same_text(role, "assistant") {
        "model"
    } else {
        "user"
    }
}

/// The conversation that opens an agent run (see `opening_messages`); the
/// stored messages are (role, content) pairs in creation order.
pub fn opening_history(prompt: String, messages: &Vec<(String, String)>, user_query: &str) -> (h: Vec<GeminiContent>)
    ensures
        holds(h@, opening_messages(prompt@, messages@, user_query@)),
{
    let ghost p = prompt@;
    let mut h: Vec<GeminiContent> = Vec::new();
    h.push(entry("user", prompt));
    h.push(entry("model", string_of(&chars_of(MODEL_ACK))));
    let ghost base0 = seq![("user"@, p), ("model"@, MODEL_ACK@)];
    let mut i: usize = 0;
    while i < messages.len()
        invariant
            0 <= i <= messages.len(),
            holds(h@, base0 + replayed(messages@).take(i as int)),
        decreases messages.len() - i,
    {
        let role = replay_role_of(messages[i].0.as_str());
        let content = string_of(&chars_of(messages[i].1.as_str()));
        h.push(entry(role, content));
        i = i + 1;
        proof {
            let m = base0 + replayed(messages@).take(i as int);
            let m0 = base0 + replayed(messages@).take(i - 1);
            assert(m =~= m0.push((replay_role(messages@[i - 1].0@), messages@[i - 1].1@)));
            assert forall|k: int| 0 <= k < h@.len() implies is_entry(#[trigger] h@[k], m[k].0, m[k].1) by {
                if k < h@.len() - 1 {
                    assert(m[k] == m0[k]);
                }
            }
        }
    }
    let ghost base = base0 + replayed(messages@);
    assert(replayed(messages@).take(messages.len() as int) =~= replayed(messages@));
    let last = h.len() - 1;
    let matches_query = same_text(h[last].role.as_str(), "user") && match &h[last].parts[0].text {
        Some(t) => same_text(t.as_str(), user_query),
        None => false,
    };
    if !matches_query {
        h.push(entry("user", string_of(&chars_of(user_query))));
        proof {
            let m = base.push(("user"@, user_query@));
            assert forall|k: int| 0 <= k < h@.len() implies is_entry(#[trigger] h@[k], m[k].0, m[k].1) by {
                if k < h@.len() - 1 {
                    assert(m[k] == base[k]);
                }
            }
        }
    }
    h
}

/// The text of the model's reply, if it has one.
pub fn first_candidate_text(resp: &GeminiResponse) -> (r: Option<String>)
    ensures
        match r {
            Some(t) => reply_text(*resp) == Some(t@),
            None => reply_text(*resp) is None,
        },
{
    if resp.candidates.len() > 0 && resp.candidates[0].content.parts.len() > 0 {
        match &resp.candidates[0].content.parts[0].text {
            Some(t) => Some(string_of(&chars_of(t.as_str()))),
            None => None,
        }
    } else {
        None
    }
}

/// Appends `Observation: {observation}` to the conversation as a user message.
pub fn record_observation(history: &mut Vec<GeminiContent>, observation: &str)
    ensures
        extends(final(history)@, old(history)@, seq![("user"@, observation_text(observation@))]),
{
    let mut t = chars_of("Observation: ");
    push_str(&mut t, observation);
    history.push(entry("user", string_of(&t)));
    proof {
        assert(final(history)@.take(old(history)@.len() as int) =~= old(history)@);
        assert(final(history)@[old(history)@.len() as int] == final(history)@.last());
    }
}

/// The observation reported when tool `action` failed with `error`.
pub fn tool_error_observation(action: &str, error: &str) -> (r: String)
    ensures
        r@ == "Error calling tool "@ + action@ + ": "@ + error@,
{
    let mut t = chars_of("Error calling tool ");
    push_str(&mut t, action);
    push_str(&mut t, ": ");
    push_str(&mut t, error);
    string_of(&t)
}

/// Whether a request answered with `status` is sent again after `retries`
/// earlier retries: only a rate refusal (429), at most three times.
pub fn should_retry_request(status: u16, retries: u32) -> (r: bool)
    ensures
        r == (status == 429 && retries < MAX_RATE_LIMIT_RETRIES),
{
    status == 429 && retries < MAX_RATE_LIMIT_RETRIES
}

/// The turn the agent loop takes after `used` model turns without a final
/// answer: the next one, numbered from 1, while the budget of
/// `MAX_AGENT_CYCLES` lasts; `None` when it is spent.
pub fn next_cycle(used: usize) -> (r: Option<usize>)
    ensures
        used < MAX_AGENT_CYCLES ==> r == Some((used + 1) as usize),
        used >= MAX_AGENT_CYCLES ==> r is None,
{
    if used < MAX_AGENT_CYCLES {
        Some(used + 1)
    } else {
        None
    }
}

/// What the model client does with a reply of `status` after `retries`
/// retries.
pub enum RetryStep {
    /// Wait, then send the request again; `retries` is the new count.
    Again { retries: u32 },
    /// Go on with this reply.
    Proceed,
}

/// The retry decision for a reply of `status` after `retries` retries: a
/// rate refusal (429) is sent again, at most `MAX_RATE_LIMIT_RETRIES` times
/// (see `should_retry_request`).
pub fn retry_step(status: u16, retries: u32) -> (r: RetryStep)
    ensures
        should_retry_spec(status, retries) ==> r == (RetryStep::Again { retries: (retries + 1) as u32 }),
        !should_retry_spec(status, retries) ==> r is Proceed,
{
    if should_retry_request(status, retries) {
        RetryStep::Again { retries: retries + 1 }
    } else {
        RetryStep::Proceed
    }
}

/// A reply of `status` after `retries` retries is sent again.
pub open spec fn should_retry_spec(status: u16, retries: u32) -> bool {
    status == 429 && retries < MAX_RATE_LIMIT_RETRIES
}

/// The answer of a run that used all its cycles without a final answer.
pub fn cycles_exhausted_answer() -> (r: String)
    ensures
        r@ == "Terminated: Maximum agent cycles reached without Final Answer."@,
{
    string_of(&chars_of("Terminated: Maximum agent cycles reached without Final Answer."))
}

/// What the loop does with the model reply `ai_text`, and what it adds to
/// the conversation. The reply is trimmed first. A reply with
/// `Final Answer:` ends the run with the trimmed text after the marker; a
/// readable tool step is recorded cut after its argument; any other reply is
/// recorded whole, followed by a corrective observation.
pub fn agent_step(history: &mut Vec<GeminiContent>, ai_text: &str) -> (step: AgentStep)
    ensures
        ({
            let t = trim_spec(ai_text@);
            match step {
                AgentStep::Finish { answer } => {
                    &&& find_spec(t, "Final Answer:"@) matches Some(pos)
                        && answer@ == trim_spec(t.skip((pos + "Final Answer:"@.len()) as int))
                    &&& extends(final(history)@, old(history)@, seq![("model"@, t)])
                },
                AgentStep::CallTool { action, input } => {
                    &&& find_spec(t, "Final Answer:"@) is None
                    &&& action_parts(t) matches Some((a, j, p))
                    &&& json_parse(j) == Ok::<Json, Seq<char>>(input)
                    &&& action@ == a
                    &&& extends(final(history)@, old(history)@, seq![("model"@, p)])
                },
                AgentStep::Retry => {
                    &&& find_spec(t, "Final Answer:"@) is None
                    &&& !(action_parts(t) matches Some((a, j, p)) && json_text_accepted(j))
                    &&& extends(
                        final(history)@,
                        old(history)@,
                        seq![
                            ("model"@, t),
                            (
                                "user"@,
                                observation_text(
                                    if contains_spec(t, "Action:"@) || contains_spec(t, "action:"@) {
                                        FORMAT_ERROR_OBSERVATION@
                                    } else {
                                        NO_ACTION_OBSERVATION@
                                    },
                                ),
                            ),
                        ],
                    )
                },
            }
        }),
{
    let raw = chars_of(ai_text);
    let t = trim(&raw);
    let ts = string_of(&t);
    let marker = chars_of("Final Answer:");
    match find(&t, &marker) {
        Some(pos) => {
            proof {
                crate::text::lemma_find_from(t@, marker@, 0);
                assert(find_from(t@, marker@, 0) == Some(pos as nat));
                assert(pos + marker@.len() <= t@.len());
            }
            assert(pos + marker.len() <= t.len());
            let start = pos + marker.len();
            let after = copy_range(&t, start, t.len());
            let answer = string_of(&trim(&after));
            history.push(entry("model", ts));
            proof {
                assert(final(history)@.take(old(history)@.len() as int) =~= old(history)@);
                assert(final(history)@[old(history)@.len() as int] == final(history)@.last());
                assert(after@ =~= t@.skip(pos + marker@.len()));
            }
            AgentStep::Finish { answer }
        },
        None => {
            match parse_agent_response(ts.as_str()) {
                Some((action, input, processed)) => {
                    history.push(entry("model", processed));
                    proof {
                        assert(final(history)@.take(old(history)@.len() as int) =~= old(history)@);
                        assert(final(history)@[old(history)@.len() as int] == final(history)@.last());
                    }
                    AgentStep::CallTool { action, input }
                },
                None => {
                    history.push(entry("model", ts));
                    let ghost mid = history@;
                    let loose = contains(&t, &chars_of("Action:")) || contains(&t, &chars_of("action:"));
                    let obs = if loose {
                        FORMAT_ERROR_OBSERVATION
                    } else {
                        NO_ACTION_OBSERVATION
                    };
                    record_observation(history, obs);
                    proof {
                        let n = old(history)@.len();
                        assert(mid.take(n as int) =~= old(history)@);
                        assert(final(history)@.take(mid.len() as int) == mid);
                        assert(final(history)@.take(n as int) =~= old(history)@);
                        assert(final(history)@[n as int] == mid[n as int]);
                        assert(mid[n as int] == mid.last());
                        let m = seq![("model"@, t@), ("user"@, observation_text(obs@))];
                        assert(is_entry(final(history)@[n as int], m[0].0, m[0].1));
                        assert(is_entry(final(history)@[n + 1int], m[1].0, m[1].1));
                        assert forall|i: int| 0 <= i < 2 implies is_entry(
                            #[trigger] final(history)@[n + i],
                            m[i].0,
                            m[i].1,
                        ) by {
                            if i == 0 {
                            } else {
                            }
                        }
                    }
                    AgentStep::Retry
                },
            }
        },
    }
}

} // verus!
