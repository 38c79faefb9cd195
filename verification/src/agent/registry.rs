//! The tools the agent may call: their names and descriptions, looked up by
//! name and listed in the system prompt.
use vstd::prelude::*;
use crate::text::{chars_of, decimal, decimal_spec, join_lines, join_spec, push_all, push_str, same_text, string_of, views};

verus! {

/// The name and description of one tool.
pub struct ToolInfo {
    pub name: String,
    pub description: String,
}

/// The tools known to the agent, one entry per name.
pub struct ToolRegistry {
    pub tools: Vec<ToolInfo>,
}

/// The (name, description) pairs of `tools`, in order.
pub open spec fn entries(tools: Seq<ToolInfo>) -> Seq<(Seq<char>, Seq<char>)> {
    Seq::new(tools.len(), |i: int| (tools[i].name@, tools[i].description@))
}

/// No name occurs twice in `e`.
pub open spec fn names_unique(e: Seq<(Seq<char>, Seq<char>)>) -> bool {
    forall|i: int, j: int| 0 <= i < j < e.len() ==> e[i].0 != e[j].0
}

/// Some entry of `e` has name `n`.
pub open spec fn has_name(e: Seq<(Seq<char>, Seq<char>)>, n: Seq<char>) -> bool {
    exists|i: int| 0 <= i < e.len() && e[i].0 == n
}

/// The position of the entry named `n` in `e`.
pub open spec fn name_index(e: Seq<(Seq<char>, Seq<char>)>, n: Seq<char>) -> int {
    choose|i: int| 0 <= i < e.len() && e[i].0 == n
}

/// The description registered under `n`, if any.
pub open spec fn description_of(e: Seq<(Seq<char>, Seq<char>)>, n: Seq<char>) -> Option<Seq<char>> {
    if has_name(e, n) {
        Some(e[name_index(e, n)].1)
    } else {
        None
    }
}

/// `e` after registering description `d` under name `n`: an entry with that
/// name gets the new description in place; otherwise a new entry comes last.
pub open spec fn registered(e: Seq<(Seq<char>, Seq<char>)>, n: Seq<char>, d: Seq<char>) -> Seq<(Seq<char>, Seq<char>)> {
    if has_name(e, n) {
        e.update(name_index(e, n), (n, d))
    } else {
        e.push((n, d))
    }
}

/// One line of the tool list: `{i + 1}. {name}: {description}`.
pub open spec fn tool_line(i: int, e: (Seq<char>, Seq<char>)) -> Seq<char> {
    decimal_spec((i + 1) as nat) + ". "@ + e.0 + ": "@ + e.1
}

/// The tool list of the system prompt.
pub open spec fn tool_listing(e: Seq<(Seq<char>, Seq<char>)>) -> Seq<char> {
    join_spec(Seq::new(e.len(), |i: int| tool_line(i, e[i])), "\n"@)
}

/// The tools of the default registry, in registration order.
pub open spec fn default_tools() -> Seq<(Seq<char>, Seq<char>)> {
    seq![
        ("list_files"@, "Lists all files available in the current session."@),
        ("get_excel_sheets"@, "Returns a list of sheet names in an Excel file. (blob_id: string)"@),
        ("excel_to_csv"@, "Converts a specific sheet of an Excel file to CSV text. (blob_id: string, sheet_name: string?)"@),
        ("read_file"@, "Reads the text content of a file (PDF, DOCX, CSV, or Text). (blob_id: string)"@),
        ("create_excel"@, "Creates a new Excel file. (file_name: string, rows: string[][], replace_existing: bool?)"@),
        ("create_word_doc"@, "Creates a new Word document. (file_name: string, content: string, image_id: string?, replace_existing: bool?)"@),
        ("create_pdf_doc"@, "Creates a new PDF document. (file_name: string, content: string, replace_existing: bool?)"@),
        ("create_text_file"@, "Creates a text file. (file_name: string, content: string, replace_existing: bool?)"@),
        ("download_from_url"@, "Downloads a file from a URL. (url: string, file_name: string, replace_existing: bool?)"@),
        ("generate_image"@, "Generates an image based on the prompt. (prompt: string, file_name: string, replace_existing: bool?)"@),
    ]
}

/// What `{:?}` writes for a list of strings.
pub uninterp spec fn debug_string_list(items: Seq<Seq<char>>) -> Seq<char>;

/// std's `Debug` for a vector of strings (`format!("{:?}", names)`); claimed
/// to give `debug_string_list` of their texts.
#[verifier::external_body]
pub(crate) fn debug_names_of(names: &Vec<String>) -> (r: String)
    ensures
        r@ == debug_string_list(names@.map_values(|s: String| s@)),
{
    format!("{:?}", names)
}

impl ToolRegistry {
    /// No two tools share a name.
    pub open spec fn well_formed(&self) -> bool {
        names_unique(entries(self.tools@))
    }

    /// The (name, description) pairs of the registry, in order.
    pub open spec fn view_entries(&self) -> Seq<(Seq<char>, Seq<char>)> {
        entries(self.tools@)
    }

    /// An empty registry.
    pub fn new() -> (r: Self)
        ensures
            r.view_entries() == Seq::<(Seq<char>, Seq<char>)>::empty(),
            r.well_formed(),
    {
        let r = ToolRegistry { tools: Vec::new() };
        assert(r.view_entries() =~= Seq::<(Seq<char>, Seq<char>)>::empty());
        r
    }

    /// Whether no two tools share a name (see `well_formed`).
    pub fn is_well_formed(&self) -> (r: bool)
        ensures
            r == self.well_formed(),
    {
        let ghost e = self.view_entries();
        let mut j: usize = 0;
        while j < self.tools.len()
            invariant
                0 <= j <= self.tools.len(),
                e == self.view_entries(),
                forall|a: int, b: int| 0 <= a < b < j ==> e[a].0 != e[b].0,
            decreases self.tools.len() - j,
        {
            let mut i: usize = 0;
            while i < j
                invariant
                    0 <= i <= j < self.tools.len(),
                    e == self.view_entries(),
                    forall|a: int, b: int| 0 <= a < b < j ==> e[a].0 != e[b].0,
                    forall|a: int| 0 <= a < i ==> e[a].0 != e[j as int].0,
                decreases j - i,
            {
                if same_text(self.tools[i].name.as_str(), self.tools[j].name.as_str()) {
                    assert(e[i as int].0 == e[j as int].0);
                    return false;
                }
                i = i + 1;
            }
            j = j + 1;
        }
        true
    }

    /// The position of the tool named `name`, if any.
    pub fn find_tool(&self, name: &str) -> (r: Option<usize>)
        requires
            self.well_formed(),
        ensures
            match r {
                Some(i) => has_name(self.view_entries(), name@) && i == name_index(self.view_entries(), name@),
                None => !has_name(self.view_entries(), name@),
            },
    {
        let ghost e = self.view_entries();
        let mut i: usize = 0;
        while i < self.tools.len()
            invariant
                0 <= i <= self.tools.len(),
                e == self.view_entries(),
                self.well_formed(),
                forall|k: int| 0 <= k < i ==> e[k].0 != name@,
            decreases self.tools.len() - i,
        {
            if same_text(self.tools[i].name.as_str(), name) {
                assert(e[i as int].0 == name@);
                let ghost c = name_index(e, name@);
                assert(0 <= c < e.len() && e[c].0 == name@);
                assert(c == i) by {
                    if c < i {
                    } else if c > i {
                        assert(e[i as int].0 != e[c].0);
                    }
                }
                return Some(i);
            }
            i = i + 1;
        }
        None
    }

    /// Registers `description` under `name` (see `registered`).
    pub fn register(&mut self, name: String, description: String)
        requires
            old(self).well_formed(),
        ensures
            final(self).well_formed(),
            final(self).view_entries() == registered(old(self).view_entries(), name@, description@),
    {
        let ghost e = old(self).view_entries();
        let ghost n = name@;
        let ghost d = description@;
        match self.find_tool(name.as_str()) {
            Some(i) => {
                self.tools.set(i, ToolInfo { name, description });
                assert(self.view_entries() =~= e.update(i as int, (n, d)));
            },
            None => {
                self.tools.push(ToolInfo { name, description });
                assert(self.view_entries() =~= e.push((n, d)));
            },
        }
    }

    /// The description of the tool named `name`, if any.
    pub fn description_for(&self, name: &str) -> (r: Option<String>)
        requires
            self.well_formed(),
        ensures
            match r {
                Some(d) => description_of(self.view_entries(), name@) == Some(d@),
                None => description_of(self.view_entries(), name@) is None,
            },
    {
        match self.find_tool(name) {
            Some(i) => Some(string_of(&chars_of(self.tools[i].description.as_str()))),
            None => None,
        }
    }

    /// The tool list of the system prompt: `{n}. {name}: {description}` per
    /// tool, numbered from 1 in registry order, joined by newlines.
    pub fn get_tool_descriptions(&self) -> (r: String)
        ensures
            r@ == tool_listing(self.view_entries()),
    {
        let ghost e = self.view_entries();
        let mut lines: Vec<Vec<char>> = Vec::new();
        let mut i: usize = 0;
        while i < self.tools.len()
            invariant
                0 <= i <= self.tools.len(),
                e == self.view_entries(),
                lines@.len() == i,
                forall|k: int| 0 <= k < i ==> (#[trigger] lines@[k])@ == tool_line(k, e[k]),
            decreases self.tools.len() - i,
        {
            let mut line = decimal((i as u64) + 1);
            push_str(&mut line, ". ");
            push_str(&mut line, self.tools[i].name.as_str());
            push_str(&mut line, ": ");
            push_str(&mut line, self.tools[i].description.as_str());
            lines.push(line);
            i = i + 1;
        }
        assert(views(lines@) =~= Seq::new(e.len(), |k: int| tool_line(k, e[k])));
        string_of(&join_lines(&lines, &chars_of("\n")))
    }

    /// The tool names, in registry order.
    pub fn tool_names(&self) -> (r: Vec<String>)
        ensures
            r@.map_values(|s: String| s@) == self.view_entries().map_values(|p: (Seq<char>, Seq<char>)| p.0),
    {
        let mut r: Vec<String> = Vec::new();
        let mut i: usize = 0;
        while i < self.tools.len()
            invariant
                0 <= i <= self.tools.len(),
                r@.len() == i,
                forall|k: int| 0 <= k < i ==> (#[trigger] r@[k])@ == self.tools@[k].name@,
            decreases self.tools.len() - i,
        {
            r.push(string_of(&chars_of(self.tools[i].name.as_str())));
            i = i + 1;
        }
        assert(r@.map_values(|s: String| s@) =~= self.view_entries().map_values(|p: (Seq<char>, Seq<char>)| p.0));
        r
    }
}

/// The observation reported when the model asks for a tool that does not
/// exist: `Error: Unknown action '{action}'. Available tools are: {names:?}`.
pub fn unknown_action_observation(action: &str, registry: &ToolRegistry) -> (r: String)
    ensures
        r@ == "Error: Unknown action '"@ + action@ + "'. Available tools are: "@ + debug_string_list(
            registry.view_entries().map_values(|p: (Seq<char>, Seq<char>)| p.0),
        ),
{
    let names = registry.tool_names();
    let listed = debug_names_of(&names);
    let mut t = chars_of("Error: Unknown action '");
    push_str(&mut t, action);
    push_str(&mut t, "'. Available tools are: ");
    push_str(&mut t, listed.as_str());
    string_of(&t)
}

proof fn lemma_default_names_unique()
    ensures
        names_unique(default_tools()),
{
    reveal_strlit("list_files");
    reveal_strlit("get_excel_sheets");
    reveal_strlit("excel_to_csv");
    reveal_strlit("read_file");
    reveal_strlit("create_excel");
    reveal_strlit("create_word_doc");
    reveal_strlit("create_pdf_doc");
    reveal_strlit("create_text_file");
    reveal_strlit("download_from_url");
    reveal_strlit("generate_image");
    let t = default_tools();
    assert forall|i: int, j: int| 0 <= i < j < t.len() implies t[i].0 != t[j].0 by {
        if t[i].0.len() == t[j].0.len() {
            assert(t[i].0[0] != t[j].0[0]);
        }
    }
}

proof fn lemma_default_prefix(k: int)
    requires
        0 <= k < default_tools().len(),
    ensures
        registered(default_tools().take(k), default_tools()[k].0, default_tools()[k].1)
            == default_tools().take(k + 1),
{
    lemma_default_names_unique();
    let t = default_tools();
    let p = t.take(k);
    if has_name(p, t[k].0) {
        let c = name_index(p, t[k].0);
        assert(t[c].0 == t[k].0);
    }
    assert(p.push(t[k]) =~= t.take(k + 1));
}

/// The registry with the ten default tools (see `default_tools`).
pub fn get_default_registry() -> (r: ToolRegistry)
    ensures
        r.well_formed(),
        r.view_entries() == default_tools(),
{
    proof {
        lemma_default_names_unique();
    }
    let mut registry = ToolRegistry::new();
    assert(registry.view_entries() =~= default_tools().take(0));
    proof {
        lemma_default_prefix(0);
    }
    registry.register(
        string_of(&chars_of("list_files")),
        string_of(&chars_of("Lists all files available in the current session.")),
    );
    assert(registry.view_entries() == default_tools().take(1));
    proof {
        lemma_default_prefix(1);
    }
    registry.register(
        string_of(&chars_of("get_excel_sheets")),
        string_of(&chars_of("Returns a list of sheet names in an Excel file. (blob_id: string)")),
    );
    assert(registry.view_entries() == default_tools().take(2));
    proof {
        lemma_default_prefix(2);
    }
    registry.register(
        string_of(&chars_of("excel_to_csv")),
        string_of(
            &chars_of(
                "Converts a specific sheet of an Excel file to CSV text. (blob_id: string, sheet_name: string?)",
            ),
        ),
    );
    assert(registry.view_entries() == default_tools().take(3));
    proof {
        lemma_default_prefix(3);
    }
    registry.register(
        string_of(&chars_of("read_file")),
        string_of(
            &chars_of(
                "Reads the text content of a file (PDF, DOCX, CSV, or Text). (blob_id: string)",
            ),
        ),
    );
    assert(registry.view_entries() == default_tools().take(4));
    proof {
        lemma_default_prefix(4);
    }
    registry.register(
        string_of(&chars_of("create_excel")),
        string_of(
            &chars_of(
                "Creates a new Excel file. (file_name: string, rows: string[][], replace_existing: bool?)",
            ),
        ),
    );
    assert(registry.view_entries() == default_tools().take(5));
    proof {
        lemma_default_prefix(5);
    }
    registry.register(
        string_of(&chars_of("create_word_doc")),
        string_of(
            &chars_of(
                "Creates a new Word document. (file_name: string, content: string, image_id: string?, replace_existing: bool?)",
            ),
        ),
    );
    assert(registry.view_entries() == default_tools().take(6));
    proof {
        lemma_default_prefix(6);
    }
    registry.register(
        string_of(&chars_of("create_pdf_doc")),
        string_of(
            &chars_of(
                "Creates a new PDF document. (file_name: string, content: string, replace_existing: bool?)",
            ),
        ),
    );
    assert(registry.view_entries() == default_tools().take(7));
    proof {
        lemma_default_prefix(7);
    }
    registry.register(
        string_of(&chars_of("create_text_file")),
        string_of(
            &chars_of(
                "Creates a text file. (file_name: string, content: string, replace_existing: bool?)",
            ),
        ),
    );
    assert(registry.view_entries() == default_tools().take(8));
    proof {
        lemma_default_prefix(8);
    }
    registry.register(
        string_of(&chars_of("download_from_url")),
        string_of(
            &chars_of(
                "Downloads a file from a URL. (url: string, file_name: string, replace_existing: bool?)",
            ),
        ),
    );
    assert(registry.view_entries() == default_tools().take(9));
    proof {
        lemma_default_prefix(9);
    }
    registry.register(
        string_of(&chars_of("generate_image")),
        string_of(
            &chars_of(
                "Generates an image based on the prompt. (prompt: string, file_name: string, replace_existing: bool?)",
            ),
        ),
    );
    assert(registry.view_entries() == default_tools().take(10));
    assert(default_tools().take(10) =~= default_tools());
    assert(registry.view_entries() =~= default_tools());
    registry
}

/// After registering `d` under `n`, looking `n` up gives `d`.
pub proof fn law_register_then_lookup(e: Seq<(Seq<char>, Seq<char>)>, n: Seq<char>, d: Seq<char>)
    requires
        names_unique(e),
    ensures
        description_of(registered(e, n, d), n) == Some(d),
{
    let r = registered(e, n, d);
    if has_name(e, n) {
        let k = name_index(e, n);
        assert(r[k].0 == n);
        assert(has_name(r, n));
        let c = name_index(r, n);
        if c != k {
            assert(e[c].0 == n);
            if c < k {
                assert(e[c].0 != e[k].0);
            } else {
                assert(e[k].0 != e[c].0);
            }
        }
    } else {
        assert(r[e.len() as int].0 == n);
        assert(has_name(r, n));
        let c = name_index(r, n);
        if c < e.len() {
            assert(e[c].0 == n);
        }
    }
}

/// Registering under `n` leaves what every other name looks up unchanged.
pub proof fn law_register_keeps_others(
    e: Seq<(Seq<char>, Seq<char>)>,
    n: Seq<char>,
    d: Seq<char>,
    m: Seq<char>,
)
    requires
        names_unique(e),
        m != n,
    ensures
        description_of(registered(e, n, d), m) == description_of(e, m),
{
    let r = registered(e, n, d);
    if has_name(e, m) {
        let k = name_index(e, m);
        assert(r[k].0 == m);
        assert(has_name(r, m));
        let c = name_index(r, m);
        assert(r[c].0 == m);
        assert(c < e.len());
        assert(e[c].0 == m);
        if c != k {
            if c < k {
                assert(e[c].0 != e[k].0);
            } else {
                assert(e[k].0 != e[c].0);
            }
        }
    } else {
        if has_name(r, m) {
            let c = name_index(r, m);
            assert(c < e.len());
            assert(e[c].0 == m);
        }
    }
}

/// Registering keeps names unique, and registering a name that is already
/// present keeps the number of tools.
pub proof fn law_register_unique(e: Seq<(Seq<char>, Seq<char>)>, n: Seq<char>, d: Seq<char>)
    requires
        names_unique(e),
    ensures
        names_unique(registered(e, n, d)),
        has_name(e, n) ==> registered(e, n, d).len() == e.len(),
        !has_name(e, n) ==> registered(e, n, d).len() == e.len() + 1,
{
}

} // verus!
