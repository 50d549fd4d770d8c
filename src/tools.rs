//! Tool definitions as the model sees them, and the registry that names them.
use vstd::prelude::*;
use crate::json::{array, entry, item_views, member_views, object, pretty_json, pretty_json_of, text_value, Json, JsonView};
use crate::text::{append_str, lower_of, lowercase, byte_len, byte_prefix, fit_prefix, string_of, text_eq, trim, trimmed};
use vstd::utf8::encode_utf8;

verus! {

/// A tool as advertised to the model.
pub struct ToolDefinition {
    pub name: String,
    pub description: String,
    /// A JSON-schema object describing the arguments.
    pub parameters: Json,
}

pub ghost struct ToolView {
    pub name: Seq<char>,
    pub description: Seq<char>,
    pub parameters: JsonView,
}

impl View for ToolDefinition {
    type V = ToolView;

    open spec fn view(&self) -> ToolView {
        ToolView { name: self.name@, description: self.description@, parameters: self.parameters@ }
    }
}

pub open spec fn tool_views(v: Seq<ToolDefinition>) -> Seq<ToolView> {
    v.map_values(|d: ToolDefinition| d@)
}

/// `{name, description, parameters}`.
pub open spec fn declaration_json(d: ToolView) -> JsonView {
    JsonView::Object(seq![
        ("name"@, JsonView::Str(d.name)),
        ("description"@, JsonView::Str(d.description)),
        ("parameters"@, d.parameters),
    ])
}

/// `{type: "function", function: {name, description, parameters}}`.
pub open spec fn openai_tool_json(d: ToolView) -> JsonView {
    JsonView::Object(seq![("type"@, JsonView::Str("function"@)), ("function"@, declaration_json(d))])
}

impl ToolDefinition {
    /// The Gemini-style declaration of this tool.
    pub fn declaration(&self) -> (r: Json)
        ensures
            r@ == declaration_json(self@),
    {
        let mut m: Vec<(String, Json)> = Vec::new();
        m.push(entry("name", text_value(self.name.as_str())));
        m.push(entry("description", text_value(self.description.as_str())));
        m.push(entry("parameters", self.parameters.duplicate()));
        assert(member_views(m@) =~= declaration_json(self@)->Object_0);
        object(m)
    }

    /// The OpenAI-style description of this tool.
    pub fn openai_format(&self) -> (r: Json)
        ensures
            r@ == openai_tool_json(self@),
    {
        let mut m: Vec<(String, Json)> = Vec::new();
        m.push(entry("type", text_value("function")));
        m.push(entry("function", self.declaration()));
        assert(member_views(m@) =~= openai_tool_json(self@)->Object_0);
        object(m)
    }
}

/// The tools keyed by name; a name occurs at most once.
pub struct ToolRegistry {
    tools: Vec<ToolDefinition>,
}

/// The position of the first tool named `name`.
pub open spec fn position_of(s: Seq<ToolView>, name: Seq<char>) -> Option<int>
    decreases s.len(),
{
    if s.len() == 0 {
        None
    } else if s[0].name == name {
        Some(0)
    } else {
        match position_of(s.drop_first(), name) {
            Some(i) => Some(i + 1),
            None => None,
        }
    }
}

/// The tools after registering `d`: it replaces a tool of the same name, else joins at
/// the end.
pub open spec fn registered(s: Seq<ToolView>, d: ToolView) -> Seq<ToolView> {
    match position_of(s, d.name) {
        Some(i) => s.update(i, d),
        None => s.push(d),
    }
}

proof fn lemma_position_found(s: Seq<ToolView>, name: Seq<char>, i: int)
    requires
        0 <= i < s.len(),
        s[i].name == name,
        forall|j: int| 0 <= j < i ==> s[j].name != name,
    ensures
        position_of(s, name) == Some(i),
    decreases i,
{
    if i > 0 {
        lemma_position_found(s.drop_first(), name, i - 1);
    }
}

proof fn lemma_position_absent(s: Seq<ToolView>, name: Seq<char>)
    requires
        forall|j: int| 0 <= j < s.len() ==> s[j].name != name,
    ensures
        position_of(s, name) is None,
    decreases s.len(),
{
    if s.len() > 0 {
        lemma_position_absent(s.drop_first(), name);
    }
}

impl View for ToolRegistry {
    type V = Seq<ToolView>;

    closed spec fn view(&self) -> Seq<ToolView> {
        tool_views(self.tools@)
    }
}

impl ToolRegistry {
    /// No two tools share a name.
    pub open spec fn wf(&self) -> bool {
        forall|i: int, j: int| 0 <= i < j < self@.len() ==> self@[i].name != self@[j].name
    }

    pub fn new() -> (r: ToolRegistry)
        ensures
            r.wf(),
            r@ == Seq::<ToolView>::empty(),
    {
        let r = ToolRegistry { tools: Vec::new() };
        assert(r@ =~= Seq::<ToolView>::empty());
        r
    }

    fn find(&self, name: &str) -> (r: Option<usize>)
        ensures
            match r {
                Some(i) => position_of(self@, name@) == Some(i as int) && i < self@.len() && self@[i as int].name == name@,
                None => position_of(self@, name@) is None && forall|j: int| 0 <= j < self@.len() ==> #[trigger] self@[j].name != name@,
            },
    {
        let mut i: usize = 0;
        while i < self.tools.len()
            invariant
                i <= self.tools@.len(),
                self@ == tool_views(self.tools@),
                forall|j: int| 0 <= j < i ==> (#[trigger] self@[j]).name != name@,
            decreases self.tools@.len() - i,
        {
            if text_eq(self.tools[i].name.as_str(), name) {
                proof { lemma_position_found(self@, name@, i as int); }
                return Some(i);
            }
            i = i + 1;
        }
        proof { lemma_position_absent(self@, name@); }
        None
    }

    /// Adds a tool, replacing one of the same name.
    pub fn register(&mut self, d: ToolDefinition)
        requires
            old(self).wf(),
        ensures
            final(self).wf(),
            final(self)@ == registered(old(self)@, d@),
    {
        match self.find(d.name.as_str()) {
            Some(i) => {
                let ghost dv = d@;
                self.tools.remove(i);
                self.tools.insert(i, d);
                assert(self@ =~= old(self)@.update(i as int, dv));
            },
            None => {
                let ghost dv = d@;
                self.tools.push(d);
                assert(self@ =~= old(self)@.push(dv));
            },
        }
    }

    /// The tool registered under `name`.
    pub fn get(&self, name: &str) -> (r: Option<&ToolDefinition>)
        ensures
            match r {
                Some(d) => position_of(self@, name@) matches Some(i) && self@[i] == d@,
                None => position_of(self@, name@) is None,
            },
    {
        match self.find(name) {
            Some(i) => Some(&self.tools[i]),
            None => None,
        }
    }

    /// The tool registered under `name`, or the error reported for an unknown name.
    pub fn lookup(&self, name: &str) -> (r: Result<&ToolDefinition, String>)
        ensures
            match r {
                Ok(d) => position_of(self@, name@) matches Some(i) && self@[i] == d@,
                Err(e) => position_of(self@, name@) is None && e@ == "Unknown tool: "@ + name@,
            },
    {
        match self.get(name) {
            Some(d) => Ok(d),
            None => {
                let mut cs: Vec<char> = Vec::new();
                append_str(&mut cs, "Unknown tool: ");
                append_str(&mut cs, name);
                Err(string_of(&cs))
            },
        }
    }

    /// The registered tools as the definitions a request carries, in registration order.
    pub fn definitions(&self) -> (r: Vec<ToolDefinition>)
        ensures
            tool_views(r@) == self@,
    {
        let mut out: Vec<ToolDefinition> = Vec::new();
        let mut i: usize = 0;
        while i < self.tools.len()
            invariant
                i <= self.tools@.len(),
                out@.len() == i,
                forall|j: int| 0 <= j < i ==> (#[trigger] out@[j])@ == self.tools@[j]@,
            decreases self.tools@.len() - i,
        {
            let d = &self.tools[i];
            out.push(ToolDefinition {
                name: d.name.clone(),
                description: d.description.clone(),
                parameters: d.parameters.duplicate(),
            });
            i = i + 1;
        }
        assert(tool_views(out@) =~= self@);
        out
    }

    /// The tools in chat-completions form.
    pub fn to_openai_format(&self) -> (r: Vec<Json>)
        ensures
            item_views(r@) == self@.map_values(|d: ToolView| openai_tool_json(d)),
    {
        let mut out: Vec<Json> = Vec::new();
        let mut i: usize = 0;
        while i < self.tools.len()
            invariant
                i <= self.tools@.len(),
                out@.len() == i,
                forall|j: int| 0 <= j < i ==> (#[trigger] out@[j])@ == openai_tool_json(self.tools@[j]@),
            decreases self.tools@.len() - i,
        {
            out.push(self.tools[i].openai_format());
            i = i + 1;
        }
        assert(item_views(out@) =~= self@.map_values(|d: ToolView| openai_tool_json(d)));
        out
    }

    /// The tools in generateContent form: `{function_declarations: [...]}`.
    pub fn to_gemini_format(&self) -> (r: Json)
        ensures
            r@ == JsonView::Object(seq![(
                "function_declarations"@,
                JsonView::Array(self@.map_values(|d: ToolView| declaration_json(d))),
            )]),
    {
        let mut out: Vec<Json> = Vec::new();
        let mut i: usize = 0;
        while i < self.tools.len()
            invariant
                i <= self.tools@.len(),
                out@.len() == i,
                forall|j: int| 0 <= j < i ==> (#[trigger] out@[j])@ == declaration_json(self.tools@[j]@),
            decreases self.tools@.len() - i,
        {
            out.push(self.tools[i].declaration());
            i = i + 1;
        }
        assert(item_views(out@) =~= self@.map_values(|d: ToolView| declaration_json(d)));
        let mut m: Vec<(String, Json)> = Vec::new();
        m.push(entry("function_declarations", array(out)));
        assert(member_views(m@) =~= seq![(
            "function_declarations"@,
            JsonView::Array(self@.map_values(|d: ToolView| declaration_json(d))),
        )]);
        object(m)
    }
}

pub struct ReadFileTool;

pub struct WriteFileTool;

pub struct WebSearchTool;

pub struct WebPageReaderTool;

pub struct SearchFilesTool;

pub struct EditFileTool;

pub struct ExecuteCommandTool;

/// A property of an argument schema: its JSON type and what it means.
pub open spec fn property_json(ty: Seq<char>, description: Seq<char>) -> JsonView {
    JsonView::Object(seq![("type"@, JsonView::Str(ty)), ("description"@, JsonView::Str(description))])
}

/// An argument schema: an object with these properties, of which these are required.
pub open spec fn schema_json(properties: Seq<(Seq<char>, JsonView)>, required: Seq<Seq<char>>) -> JsonView {
    JsonView::Object(seq![
        ("type"@, JsonView::Str("object"@)),
        ("properties"@, JsonView::Object(properties)),
        ("required"@, JsonView::Array(required.map_values(|r: Seq<char>| JsonView::Str(r)))),
    ])
}

fn property(name: &str, ty: &str, description: &str) -> (r: (String, Json))
    ensures
        r.0@ == name@,
        r.1@ == property_json(ty@, description@),
{
    let mut m: Vec<(String, Json)> = Vec::new();
    m.push(entry("type", text_value(ty)));
    m.push(entry("description", text_value(description)));
    assert(member_views(m@) =~= property_json(ty@, description@)->Object_0);
    (name.to_owned(), object(m))
}

fn schema(properties: Vec<(String, Json)>, required: Vec<&str>) -> (r: Json)
    ensures
        r@ == schema_json(member_views(properties@), required@.map_values(|q: &str| q@)),
{
    let mut names: Vec<Json> = Vec::new();
    let mut i: usize = 0;
    while i < required.len()
        invariant
            i <= required@.len(),
            names@.len() == i,
            forall|j: int| 0 <= j < i ==> (#[trigger] names@[j])@ == JsonView::Str(required@[j]@),
        decreases required@.len() - i,
    {
        names.push(text_value(required[i]));
        i = i + 1;
    }
    assert(item_views(names@) =~= required@.map_values(|q: &str| q@).map_values(|r: Seq<char>| JsonView::Str(r)));
    let mut m: Vec<(String, Json)> = Vec::new();
    m.push(entry("type", text_value("object")));
    m.push(entry("properties", object(properties)));
    m.push(entry("required", array(names)));
    assert(member_views(m@) =~= schema_json(member_views(properties@), required@.map_values(|q: &str| q@))->Object_0);
    object(m)
}

/// A tool the model may call: its name, what it does, and the schema of its arguments.
pub trait Tool {
    /// The tool as the model sees it.
    spec fn tool_view(&self) -> ToolView;

    fn name(&self) -> (r: &'static str)
        ensures
            r@ == self.tool_view().name;

    fn description(&self) -> (r: &'static str)
        ensures
            r@ == self.tool_view().description;

    fn parameters(&self) -> (r: Json)
        ensures
            r@ == self.tool_view().parameters;
}

pub const READ_FILE_NAME: &'static str = "read_file";

pub const READ_FILE_DESCRIPTION: &'static str = "Read the contents of a file at the given path. Output includes line numbers (e.g. '  42: code here') which can be used with edit_file's line-range mode. Supports chunked reading with offset/limit, and case-insensitive string search with context.";

pub const READ_FILE_PATH: &'static str = "The path to the file to read";

pub const READ_FILE_OFFSET: &'static str = "Starting line number (1-indexed). If not specified, starts from line 1.";

pub const READ_FILE_LIMIT: &'static str = "Maximum number of lines to read. If not specified, reads all remaining lines.";

pub const READ_FILE_SEARCH: &'static str = "Case-insensitive string to search for. Returns only matching lines with surrounding context.";

pub const READ_FILE_CONTEXT_LINES: &'static str = "Number of lines to show before and after each search match (default: 6). Only used with 'search'.";

/// The argument schema of `read_file`.
pub open spec fn read_file_schema() -> JsonView {
    schema_json(
        seq![
        ("path"@, property_json("string"@, READ_FILE_PATH@)),
        ("offset"@, property_json("integer"@, READ_FILE_OFFSET@)),
        ("limit"@, property_json("integer"@, READ_FILE_LIMIT@)),
        ("search"@, property_json("string"@, READ_FILE_SEARCH@)),
        ("context_lines"@, property_json("integer"@, READ_FILE_CONTEXT_LINES@)),
        ],
        seq!["path"@],
    )
}

/// `read_file` as the model sees it.
pub open spec fn read_file_tool() -> ToolView {
    ToolView { name: READ_FILE_NAME@, description: READ_FILE_DESCRIPTION@, parameters: read_file_schema() }
}

impl ReadFileTool {
    /// The argument schema.
    pub fn schema() -> (r: Json)
        ensures
            r@ == read_file_schema(),
    {
        let mut p: Vec<(String, Json)> = Vec::new();
        p.push(property("path", "string", READ_FILE_PATH));
        p.push(property("offset", "integer", READ_FILE_OFFSET));
        p.push(property("limit", "integer", READ_FILE_LIMIT));
        p.push(property("search", "string", READ_FILE_SEARCH));
        p.push(property("context_lines", "integer", READ_FILE_CONTEXT_LINES));
        let mut q: Vec<&str> = Vec::new();
        q.push("path");
        assert(member_views(p@) =~= read_file_schema()->Object_0[1].1->Object_0);
        assert(q@.map_values(|x: &str| x@) =~= seq!["path"@]);
        schema(p, q)
    }

    /// The definition advertised to the model.
    pub fn tool_definition() -> (r: ToolDefinition)
        ensures
            r@ == read_file_tool(),
    {
        ToolDefinition { name: READ_FILE_NAME.to_owned(), description: READ_FILE_DESCRIPTION.to_owned(), parameters: Self::schema() }
    }
}

impl Tool for ReadFileTool {
    open spec fn tool_view(&self) -> ToolView {
        read_file_tool()
    }

    fn name(&self) -> &'static str {
        READ_FILE_NAME
    }

    fn description(&self) -> &'static str {
        READ_FILE_DESCRIPTION
    }

    fn parameters(&self) -> Json {
        Self::schema()
    }
}

pub const WRITE_FILE_NAME: &'static str = "write_file";

pub const WRITE_FILE_DESCRIPTION: &'static str = "Write content to a file at the given path. Creates the file if it doesn't exist, overwrites if it does.";

pub const WRITE_FILE_PATH: &'static str = "The path to the file to write";

pub const WRITE_FILE_CONTENT: &'static str = "The content to write to the file";

/// The argument schema of `write_file`.
pub open spec fn write_file_schema() -> JsonView {
    schema_json(
        seq![
        ("path"@, property_json("string"@, WRITE_FILE_PATH@)),
        ("content"@, property_json("string"@, WRITE_FILE_CONTENT@)),
        ],
        seq!["path"@, "content"@],
    )
}

/// `write_file` as the model sees it.
pub open spec fn write_file_tool() -> ToolView {
    ToolView { name: WRITE_FILE_NAME@, description: WRITE_FILE_DESCRIPTION@, parameters: write_file_schema() }
}

impl WriteFileTool {
    /// The argument schema.
    pub fn schema() -> (r: Json)
        ensures
            r@ == write_file_schema(),
    {
        let mut p: Vec<(String, Json)> = Vec::new();
        p.push(property("path", "string", WRITE_FILE_PATH));
        p.push(property("content", "string", WRITE_FILE_CONTENT));
        let mut q: Vec<&str> = Vec::new();
        q.push("path");
        q.push("content");
        assert(member_views(p@) =~= write_file_schema()->Object_0[1].1->Object_0);
        assert(q@.map_values(|x: &str| x@) =~= seq!["path"@, "content"@]);
        schema(p, q)
    }

    /// The definition advertised to the model.
    pub fn tool_definition() -> (r: ToolDefinition)
        ensures
            r@ == write_file_tool(),
    {
        ToolDefinition { name: WRITE_FILE_NAME.to_owned(), description: WRITE_FILE_DESCRIPTION.to_owned(), parameters: Self::schema() }
    }
}

impl Tool for WriteFileTool {
    open spec fn tool_view(&self) -> ToolView {
        write_file_tool()
    }

    fn name(&self) -> &'static str {
        WRITE_FILE_NAME
    }

    fn description(&self) -> &'static str {
        WRITE_FILE_DESCRIPTION
    }

    fn parameters(&self) -> Json {
        Self::schema()
    }
}

pub const EDIT_FILE_NAME: &'static str = "edit_file";

pub const EDIT_FILE_DESCRIPTION: &'static str = "Edit a file by replacing specific text or a line range. Use read_file first to see the file with line numbers, then apply targeted edits. Two modes:\n1) Search-and-replace: provide 'old_string' and 'new_string' to find and replace exact text.\n2) Line-range: provide 'start_line', 'end_line', and 'new_string' to replace a range of lines.\nFor inserting new content without removing lines, set start_line and end_line to the same line and include the original line in new_string.\nAlways prefer this over write_file for modifying existing files.";

pub const EDIT_FILE_PATH: &'static str = "The path to the file to edit";

pub const EDIT_FILE_OLD_STRING: &'static str = "The exact text to find and replace (for search-and-replace mode). Must match the file content exactly, including whitespace and indentation.";

pub const EDIT_FILE_NEW_STRING: &'static str = "The replacement text. Used in both modes. Use empty string to delete text/lines.";

pub const EDIT_FILE_START_LINE: &'static str = "Starting line number (1-indexed, inclusive) for line-range mode. Use with end_line.";

pub const EDIT_FILE_END_LINE: &'static str = "Ending line number (1-indexed, inclusive) for line-range mode. Use with start_line.";

pub const EDIT_FILE_REPLACE_ALL: &'static str = "If true, replace ALL occurrences of old_string. Default is false (only first occurrence). Only used in search-and-replace mode.";

/// The argument schema of `edit_file`.
pub open spec fn edit_file_schema() -> JsonView {
    schema_json(
        seq![
        ("path"@, property_json("string"@, EDIT_FILE_PATH@)),
        ("old_string"@, property_json("string"@, EDIT_FILE_OLD_STRING@)),
        ("new_string"@, property_json("string"@, EDIT_FILE_NEW_STRING@)),
        ("start_line"@, property_json("integer"@, EDIT_FILE_START_LINE@)),
        ("end_line"@, property_json("integer"@, EDIT_FILE_END_LINE@)),
        ("replace_all"@, property_json("boolean"@, EDIT_FILE_REPLACE_ALL@)),
        ],
        seq!["path"@, "new_string"@],
    )
}

/// `edit_file` as the model sees it.
pub open spec fn edit_file_tool() -> ToolView {
    ToolView { name: EDIT_FILE_NAME@, description: EDIT_FILE_DESCRIPTION@, parameters: edit_file_schema() }
}

impl EditFileTool {
    /// The argument schema.
    pub fn schema() -> (r: Json)
        ensures
            r@ == edit_file_schema(),
    {
        let mut p: Vec<(String, Json)> = Vec::new();
        p.push(property("path", "string", EDIT_FILE_PATH));
        p.push(property("old_string", "string", EDIT_FILE_OLD_STRING));
        p.push(property("new_string", "string", EDIT_FILE_NEW_STRING));
        p.push(property("start_line", "integer", EDIT_FILE_START_LINE));
        p.push(property("end_line", "integer", EDIT_FILE_END_LINE));
        p.push(property("replace_all", "boolean", EDIT_FILE_REPLACE_ALL));
        let mut q: Vec<&str> = Vec::new();
        q.push("path");
        q.push("new_string");
        assert(member_views(p@) =~= edit_file_schema()->Object_0[1].1->Object_0);
        assert(q@.map_values(|x: &str| x@) =~= seq!["path"@, "new_string"@]);
        schema(p, q)
    }

    /// The definition advertised to the model.
    pub fn tool_definition() -> (r: ToolDefinition)
        ensures
            r@ == edit_file_tool(),
    {
        ToolDefinition { name: EDIT_FILE_NAME.to_owned(), description: EDIT_FILE_DESCRIPTION.to_owned(), parameters: Self::schema() }
    }
}

impl Tool for EditFileTool {
    open spec fn tool_view(&self) -> ToolView {
        edit_file_tool()
    }

    fn name(&self) -> &'static str {
        EDIT_FILE_NAME
    }

    fn description(&self) -> &'static str {
        EDIT_FILE_DESCRIPTION
    }

    fn parameters(&self) -> Json {
        Self::schema()
    }
}

pub const WEB_SEARCH_NAME: &'static str = "web_search";

pub const WEB_SEARCH_DESCRIPTION: &'static str = "Search the web using DuckDuckGo. Returns a list of relevant URLs with titles and snippets. Use this to find sources, then use web_read_page to read the content.";

pub const WEB_SEARCH_QUERY: &'static str = "The search keywords";

/// The argument schema of `web_search`.
pub open spec fn web_search_schema() -> JsonView {
    schema_json(
        seq![
        ("query"@, property_json("string"@, WEB_SEARCH_QUERY@)),
        ],
        seq!["query"@],
    )
}

/// `web_search` as the model sees it.
pub open spec fn web_search_tool() -> ToolView {
    ToolView { name: WEB_SEARCH_NAME@, description: WEB_SEARCH_DESCRIPTION@, parameters: web_search_schema() }
}

impl WebSearchTool {
    /// The argument schema.
    pub fn schema() -> (r: Json)
        ensures
            r@ == web_search_schema(),
    {
        let mut p: Vec<(String, Json)> = Vec::new();
        p.push(property("query", "string", WEB_SEARCH_QUERY));
        let mut q: Vec<&str> = Vec::new();
        q.push("query");
        assert(member_views(p@) =~= web_search_schema()->Object_0[1].1->Object_0);
        assert(q@.map_values(|x: &str| x@) =~= seq!["query"@]);
        schema(p, q)
    }

    /// The definition advertised to the model.
    pub fn tool_definition() -> (r: ToolDefinition)
        ensures
            r@ == web_search_tool(),
    {
        ToolDefinition { name: WEB_SEARCH_NAME.to_owned(), description: WEB_SEARCH_DESCRIPTION.to_owned(), parameters: Self::schema() }
    }
}

impl Tool for WebSearchTool {
    open spec fn tool_view(&self) -> ToolView {
        web_search_tool()
    }

    fn name(&self) -> &'static str {
        WEB_SEARCH_NAME
    }

    fn description(&self) -> &'static str {
        WEB_SEARCH_DESCRIPTION
    }

    fn parameters(&self) -> Json {
        Self::schema()
    }
}

pub const WEB_READ_PAGE_NAME: &'static str = "web_read_page";

pub const WEB_READ_PAGE_DESCRIPTION: &'static str = "Reads the full content of a specific webpage URL. Use this after web_search to get the details of a chosen result.";

pub const WEB_READ_PAGE_URL: &'static str = "The URL of the page to read (obtained from web_search)";

/// The argument schema of `web_read_page`.
pub open spec fn web_read_page_schema() -> JsonView {
    schema_json(
        seq![
        ("url"@, property_json("string"@, WEB_READ_PAGE_URL@)),
        ],
        seq!["url"@],
    )
}

/// `web_read_page` as the model sees it.
pub open spec fn web_read_page_tool() -> ToolView {
    ToolView { name: WEB_READ_PAGE_NAME@, description: WEB_READ_PAGE_DESCRIPTION@, parameters: web_read_page_schema() }
}

impl WebPageReaderTool {
    /// The argument schema.
    pub fn schema() -> (r: Json)
        ensures
            r@ == web_read_page_schema(),
    {
        let mut p: Vec<(String, Json)> = Vec::new();
        p.push(property("url", "string", WEB_READ_PAGE_URL));
        let mut q: Vec<&str> = Vec::new();
        q.push("url");
        assert(member_views(p@) =~= web_read_page_schema()->Object_0[1].1->Object_0);
        assert(q@.map_values(|x: &str| x@) =~= seq!["url"@]);
        schema(p, q)
    }

    /// The definition advertised to the model.
    pub fn tool_definition() -> (r: ToolDefinition)
        ensures
            r@ == web_read_page_tool(),
    {
        ToolDefinition { name: WEB_READ_PAGE_NAME.to_owned(), description: WEB_READ_PAGE_DESCRIPTION.to_owned(), parameters: Self::schema() }
    }
}

impl Tool for WebPageReaderTool {
    open spec fn tool_view(&self) -> ToolView {
        web_read_page_tool()
    }

    fn name(&self) -> &'static str {
        WEB_READ_PAGE_NAME
    }

    fn description(&self) -> &'static str {
        WEB_READ_PAGE_DESCRIPTION
    }

    fn parameters(&self) -> Json {
        Self::schema()
    }
}

pub const SEARCH_FILES_NAME: &'static str = "search_files";

pub const SEARCH_FILES_DESCRIPTION: &'static str = "Recursively search for files matching a pattern using the 'find' command.";

pub const SEARCH_FILES_PATH: &'static str = "The directory to search in (defaults to current directory)";

pub const SEARCH_FILES_PATTERN: &'static str = "Glob pattern to match files (e.g. '*.rs')";

/// The argument schema of `search_files`.
pub open spec fn search_files_schema() -> JsonView {
    schema_json(
        seq![
        ("path"@, property_json("string"@, SEARCH_FILES_PATH@)),
        ("pattern"@, property_json("string"@, SEARCH_FILES_PATTERN@)),
        ],
        Seq::<Seq<char>>::empty(),
    )
}

/// `search_files` as the model sees it.
pub open spec fn search_files_tool() -> ToolView {
    ToolView { name: SEARCH_FILES_NAME@, description: SEARCH_FILES_DESCRIPTION@, parameters: search_files_schema() }
}

impl SearchFilesTool {
    /// The argument schema.
    pub fn schema() -> (r: Json)
        ensures
            r@ == search_files_schema(),
    {
        let mut p: Vec<(String, Json)> = Vec::new();
        p.push(property("path", "string", SEARCH_FILES_PATH));
        p.push(property("pattern", "string", SEARCH_FILES_PATTERN));
        let mut q: Vec<&str> = Vec::new();
        assert(member_views(p@) =~= search_files_schema()->Object_0[1].1->Object_0);
        assert(q@.map_values(|x: &str| x@) =~= Seq::<Seq<char>>::empty());
        schema(p, q)
    }

    /// The definition advertised to the model.
    pub fn tool_definition() -> (r: ToolDefinition)
        ensures
            r@ == search_files_tool(),
    {
        ToolDefinition { name: SEARCH_FILES_NAME.to_owned(), description: SEARCH_FILES_DESCRIPTION.to_owned(), parameters: Self::schema() }
    }
}

impl Tool for SearchFilesTool {
    open spec fn tool_view(&self) -> ToolView {
        search_files_tool()
    }

    fn name(&self) -> &'static str {
        SEARCH_FILES_NAME
    }

    fn description(&self) -> &'static str {
        SEARCH_FILES_DESCRIPTION
    }

    fn parameters(&self) -> Json {
        Self::schema()
    }
}

pub const RUN_SHELL_COMMAND_NAME: &'static str = "run_shell_command";

pub const RUN_SHELL_COMMAND_DESCRIPTION: &'static str = "Execute a shell command on the system. Requires explicit user approval for each execution.";

pub const RUN_SHELL_COMMAND_COMMAND: &'static str = "The shell command to execute";

/// The argument schema of `run_shell_command`.
pub open spec fn run_shell_command_schema() -> JsonView {
    schema_json(
        seq![
        ("command"@, property_json("string"@, RUN_SHELL_COMMAND_COMMAND@)),
        ],
        seq!["command"@],
    )
}

/// `run_shell_command` as the model sees it.
pub open spec fn run_shell_command_tool() -> ToolView {
    ToolView { name: RUN_SHELL_COMMAND_NAME@, description: RUN_SHELL_COMMAND_DESCRIPTION@, parameters: run_shell_command_schema() }
}

impl ExecuteCommandTool {
    /// The argument schema.
    pub fn schema() -> (r: Json)
        ensures
            r@ == run_shell_command_schema(),
    {
        let mut p: Vec<(String, Json)> = Vec::new();
        p.push(property("command", "string", RUN_SHELL_COMMAND_COMMAND));
        let mut q: Vec<&str> = Vec::new();
        q.push("command");
        assert(member_views(p@) =~= run_shell_command_schema()->Object_0[1].1->Object_0);
        assert(q@.map_values(|x: &str| x@) =~= seq!["command"@]);
        schema(p, q)
    }

    /// The definition advertised to the model.
    pub fn tool_definition() -> (r: ToolDefinition)
        ensures
            r@ == run_shell_command_tool(),
    {
        ToolDefinition { name: RUN_SHELL_COMMAND_NAME.to_owned(), description: RUN_SHELL_COMMAND_DESCRIPTION.to_owned(), parameters: Self::schema() }
    }
}

impl Tool for ExecuteCommandTool {
    open spec fn tool_view(&self) -> ToolView {
        run_shell_command_tool()
    }

    fn name(&self) -> &'static str {
        RUN_SHELL_COMMAND_NAME
    }

    fn description(&self) -> &'static str {
        RUN_SHELL_COMMAND_DESCRIPTION
    }

    fn parameters(&self) -> Json {
        Self::schema()
    }
}

/// The built-in tools, in registration order.
pub open spec fn default_tools() -> Seq<ToolView> {
    seq![read_file_tool(), write_file_tool(), edit_file_tool(), web_search_tool(), web_read_page_tool(), search_files_tool(), run_shell_command_tool()]
}

/// A registry holding every built-in tool.
pub fn create_default_registry() -> (r: ToolRegistry)
    ensures
        r.wf(),
        r@ == default_tools(),
{
    let mut tools: Vec<ToolDefinition> = Vec::new();
    tools.push(ReadFileTool::tool_definition());
    tools.push(WriteFileTool::tool_definition());
    tools.push(EditFileTool::tool_definition());
    tools.push(WebSearchTool::tool_definition());
    tools.push(WebPageReaderTool::tool_definition());
    tools.push(SearchFilesTool::tool_definition());
    tools.push(ExecuteCommandTool::tool_definition());
    let r = ToolRegistry { tools };
    assert(r@ =~= default_tools());
    proof {
        reveal_strlit("read_file");
        reveal_strlit("write_file");
        reveal_strlit("edit_file");
        reveal_strlit("web_search");
        reveal_strlit("web_read_page");
        reveal_strlit("search_files");
        reveal_strlit("run_shell_command");
        assert(READ_FILE_NAME@ == "read_file"@);
        assert(WRITE_FILE_NAME@ == "write_file"@);
        assert(EDIT_FILE_NAME@ == "edit_file"@);
        assert(WEB_SEARCH_NAME@ == "web_search"@);
        assert(WEB_READ_PAGE_NAME@ == "web_read_page"@);
        assert(SEARCH_FILES_NAME@ == "search_files"@);
        assert(RUN_SHELL_COMMAND_NAME@ == "run_shell_command"@);
        assert(default_tools()[0].name[0] != default_tools()[2].name[0]);
        assert(default_tools()[1].name[1] != default_tools()[3].name[1]);
        assert(default_tools()[0].name.len() == 9);
        assert(default_tools()[1].name.len() == 10);
        assert(default_tools()[2].name.len() == 9);
        assert(default_tools()[3].name.len() == 10);
        assert(default_tools()[4].name.len() == 13);
        assert(default_tools()[5].name.len() == 12);
        assert(default_tools()[6].name.len() == 17);
        assert(default_tools()[0].name != default_tools()[1].name);
        assert(default_tools()[0].name != default_tools()[2].name);
        assert(default_tools()[0].name != default_tools()[3].name);
        assert(default_tools()[0].name != default_tools()[4].name);
        assert(default_tools()[0].name != default_tools()[5].name);
        assert(default_tools()[0].name != default_tools()[6].name);
        assert(default_tools()[1].name != default_tools()[2].name);
        assert(default_tools()[1].name != default_tools()[3].name);
        assert(default_tools()[1].name != default_tools()[4].name);
        assert(default_tools()[1].name != default_tools()[5].name);
        assert(default_tools()[1].name != default_tools()[6].name);
        assert(default_tools()[2].name != default_tools()[3].name);
        assert(default_tools()[2].name != default_tools()[4].name);
        assert(default_tools()[2].name != default_tools()[5].name);
        assert(default_tools()[2].name != default_tools()[6].name);
        assert(default_tools()[3].name != default_tools()[4].name);
        assert(default_tools()[3].name != default_tools()[5].name);
        assert(default_tools()[3].name != default_tools()[6].name);
        assert(default_tools()[4].name != default_tools()[5].name);
        assert(default_tools()[4].name != default_tools()[6].name);
        assert(default_tools()[5].name != default_tools()[6].name);
    }
    r
}

/// Bytes that percent-encoding leaves as they are.
pub open spec fn url_safe(b: u8) -> bool {
    (48 <= b <= 57) || (65 <= b <= 90) || (97 <= b <= 122) || b == 45 || b == 46 || b == 95 || b == 126
}

pub open spec fn hex_digit(d: u8) -> char {
    if d < 10 { (48 + d) as char } else { (55 + d) as char }
}

/// Every byte but the safe ones written as `%` and two upper-case hex digits.
pub open spec fn percent_encoded(bs: Seq<u8>) -> Seq<char>
    decreases bs.len(),
{
    if bs.len() == 0 {
        Seq::empty()
    } else {
        let b = bs.last();
        percent_encoded(bs.drop_last()) + if url_safe(b) {
            seq![b as char]
        } else {
            seq!['%', hex_digit(b / 16), hex_digit(b % 16)]
        }
    }
}

/// Relies on `urlencoding::encode`: percent-encodes every UTF-8 byte except ASCII
/// letters, digits and `-`, `.`, `_`, `~`, with upper-case hex digits.
#[verifier::external_body]
fn url_encode(s: &str) -> (r: String)
    ensures
        r@ == percent_encoded(encode_utf8(s@)),
{
    urlencoding::encode(s).into_owned()
}

/// What html2text's plain configuration, with width overflow allowed, makes of an HTML
/// document at a given width: the rendered text, or `None` when rendering fails.
pub uninterp spec fn rendered_html(html: Seq<char>, width: nat) -> Option<Seq<char>>;

/// Relies on html2text's `config::plain().allow_width_overflow().string_from_read`: the
/// outcome, success or failure, depends on the document and the width alone.
#[verifier::external_body]
fn html_to_text(html: &str, width: usize) -> (r: Option<String>)
    ensures
        r matches Some(t) ==> rendered_html(html@, width as nat) == Some(t@),
        r is None ==> rendered_html(html@, width as nat) is None,
{
    html2text::config::plain().allow_width_overflow().string_from_read(html.as_bytes(), width).ok()
}

/// The elements a CSS selector matches in an HTML document, in document order: each
/// element's text pieces and its `href` attribute; `None` when the selector does not parse.
pub uninterp spec fn selected(html: Seq<char>, selector: Seq<char>) -> Option<Seq<(Seq<Seq<char>>, Option<Seq<char>>)>>;

pub open spec fn texts_view(v: Seq<String>) -> Seq<Seq<char>> {
    v.map_values(|t: String| t@)
}

pub open spec fn element_views(v: Seq<(Vec<String>, Option<String>)>) -> Seq<(Seq<Seq<char>>, Option<Seq<char>>)> {
    v.map_values(|e: (Vec<String>, Option<String>)| (texts_view(e.0@), match e.1 {
        Some(h) => Some(h@),
        None => None,
    }))
}

/// Relies on scraper's `Selector::parse`, `Html::parse_document`, `Html::select` (document
/// order), `ElementRef::text` and `Element::attr("href")`.
#[verifier::external_body]
fn select_elements(html: &str, selector: &str) -> (r: Option<Vec<(Vec<String>, Option<String>)>>)
    ensures
        match r {
            Some(v) => selected(html@, selector@) == Some(element_views(v@)),
            None => selected(html@, selector@) is None,
        },
{
    let sel = scraper::Selector::parse(selector).ok()?;
    let document = scraper::Html::parse_document(html);
    Some(document.select(&sel).map(|e| (
        e.text().map(|t| t.to_string()).collect(),
        e.value().attr("href").map(|h| h.to_string()),
    )).collect())
}

/// Text pieces joined by single spaces.
pub open spec fn joined(pieces: Seq<Seq<char>>) -> Seq<char>
    decreases pieces.len(),
{
    if pieces.len() == 0 {
        Seq::empty()
    } else if pieces.len() == 1 {
        pieces[0]
    } else {
        joined(pieces.drop_last()) + " "@ + pieces.last()
    }
}

/// Result links paired in order with snippets: the link's text, its target (empty when
/// it has none) and the snippet's text; as many rows as the shorter list has.
pub open spec fn element_rows(
    links: Seq<(Seq<Seq<char>>, Option<Seq<char>>)>,
    snippets: Seq<(Seq<Seq<char>>, Option<Seq<char>>)>,
) -> Seq<(Seq<char>, Seq<char>, Seq<char>)> {
    let n = if links.len() <= snippets.len() { links.len() } else { snippets.len() };
    Seq::new(n, |i: int| (
        joined(links[i].0),
        match links[i].1 {
            Some(h) => h,
            None => Seq::empty(),
        },
        joined(snippets[i].0),
    ))
}

/// The result rows of a DuckDuckGo Lite page: `.result-link` elements paired with
/// `.result-snippet` elements.
pub open spec fn result_rows(html: Seq<char>) -> Seq<(Seq<char>, Seq<char>, Seq<char>)> {
    match (selected(html, ".result-link"@), selected(html, ".result-snippet"@)) {
        (Some(l), Some(s)) => element_rows(l, s),
        _ => Seq::empty(),
    }
}

pub open spec fn row_views(v: Seq<(String, String, String)>) -> Seq<(Seq<char>, Seq<char>, Seq<char>)> {
    v.map_values(|r: (String, String, String)| (r.0@, r.1@, r.2@))
}

fn join_pieces(pieces: &Vec<String>) -> (r: String)
    ensures
        r@ == joined(texts_view(pieces@)),
{
    let ghost tv = texts_view(pieces@);
    let mut out: Vec<char> = Vec::new();
    let mut i: usize = 0;
    assert(tv.subrange(0, 0) =~= Seq::<Seq<char>>::empty());
    while i < pieces.len()
        invariant
            i <= pieces@.len(),
            tv == texts_view(pieces@),
            out@ == joined(tv.subrange(0, i as int)),
        decreases pieces@.len() - i,
    {
        let ghost sub = tv.subrange(0, i + 1);
        assert(sub.drop_last() == tv.subrange(0, i as int));
        if i > 0 {
            append_str(&mut out, " ");
        } else {
            assert(sub.len() == 1);
        }
        append_str(&mut out, pieces[i].as_str());
        i = i + 1;
    }
    assert(tv.subrange(0, pieces@.len() as int) == tv);
    string_of(&out)
}

fn search_rows(html: &str) -> (r: Vec<(String, String, String)>)
    ensures
        row_views(r@) == result_rows(html@),
{
    let mut rows: Vec<(String, String, String)> = Vec::new();
    let (links, snippets) = match (select_elements(html, ".result-link"), select_elements(html, ".result-snippet")) {
        (Some(l), Some(s)) => (l, s),
        _ => {
            assert(row_views(rows@) =~= result_rows(html@));
            return rows;
        },
    };
    let ghost lv = element_views(links@);
    let ghost sv = element_views(snippets@);
    let n = if links.len() <= snippets.len() { links.len() } else { snippets.len() };
    let mut i: usize = 0;
    while i < n
        invariant
            i <= n,
            n <= links@.len(),
            n <= snippets@.len(),
            lv == element_views(links@),
            sv == element_views(snippets@),
            rows@.len() == i,
            forall|j: int| 0 <= j < i ==> (#[trigger] row_views(rows@)[j]) == element_rows(lv, sv)[j],
        decreases n - i,
    {
        let title = join_pieces(&links[i].0);
        let href = match &links[i].1 {
            Some(h) => h.clone(),
            None => String::new(),
        };
        let snippet = join_pieces(&snippets[i].0);
        let ghost pre = rows@;
        assert(lv[i as int].0 == texts_view(links@[i as int].0@));
        assert(sv[i as int].0 == texts_view(snippets@[i as int].0@));
        assert(href@ == match lv[i as int].1 {
            Some(h) => h,
            None => Seq::<char>::empty(),
        });
        let ghost row = (title@, href@, snippet@);
        rows.push((title, href, snippet));
        assert(row_views(rows@)[i as int] == row);
        assert(row == element_rows(lv, sv)[i as int]);
        assert(forall|j: int| 0 <= j < i ==> #[trigger] row_views(rows@)[j] == row_views(pre)[j]);
        i = i + 1;
    }
    assert(row_views(rows@) =~= result_rows(html@));
    rows
}

/// The rows a search reports: of the first five, those with a title and a target.
pub open spec fn kept_rows(rows: Seq<(Seq<char>, Seq<char>, Seq<char>)>) -> Seq<JsonView>
    decreases rows.len(),
{
    if rows.len() == 0 {
        Seq::empty()
    } else {
        let r = rows.last();
        kept_rows(rows.drop_last()) + if r.1.len() == 0 || r.0.len() == 0 {
            Seq::empty()
        } else {
            seq![JsonView::Object(seq![
                ("title"@, JsonView::Str(trimmed(r.0))),
                ("url"@, JsonView::Str(r.1)),
                ("snippet"@, JsonView::Str(trimmed(r.2))),
            ])]
        }
    }
}

pub open spec fn search_report(html: Seq<char>) -> Seq<char> {
    let rows = result_rows(html);
    let first = if rows.len() <= 5 { rows } else { rows.subrange(0, 5) };
    let kept = kept_rows(first);
    if kept.len() == 0 { "No results found."@ } else { pretty_json_of(JsonView::Array(kept)) }
}

/// How much of a rendered page is kept.
pub const PAGE_LIMIT: usize = 10000;

/// The report of a rendered page's text.
pub open spec fn page_report(t: Seq<char>) -> Seq<char> {
    if byte_len(t) > PAGE_LIMIT {
        fit_prefix(t, PAGE_LIMIT as nat) + "...\n\n(Content truncated)"@
    } else {
        t
    }
}

impl WebSearchTool {
    /// The DuckDuckGo Lite address that searches for `query`.
    pub fn search_url(query: &str) -> (r: String)
        ensures
            r@ == "https://lite.duckduckgo.com/lite/?q="@ + percent_encoded(encode_utf8(query@)),
    {
        let mut cs: Vec<char> = Vec::new();
        append_str(&mut cs, "https://lite.duckduckgo.com/lite/?q=");
        let e = url_encode(query);
        append_str(&mut cs, e.as_str());
        string_of(&cs)
    }

    /// The report of a results page: up to five results as JSON, or a note that there
    /// were none.
    pub fn results_text(html: &str) -> (r: String)
        ensures
            r@ == search_report(html@),
    {
        let rows = search_rows(html);
        let n = if rows.len() <= 5 { rows.len() } else { 5 };
        let ghost rv = row_views(rows@);
        let ghost first = if rv.len() <= 5 { rv } else { rv.subrange(0, 5) };
        let mut out: Vec<Json> = Vec::new();
        let mut i: usize = 0;
        while i < n
            invariant
                i <= n,
                n <= rows@.len(),
                rv == row_views(rows@),
                first == if rv.len() <= 5 { rv } else { rv.subrange(0, 5) },
                n == first.len(),
                item_views(out@) == kept_rows(first.subrange(0, i as int)),
            decreases n - i,
        {
            let (title, url, snippet) = (&rows[i].0, &rows[i].1, &rows[i].2);
            if !url.as_str().is_empty() && !title.as_str().is_empty() {
                let mut m: Vec<(String, Json)> = Vec::new();
                m.push(entry("title", text_value(trim(title.as_str()))));
                m.push(entry("url", text_value(url.as_str())));
                m.push(entry("snippet", text_value(trim(snippet.as_str()))));
                let o = object(m);
                out.push(o);
                assert(member_views(m@) =~= seq![
                    ("title"@, JsonView::Str(trimmed(title@))),
                    ("url"@, JsonView::Str(url@)),
                    ("snippet"@, JsonView::Str(trimmed(snippet@))),
                ]);
            }
            assert(first.subrange(0, i + 1).drop_last() == first.subrange(0, i as int));
            assert(first[i as int] == (title@, url@, snippet@));
            assert(item_views(out@) =~= kept_rows(first.subrange(0, i + 1)));
            i = i + 1;
        }
        assert(first.subrange(0, n as int) == first);
        if out.len() == 0 {
            return "No results found.".to_owned();
        }
        let a = array(out);
        pretty_json(&a)
    }
}

impl WebPageReaderTool {
    /// The readable text of a page, cut after ten thousand bytes, or the error reported
    /// when the page cannot be rendered.
    pub fn page_text(html: &str) -> (r: Result<String, String>)
        ensures
            r is Ok <==> rendered_html(html@, 80) is Some,
            r matches Ok(t) ==> rendered_html(html@, 80) matches Some(page) && t@ == page_report(page),
            r matches Err(e) ==> e@ == "Failed to render page as text"@,
    {
        let t = match html_to_text(html, 80) {
            Some(t) => t,
            None => return Err("Failed to render page as text".to_owned()),
        };
        if crate::text::exceeds(t.as_str(), PAGE_LIMIT) {
            let mut cs = byte_prefix(t.as_str(), PAGE_LIMIT);
            append_str(&mut cs, "...\n\n(Content truncated)");
            Ok(string_of(&cs))
        } else {
            Ok(t)
        }
    }
}

/// How the user answered a request to run a command.
#[derive(PartialEq, Eq, Structural, Clone, Copy, Debug)]
pub enum Approval {
    /// Run this one.
    Once,
    /// Run this one and every later one of the session without asking.
    Always,
    Denied,
}

pub open spec fn approval_of(answer: Seq<char>) -> Approval {
    if lower_of(trimmed(answer)) == "a"@ {
        Approval::Always
    } else if lower_of(trimmed(answer)) == "y"@ {
        Approval::Once
    } else {
        Approval::Denied
    }
}

/// The report of a finished command: its output streams, or a note that there were
/// none, and the exit status when it failed.
pub open spec fn command_report_text(stdout: Seq<char>, stderr: Seq<char>, success: bool, status: Seq<char>) -> Seq<char> {
    let out = if stdout.len() > 0 { "Stdout:\n"@ + stdout + "\n"@ } else { Seq::empty() };
    let err = if stderr.len() > 0 { "Stderr:\n"@ + stderr + "\n"@ } else { Seq::empty() };
    let both = out + err;
    let body = if both.len() == 0 { "(Command executed successfully with no output)"@ } else { both };
    if success { body } else { body + "\nCommand failed with exit code: "@ + status }
}

impl ExecuteCommandTool {
    /// Reads the user's answer: `a` approves for the rest of the session, `y` once, any
    /// other answer denies.
    pub fn approval(answer: &str) -> (r: Approval)
        ensures
            r == approval_of(answer@),
    {
        let low = lowercase(trim(answer));
        let t = low.as_str();
        if text_eq(t, "a") {
            Approval::Always
        } else if text_eq(t, "y") {
            Approval::Once
        } else {
            Approval::Denied
        }
    }

    pub fn report(stdout: &str, stderr: &str, success: bool, status: &str) -> (r: String)
        ensures
            r@ == command_report_text(stdout@, stderr@, success, status@),
    {
        let mut cs: Vec<char> = Vec::new();
        if !stdout.is_empty() {
            append_str(&mut cs, "Stdout:\n");
            append_str(&mut cs, stdout);
            append_str(&mut cs, "\n");
        }
        if !stderr.is_empty() {
            append_str(&mut cs, "Stderr:\n");
            append_str(&mut cs, stderr);
            append_str(&mut cs, "\n");
        }
        if cs.len() == 0 {
            append_str(&mut cs, "(Command executed successfully with no output)");
        }
        if !success {
            append_str(&mut cs, "\nCommand failed with exit code: ");
            append_str(&mut cs, status);
        }
        string_of(&cs)
    }
}

impl WriteFileTool {
    /// The report of a successful write.
    pub fn report(path: &str, content: &str) -> (r: String)
        requires
            byte_len(content@) <= usize::MAX,
        ensures
            r@ == "Successfully wrote "@ + crate::text::decimal(byte_len(content@)) + " bytes to '"@ + path@ + "'"@,
    {
        let mut cs: Vec<char> = Vec::new();
        append_str(&mut cs, "Successfully wrote ");
        crate::text::push_decimal(&mut cs, content.len() as u64);
        append_str(&mut cs, " bytes to '");
        append_str(&mut cs, path);
        append_str(&mut cs, "'");
        string_of(&cs)
    }
}

impl SearchFilesTool {
    /// The report of a finished search: the paths found, a note that there were none,
    /// or the error output when the search failed.
    pub fn report(found: &str, success: bool, errors: &str) -> (r: Result<String, String>)
        ensures
            !success ==> (r matches Err(e) && e@ == "Search failed: "@ + errors@),
            success ==> (r matches Ok(t) && t@ == if trimmed(found@).len() == 0 {
                "No files found matching the criteria."@
            } else {
                found@
            }),
    {
        if !success {
            let mut cs: Vec<char> = Vec::new();
            append_str(&mut cs, "Search failed: ");
            append_str(&mut cs, errors);
            return Err(string_of(&cs));
        }
        if trim(found).is_empty() {
            Ok("No files found matching the criteria.".to_owned())
        } else {
            Ok(found.to_owned())
        }
    }
}

/// Which built-in tool a call runs.
#[derive(PartialEq, Eq, Structural, Clone, Copy, Debug)]
pub enum ToolKind {
    ReadFile,
    WriteFile,
    EditFile,
    WebSearch,
    WebReadPage,
    SearchFiles,
    RunShellCommand,
}

/// The built-in tool a name denotes.
pub open spec fn kind_of(name: Seq<char>) -> Option<ToolKind> {
    if name == READ_FILE_NAME@ {
        Some(ToolKind::ReadFile)
    } else if name == WRITE_FILE_NAME@ {
        Some(ToolKind::WriteFile)
    } else if name == EDIT_FILE_NAME@ {
        Some(ToolKind::EditFile)
    } else if name == WEB_SEARCH_NAME@ {
        Some(ToolKind::WebSearch)
    } else if name == WEB_READ_PAGE_NAME@ {
        Some(ToolKind::WebReadPage)
    } else if name == SEARCH_FILES_NAME@ {
        Some(ToolKind::SearchFiles)
    } else if name == RUN_SHELL_COMMAND_NAME@ {
        Some(ToolKind::RunShellCommand)
    } else {
        None
    }
}

impl ToolRegistry {
    /// The tool a call names: one that is registered and built in, or the error reported
    /// for an unknown name.
    pub fn resolve(&self, name: &str) -> (r: Result<ToolKind, String>)
        ensures
            match r {
                Ok(k) => position_of(self@, name@) is Some && kind_of(name@) == Some(k),
                Err(e) => (position_of(self@, name@) is None || kind_of(name@) is None)
                    && e@ == "Unknown tool: "@ + name@,
            },
    {
        let found = match self.find(name) {
            Some(_) => {
                if text_eq(name, READ_FILE_NAME) {
                    Some(ToolKind::ReadFile)
                } else if text_eq(name, WRITE_FILE_NAME) {
                    Some(ToolKind::WriteFile)
                } else if text_eq(name, EDIT_FILE_NAME) {
                    Some(ToolKind::EditFile)
                } else if text_eq(name, WEB_SEARCH_NAME) {
                    Some(ToolKind::WebSearch)
                } else if text_eq(name, WEB_READ_PAGE_NAME) {
                    Some(ToolKind::WebReadPage)
                } else if text_eq(name, SEARCH_FILES_NAME) {
                    Some(ToolKind::SearchFiles)
                } else if text_eq(name, RUN_SHELL_COMMAND_NAME) {
                    Some(ToolKind::RunShellCommand)
                } else {
                    None
                }
            },
            None => None,
        };
        match found {
            Some(k) => Ok(k),
            None => {
                let mut cs: Vec<char> = Vec::new();
                append_str(&mut cs, "Unknown tool: ");
                append_str(&mut cs, name);
                Err(string_of(&cs))
            },
        }
    }
}

} // verus!
