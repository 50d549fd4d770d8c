use ask::edit::Edited;
use ask::json::Json;
use ask::tools::{create_default_registry, Approval, SearchFilesTool, EditFileTool, ExecuteCommandTool, ReadFileTool, Tool, ToolKind, ToolRegistry, WebPageReaderTool, WebSearchTool, WriteFileTool};

fn args(s: &str) -> Json {
    Json::parse(s).unwrap()
}

fn edit(content: &str, a: &str) -> Result<Edited, String> {
    let a = args(a);
    let new = a.get_str("new_string").unwrap().to_string();
    EditFileTool::apply("f.txt", content, &new, &a)
}

#[test]
fn replace_first_and_all() {
    let r = edit("a x a", "{\"old_string\":\"a\",\"new_string\":\"b\"}").unwrap();
    assert_eq!(r.content, "b x a");
    assert!(r.message.contains("Note: 2 total occurrences"));
    let r = edit("a x a", "{\"old_string\":\"a\",\"new_string\":\"b\",\"replace_all\":true}").unwrap();
    assert_eq!(r.content, "b x b");
    assert_eq!(r.message, "Replaced all 2 occurrence(s) of the specified text in 'f.txt'.");
    let r = edit("one", "{\"old_string\":\"one\",\"new_string\":\"two\"}").unwrap();
    assert_eq!(r.message, "Replaced the specified text in 'f.txt'.");
}

#[test]
fn replacement_errors() {
    assert!(edit("abc", "{\"old_string\":\"a\",\"new_string\":\"a\"}").unwrap_err().starts_with("old_string and new_string are identical"));
    assert!(edit("  abc", "{\"old_string\":\" abc \",\"new_string\":\"x\"}").unwrap_err().starts_with("Exact match not found"));
    assert_eq!(
        edit("abc", "{\"old_string\":\"zz\",\"new_string\":\"x\"}").unwrap_err(),
        "old_string not found in 'f.txt'. Use read_file to verify the exact content you want to replace."
    );
    assert!(edit("abc", "{\"new_string\":\"x\"}").unwrap_err().starts_with("Must provide either"));
}

#[test]
fn line_range_edits() {
    let r = edit("l1\nl2\nl3\n", "{\"start_line\":2,\"end_line\":2,\"new_string\":\"new\"}").unwrap();
    assert_eq!(r.content, "l1\nnew\nl3\n");
    assert_eq!(r.message, "Edited 'f.txt': 3 lines -> 3 lines (same line count).");
    let r = edit("l1\nl2\nl3", "{\"start_line\":1,\"end_line\":2,\"new_string\":\"\"}").unwrap();
    assert_eq!(r.content, "l3");
    assert_eq!(r.message, "Edited 'f.txt': 3 lines -> 1 lines (-2 lines).");
    let r = edit("l1\r\nl2\r\n", "{\"start_line\":1,\"end_line\":1,\"new_string\":\"a\\nb\\n\"}").unwrap();
    assert_eq!(r.content, "a\nb\nl2\n");
    assert!(r.message.ends_with("(+1 lines)."));
}

#[test]
fn line_range_errors() {
    assert!(edit("a\n", "{\"start_line\":0,\"end_line\":1,\"new_string\":\"x\"}").unwrap_err().starts_with("Line numbers are 1-indexed"));
    assert_eq!(edit("a\n", "{\"start_line\":3,\"end_line\":3,\"new_string\":\"x\"}").unwrap_err(), "start_line 3 exceeds file length (1 lines).");
    assert_eq!(edit("a\nb\n", "{\"start_line\":1,\"end_line\":5,\"new_string\":\"x\"}").unwrap_err(), "end_line 5 exceeds file length (2 lines).");
    assert_eq!(edit("a\nb\n", "{\"start_line\":2,\"end_line\":1,\"new_string\":\"x\"}").unwrap_err(), "start_line (2) must be <= end_line (1).");
}

#[test]
fn reading_whole_file_and_chunks() {
    let content = "alpha\nbeta\ngamma\n";
    assert_eq!(ReadFileTool::show("f", content, &args("{\"path\":\"f\"}")), "   1: alpha\n   2: beta\n   3: gamma\n");
    assert_eq!(
        ReadFileTool::show("f", content, &args("{\"path\":\"f\",\"offset\":2,\"limit\":1}")),
        "Lines 2-2 of 3 total:\n\n   2: beta\n"
    );
    assert_eq!(ReadFileTool::show("f", content, &args("{\"offset\":9}")), "Offset 9 exceeds file length (3 lines)");
    let many: String = (1..=12).map(|i| format!("line {}\n", i)).collect();
    assert!(ReadFileTool::chunk(&many, Some(10), None).contains("  10: line 10\n"));
    assert!(ReadFileTool::chunk(&"x\n".repeat(10000), Some(10000), Some(1)).contains("10000: x\n"));
}

#[test]
fn searching_with_context() {
    let content = "a\nNEEDLE one\nb\nc\nd\ne\nf\nneedle two\n";
    let out = ReadFileTool::show("f.rs", content, &args("{\"search\":\"needle\",\"context_lines\":1}"));
    assert_eq!(
        out,
        "Found 2 match(es) for 'needle' in f.rs:\n\n     1: a\n>    2: NEEDLE one\n     3: b\n  ...\n     7: f\n>    8: needle two\n"
    );
    assert_eq!(ReadFileTool::search("f.rs", content, "absent", 3), "No matches found for 'absent' in f.rs");
    let near = ReadFileTool::search("f", "x\nx\ny\n", "X", 6);
    assert_eq!(near, "Found 2 match(es) for 'X' in f:\n\n>    1: x\n     2: x\n     3: y\n");
}

#[test]
fn registry_lookup_and_replacement() {
    let reg = create_default_registry();
    assert_eq!(reg.definitions().len(), 7);
    assert!(reg.get("edit_file").is_some());
    match reg.lookup("nope") {
        Err(e) => assert_eq!(e, "Unknown tool: nope"),
        Ok(_) => panic!("unknown tool found"),
    }
    assert_eq!(reg.to_openai_format().len(), 7);
    let mut r = ToolRegistry::new();
    r.register(WriteFileTool::tool_definition());
    let mut second = WriteFileTool::tool_definition();
    second.description = "changed".to_string();
    r.register(second);
    assert_eq!(r.definitions().len(), 1);
    assert_eq!(r.get("write_file").unwrap().description, "changed");
    assert!(matches!(r.to_gemini_format(), ask::json::Json::Object(m) if m[0].0 == "function_declarations"));
    assert!(matches!(ReadFileTool.parameters(), ask::json::Json::Object(_)));
}

#[test]
fn command_approval_and_report() {
    assert_eq!(ExecuteCommandTool::approval(" A\n"), Approval::Always);
    assert_eq!(ExecuteCommandTool::approval("y\n"), Approval::Once);
    assert_eq!(ExecuteCommandTool::approval("yes"), Approval::Denied);
    assert_eq!(ExecuteCommandTool::report("out", "", true, "exit status: 0"), "Stdout:\nout\n");
    assert_eq!(ExecuteCommandTool::report("", "", true, "exit status: 0"), "(Command executed successfully with no output)");
    assert_eq!(
        ExecuteCommandTool::report("", "bad", false, "exit status: 2"),
        "Stderr:\nbad\n\nCommand failed with exit code: exit status: 2"
    );
}

#[test]
fn web_tools_shape_their_output() {
    assert_eq!(WebSearchTool::search_url("rust lang&co"), "https://lite.duckduckgo.com/lite/?q=rust%20lang%26co");
    let html = "<html><body><table>\
        <tr><td><a class=\"result-link\" href=\"https://a.example\">First  result</a></td></tr>\
        <tr><td class=\"result-snippet\"> about a </td></tr>\
        <tr><td><a class=\"result-link\">No target</a></td></tr>\
        <tr><td class=\"result-snippet\">x</td></tr>\
        </table></body></html>";
    let out = WebSearchTool::results_text(html);
    assert!(out.contains("\"url\": \"https://a.example\""));
    assert!(out.contains("\"snippet\": \"about a\""));
    assert!(!out.contains("No target"));
    assert_eq!(WebSearchTool::results_text("<html></html>"), "No results found.");
    let page = WebPageReaderTool::page_text("<html><body><p>Hello <b>world</b></p></body></html>").unwrap();
    assert!(page.contains("Hello"));
    assert!(!page.contains("<p>"));
    let long = format!("<p>{}</p>", "word ".repeat(4000));
    assert!(WebPageReaderTool::page_text(&long).unwrap().ends_with("...\n\n(Content truncated)"));
    let deep = format!("{}x{}", "<blockquote>".repeat(60), "</blockquote>".repeat(60));
    assert!(WebPageReaderTool::page_text(&deep).is_ok());
}

#[test]
fn write_and_search_reports() {
    assert_eq!(WriteFileTool::report("a.txt", "h\u{e9}"), "Successfully wrote 3 bytes to 'a.txt'");
    assert_eq!(SearchFilesTool::report(" \n", true, ""), Ok("No files found matching the criteria.".to_string()));
    assert_eq!(SearchFilesTool::report("./a.rs\n", true, ""), Ok("./a.rs\n".to_string()));
    assert_eq!(SearchFilesTool::report("", false, "bad path"), Err("Search failed: bad path".to_string()));
    let reg = create_default_registry();
    assert_eq!(reg.resolve("edit_file"), Ok(ToolKind::EditFile));
    assert_eq!(reg.resolve("nope"), Err("Unknown tool: nope".to_string()));
    assert_eq!(ToolRegistry::new().resolve("read_file"), Err("Unknown tool: read_file".to_string()));
}

#[test]
fn schemas_list_their_properties() {
    let keys = |j: &Json| match j { Json::Object(m) => m.iter().map(|(k, _)| k.clone()).collect::<Vec<_>>(), _ => vec![] };
    let schema = EditFileTool::schema();
    assert_eq!(keys(&schema), vec!["type", "properties", "required"]);
    match &schema {
        Json::Object(m) => {
            assert_eq!(keys(&m[1].1), vec!["path", "old_string", "new_string", "start_line", "end_line", "replace_all"]);
            assert!(matches!(&m[2].1, Json::Array(a) if a.len() == 2));
        },
        _ => panic!("schema is an object"),
    }
    let names: Vec<String> = create_default_registry().definitions().iter().map(|d| d.name.clone()).collect();
    assert_eq!(names, vec!["read_file", "write_file", "edit_file", "web_search", "web_read_page", "search_files", "run_shell_command"]);
}

#[test]
fn search_titles_join_their_text_pieces() {
    let html = "<table><tr><td><a class=\"result-link\" href=\"https://b.example\">Foo <b>bar</b></a></td></tr>\
        <tr><td class=\"result-snippet\">one <i>two</i></td></tr></table>";
    let out = WebSearchTool::results_text(html);
    assert!(out.contains("\"title\": \"Foo  bar\""));
    assert!(out.contains("\"snippet\": \"one  two\""));
    assert_eq!(ReadFileTool.parameters().to_text(), ReadFileTool::schema().to_text());
    assert_eq!(EditFileTool.name(), "edit_file");
}
