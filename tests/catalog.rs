use agent_skills_mcp::model::Mode;
use agent_skills_mcp::scan::{is_marker_file, parse_markdown_file, ScanError};

#[test]
fn mode_parses_ignoring_case() {
    assert_eq!(Mode::from_str("tool"), Ok(Mode::Tool));
    assert_eq!(Mode::from_str("System_Prompt"), Ok(Mode::SystemPrompt));
    assert_eq!(Mode::from_str("SINGLE_TOOL"), Ok(Mode::SingleTool));
}

#[test]
fn mode_rejects_unknown_token() {
    assert_eq!(
        Mode::from_str("Bogus"),
        Err("Invalid mode: Bogus. Must be 'tool', 'system_prompt', or 'single_tool'".to_string())
    );
}

#[test]
fn marker_file_name_is_exact() {
    assert!(is_marker_file("SKILL.md"));
    assert!(!is_marker_file("skill.md"));
    assert!(!is_marker_file("SKILL.markdown"));
}

#[test]
fn front_matter_name_wins_over_file_name() {
    let text = "---\nname: \"foo\"\ndescription: Does foo things\n---\nBody of foo";
    let s = parse_markdown_file("/root/skills/bar/SKILL.md", "/root/skills", text).unwrap();
    assert_eq!(s.name, "foo");
    assert_eq!(s.description, "Does foo things");
    assert_eq!(s.content, "Body of foo");
    assert_eq!(s.relative_path, "bar/SKILL.md");
}

#[test]
fn no_front_matter_uses_file_stem() {
    let s = parse_markdown_file("/root/skills/x/SKILL.md", "/root/skills", "Just a body").unwrap();
    assert_eq!(s.name, "SKILL");
    assert_eq!(s.description, "");
    assert_eq!(s.content, "Just a body");
    assert_eq!(s.relative_path, "x/SKILL.md");
}

#[test]
fn front_matter_without_name_uses_file_stem() {
    let text = "---\ndescription: only a description\n---\nText";
    let s = parse_markdown_file("/d/SKILL.md", "/d", text).unwrap();
    assert_eq!(s.name, "SKILL");
    assert_eq!(s.description, "only a description");
    assert_eq!(s.content, "Text");
}

#[test]
fn non_mapping_front_matter_falls_back() {
    let text = "---\n- a\n- b\n---\nText";
    let s = parse_markdown_file("/d/SKILL.md", "/d", text).unwrap();
    assert_eq!(s.name, "SKILL");
    assert_eq!(s.description, "");
}

#[test]
fn file_outside_folder_is_refused() {
    let r = parse_markdown_file("/elsewhere/SKILL.md", "/root/skills", "body");
    assert!(matches!(r, Err(ScanError::OutsideFolder)));
}

#[test]
fn path_without_file_name_is_refused() {
    let r = parse_markdown_file("/", "/", "body");
    assert!(matches!(r, Err(ScanError::NoFileName)));
}

#[test]
fn empty_front_matter_name_uses_file_stem() {
    let text = "---\nname: \"\"\ndescription: d\n---\nText";
    let s = parse_markdown_file("/d/SKILL.md", "/d", text).unwrap();
    assert_eq!(s.name, "SKILL");
    assert_eq!(s.description, "d");
}
