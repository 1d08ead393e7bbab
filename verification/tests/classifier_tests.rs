use mermaid_render::classifier::looks_like_diagram;

#[test]
fn recognizes_each_keyword() {
    assert!(looks_like_diagram("flowchart TD\nA-->B"));
    assert!(looks_like_diagram("graph LR\nA-->B"));
    assert!(looks_like_diagram("sequenceDiagram\nAlice->>Bob: hi"));
    assert!(looks_like_diagram("classDiagram\nAnimal <|-- Duck"));
    assert!(looks_like_diagram("stateDiagram\n[*] --> Still"));
    assert!(looks_like_diagram("stateDiagram-v2\n[*] --> Still"));
    assert!(looks_like_diagram("erDiagram\nCUSTOMER ||--o{ ORDER : places"));
    assert!(looks_like_diagram("timeline\ntitle History"));
    assert!(looks_like_diagram("pie title Pets\n\"Dogs\" : 42"));
    assert!(looks_like_diagram("mindmap\n  root((idea))"));
}

#[test]
fn keyword_alone_is_enough() {
    assert!(looks_like_diagram("flowchart"));
    assert!(looks_like_diagram("pie"));
}

#[test]
fn empty_and_blank_text_never_classify() {
    assert!(!looks_like_diagram(""));
    assert!(!looks_like_diagram("   "));
    assert!(!looks_like_diagram("\n\n"));
    assert!(!looks_like_diagram(" \t \r\n  \n"));
}

#[test]
fn unknown_first_token_does_not_classify() {
    assert!(!looks_like_diagram("hello world"));
    assert!(!looks_like_diagram("digraph G { a -> b }"));
    assert!(!looks_like_diagram("- flowchart"));
}

#[test]
fn keyword_match_is_exact() {
    assert!(!looks_like_diagram("Flowchart TD"));
    assert!(!looks_like_diagram("FLOWCHART TD"));
    assert!(!looks_like_diagram("flowcharts TD"));
    assert!(!looks_like_diagram("pies"));
}

#[test]
fn leading_blank_lines_are_ignored() {
    assert!(looks_like_diagram("\n\n  \nflowchart TD"));
    assert!(looks_like_diagram("\r\n\t\r\nsequenceDiagram"));
    assert!(looks_like_diagram("   flowchart TD"));
}

#[test]
fn keyword_not_on_first_content_line_does_not_classify() {
    assert!(!looks_like_diagram("title something\nflowchart TD"));
}
