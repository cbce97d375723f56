use rust_core::env::EnvVars;
use rust_core::tui::mermaid::{
    render_diagram, render_diagram_ascii, extract_mermaid_blocks, extract_node_id, has_mermaid_diagrams, parse_edge,
    parse_mermaid_source, parse_node, render_diagram_kitty, supports_kitty_protocol, DiagramEdge,
    DiagramNode, EdgeStyle, MermaidDiagram, MermaidType, MermaidWidget, NodeShape, RenderBackend,
    ToneLine,
};

#[test]
fn extract_single_mermaid_block() {
    let text = r#"Some text
```mermaid
flowchart LR
    A[Start] --> B[End]
```
More text"#;

    let diagrams = extract_mermaid_blocks(text);
    assert_eq!(diagrams.len(), 1);
    assert_eq!(diagrams[0].diagram_type, MermaidType::Flowchart);
    assert!(diagrams[0].nodes.len() >= 2);
    assert_eq!(diagrams[0].edges.len(), 1);
}

#[test]
fn extract_multiple_blocks() {
    let text = r#"```mermaid
flowchart LR
    A --> B
```
Some text
```mermaid
sequence
    Alice->>Bob: Hello
```"#;

    let diagrams = extract_mermaid_blocks(text);
    assert_eq!(diagrams.len(), 2);
    assert_eq!(diagrams[0].diagram_type, MermaidType::Flowchart);
    assert_eq!(diagrams[1].diagram_type, MermaidType::Sequence);
}

#[test]
fn no_mermaid_blocks() {
    let diagrams = extract_mermaid_blocks("Just regular text, no diagrams.");
    assert!(diagrams.is_empty());
}

#[test]
fn has_mermaid_detection() {
    assert!(has_mermaid_diagrams("```mermaid\nflowchart"));
    assert!(has_mermaid_diagrams("``` mermaid"));
    assert!(!has_mermaid_diagrams("regular text"));
}

#[test]
fn parse_node_box() {
    let node = parse_node("A[Start Here]");
    assert!(node.is_some());
    let node = node.unwrap();
    assert_eq!(node.id, "A");
    assert_eq!(node.label, "Start Here");
    assert_eq!(node.shape, NodeShape::Box);
}

#[test]
fn parse_node_diamond() {
    let node = parse_node("B{Decision}");
    assert!(node.is_some());
    let node = node.unwrap();
    assert_eq!(node.id, "B");
    assert_eq!(node.label, "Decision");
    assert_eq!(node.shape, NodeShape::Diamond);
}

#[test]
fn parse_node_circle() {
    let node = parse_node("C((Process))");
    assert!(node.is_some());
    let node = node.unwrap();
    assert_eq!(node.id, "C");
    assert_eq!(node.shape, NodeShape::Circle);
}

#[test]
fn parse_edge_arrow() {
    let edge = parse_edge("A --> B");
    assert!(edge.is_some());
    let edge = edge.unwrap();
    assert_eq!(edge.from, "A");
    assert_eq!(edge.to, "B");
    assert_eq!(edge.style, EdgeStyle::Arrow);
}

#[test]
fn parse_edge_with_label() {
    let edge = parse_edge("A -->|Yes| B");
    assert!(edge.is_some());
    let edge = edge.unwrap();
    assert_eq!(edge.from, "A");
    assert_eq!(edge.to, "B");
    assert_eq!(edge.label, Some("Yes".to_string()));
}

#[test]
fn parse_edge_thick() {
    let edge = parse_edge("A ==> B");
    assert!(edge.is_some());
    let edge = edge.unwrap();
    assert_eq!(edge.style, EdgeStyle::Thick);
}

#[test]
fn mermaid_widget_navigation() {
    let diagrams = vec![
        MermaidDiagram {
            diagram_type: MermaidType::Flowchart,
            source: "flowchart LR".to_string(),
            nodes: vec![],
            edges: vec![],
            title: None,
        },
        MermaidDiagram {
            diagram_type: MermaidType::Sequence,
            source: "sequence".to_string(),
            nodes: vec![],
            edges: vec![],
            title: None,
        },
    ];

    let mut widget = MermaidWidget::new(diagrams);
    assert_eq!(widget.diagram_count(), 2);
    assert_eq!(widget.active_index, 0);

    widget.next_diagram();
    assert_eq!(widget.active_index, 1);

    widget.next_diagram();
    assert_eq!(widget.active_index, 0);

    widget.prev_diagram();
    assert_eq!(widget.active_index, 1);
}

#[test]
fn rounded_dotted_line_and_title() {
    let node = parse_node("R(Round)").unwrap();
    assert_eq!(node.shape, NodeShape::RoundedBox);
    assert_eq!(node.label, "Round");
    assert!(parse_node("A --> B").is_none());
    assert!(parse_node("plain").is_none());
    assert_eq!(parse_edge("A -.-> B").unwrap().style, EdgeStyle::Dotted);
    assert_eq!(parse_edge("A --- B").unwrap().style, EdgeStyle::Line);
    assert!(parse_edge("A -->").is_none());
    assert_eq!(parse_edge("A -->|| B").unwrap().label, None);
    assert_eq!(extract_node_id("  X{Choice} "), "X");
    assert_eq!(extract_node_id("Y"), "Y");
    let d = parse_mermaid_source("title My Chart\n%% comment\nA[One] --> B\n", MermaidType::Flowchart);
    assert_eq!(d.title, Some("My Chart".to_string()));
    assert_eq!(d.nodes.len(), 2);
    assert_eq!(d.nodes[0].label, "One");
    assert_eq!(d.nodes[1].id, "B");
    assert_eq!(d.nodes[1].label, "B");
    assert_eq!(MermaidType::Flowchart.name(), "Flowchart");
    assert_eq!(MermaidType::from_str("  stateDiagram-v2 "), MermaidType::State);
    assert_eq!(MermaidType::from_str("pie"), MermaidType::Unknown);
}

#[test]
fn unclosed_and_blank_blocks() {
    let d = extract_mermaid_blocks("```mermaid graph\nA --> B");
    assert_eq!(d.len(), 1);
    assert_eq!(d[0].diagram_type, MermaidType::Flowchart);
    assert_eq!(d[0].source, "A --> B");
    assert!(extract_mermaid_blocks("```mermaid\n   \n```").is_empty());
}

#[test]
fn kitty_detection_and_rendering() {
    let mut env = EnvVars::empty();
    assert!(!supports_kitty_protocol(&env));
    env.set("TERM", "xterm-kitty");
    assert!(supports_kitty_protocol(&env));
    let d = parse_mermaid_source("A --> B", MermaidType::Flowchart);
    assert!(render_diagram_kitty(&d).is_none());
}

fn line_text(l: &ToneLine) -> String {
    l.pieces.iter().map(|p| p.0.as_str()).collect()
}

#[test]
fn render_ascii_produces_output() {
    let diagram = MermaidDiagram {
        diagram_type: MermaidType::Flowchart,
        source: "flowchart LR\nA[Start] --> B[End]".to_string(),
        nodes: vec![
            DiagramNode { id: "A".to_string(), label: "Start".to_string(), shape: NodeShape::Box },
            DiagramNode { id: "B".to_string(), label: "End".to_string(), shape: NodeShape::Box },
        ],
        edges: vec![DiagramEdge {
            from: "A".to_string(),
            to: "B".to_string(),
            label: None,
            style: EdgeStyle::Arrow,
        }],
        title: None,
    };
    let lines = render_diagram_ascii(&diagram);
    assert!(lines.len() >= 3);
    assert!(line_text(&lines[0]).contains("Flowchart"));
}

#[test]
fn every_backend_draws_the_text_form() {
    let diagram = parse_mermaid_source("flowchart LR\nA[Start] --> B[End]", MermaidType::Flowchart);
    let ascii: Vec<String> = render_diagram_ascii(&diagram).iter().map(line_text).collect();
    for backend in [RenderBackend::Ascii, RenderBackend::Kitty, RenderBackend::Auto] {
        let drawn: Vec<String> = render_diagram(&diagram, backend).iter().map(line_text).collect();
        assert_eq!(drawn, ascii);
    }
    assert!(ascii[0].contains("Flowchart"));
}

#[test]
fn edge_ends_are_node_ids() {
    let edge = parse_edge("A[Start] --> B[End]").unwrap();
    assert_eq!(edge.from, "A");
    assert_eq!(edge.to, "B");
    assert_eq!(edge.label, None);
    assert_eq!(edge.style, EdgeStyle::Arrow);
}

#[test]
fn spaced_fence_opens_a_block() {
    let text = "``` mermaid\nflowchart LR\n    A[Start] --> B[End]\n```";
    let blocks = extract_mermaid_blocks(text);
    assert_eq!(blocks.len(), 1);
    assert_eq!(blocks[0].diagram_type, MermaidType::Flowchart);
    assert_eq!(blocks[0].edges.len(), 1);
    assert_eq!(blocks[0].edges[0].from, "A");
    let nodes: Vec<(String, String)> = blocks[0].nodes.iter().map(|n| (n.id.clone(), n.label.clone())).collect();
    assert_eq!(nodes, vec![("A".to_string(), "Start".to_string()), ("B".to_string(), "End".to_string())]);
}

#[test]
fn text_without_fence_has_no_blocks() {
    assert!(extract_mermaid_blocks("flowchart LR\nA --> B\n```\n").is_empty());
}
