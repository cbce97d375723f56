//! Mermaid diagrams in agent output: finding the fenced blocks, reading
//! their nodes, edges and title, and stepping through them in a widget.
use crate::env::EnvVars;
use crate::text::{
    append_str, chars_of, chars_eq, contains, contains_chars, decimal, decimal_chars, ends_with, ends_with_chars, find, find_chars,
    join, join_chars, lemma_find_from, lines, lines_chars, lower_str, slice_range, starts_with,
    starts_with_chars, str_lowercase, string_of, trim, trim_chars, trim_char, trim_char_chars,
    trim_end_char, trim_end_char_chars, trim_end_str, trim_end_str_chars, lemma_lines_occur,
    lemma_occurs_trans, lemma_starts_occurs_contains, lemma_trim_occurs,
};
use vstd::prelude::*;

verus! {

/// The kind of a Mermaid diagram.
#[derive(Debug, Clone, Copy, PartialEq, Eq, Structural)]
pub enum MermaidType {
    Flowchart,
    Sequence,
    Class,
    State,
    Unknown,
}

/// The display name of a diagram kind.
pub open spec fn kind_name(t: MermaidType) -> Seq<char> {
    match t {
        MermaidType::Flowchart => "Flowchart"@,
        MermaidType::Sequence => "Sequence"@,
        MermaidType::Class => "Class"@,
        MermaidType::State => "State"@,
        MermaidType::Unknown => "Diagram"@,
    }
}

/// The diagram kind that a lower-case declaration names.
pub open spec fn type_of_key(k: Seq<char>) -> MermaidType {
    if k == "flowchart"@ || k == "graph"@ || k == "flowchart lr"@ || k == "flowchart td"@ || k
        == "flowchart tb"@ || k == "flowchart rl"@ || k == "flowchart bt"@ {
        MermaidType::Flowchart
    } else if k == "sequencediagram"@ || k == "sequence"@ {
        MermaidType::Sequence
    } else if k == "classdiagram"@ || k == "class"@ {
        MermaidType::Class
    } else if k == "statediagram"@ || k == "state"@ || k == "statediagram-v2"@ {
        MermaidType::State
    } else {
        MermaidType::Unknown
    }
}

/// The diagram kind that a declaration line names: its trimmed, lower-cased
/// text looked up among the known declarations.
pub open spec fn type_of_line(s: Seq<char>) -> MermaidType {
    type_of_key(str_lowercase(trim(s)))
}

impl MermaidType {
    /// The display name of this kind.
    pub fn name(&self) -> (r: &'static str)
        ensures
            r@ == kind_name(*self),
    {
        match self {
            MermaidType::Flowchart => "Flowchart",
            MermaidType::Sequence => "Sequence",
            MermaidType::Class => "Class",
            MermaidType::State => "State",
            MermaidType::Unknown => "Diagram",
        }
    }

    /// The kind that a declaration line names.
    pub fn from_str(s: &str) -> (r: MermaidType)
        ensures
            r == type_of_line(s@),
    {
        let t = chars_of(s);
        type_of_chars(t.as_slice())
    }
}

fn is_key(k: &String, w: &str) -> (r: bool)
    ensures
        r == (k@ == w@),
{
    *k == w.to_owned()
}

fn type_of_chars(s: &[char]) -> (r: MermaidType)
    ensures
        r == type_of_line(s@),
{
    let t = trim_chars(s);
    let k = lower_str(string_of(t.as_slice()).as_str());
    if is_key(&k, "flowchart") || is_key(&k, "graph") || is_key(&k, "flowchart lr") || is_key(
        &k,
        "flowchart td",
    ) || is_key(&k, "flowchart tb") || is_key(&k, "flowchart rl") || is_key(&k, "flowchart bt") {
        MermaidType::Flowchart
    } else if is_key(&k, "sequencediagram") || is_key(&k, "sequence") {
        MermaidType::Sequence
    } else if is_key(&k, "classdiagram") || is_key(&k, "class") {
        MermaidType::Class
    } else if is_key(&k, "statediagram") || is_key(&k, "state") || is_key(&k, "statediagram-v2") {
        MermaidType::State
    } else {
        MermaidType::Unknown
    }
}

/// The shape of a node.
#[derive(Debug, Clone, Copy, PartialEq, Eq, Structural)]
pub enum NodeShape {
    Box,
    RoundedBox,
    Diamond,
    Circle,
    Hexagon,
    Parallelogram,
}

/// The style of an edge.
#[derive(Debug, Clone, Copy, PartialEq, Eq, Structural)]
pub enum EdgeStyle {
    Arrow,
    Line,
    Dotted,
    Thick,
}

/// A node: its identifier, its label and its shape.
#[derive(Debug, Clone)]
pub struct DiagramNode {
    pub id: String,
    pub label: String,
    pub shape: NodeShape,
}

/// The view of a node: identifier, label, shape.
pub type NodeView = (Seq<char>, Seq<char>, NodeShape);

/// The view of an edge: source, target, label, style.
pub type EdgeView = (Seq<char>, Seq<char>, Option<Seq<char>>, EdgeStyle);

impl View for DiagramNode {
    type V = NodeView;

    open spec fn view(&self) -> NodeView {
        (self.id@, self.label@, self.shape)
    }
}

/// An edge between two nodes, with an optional label.
#[derive(Debug, Clone)]
pub struct DiagramEdge {
    pub from: String,
    pub to: String,
    pub label: Option<String>,
    pub style: EdgeStyle,
}

/// The characters of an optional string.
pub open spec fn opt_view(o: Option<String>) -> Option<Seq<char>> {
    match o {
        Some(s) => Some(s@),
        None => None,
    }
}

impl View for DiagramEdge {
    type V = EdgeView;

    open spec fn view(&self) -> EdgeView {
        (self.from@, self.to@, opt_view(self.label), self.style)
    }
}

/// A parsed diagram: its kind, its source, nodes, edges and title.
#[derive(Debug, Clone)]
pub struct MermaidDiagram {
    pub diagram_type: MermaidType,
    pub source: String,
    pub nodes: Vec<DiagramNode>,
    pub edges: Vec<DiagramEdge>,
    pub title: Option<String>,
}

/// The view of a diagram: kind, source, nodes, edges, title.
pub type DiagramView = (MermaidType, Seq<char>, Seq<NodeView>, Seq<EdgeView>, Option<Seq<char>>);

/// The views of a sequence of nodes.
pub open spec fn node_views(s: Seq<DiagramNode>) -> Seq<NodeView> {
    s.map_values(|n: DiagramNode| n@)
}

/// The views of a sequence of edges.
pub open spec fn edge_views(s: Seq<DiagramEdge>) -> Seq<EdgeView> {
    s.map_values(|e: DiagramEdge| e@)
}

impl View for MermaidDiagram {
    type V = DiagramView;

    open spec fn view(&self) -> DiagramView {
        (
            self.diagram_type,
            self.source@,
            node_views(self.nodes@),
            edge_views(self.edges@),
            opt_view(self.title),
        )
    }
}

/// The view of an optional node.
pub open spec fn opt_node(o: Option<DiagramNode>) -> Option<NodeView> {
    match o {
        Some(n) => Some(n@),
        None => None,
    }
}

/// The view of an optional edge.
pub open spec fn opt_edge(o: Option<DiagramEdge>) -> Option<EdgeView> {
    match o {
        Some(e) => Some(e@),
        None => None,
    }
}

/// A node written `id<open>label<close>`: the identifier before the first
/// `open`, the label after it with trailing `close`s and surrounding quotes removed.
pub open spec fn bracket_node(t: Seq<char>, open: char, close: char, shape: NodeShape) -> Option<
    NodeView,
> {
    match find(t, seq![open]) {
        Some(i) => {
            let id = trim(t.take(i));
            let label = trim_char(trim_end_char(t.skip(i + 1), close), '"');
            if id.len() > 0 {
                Some((id, label, shape))
            } else {
                None
            }
        },
        None => None,
    }
}

/// A node written `id(label)`, unless the text after `(` ends in `))`.
pub open spec fn rounded_node(t: Seq<char>) -> Option<NodeView> {
    match find(t, seq!['(']) {
        Some(i) => {
            let id = trim(t.take(i));
            let rest = t.skip(i + 1);
            if ends_with(trim(rest), seq![')', ')']) {
                None
            } else {
                let label = trim_char(trim_end_char(rest, ')'), '"');
                if id.len() > 0 {
                    Some((id, label, NodeShape::RoundedBox))
                } else {
                    None
                }
            }
        },
        None => None,
    }
}

/// A node written `id((label))`.
pub open spec fn circle_node(t: Seq<char>) -> Option<NodeView> {
    match find(t, seq!['(', '(']) {
        Some(i) => {
            let id = trim(t.take(i));
            let label = trim_char(trim_end_str(t.skip(i + 2), seq![')', ')']), '"');
            if id.len() > 0 {
                Some((id, label, NodeShape::Circle))
            } else {
                None
            }
        },
        None => None,
    }
}

/// The arrow `-->`.
pub open spec fn arrow_sep() -> Seq<char> {
    seq!['-', '-', '>']
}

/// The line `---`.
pub open spec fn line_sep() -> Seq<char> {
    seq!['-', '-', '-']
}

/// The thick arrow `==>`.
pub open spec fn thick_sep() -> Seq<char> {
    seq!['=', '=', '>']
}

/// The dotted arrow `-.->`.
pub open spec fn dotted_sep() -> Seq<char> {
    seq!['-', '.', '-', '>']
}

/// The node that a line defines: a line with an edge in it defines none;
/// otherwise the first of the box, rounded, diamond and circle forms that fits.
pub open spec fn parse_node_spec(line: Seq<char>) -> Option<NodeView> {
    let t = trim(line);
    if contains(t, arrow_sep()) || contains(t, line_sep()) || contains(t, thick_sep()) {
        None
    } else if bracket_node(t, '[', ']', NodeShape::Box) is Some {
        bracket_node(t, '[', ']', NodeShape::Box)
    } else if rounded_node(t) is Some {
        rounded_node(t)
    } else if bracket_node(t, '{', '}', NodeShape::Diamond) is Some {
        bracket_node(t, '{', '}', NodeShape::Diamond)
    } else {
        circle_node(t)
    }
}

/// The style of the edge in a line and the separator it is split at.
pub open spec fn edge_kind(t: Seq<char>) -> Option<(EdgeStyle, Seq<char>)> {
    if contains(t, arrow_sep()) {
        Some((EdgeStyle::Arrow, arrow_sep()))
    } else if contains(t, thick_sep()) {
        Some((EdgeStyle::Thick, thick_sep()))
    } else if contains(t, seq!['-', '.']) && contains(t, seq!['-', '>']) {
        Some((EdgeStyle::Dotted, dotted_sep()))
    } else if contains(t, line_sep()) {
        Some((EdgeStyle::Line, line_sep()))
    } else {
        None
    }
}

/// The target and label of the text after an edge's separator: `|label| target`
/// gives both (an empty label is none); anything else is the target alone.
pub open spec fn edge_target(to_part: Seq<char>) -> (Seq<char>, Option<Seq<char>>) {
    if to_part.len() > 0 && to_part[0] == '|' {
        let inner = to_part.drop_first();
        match find(inner, seq!['|']) {
            Some(j) => {
                let label = trim(inner.take(j));
                (trim(inner.skip(j + 1)), if label.len() == 0 {
                    None
                } else {
                    Some(label)
                })
            },
            None => (to_part, None),
        }
    } else {
        (to_part, None)
    }
}

/// The two ends, label and style that an edge line holds: split at the first
/// separator of its style, both ends non-empty.  The ends are kept as written,
/// such as `A[Start]`, so that the nodes they define can be read from them.
pub open spec fn edge_ends_spec(line: Seq<char>) -> Option<EdgeView> {
    let t = trim(line);
    match edge_kind(t) {
        Some((style, sep)) => match find(t, sep) {
            Some(i) => {
                let from = trim(t.take(i));
                let (to, label) = edge_target(trim(t.skip(i + sep.len())));
                if from.len() == 0 || to.len() == 0 {
                    None
                } else {
                    Some((from, to, label, style))
                }
            },
            None => None,
        },
        None => None,
    }
}

/// The edge between the nodes that two written ends name.
pub open spec fn edge_of_ends(e: EdgeView) -> EdgeView {
    (node_id_spec(e.0), node_id_spec(e.1), e.2, e.3)
}

/// The edge that a line defines: from the identifier of its first end to
/// that of its second, with its label and style.
pub open spec fn parse_edge_spec(line: Seq<char>) -> Option<EdgeView> {
    match edge_ends_spec(line) {
        Some(e) => Some(edge_of_ends(e)),
        None => None,
    }
}

/// The identifier of an edge end such as `A[Label]`: the text before the
/// first `[`, else before the first `{`, else before the first `(`.
pub open spec fn node_id_spec(endpoint: Seq<char>) -> Seq<char> {
    let t = trim(endpoint);
    match find(t, seq!['[']) {
        Some(i) => t.take(i),
        None => match find(t, seq!['{']) {
            Some(i) => t.take(i),
            None => match find(t, seq!['(']) {
                Some(i) => t.take(i),
                None => t,
            },
        },
    }
}

/// Whether a node of the given identifier is in `nodes`.
pub open spec fn has_node(nodes: Seq<NodeView>, id: Seq<char>) -> bool {
    exists|i: int| 0 <= i < nodes.len() && #[trigger] nodes[i].0 == id
}

/// `nodes` with the node that an edge end defines, unless one of its
/// identifier is there already; a bare identifier makes a box labelled with the end.
pub open spec fn add_endpoint(nodes: Seq<NodeView>, endpoint: Seq<char>) -> Seq<NodeView> {
    let id = node_id_spec(endpoint);
    if has_node(nodes, id) {
        nodes
    } else {
        match parse_node_spec(endpoint) {
            Some(n) => nodes.push(n),
            None => if id.len() > 0 {
                nodes.push((id, endpoint, NodeShape::Box))
            } else {
                nodes
            },
        }
    }
}

/// What a diagram's source holds so far: nodes, edges, title.
pub type SourceAcc = (Seq<NodeView>, Seq<EdgeView>, Option<Seq<char>>);

/// The effect of one source line: blank lines and `%%` comments are skipped,
/// `title ...` sets the title, then a node definition, then an edge (whose
/// ends also become nodes).
pub open spec fn source_step(acc: SourceAcc, line: Seq<char>) -> SourceAcc {
    let t = trim(line);
    if t.len() == 0 || starts_with(t, seq!['%', '%']) {
        acc
    } else if starts_with(t, "title "@) {
        (acc.0, acc.1, Some(trim(t.skip("title "@.len() as int))))
    } else {
        match parse_node_spec(t) {
            Some(n) => (acc.0.push(n), acc.1, acc.2),
            None => match edge_ends_spec(t) {
                Some(e) => (add_endpoint(add_endpoint(acc.0, e.0), e.1), acc.1.push(edge_of_ends(e)), acc.2),
                None => acc,
            },
        }
    }
}

/// The result of the first `n` lines of `ls`.
pub open spec fn source_fold(ls: Seq<Seq<char>>, n: int) -> SourceAcc
    decreases n,
{
    if n <= 0 {
        (seq![], seq![], None)
    } else {
        source_step(source_fold(ls, n - 1), ls[n - 1])
    }
}

/// The diagram that a source text of the given kind describes.
pub open spec fn diagram_spec(source: Seq<char>, t: MermaidType) -> DiagramView {
    let ls = lines(source);
    let acc = source_fold(ls, ls.len() as int);
    (t, source, acc.0, acc.1, acc.2)
}

/// The node that a line defines, if any.
pub fn parse_node(line: &str) -> (r: Option<DiagramNode>)
    ensures
        opt_node(r) == parse_node_spec(line@),
{
    let v = chars_of(line);
    parse_node_chars(v.as_slice())
}

/// The edge that a line defines, if any.
pub fn parse_edge(line: &str) -> (r: Option<DiagramEdge>)
    ensures
        opt_edge(r) == parse_edge_spec(line@),
{
    let v = chars_of(line);
    parse_edge_chars(v.as_slice())
}

fn bracket_node_chars(t: &[char], open: char, close: char, shape: NodeShape) -> (r: Option<
    DiagramNode,
>)
    ensures
        opt_node(r) == bracket_node(t@, open, close, shape),
{
    let o = vec![open];
    assert(o@ =~= seq![open]);
    match find_chars(t, o.as_slice()) {
        Some(i) => {
            let n = t.len();
            proof {
                lemma_find_from(t@, o@, 0);
            }
            let head = slice_range(t, 0, i);
            let id = trim_chars(head.as_slice());
            let rest = slice_range(t, i + 1, t.len());
            let lt = trim_end_char_chars(rest.as_slice(), close);
            let label = trim_char_chars(lt.as_slice(), '"');
            proof {
                assert(head@ =~= t@.take(i as int));
                assert(rest@ =~= t@.skip(i + 1));
            }
            if id.len() > 0 {
                Some(
                    DiagramNode {
                        id: string_of(id.as_slice()),
                        label: string_of(label.as_slice()),
                        shape,
                    },
                )
            } else {
                None
            }
        },
        None => None,
    }
}

fn rounded_node_chars(t: &[char]) -> (r: Option<DiagramNode>)
    ensures
        opt_node(r) == rounded_node(t@),
{
    let o = vec!['('];
    assert(o@ =~= seq!['(']);
    match find_chars(t, o.as_slice()) {
        Some(i) => {
            let n = t.len();
            proof {
                lemma_find_from(t@, o@, 0);
            }
            let head = slice_range(t, 0, i);
            let id = trim_chars(head.as_slice());
            let rest = slice_range(t, i + 1, t.len());
            proof {
                assert(head@ =~= t@.take(i as int));
                assert(rest@ =~= t@.skip(i + 1));
            }
            let tr = trim_chars(rest.as_slice());
            let cc = vec![')', ')'];
            assert(cc@ =~= seq![')', ')']);
            if ends_with_chars(tr.as_slice(), cc.as_slice()) {
                None
            } else {
                let lt = trim_end_char_chars(rest.as_slice(), ')');
                let label = trim_char_chars(lt.as_slice(), '"');
                if id.len() > 0 {
                    Some(
                        DiagramNode {
                            id: string_of(id.as_slice()),
                            label: string_of(label.as_slice()),
                            shape: NodeShape::RoundedBox,
                        },
                    )
                } else {
                    None
                }
            }
        },
        None => None,
    }
}

fn circle_node_chars(t: &[char]) -> (r: Option<DiagramNode>)
    ensures
        opt_node(r) == circle_node(t@),
{
    let o = vec!['(', '('];
    assert(o@ =~= seq!['(', '(']);
    match find_chars(t, o.as_slice()) {
        Some(i) => {
            let n = t.len();
            proof {
                lemma_find_from(t@, o@, 0);
            }
            let head = slice_range(t, 0, i);
            let id = trim_chars(head.as_slice());
            let rest = slice_range(t, i + 2, t.len());
            proof {
                assert(head@ =~= t@.take(i as int));
                assert(rest@ =~= t@.skip(i + 2));
            }
            let cc = vec![')', ')'];
            assert(cc@ =~= seq![')', ')']);
            let lt = trim_end_str_chars(rest.as_slice(), cc.as_slice());
            let label = trim_char_chars(lt.as_slice(), '"');
            if id.len() > 0 {
                Some(
                    DiagramNode {
                        id: string_of(id.as_slice()),
                        label: string_of(label.as_slice()),
                        shape: NodeShape::Circle,
                    },
                )
            } else {
                None
            }
        },
        None => None,
    }
}

fn arrow_chars() -> (r: Vec<char>)
    ensures
        r@ == arrow_sep(),
{
    let r = vec!['-', '-', '>'];
    assert(r@ =~= arrow_sep());
    r
}

fn line_chars() -> (r: Vec<char>)
    ensures
        r@ == line_sep(),
{
    let r = vec!['-', '-', '-'];
    assert(r@ =~= line_sep());
    r
}

fn thick_chars() -> (r: Vec<char>)
    ensures
        r@ == thick_sep(),
{
    let r = vec!['=', '=', '>'];
    assert(r@ =~= thick_sep());
    r
}

fn dotted_chars() -> (r: Vec<char>)
    ensures
        r@ == dotted_sep(),
{
    let r = vec!['-', '.', '-', '>'];
    assert(r@ =~= dotted_sep());
    r
}

fn parse_node_chars(line: &[char]) -> (r: Option<DiagramNode>)
    ensures
        opt_node(r) == parse_node_spec(line@),
{
    let t = trim_chars(line);
    let a = arrow_chars();
    let l = line_chars();
    let th = thick_chars();
    if contains_chars(t.as_slice(), a.as_slice()) || contains_chars(t.as_slice(), l.as_slice())
        || contains_chars(t.as_slice(), th.as_slice()) {
        return None;
    }
    let b = bracket_node_chars(t.as_slice(), '[', ']', NodeShape::Box);
    if b.is_some() {
        return b;
    }
    let r = rounded_node_chars(t.as_slice());
    if r.is_some() {
        return r;
    }
    let d = bracket_node_chars(t.as_slice(), '{', '}', NodeShape::Diamond);
    if d.is_some() {
        return d;
    }
    circle_node_chars(t.as_slice())
}

fn edge_target_chars(to_part: &[char]) -> (r: (Vec<char>, Option<Vec<char>>))
    ensures
        r.0@ == edge_target(to_part@).0,
        match r.1 {
            Some(l) => edge_target(to_part@).1 == Some(l@),
            None => edge_target(to_part@).1 is None,
        },
{
    if to_part.len() > 0 && to_part[0] == '|' {
        let inner = slice_range(to_part, 1, to_part.len());
        assert(inner@ =~= to_part@.drop_first());
        let bar = vec!['|'];
        assert(bar@ =~= seq!['|']);
        match find_chars(inner.as_slice(), bar.as_slice()) {
            Some(j) => {
                proof {
                    lemma_find_from(inner@, bar@, 0);
                }
                let lh = slice_range(inner.as_slice(), 0, j);
                let label = trim_chars(lh.as_slice());
                let th = slice_range(inner.as_slice(), j + 1, inner.len());
                let target = trim_chars(th.as_slice());
                proof {
                    assert(lh@ =~= inner@.take(j as int));
                    assert(th@ =~= inner@.skip(j + 1));
                }
                if label.len() == 0 {
                    (target, None)
                } else {
                    (target, Some(label))
                }
            },
            None => (slice_range(to_part, 0, to_part.len()), None),
        }
    } else {
        (slice_range(to_part, 0, to_part.len()), None)
    }
}

fn edge_ends_chars(line: &[char]) -> (r: Option<(String, String, Option<String>, EdgeStyle)>)
    ensures
        match r {
            Some(e) => edge_ends_spec(line@) == Some((e.0@, e.1@, opt_view(e.2), e.3)),
            None => edge_ends_spec(line@) is None,
        },
{
    let t = trim_chars(line);
    let a = arrow_chars();
    let th = thick_chars();
    let l = line_chars();
    let dash_dot = vec!['-', '.'];
    let dash_gt = vec!['-', '>'];
    assert(dash_dot@ =~= seq!['-', '.']);
    assert(dash_gt@ =~= seq!['-', '>']);
    let (style, sep) = if contains_chars(t.as_slice(), a.as_slice()) {
        (EdgeStyle::Arrow, a)
    } else if contains_chars(t.as_slice(), th.as_slice()) {
        (EdgeStyle::Thick, th)
    } else if contains_chars(t.as_slice(), dash_dot.as_slice()) && contains_chars(
        t.as_slice(),
        dash_gt.as_slice(),
    ) {
        (EdgeStyle::Dotted, dotted_chars())
    } else if contains_chars(t.as_slice(), l.as_slice()) {
        (EdgeStyle::Line, l)
    } else {
        return None;
    };
    assert(edge_kind(t@) == Some((style, sep@)));
    match find_chars(t.as_slice(), sep.as_slice()) {
        Some(i) => {
            proof {
                lemma_find_from(t@, sep@, 0);
            }
            let head = slice_range(t.as_slice(), 0, i);
            let from = trim_chars(head.as_slice());
            let n = t.len();
            let tail = slice_range(t.as_slice(), i + sep.len(), n);
            let to_part = trim_chars(tail.as_slice());
            proof {
                assert(head@ =~= t@.take(i as int));
                assert(tail@ =~= t@.skip(i + sep@.len()));
            }
            let (to, label) = edge_target_chars(to_part.as_slice());
            if from.len() == 0 || to.len() == 0 {
                None
            } else {
                let lab = match label {
                    Some(lv) => Some(string_of(lv.as_slice())),
                    None => None,
                };
                Some((string_of(from.as_slice()), string_of(to.as_slice()), lab, style))
            }
        },
        None => None,
    }
}

fn parse_edge_chars(line: &[char]) -> (r: Option<DiagramEdge>)
    ensures
        opt_edge(r) == parse_edge_spec(line@),
{
    match edge_ends_chars(line) {
        Some(e) => Some(edge_from_ends(&e)),
        None => None,
    }
}

fn edge_from_ends(e: &(String, String, Option<String>, EdgeStyle)) -> (r: DiagramEdge)
    ensures
        r@ == edge_of_ends((e.0@, e.1@, opt_view(e.2), e.3)),
{
    let label = match &e.2 {
        Some(l) => Some(l.clone()),
        None => None,
    };
    DiagramEdge { from: extract_node_id(e.0.as_str()), to: extract_node_id(e.1.as_str()), label, style: e.3 }
}

/// Whether the text holds a fenced Mermaid block.
pub open spec fn has_mermaid_spec(text: Seq<char>) -> bool {
    contains(text, "```mermaid"@) || contains(text, "``` mermaid"@)
}

/// Whether the text holds a fenced Mermaid block.
pub fn has_mermaid_diagrams(text: &str) -> (r: bool)
    ensures
        r == has_mermaid_spec(text@),
        !r ==> blocks_spec(text@).len() == 0,
{
    let t = chars_of(text);
    let a = chars_of("```mermaid");
    let b = chars_of("``` mermaid");
    let r = contains_chars(t.as_slice(), a.as_slice()) || contains_chars(t.as_slice(), b.as_slice());
    proof {
        if !r {
            lemma_no_fence_text(text@);
        }
    }
    r
}

fn node_id_chars(endpoint: &[char]) -> (r: Vec<char>)
    ensures
        r@ == node_id_spec(endpoint@),
{
    let t = trim_chars(endpoint);
    let n = t.len();
    let a = vec!['['];
    let b = vec!['{'];
    let c = vec!['('];
    assert(a@ =~= seq!['[']);
    assert(b@ =~= seq!['{']);
    assert(c@ =~= seq!['(']);
    let cut = match find_chars(t.as_slice(), a.as_slice()) {
        Some(i) => i,
        None => match find_chars(t.as_slice(), b.as_slice()) {
            Some(i) => i,
            None => match find_chars(t.as_slice(), c.as_slice()) {
                Some(i) => i,
                None => n,
            },
        },
    };
    proof {
        lemma_find_from(t@, a@, 0);
        lemma_find_from(t@, b@, 0);
        lemma_find_from(t@, c@, 0);
        assert(t@.take(n as int) =~= t@);
    }
    let r = slice_range(t.as_slice(), 0, cut);
    assert(r@ =~= t@.take(cut as int));
    r
}

/// The identifier of an edge end such as `A[Label]`.
pub fn extract_node_id(endpoint: &str) -> (r: String)
    ensures
        r@ == node_id_spec(endpoint@),
{
    let v = chars_of(endpoint);
    let id = node_id_chars(v.as_slice());
    string_of(id.as_slice())
}

fn add_endpoint_exec(nodes: &mut Vec<DiagramNode>, endpoint: &String)
    ensures
        node_views(final(nodes)@) == add_endpoint(node_views(old(nodes)@), endpoint@),
{
    let ev = chars_of(endpoint.as_str());
    let idv = node_id_chars(ev.as_slice());
    let id = string_of(idv.as_slice());
    let ghost vs = node_views(nodes@);
    let mut i: usize = 0;
    while i < nodes.len()
        invariant
            vs == node_views(nodes@),
            i <= nodes@.len(),
            id@ == node_id_spec(endpoint@),
            forall|j: int| 0 <= j < i ==> #[trigger] vs[j].0 != id@,
        decreases nodes@.len() - i,
    {
        if nodes[i].id == id {
            proof {
                assert(vs[i as int].0 == id@);
            }
            return;
        }
        i = i + 1;
    }
    match parse_node(endpoint.as_str()) {
        Some(n) => {
            nodes.push(n);
            assert(node_views(nodes@) =~= vs.push(n@));
        },
        None => {
            if idv.len() > 0 {
                let n = DiagramNode { id, label: endpoint.clone(), shape: NodeShape::Box };
                nodes.push(n);
                assert(node_views(nodes@) =~= vs.push(n@));
            }
        },
    }
}

/// Adds the nodes that an edge's two ends define to `nodes`.
pub fn extract_nodes_from_edge(edge: &DiagramEdge, nodes: &mut Vec<DiagramNode>)
    ensures
        node_views(final(nodes)@) == add_endpoint(
            add_endpoint(node_views(old(nodes)@), edge.from@),
            edge.to@,
        ),
{
    add_endpoint_exec(nodes, &edge.from);
    add_endpoint_exec(nodes, &edge.to);
}

/// Reads a diagram of the given kind from its source text.
pub fn parse_mermaid_source(source: &str, diagram_type: MermaidType) -> (r: MermaidDiagram)
    ensures
        r@ == diagram_spec(source@, diagram_type),
{
    let sv = chars_of(source);
    let ls = lines_chars(sv.as_slice());
    let ghost gl = lines(source@);
    let pct = vec!['%', '%'];
    assert(pct@ =~= seq!['%', '%']);
    let tp = chars_of("title ");
    let mut nodes: Vec<DiagramNode> = Vec::new();
    let mut edges: Vec<DiagramEdge> = Vec::new();
    let mut title: Option<String> = None;
    let mut i: usize = 0;
    proof {
        assert(node_views(nodes@) =~= seq![]);
        assert(edge_views(edges@) =~= seq![]);
    }
    while i < ls.len()
        invariant
            ls@.len() == gl.len(),
            forall|k: int| 0 <= k < ls@.len() ==> #[trigger] ls@[k]@ == gl[k],
            pct@ == seq!['%', '%'],
            tp@ == "title "@,
            i <= ls@.len(),
            (node_views(nodes@), edge_views(edges@), opt_view(title)) == source_fold(gl, i as int),
        decreases ls@.len() - i,
    {
        let t = trim_chars(ls[i].as_slice());
        assert(t@ == trim(gl[i as int]));
        if t.len() == 0 || starts_with_chars(t.as_slice(), pct.as_slice()) {
        } else if starts_with_chars(t.as_slice(), tp.as_slice()) {
            let n = t.len();
            let rest = slice_range(t.as_slice(), tp.len(), n);
            assert(rest@ =~= t@.skip("title "@.len() as int));
            let tt = trim_chars(rest.as_slice());
            title = Some(string_of(tt.as_slice()));
        } else {
            match parse_node_chars(t.as_slice()) {
                Some(nd) => {
                    let ghost before = node_views(nodes@);
                    nodes.push(nd);
                    assert(node_views(nodes@) =~= before.push(nd@));
                },
                None => match edge_ends_chars(t.as_slice()) {
                    Some(ends) => {
                        add_endpoint_exec(&mut nodes, &ends.0);
                        add_endpoint_exec(&mut nodes, &ends.1);
                        let e = edge_from_ends(&ends);
                        let ghost before = edge_views(edges@);
                        edges.push(e);
                        assert(edge_views(edges@) =~= before.push(e@));
                    },
                    None => {},
                },
            }
        }
        i = i + 1;
    }
    MermaidDiagram { diagram_type, source: source.to_owned(), nodes, edges, title }
}

/// The scanner's state over the lines of a text: inside a block or not, the
/// block's lines so far, its kind, and the diagrams found.
pub type BlockState = (bool, Seq<Seq<char>>, MermaidType, Seq<DiagramView>);

/// The effect of one line on the scanner.  A line that starts with
/// ```` ```mermaid ```` or ```` ``` mermaid ```` opens a block whose kind the
/// rest of the line names;
/// ```` ``` ```` closes an open block, which yields a diagram unless its text is
/// blank; inside a block, while the kind is unknown, a line naming a kind sets
/// it and is not kept; every other line inside a block is kept.
pub open spec fn block_step(st: BlockState, line: Seq<char>) -> BlockState {
    let t = trim(line);
    if starts_with(t, "```mermaid"@) {
        (true, seq![], type_of_line(t.skip("```mermaid"@.len() as int)), st.3)
    } else if starts_with(t, "``` mermaid"@) {
        (true, seq![], type_of_line(t.skip("``` mermaid"@.len() as int)), st.3)
    } else if st.0 && t == "```"@ {
        let source = join(st.1, seq!['\n']);
        (
            false,
            seq![],
            MermaidType::Unknown,
            if trim(source).len() > 0 {
                st.3.push(diagram_spec(source, st.2))
            } else {
                st.3
            },
        )
    } else if st.0 {
        if st.2 == MermaidType::Unknown && type_of_line(t) != MermaidType::Unknown {
            (true, st.1, type_of_line(t), st.3)
        } else {
            (true, st.1.push(line), st.2, st.3)
        }
    } else {
        st
    }
}

/// The scanner's state after the first `n` lines of `ls`.
pub open spec fn blocks_fold(ls: Seq<Seq<char>>, n: int) -> BlockState
    decreases n,
{
    if n <= 0 {
        (false, seq![], MermaidType::Unknown, seq![])
    } else {
        block_step(blocks_fold(ls, n - 1), ls[n - 1])
    }
}

/// Whether no line of `ls`, trimmed, opens a Mermaid fence.
pub open spec fn no_fence_line(ls: Seq<Seq<char>>) -> bool {
    forall|i: int| 0 <= i < ls.len() ==> !starts_with(#[trigger] trim(ls[i]), "```mermaid"@)
        && !starts_with(trim(ls[i]), "``` mermaid"@)
}

proof fn lemma_no_fence_fold(ls: Seq<Seq<char>>, n: int)
    requires
        no_fence_line(ls),
        0 <= n <= ls.len(),
    ensures
        blocks_fold(ls, n) == (false, Seq::<Seq<char>>::empty(), MermaidType::Unknown, Seq::<DiagramView>::empty()),
    decreases n,
{
    if n > 0 {
        lemma_no_fence_fold(ls, n - 1);
        assert(!starts_with(trim(ls[n - 1]), "```mermaid"@));
    }
}

/// A text none of whose lines opens a fence holds no diagram.
pub proof fn lemma_no_fence_no_blocks(text: Seq<char>)
    requires
        no_fence_line(lines(text)),
    ensures
        blocks_spec(text) == Seq::<DiagramView>::empty(),
{
    lemma_no_fence_fold(lines(text), lines(text).len() as int);
}

/// A text that contains no Mermaid fence holds no diagram.
pub proof fn lemma_no_fence_text(text: Seq<char>)
    requires
        !has_mermaid_spec(text),
    ensures
        blocks_spec(text) == Seq::<DiagramView>::empty(),
{
    let ls = lines(text);
    lemma_lines_occur(text);
    assert forall|i: int| 0 <= i < ls.len() implies !starts_with(#[trigger] trim(ls[i]), "```mermaid"@)
        && !starts_with(trim(ls[i]), "``` mermaid"@) by {
        lemma_trim_occurs(ls[i]);
        lemma_occurs_trans(trim(ls[i]), ls[i], text);
        if starts_with(trim(ls[i]), "```mermaid"@) {
            lemma_starts_occurs_contains(trim(ls[i]), "```mermaid"@, text);
        }
        if starts_with(trim(ls[i]), "``` mermaid"@) {
            lemma_starts_occurs_contains(trim(ls[i]), "``` mermaid"@, text);
        }
    }
    lemma_no_fence_no_blocks(text);
}

/// The diagrams of a text: those of its closed blocks, then that of a block
/// left open at the end if it has any line.
pub open spec fn blocks_spec(text: Seq<char>) -> Seq<DiagramView> {
    let ls = lines(text);
    let st = blocks_fold(ls, ls.len() as int);
    if st.0 && st.1.len() > 0 {
        st.3.push(diagram_spec(join(st.1, seq!['\n']), st.2))
    } else {
        st.3
    }
}

/// The views of a sequence of diagrams.
pub open spec fn diagram_views(s: Seq<MermaidDiagram>) -> Seq<DiagramView> {
    s.map_values(|d: MermaidDiagram| d@)
}

/// The views of a sequence of character vectors.
pub open spec fn char_views(s: Seq<Vec<char>>) -> Seq<Seq<char>> {
    s.map_values(|v: Vec<char>| v@)
}

/// The Mermaid diagrams in a text, in order.
pub fn extract_mermaid_blocks(text: &str) -> (r: Vec<MermaidDiagram>)
    ensures
        diagram_views(r@) == blocks_spec(text@),
{
    let tv = chars_of(text);
    let ls = lines_chars(tv.as_slice());
    let ghost gl = lines(text@);
    let fence = chars_of("```mermaid");
    let fence_sp = chars_of("``` mermaid");
    let close = chars_of("```");
    let nl = vec!['\n'];
    assert(nl@ =~= seq!['\n']);
    let mut diagrams: Vec<MermaidDiagram> = Vec::new();
    let mut in_block = false;
    let mut block_lines: Vec<Vec<char>> = Vec::new();
    let mut dtype = MermaidType::Unknown;
    let mut i: usize = 0;
    proof {
        assert(diagram_views(diagrams@) =~= seq![]);
        assert(char_views(block_lines@) =~= seq![]);
    }
    while i < ls.len()
        invariant
            ls@.len() == gl.len(),
            forall|k: int| 0 <= k < ls@.len() ==> #[trigger] ls@[k]@ == gl[k],
            fence@ == "```mermaid"@,
            fence_sp@ == "``` mermaid"@,
            close@ == "```"@,
            nl@ == seq!['\n'],
            i <= ls@.len(),
            (in_block, char_views(block_lines@), dtype, diagram_views(diagrams@)) == blocks_fold(
                gl,
                i as int,
            ),
        decreases ls@.len() - i,
    {
        let line = &ls[i];
        assert(line@ == gl[i as int]);
        let t = trim_chars(line.as_slice());
        let opens = starts_with_chars(t.as_slice(), fence.as_slice());
        let opens_sp = !opens && starts_with_chars(t.as_slice(), fence_sp.as_slice());
        if opens || opens_sp {
            let n = t.len();
            let skip = if opens {
                fence.len()
            } else {
                fence_sp.len()
            };
            let rest = slice_range(t.as_slice(), skip, n);
            assert(opens ==> rest@ =~= t@.skip("```mermaid"@.len() as int));
            assert(opens_sp ==> rest@ =~= t@.skip("``` mermaid"@.len() as int));
            in_block = true;
            block_lines = Vec::new();
            dtype = type_of_chars(rest.as_slice());
            assert(char_views(block_lines@) =~= seq![]);
        } else if in_block && chars_eq(t.as_slice(), close.as_slice()) {
            let src = join_chars(&block_lines, nl.as_slice());
            assert(char_views(block_lines@) == block_lines@.map_values(|v: Vec<char>| v@));
            let tt = trim_chars(src.as_slice());
            if tt.len() > 0 {
                let ss = string_of(src.as_slice());
                let d = parse_mermaid_source(ss.as_str(), dtype);
                let ghost before = diagram_views(diagrams@);
                diagrams.push(d);
                assert(diagram_views(diagrams@) =~= before.push(d@));
            }
            in_block = false;
            block_lines = Vec::new();
            dtype = MermaidType::Unknown;
            assert(char_views(block_lines@) =~= seq![]);
        } else if in_block {
            let d2 = if dtype == MermaidType::Unknown {
                type_of_chars(t.as_slice())
            } else {
                MermaidType::Unknown
            };
            if dtype == MermaidType::Unknown && d2 != MermaidType::Unknown {
                dtype = d2;
            } else {
                let ghost before = char_views(block_lines@);
                let copy = slice_range(line.as_slice(), 0, line.len());
                assert(copy@ =~= line@);
                block_lines.push(copy);
                assert(char_views(block_lines@) =~= before.push(line@));
            }
        }
        i = i + 1;
    }
    if in_block && block_lines.len() > 0 {
        let src = join_chars(&block_lines, nl.as_slice());
        assert(char_views(block_lines@) == block_lines@.map_values(|v: Vec<char>| v@));
        let ss = string_of(src.as_slice());
        let d = parse_mermaid_source(ss.as_str(), dtype);
        let ghost before = diagram_views(diagrams@);
        diagrams.push(d);
        assert(diagram_views(diagrams@) =~= before.push(d@));
    }
    diagrams
}

/// How a diagram is drawn.
#[derive(Debug, Clone, Copy, PartialEq, Eq, Structural)]
pub enum RenderBackend {
    Ascii,
    Kitty,
    Auto,
}

/// Whether the terminal speaks the Kitty graphics protocol: `KITTY_WINDOW_ID`
/// is set, or `TERM` mentions `kitty`.
pub fn supports_kitty_protocol(env: &EnvVars) -> (r: bool)
    ensures
        r == (env.spec_get("KITTY_WINDOW_ID"@) is Some || (env.spec_get("TERM"@) matches Some(
            t,
        ) && contains(t, "kitty"@))),
{
    if env.get("KITTY_WINDOW_ID").is_some() {
        return true;
    }
    match env.get("TERM") {
        Some(t) => {
            let tv = chars_of(t.as_str());
            let k = chars_of("kitty");
            contains_chars(tv.as_slice(), k.as_slice())
        },
        None => false,
    }
}

/// Image data for the Kitty protocol; no image renderer is available, so
/// there is never any and drawing falls back to text.
pub fn render_diagram_kitty(diagram: &MermaidDiagram) -> (r: Option<String>)
    ensures
        r is None,
{
    None
}

/// A widget that shows one diagram at a time.
#[derive(Debug)]
pub struct MermaidWidget {
    pub diagrams: Vec<MermaidDiagram>,
    pub active_index: usize,
}

impl MermaidWidget {
    /// A widget showing the first of the diagrams.
    pub fn new(diagrams: Vec<MermaidDiagram>) -> (r: MermaidWidget)
        ensures
            r.diagrams@ == diagrams@,
            r.active_index == 0,
    {
        MermaidWidget { diagrams, active_index: 0 }
    }

    /// Whether there is no diagram.
    pub fn is_empty(&self) -> (r: bool)
        ensures
            r == (self.diagrams@.len() == 0),
    {
        self.diagrams.len() == 0
    }

    /// The number of diagrams.
    pub fn diagram_count(&self) -> (r: usize)
        ensures
            r == self.diagrams@.len(),
    {
        self.diagrams.len()
    }

    /// Shows the next diagram, after the last the first.
    pub fn next_diagram(&mut self)
        requires
            old(self).active_index < usize::MAX,
        ensures
            final(self).diagrams@ == old(self).diagrams@,
            final(self).active_index == if old(self).diagrams@.len() == 0 {
                old(self).active_index as int
            } else {
                (old(self).active_index + 1) % (old(self).diagrams@.len() as int)
            },
    {
        if self.diagrams.len() > 0 {
            self.active_index = (self.active_index + 1) % self.diagrams.len();
        }
    }

    /// Shows the previous diagram, before the first the last.
    pub fn prev_diagram(&mut self)
        ensures
            final(self).diagrams@ == old(self).diagrams@,
            final(self).active_index == if old(self).diagrams@.len() == 0 {
                old(self).active_index as int
            } else if old(self).active_index == 0 {
                old(self).diagrams@.len() - 1
            } else {
                old(self).active_index - 1
            },
    {
        if self.diagrams.len() > 0 {
            if self.active_index == 0 {
                self.active_index = self.diagrams.len() - 1;
            } else {
                self.active_index = self.active_index - 1;
            }
        }
    }
}

/// The colour a piece of rendered text is shown in.
#[derive(Debug, Clone, Copy, PartialEq, Eq, Structural)]
pub enum Tone {
    Cyan,
    DarkGray,
    Yellow,
    Green,
    Red,
    Plain,
}

/// A rendered line: pieces of text, each with its colour.
#[derive(Debug, Clone)]
pub struct ToneLine {
    pub pieces: Vec<(String, Tone)>,
}

/// The view of a rendered line.
pub open spec fn tone_line_view(l: ToneLine) -> Seq<(Seq<char>, Tone)> {
    l.pieces@.map_values(|p: (String, Tone)| (p.0@, p.1))
}

/// The mark drawn before a node of each shape.
pub open spec fn shape_mark(s: NodeShape) -> Seq<char> {
    match s {
        NodeShape::Box => "┌"@,
        NodeShape::RoundedBox => "╭"@,
        NodeShape::Diamond => "◇"@,
        NodeShape::Circle => "○"@,
        NodeShape::Hexagon => "⬡"@,
        NodeShape::Parallelogram => "▱"@,
    }
}

/// The arrow drawn for an edge of each style.
pub open spec fn edge_arrow(s: EdgeStyle) -> Seq<char> {
    match s {
        EdgeStyle::Arrow => "──▶"@,
        EdgeStyle::Line => "────"@,
        EdgeStyle::Dotted => "···▶"@,
        EdgeStyle::Thick => "══▶"@,
    }
}

/// The line drawn for a node.
pub open spec fn node_line(n: NodeView) -> Seq<(Seq<char>, Tone)> {
    seq![("  "@ + shape_mark(n.2) + " ["@ + n.0 + "] "@, Tone::Yellow), (n.1, Tone::Plain)]
}

/// The line drawn for an edge.
pub open spec fn edge_line(e: EdgeView) -> Seq<(Seq<char>, Tone)> {
    let label = match e.2 {
        Some(l) => " |"@ + l + "| "@,
        None => seq![],
    };
    seq![("  "@ + e.0 + " "@ + edge_arrow(e.3) + " "@ + label + " "@ + e.1, Tone::Green)]
}

/// The text drawing of a diagram: a header with its title (or its kind's
/// name), a note when nothing was parsed, a line per node and per edge, and
/// a footer with the counts.
pub open spec fn ascii_spec(d: DiagramView) -> Seq<Seq<(Seq<char>, Tone)>> {
    let title = match d.4 {
        Some(t) => t,
        None => kind_name(d.0),
    };
    let header = seq![seq![("┌─ Mermaid: "@ + title + " ─────────────────────────────────┐"@, Tone::Cyan)]];
    let note = if d.2.len() == 0 && d.3.len() == 0 {
        seq![seq![("│ (No structured nodes parsed — showing raw source)  │"@, Tone::DarkGray)]]
    } else {
        seq![]
    };
    let footer = seq![seq![("└─ "@ + decimal(d.2.len()) + " nodes, "@ + decimal(d.3.len()) + " edges ─────────────────────────────────┘"@, Tone::Cyan)]];
    header + note + d.2.map_values(|n: NodeView| node_line(n)) + d.3.map_values(|e: EdgeView| edge_line(e)) + footer
}

fn shape_mark_str(s: NodeShape) -> (r: &'static str)
    ensures
        r@ == shape_mark(s),
{
    match s {
        NodeShape::Box => "┌",
        NodeShape::RoundedBox => "╭",
        NodeShape::Diamond => "◇",
        NodeShape::Circle => "○",
        NodeShape::Hexagon => "⬡",
        NodeShape::Parallelogram => "▱",
    }
}

fn edge_arrow_str(s: EdgeStyle) -> (r: &'static str)
    ensures
        r@ == edge_arrow(s),
{
    match s {
        EdgeStyle::Arrow => "──▶",
        EdgeStyle::Line => "────",
        EdgeStyle::Dotted => "···▶",
        EdgeStyle::Thick => "══▶",
    }
}

/// The diagram drawn for a backend: every backend draws it as text, the
/// Kitty protocol having no image renderer.
pub fn render_diagram(diagram: &MermaidDiagram, backend: RenderBackend) -> (r: Vec<ToneLine>)
    ensures
        r@.map_values(|l: ToneLine| tone_line_view(l)) == ascii_spec(diagram@),
{
    match backend {
        RenderBackend::Kitty => render_diagram_ascii(diagram),
        RenderBackend::Ascii | RenderBackend::Auto => render_diagram_ascii(diagram),
    }
}

/// The text drawing of a diagram, line by line, with colours.
pub fn render_diagram_ascii(diagram: &MermaidDiagram) -> (r: Vec<ToneLine>)
    ensures
        r@.map_values(|l: ToneLine| tone_line_view(l)) == ascii_spec(diagram@),
{
    let ghost d = diagram@;
    let mut r: Vec<ToneLine> = Vec::new();
    let mut head = "┌─ Mermaid: ".to_owned();
    match &diagram.title {
        Some(t) => append_str(&mut head, t.as_str()),
        None => append_str(&mut head, diagram.diagram_type.name()),
    }
    append_str(&mut head, " ─────────────────────────────────┐");
    let ghost title = match d.4 {
        Some(t) => t,
        None => kind_name(d.0),
    };
    let ghost header = seq![seq![("┌─ Mermaid: "@ + title + " ─────────────────────────────────┐"@, Tone::Cyan)]];
    let first = ToneLine { pieces: vec![(head, Tone::Cyan)] };
    assert(tone_line_view(first) =~= header[0]);
    r.push(first);
    assert(r@.map_values(|l: ToneLine| tone_line_view(l)) =~= header);
    let ghost note = if d.2.len() == 0 && d.3.len() == 0 {
        seq![seq![("│ (No structured nodes parsed — showing raw source)  │"@, Tone::DarkGray)]]
    } else {
        seq![]
    };
    if diagram.nodes.len() == 0 && diagram.edges.len() == 0 {
        let nl = ToneLine { pieces: vec![("│ (No structured nodes parsed — showing raw source)  │".to_owned(), Tone::DarkGray)] };
        assert(tone_line_view(nl) =~= note[0]);
        r.push(nl);
    }
    assert(r@.map_values(|l: ToneLine| tone_line_view(l)) =~= header + note);
    let ghost before_nodes = r@.map_values(|l: ToneLine| tone_line_view(l));
    let mut i: usize = 0;
    while i < diagram.nodes.len()
        invariant
            i <= diagram.nodes@.len(),
            d == diagram@,
            r@.map_values(|l: ToneLine| tone_line_view(l)) == before_nodes + node_views(diagram.nodes@).take(i as int).map_values(|n: NodeView| node_line(n)),
        decreases diagram.nodes@.len() - i,
    {
        let n = &diagram.nodes[i];
        let mut a = "  ".to_owned();
        append_str(&mut a, shape_mark_str(n.shape));
        append_str(&mut a, " [");
        append_str(&mut a, n.id.as_str());
        append_str(&mut a, "] ");
        let ghost prev = r@.map_values(|l: ToneLine| tone_line_view(l));
        let line = ToneLine { pieces: vec![(a, Tone::Yellow), (n.label.clone(), Tone::Plain)] };
        assert(tone_line_view(line) =~= node_line(n@));
        r.push(line);
        assert(r@.map_values(|l: ToneLine| tone_line_view(l)) =~= prev.push(node_line(n@)));
        assert(node_views(diagram.nodes@).take(i + 1).map_values(|n: NodeView| node_line(n)) =~= node_views(diagram.nodes@).take(i as int).map_values(|n: NodeView| node_line(n)).push(node_line(n@)));
        i = i + 1;
    }
    assert(node_views(diagram.nodes@).take(diagram.nodes@.len() as int) =~= node_views(diagram.nodes@));
    let ghost before_edges = r@.map_values(|l: ToneLine| tone_line_view(l));
    let mut j: usize = 0;
    while j < diagram.edges.len()
        invariant
            j <= diagram.edges@.len(),
            d == diagram@,
            r@.map_values(|l: ToneLine| tone_line_view(l)) == before_edges + edge_views(diagram.edges@).take(j as int).map_values(|e: EdgeView| edge_line(e)),
        decreases diagram.edges@.len() - j,
    {
        let e = &diagram.edges[j];
        let mut a = "  ".to_owned();
        append_str(&mut a, e.from.as_str());
        append_str(&mut a, " ");
        append_str(&mut a, edge_arrow_str(e.style));
        append_str(&mut a, " ");
        let ghost pre = a@;
        let ghost lab = match e@.2 {
            Some(l) => " |"@ + l + "| "@,
            None => Seq::<char>::empty(),
        };
        match &e.label {
            Some(l) => {
                append_str(&mut a, " |");
                append_str(&mut a, l.as_str());
                append_str(&mut a, "| ");
            },
            None => {},
        }
        assert(a@ =~= pre + lab);
        append_str(&mut a, " ");
        append_str(&mut a, e.to.as_str());
        assert(a@ =~= "  "@ + e.from@ + " "@ + edge_arrow(e.style) + " "@ + lab + " "@ + e.to@);
        let ghost prev = r@.map_values(|l: ToneLine| tone_line_view(l));
        let line = ToneLine { pieces: vec![(a, Tone::Green)] };
        assert(tone_line_view(line) =~= edge_line(e@));
        r.push(line);
        assert(r@.map_values(|l: ToneLine| tone_line_view(l)) =~= prev.push(edge_line(e@)));
        assert(edge_views(diagram.edges@).take(j + 1).map_values(|e: EdgeView| edge_line(e)) =~= edge_views(diagram.edges@).take(j as int).map_values(|e: EdgeView| edge_line(e)).push(edge_line(e@)));
        j = j + 1;
    }
    assert(edge_views(diagram.edges@).take(diagram.edges@.len() as int) =~= edge_views(diagram.edges@));
    let mut foot = "└─ ".to_owned();
    append_str(&mut foot, string_of(decimal_chars(diagram.nodes.len()).as_slice()).as_str());
    append_str(&mut foot, " nodes, ");
    append_str(&mut foot, string_of(decimal_chars(diagram.edges.len()).as_slice()).as_str());
    append_str(&mut foot, " edges ─────────────────────────────────┘");
    let ghost prev = r@.map_values(|l: ToneLine| tone_line_view(l));
    let ghost footer = seq![seq![("└─ "@ + decimal(d.2.len()) + " nodes, "@ + decimal(d.3.len()) + " edges ─────────────────────────────────┘"@, Tone::Cyan)]];
    let line = ToneLine { pieces: vec![(foot, Tone::Cyan)] };
    assert(tone_line_view(line) =~= footer[0]);
    r.push(line);
    assert(r@.map_values(|l: ToneLine| tone_line_view(l)) =~= prev.push(tone_line_view(line)));
    assert(r@.map_values(|l: ToneLine| tone_line_view(l)) =~= ascii_spec(diagram@));
    r
}

/// An edge end whose node is already listed adds nothing: the nodes stay as
/// they were.  An end whose node is not listed adds at most one node, after
/// the others.
pub proof fn lemma_known_endpoint_unchanged(nodes: Seq<NodeView>, endpoint: Seq<char>)
    ensures
        has_node(nodes, node_id_spec(endpoint)) ==> add_endpoint(nodes, endpoint) == nodes,
        add_endpoint(nodes, endpoint).len() <= nodes.len() + 1,
        add_endpoint(nodes, endpoint).take(nodes.len() as int) == nodes,
{
    let r = add_endpoint(nodes, endpoint);
    if r.len() == nodes.len() + 1 {
        assert(r.take(nodes.len() as int) =~= nodes);
    } else {
        assert(r.take(nodes.len() as int) =~= nodes);
    }
}

/// Listing the ends of an edge twice lists them once: once both ends of an
/// edge are among the nodes, adding them again changes nothing.
pub proof fn lemma_endpoints_listed_once(nodes: Seq<NodeView>, from: Seq<char>, to: Seq<char>)
    requires
        has_node(nodes, node_id_spec(from)),
        has_node(nodes, node_id_spec(to)),
    ensures
        add_endpoint(add_endpoint(nodes, from), to) == nodes,
{
    lemma_known_endpoint_unchanged(nodes, from);
    lemma_known_endpoint_unchanged(nodes, to);
}

/// An edge's style is that of the strongest arrow its line holds: `-->`
/// makes an arrow, else `==>` a thick one, else `-.` with `->` a dotted one,
/// else `---` a plain line; a line with none of them is no edge.
pub proof fn lemma_edge_style(line: Seq<char>)
    ensures
        parse_edge_spec(line) matches Some(e) ==> {
            let t = trim(line);
            &&& contains(t, "-->"@) ==> e.3 == EdgeStyle::Arrow
            &&& !contains(t, "-->"@) && contains(t, "==>"@) ==> e.3 == EdgeStyle::Thick
            &&& !contains(t, "-->"@) && !contains(t, "==>"@) && contains(t, "-."@) && contains(t, "->"@) ==> e.3 == EdgeStyle::Dotted
            &&& !contains(t, "-->"@) && !contains(t, "==>"@) && !(contains(t, "-."@) && contains(t, "->"@)) ==> e.3 == EdgeStyle::Line
        },
        !contains(trim(line), "-->"@) && !contains(trim(line), "==>"@) && !(contains(trim(line), "-."@) && contains(trim(line), "->"@))
            && !contains(trim(line), "---"@) ==> parse_edge_spec(line) is None,
{
    reveal_strlit("-->");
    reveal_strlit("==>");
    reveal_strlit("-.");
    reveal_strlit("->");
    reveal_strlit("---");
    assert(arrow_sep() =~= "-->"@);
    assert(thick_sep() =~= "==>"@);
    assert(line_sep() =~= "---"@);
    assert(seq!['-', '.'] =~= "-."@);
    assert(seq!['-', '>'] =~= "->"@);
}

} // verus!
